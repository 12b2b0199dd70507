//! The pacemaker: round progression and round timeouts.
use vstd::prelude::*;

use std::time::Duration;

use crate::error::Error;
use crate::text::{decimal, push_decimal};

verus! {

/// Reason for starting a new round.
#[derive(Clone, Copy, Debug, PartialEq, Eq, Structural)]
pub enum NewRoundReason {
    /// Started because we received a quorum certificate for the previous round
    QuorumCertificate,
    /// Started because the previous round timed out
    Timeout { rounds_since_ordered: usize },
}

/// The text of a new-round reason.
pub open spec fn new_round_reason_text(r: NewRoundReason) -> Seq<char> {
    match r {
        NewRoundReason::QuorumCertificate => "QCReady"@,
        NewRoundReason::Timeout { rounds_since_ordered } =>
            "Timeout(rounds_since_ordered="@ + decimal(rounds_since_ordered as nat) + ")"@,
    }
}

impl NewRoundReason {
    /// A human-readable description: `QCReady` or `Timeout(rounds_since_ordered=N)`.
    pub fn to_string(&self) -> (s: String)
        ensures
            s@ == new_round_reason_text(*self),
    {
        match self {
            NewRoundReason::QuorumCertificate => String::from_str("QCReady"),
            NewRoundReason::Timeout { rounds_since_ordered } => {
                let mut s = String::from_str("Timeout(rounds_since_ordered=");
                push_decimal(&mut s, *rounds_since_ordered as u64);
                s.append(")");
                s
            },
        }
    }
}

/// Event produced when a new round starts.
#[derive(Clone, Copy, Debug)]
pub struct NewRoundEvent {
    /// The new round number
    pub round: u64,
    /// Reason for starting this round
    pub reason: NewRoundReason,
    /// Timeout duration for this round
    pub timeout_duration: Duration,
}

impl NewRoundEvent {
    /// An event for `round`.
    pub fn new(round: u64, reason: NewRoundReason, timeout_duration: Duration) -> (e: Self)
        ensures
            e.round == round,
            e.reason == reason,
            e.timeout_duration == timeout_duration,
    {
        NewRoundEvent { round, reason, timeout_duration }
    }
}

/// Strategy for calculating round time intervals, typically growing while
/// no round gets ordered.
pub trait RoundIntervalStrategy {
    /// The duration that the strategy gives a round that comes
    /// `round_index_after_ordered` rounds after the last ordered round.
    spec fn round_duration(&self, round_index_after_ordered: usize) -> Duration;

    /// The duration of a round that comes `round_index_after_ordered` rounds
    /// after the last ordered round (0: the round right after it).
    fn get_round_duration(&self, round_index_after_ordered: usize) -> (d: Duration)
        ensures
            d == self.round_duration(round_index_after_ordered),
    ;
}

/// The number of rounds between the round after `highest_ordered_round` and
/// `round` (0 when `round` is at most the round after it).
pub open spec fn rounds_since_ordered(round: u64, highest_ordered_round: u64) -> usize {
    (if round >= highest_ordered_round + 1 {
        round - (highest_ordered_round + 1)
    } else {
        0
    }) as usize
}

/// Manages round progression and the timeout of each round.
pub struct Pacemaker<S: RoundIntervalStrategy> {
    interval_strategy: S,
    highest_ordered_round: u64,
    current_round: u64,
}

impl<S: RoundIntervalStrategy> Pacemaker<S> {
    /// The current round.
    pub closed spec fn spec_current_round(&self) -> u64 {
        self.current_round
    }

    /// The highest round that was ordered.
    pub closed spec fn spec_highest_ordered_round(&self) -> u64 {
        self.highest_ordered_round
    }

    /// The interval strategy.
    pub closed spec fn spec_interval_strategy(&self) -> S {
        self.interval_strategy
    }

    /// A pacemaker at `initial_round`, with the round before it ordered.
    pub fn new(interval_strategy: S, initial_round: u64) -> (p: Self)
        ensures
            p.spec_current_round() == initial_round,
            p.spec_interval_strategy() == interval_strategy,
            p.spec_highest_ordered_round() == (if initial_round > 0 {
                initial_round - 1
            } else {
                0
            }),
    {
        Pacemaker {
            interval_strategy,
            highest_ordered_round: initial_round.saturating_sub(1),
            current_round: initial_round,
        }
    }

    /// The current round.
    pub fn current_round(&self) -> (r: u64)
        ensures
            r == self.spec_current_round(),
    {
        self.current_round
    }

    /// The highest ordered round.
    pub fn highest_ordered_round(&self) -> (r: u64)
        ensures
            r == self.spec_highest_ordered_round(),
    {
        self.highest_ordered_round
    }

    /// Whether `round` is after the current round.
    pub fn can_enter_round(&self, round: u64) -> (b: bool)
        ensures
            b == (round > self.spec_current_round()),
    {
        round > self.current_round
    }

    /// Enters `round`, which must be after the current round. The event says
    /// whether the round follows an ordered round directly (a quorum
    /// certificate) or after timeouts, with the strategy's timeout for it.
    pub fn enter_new_round(&mut self, round: u64) -> (r: Result<NewRoundEvent, Error>)
        requires
            round > old(self).spec_current_round() ==> old(self).spec_highest_ordered_round() < u64::MAX,
        ensures
            final(self).spec_interval_strategy() == old(self).spec_interval_strategy(),
            final(self).spec_highest_ordered_round() == old(self).spec_highest_ordered_round(),
            round <= old(self).spec_current_round() ==> r == Err::<NewRoundEvent, Error>(
                Error::CannotEnterRound { round, current_round: old(self).spec_current_round() },
            ) && final(self).spec_current_round() == old(self).spec_current_round(),
            round > old(self).spec_current_round() ==> r is Ok && final(self).spec_current_round() == round,
            r matches Ok(e) ==> e.round == round && e.reason == (if rounds_since_ordered(
                round,
                old(self).spec_highest_ordered_round(),
            ) == 0 {
                NewRoundReason::QuorumCertificate
            } else {
                NewRoundReason::Timeout {
                    rounds_since_ordered: rounds_since_ordered(round, old(self).spec_highest_ordered_round()),
                }
            }),
            r matches Ok(e) ==> e.timeout_duration == old(self).spec_interval_strategy().round_duration(
                rounds_since_ordered(round, old(self).spec_highest_ordered_round()),
            ),
    {
        if !self.can_enter_round(round) {
            return Err(Error::CannotEnterRound { round, current_round: self.current_round });
        }
        let rounds_since_ordered = round.saturating_sub(self.highest_ordered_round + 1) as usize;
        let reason = if rounds_since_ordered == 0 {
            NewRoundReason::QuorumCertificate
        } else {
            NewRoundReason::Timeout { rounds_since_ordered }
        };
        let timeout_duration = self.interval_strategy.get_round_duration(rounds_since_ordered);
        self.current_round = round;
        Ok(NewRoundEvent::new(round, reason, timeout_duration))
    }

    /// Records that `round` was ordered; it must be after the highest ordered
    /// round.
    pub fn record_ordered_round(&mut self, round: u64) -> (r: Result<(), Error>)
        ensures
            final(self).spec_interval_strategy() == old(self).spec_interval_strategy(),
            final(self).spec_current_round() == old(self).spec_current_round(),
            round <= old(self).spec_highest_ordered_round() ==> r == Err::<(), Error>(
                Error::RoundNotAboveOrdered {
                    round,
                    highest_ordered_round: old(self).spec_highest_ordered_round(),
                },
            ) && final(self).spec_highest_ordered_round() == old(self).spec_highest_ordered_round(),
            round > old(self).spec_highest_ordered_round() ==> r is Ok && final(self).spec_highest_ordered_round()
                == round,
    {
        if round <= self.highest_ordered_round {
            return Err(Error::RoundNotAboveOrdered { round, highest_ordered_round: self.highest_ordered_round });
        }
        self.highest_ordered_round = round;
        Ok(())
    }

    /// The strategy's timeout for the current round.
    pub fn current_round_timeout(&self) -> (d: Duration)
        requires
            self.spec_highest_ordered_round() < u64::MAX,
        ensures
            d == self.spec_interval_strategy().round_duration(
                rounds_since_ordered(self.spec_current_round(), self.spec_highest_ordered_round()),
            ),
    {
        let rounds_since_ordered = self.current_round.saturating_sub(self.highest_ordered_round + 1) as usize;
        self.interval_strategy.get_round_duration(rounds_since_ordered)
    }

    /// Whether the round timed out after `elapsed`: never, as timeouts come
    /// from a timer service outside the pacemaker.
    pub fn check_timeout(&self, elapsed: Duration) -> (b: bool)
        ensures
            !b,
    {
        false
    }

    /// Resets to `round`, with the round before it ordered.
    pub fn reset(&mut self, round: u64)
        ensures
            final(self).spec_interval_strategy() == old(self).spec_interval_strategy(),
            final(self).spec_current_round() == round,
            final(self).spec_highest_ordered_round() == (if round > 0 {
                round - 1
            } else {
                0
            }),
    {
        self.current_round = round;
        self.highest_ordered_round = round.saturating_sub(1);
    }

    /// The interval strategy.
    pub fn interval_strategy(&self) -> (s: &S)
        ensures
            *s == self.spec_interval_strategy(),
    {
        &self.interval_strategy
    }
}

} // verus!
