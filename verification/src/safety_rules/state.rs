//! The persistent safety state that enforces the 2-chain commit rule.
use vstd::prelude::*;

use crate::text::{decimal, push_decimal};

verus! {

/// Safety state data for enforcing consensus safety rules.
///
/// This holds all the persistent state needed to enforce the 2-chain commit
/// rule; it must be persisted across restarts to prevent safety violations.
#[derive(Clone, Copy, Debug, PartialEq, Eq, Structural)]
pub struct SafetyStateData {
    /// The current epoch
    pub epoch: u64,
    /// The last round this validator voted in (only increases)
    pub last_voted_round: u64,
    /// The highest 2-chain round seen (preferred round)
    pub preferred_round: u64,
    /// The highest 1-chain round seen (highest certified round)
    pub one_chain_round: u64,
    /// The highest round for which a timeout certificate was seen
    pub highest_timeout_round: u64,
}

impl Default for SafetyStateData {
    fn default() -> (s: Self)
        ensures
            s == (SafetyStateData {
                epoch: 0,
                last_voted_round: 0,
                preferred_round: 0,
                one_chain_round: 0,
                highest_timeout_round: 0,
            }),
    {
        SafetyStateData { epoch: 0, last_voted_round: 0, preferred_round: 0, one_chain_round: 0, highest_timeout_round: 0 }
    }
}

/// The larger of two rounds.
pub open spec fn max_round(a: u64, b: u64) -> u64 {
    if a >= b {
        a
    } else {
        b
    }
}

/// The multi-line description of a safety state.
pub open spec fn safety_state_text(s: SafetyStateData) -> Seq<char> {
    "SafetyStateData: [\n\tepoch = "@ + decimal(s.epoch as nat) + ",\n\tlast_voted_round = "@
        + decimal(s.last_voted_round as nat) + ",\n\tpreferred_round = "@ + decimal(s.preferred_round as nat)
        + ",\n\tone_chain_round = "@ + decimal(s.one_chain_round as nat) + ",\n\thighest_timeout_round = "@
        + decimal(s.highest_timeout_round as nat) + "\n]"@
}

impl SafetyStateData {
    /// Creates a safety state with the given values.
    pub fn new(
        epoch: u64,
        last_voted_round: u64,
        preferred_round: u64,
        one_chain_round: u64,
        highest_timeout_round: u64,
    ) -> (s: Self)
        ensures
            s == (SafetyStateData { epoch, last_voted_round, preferred_round, one_chain_round, highest_timeout_round }),
    {
        SafetyStateData { epoch, last_voted_round, preferred_round, one_chain_round, highest_timeout_round }
    }

    /// The safety state for a new epoch: the rounds restart from zero, except
    /// the preferred round, which is kept.
    pub fn new_epoch(&self, new_epoch: u64) -> (s: Self)
        ensures
            s == (SafetyStateData {
                epoch: new_epoch,
                last_voted_round: 0,
                preferred_round: self.preferred_round,
                one_chain_round: 0,
                highest_timeout_round: 0,
            }),
    {
        SafetyStateData {
            epoch: new_epoch,
            last_voted_round: 0,
            preferred_round: self.preferred_round,
            one_chain_round: 0,
            highest_timeout_round: 0,
        }
    }

    /// Whether `round` is not older than the last voted round.
    pub fn can_vote_in_round(&self, round: u64) -> (b: bool)
        ensures
            b == (round >= self.last_voted_round),
    {
        round >= self.last_voted_round
    }

    /// Raises the 1-chain round to `new_round` if that is higher; returns
    /// whether it changed.
    pub fn update_one_chain_round(&mut self, new_round: u64) -> (changed: bool)
        ensures
            changed == (new_round > old(self).one_chain_round),
            *final(self) == (SafetyStateData {
                one_chain_round: max_round(old(self).one_chain_round, new_round),
                ..*old(self)
            }),
    {
        if new_round > self.one_chain_round {
            self.one_chain_round = new_round;
            true
        } else {
            false
        }
    }

    /// Raises the preferred round to `new_round` if that is higher; returns
    /// whether it changed.
    pub fn update_preferred_round(&mut self, new_round: u64) -> (changed: bool)
        ensures
            changed == (new_round > old(self).preferred_round),
            *final(self) == (SafetyStateData {
                preferred_round: max_round(old(self).preferred_round, new_round),
                ..*old(self)
            }),
    {
        if new_round > self.preferred_round {
            self.preferred_round = new_round;
            true
        } else {
            false
        }
    }

    /// Raises the highest timeout round to `new_round` if that is higher;
    /// returns whether it changed.
    pub fn update_highest_timeout_round(&mut self, new_round: u64) -> (changed: bool)
        ensures
            changed == (new_round > old(self).highest_timeout_round),
            *final(self) == (SafetyStateData {
                highest_timeout_round: max_round(old(self).highest_timeout_round, new_round),
                ..*old(self)
            }),
    {
        if new_round > self.highest_timeout_round {
            self.highest_timeout_round = new_round;
            true
        } else {
            false
        }
    }

    /// The current epoch.
    pub fn epoch(&self) -> (e: u64)
        ensures
            e == self.epoch,
    {
        self.epoch
    }

    /// The last round voted in.
    pub fn last_voted_round(&self) -> (r: u64)
        ensures
            r == self.last_voted_round,
    {
        self.last_voted_round
    }

    /// The highest 1-chain round.
    pub fn one_chain_round(&self) -> (r: u64)
        ensures
            r == self.one_chain_round,
    {
        self.one_chain_round
    }

    /// The preferred (2-chain) round.
    pub fn preferred_round(&self) -> (r: u64)
        ensures
            r == self.preferred_round,
    {
        self.preferred_round
    }

    /// The highest timeout round.
    pub fn highest_timeout_round(&self) -> (r: u64)
        ensures
            r == self.highest_timeout_round,
    {
        self.highest_timeout_round
    }

    /// A multi-line description of the state listing every field.
    pub fn to_string(&self) -> (s: String)
        ensures
            s@ == safety_state_text(*self),
    {
        let mut s = String::from_str("SafetyStateData: [\n\tepoch = ");
        push_decimal(&mut s, self.epoch);
        s.append(",\n\tlast_voted_round = ");
        push_decimal(&mut s, self.last_voted_round);
        s.append(",\n\tpreferred_round = ");
        push_decimal(&mut s, self.preferred_round);
        s.append(",\n\tone_chain_round = ");
        push_decimal(&mut s, self.one_chain_round);
        s.append(",\n\thighest_timeout_round = ");
        push_decimal(&mut s, self.highest_timeout_round);
        s.append("\n]");
        s
    }
}

} // verus!
