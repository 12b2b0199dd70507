//! Epoch management: the current epoch and transitions to the next one.
use vstd::prelude::*;

use crate::clock::{elapsed_since_unix_epoch, whole_secs};
use crate::text::{decimal, push_decimal};
use crate::types::Epoch;

verus! {

/// Configuration for epoch management.
#[derive(Clone, Copy, Debug)]
pub struct EpochManagerConfig {
    /// The initial epoch
    pub initial_epoch: Epoch,
    /// Whether to automatically transition epochs
    pub auto_transition: bool,
}

impl Default for EpochManagerConfig {
    fn default() -> (c: Self)
        ensures
            c.initial_epoch == 0,
            !c.auto_transition,
    {
        EpochManagerConfig { initial_epoch: 0, auto_transition: false }
    }
}

/// State information for an epoch.
#[derive(Clone, Copy, Debug)]
pub struct EpochState {
    epoch: Epoch,
    start_time: u64,
}

impl EpochState {
    /// The epoch number.
    pub closed spec fn spec_epoch(&self) -> Epoch {
        self.epoch
    }

    /// The time, in seconds since the Unix epoch, at which the epoch started.
    pub closed spec fn spec_start_time(&self) -> u64 {
        self.start_time
    }

    /// An epoch state for `epoch` started at `start_time`.
    pub fn new(epoch: Epoch, start_time: u64) -> (s: Self)
        ensures
            s.spec_epoch() == epoch,
            s.spec_start_time() == start_time,
    {
        EpochState { epoch, start_time }
    }

    /// The epoch number.
    pub fn epoch(&self) -> (e: Epoch)
        ensures
            e == self.spec_epoch(),
    {
        self.epoch
    }

    /// The start time of the epoch.
    pub fn start_time(&self) -> (t: u64)
        ensures
            t == self.spec_start_time(),
    {
        self.start_time
    }
}

/// Errors that can occur during an epoch transition.
#[derive(Clone, Debug, PartialEq, Eq)]
pub enum EpochTransitionError {
    /// Attempted to transition to an old epoch
    OldEpoch {
        /// The current epoch
        current: Epoch,
        /// The proposed (older) epoch
        proposed: Epoch,
    },
    /// Attempted to skip epochs
    SkippedEpoch {
        /// The current epoch
        current: Epoch,
        /// The proposed epoch
        proposed: Epoch,
    },
    /// Invalid epoch transition
    InvalidTransition(String),
}

/// The text of an epoch transition error.
pub open spec fn epoch_transition_error_text(e: EpochTransitionError) -> Seq<char> {
    match e {
        EpochTransitionError::OldEpoch { current, proposed } =>
            "Cannot transition to epoch "@ + decimal(proposed as nat) + ": already at epoch "@ + decimal(current as nat),
        EpochTransitionError::SkippedEpoch { current, proposed } =>
            "Cannot skip epochs: current="@ + decimal(current as nat) + ", proposed="@ + decimal(proposed as nat),
        EpochTransitionError::InvalidTransition(msg) => "Invalid epoch transition: "@ + msg@,
    }
}

impl EpochTransitionError {
    /// A human-readable description of the error.
    pub fn to_string(&self) -> (s: String)
        ensures
            s@ == epoch_transition_error_text(*self),
    {
        match self {
            EpochTransitionError::OldEpoch { current, proposed } => {
                let mut s = String::from_str("Cannot transition to epoch ");
                push_decimal(&mut s, *proposed);
                s.append(": already at epoch ");
                push_decimal(&mut s, *current);
                s
            },
            EpochTransitionError::SkippedEpoch { current, proposed } => {
                let mut s = String::from_str("Cannot skip epochs: current=");
                push_decimal(&mut s, *current);
                s.append(", proposed=");
                push_decimal(&mut s, *proposed);
                s
            },
            EpochTransitionError::InvalidTransition(msg) => {
                let mut s = String::from_str("Invalid epoch transition: ");
                s.append(msg.as_str());
                s
            },
        }
    }
}

/// Whether the transition from `current` to `proposed` is refused, and why:
/// only the epoch right after the current one may start.
pub open spec fn epoch_transition_refusal(current: Epoch, proposed: Epoch) -> Option<EpochTransitionError> {
    if proposed <= current {
        Some(EpochTransitionError::OldEpoch { current, proposed })
    } else if proposed != current + 1 {
        Some(EpochTransitionError::SkippedEpoch { current, proposed })
    } else {
        None
    }
}

/// Tracks the current epoch and handles epoch transitions.
pub struct EpochManager {
    epoch_state: EpochState,
    config: EpochManagerConfig,
}

impl EpochManager {
    /// The current epoch state.
    pub closed spec fn spec_epoch_state(&self) -> EpochState {
        self.epoch_state
    }

    /// The configuration.
    pub closed spec fn spec_config(&self) -> EpochManagerConfig {
        self.config
    }

    /// A manager at the configured initial epoch, started at time 0.
    pub fn new(config: EpochManagerConfig) -> (m: Self)
        ensures
            m.spec_epoch_state().spec_epoch() == config.initial_epoch,
            m.spec_epoch_state().spec_start_time() == 0,
            m.spec_config() == config,
    {
        let epoch_state = EpochState::new(config.initial_epoch, 0);
        EpochManager { epoch_state, config }
    }

    /// The current epoch.
    pub fn epoch(&self) -> (e: Epoch)
        ensures
            e == self.spec_epoch_state().spec_epoch(),
    {
        self.epoch_state.epoch()
    }

    /// The current epoch state.
    pub fn epoch_state(&self) -> (s: &EpochState)
        ensures
            *s == self.spec_epoch_state(),
    {
        &self.epoch_state
    }

    /// Starts `epoch` at `start_time` if it is the epoch right after the
    /// current one; otherwise refuses and changes nothing.
    pub fn start_new_epoch_at(&mut self, epoch: Epoch, start_time: u64) -> (r: Result<(), EpochTransitionError>)
        ensures
            final(self).spec_config() == old(self).spec_config(),
            match epoch_transition_refusal(old(self).spec_epoch_state().spec_epoch(), epoch) {
                Some(e) => r == Err::<(), EpochTransitionError>(e) && final(self).spec_epoch_state()
                    == old(self).spec_epoch_state(),
                None => r is Ok && final(self).spec_epoch_state().spec_epoch() == epoch
                    && final(self).spec_epoch_state().spec_start_time() == start_time,
            },
    {
        let current = self.epoch_state.epoch();
        if epoch <= current {
            return Err(EpochTransitionError::OldEpoch { current, proposed: epoch });
        }
        if epoch != current + 1 {
            return Err(EpochTransitionError::SkippedEpoch { current, proposed: epoch });
        }
        self.epoch_state = EpochState::new(epoch, start_time);
        Ok(())
    }

    /// Starts `epoch` now if it is the epoch right after the current one;
    /// otherwise refuses and changes nothing. The start time is read from the
    /// system clock (0 when the clock is before the Unix epoch).
    pub fn start_new_epoch(&mut self, epoch: Epoch) -> (r: Result<(), EpochTransitionError>)
        ensures
            final(self).spec_config() == old(self).spec_config(),
            match epoch_transition_refusal(old(self).spec_epoch_state().spec_epoch(), epoch) {
                Some(e) => r == Err::<(), EpochTransitionError>(e) && final(self).spec_epoch_state()
                    == old(self).spec_epoch_state(),
                None => r is Ok && final(self).spec_epoch_state().spec_epoch() == epoch,
            },
    {
        let start_time = match elapsed_since_unix_epoch() {
            Some(d) => whole_secs(&d),
            None => 0,
        };
        self.start_new_epoch_at(epoch, start_time)
    }

    /// Whether an epoch transition is due: never, as no epoch change votes
    /// or certificates are tracked.
    pub fn check_epoch_transition(&self) -> (b: bool)
        ensures
            !b,
    {
        if !self.config.auto_transition {
            return false;
        }
        false
    }

    /// Starts the epoch right after the current one.
    pub fn force_next_epoch(&mut self) -> (r: Result<(), EpochTransitionError>)
        requires
            old(self).spec_epoch_state().spec_epoch() < u64::MAX,
        ensures
            r is Ok,
            final(self).spec_epoch_state().spec_epoch() == old(self).spec_epoch_state().spec_epoch() + 1,
            final(self).spec_config() == old(self).spec_config(),
    {
        let next_epoch = self.epoch_state.epoch() + 1;
        self.start_new_epoch(next_epoch)
    }
}

} // verus!
