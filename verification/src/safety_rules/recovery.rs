//! Recovery of the safety state from persistent storage.
//!
//! Restoring the persisted state before voting again is what prevents
//! double-voting after a validator restarts.
use vstd::prelude::*;

use super::state::SafetyStateData;
use super::two_chain::TwoChainSafetyRules;
use crate::text::{decimal, push_decimal};

verus! {

/// Recovery error types.
#[derive(Debug)]
pub enum RecoveryError {
    /// No safety state found in storage (first startup)
    NoState,
    /// Storage error during recovery
    Storage(String),
    /// Deserialization error
    Deserialization(String),
    /// Validation error
    Validation(String),
}

/// The description of a recovery error.
pub open spec fn recovery_error_text(e: RecoveryError) -> Seq<char> {
    match e {
        RecoveryError::NoState => "No safety state found in storage"@,
        RecoveryError::Storage(m) => "Storage error: "@ + m@,
        RecoveryError::Deserialization(m) => "Failed to deserialize safety state: "@ + m@,
        RecoveryError::Validation(m) => "Safety state validation failed: "@ + m@,
    }
}

impl RecoveryError {
    /// A human-readable description of the error.
    pub fn to_string(&self) -> (s: String)
        ensures
            s@ == recovery_error_text(*self),
    {
        match self {
            RecoveryError::NoState => String::from_str("No safety state found in storage"),
            RecoveryError::Storage(m) => {
                let mut s = String::from_str("Storage error: ");
                s.append(m.as_str());
                s
            },
            RecoveryError::Deserialization(m) => {
                let mut s = String::from_str("Failed to deserialize safety state: ");
                s.append(m.as_str());
                s
            },
            RecoveryError::Validation(m) => {
                let mut s = String::from_str("Safety state validation failed: ");
                s.append(m.as_str());
                s
            },
        }
    }
}

/// The largest epoch a recovered state may carry.
pub open spec fn max_recovered_epoch() -> u64 {
    (u64::MAX - 1000) as u64
}

/// Whether validating `s` stays within round numbers: the bound on the
/// preferred round is computed only when the earlier checks pass.
pub open spec fn validation_defined(s: SafetyStateData) -> bool {
    s.epoch <= max_recovered_epoch() && s.one_chain_round <= s.preferred_round ==> s.last_voted_round
        + 100 <= u64::MAX
}

/// The description of the first invariant a recovered state breaks, if any.
pub open spec fn validation_failure(s: SafetyStateData) -> Option<Seq<char>> {
    if s.epoch > max_recovered_epoch() {
        Some("Invalid epoch: "@ + decimal(s.epoch as nat))
    } else if s.one_chain_round > s.preferred_round {
        Some(
            "Invalid state: one_chain_round ("@ + decimal(s.one_chain_round as nat) + ") > preferred_round ("@
                + decimal(s.preferred_round as nat) + ")"@,
        )
    } else if s.preferred_round > s.last_voted_round + 100 {
        Some(
            "Invalid state: preferred_round ("@ + decimal(s.preferred_round as nat)
                + ") far ahead of last_voted_round ("@ + decimal(s.last_voted_round as nat) + ")"@,
        )
    } else {
        None
    }
}

/// Validates a loaded safety state: the epoch is not near the end of the
/// range, the 1-chain round does not exceed the preferred round, and the
/// preferred round is at most 100 rounds past the last voted round.
pub fn validate_safety_state(state: &SafetyStateData) -> (r: Result<(), RecoveryError>)
    requires
        validation_defined(*state),
    ensures
        r is Ok <==> validation_failure(*state) is None,
        r matches Err(e) ==> e matches RecoveryError::Validation(m) && Some(m@) == validation_failure(*state),
{
    if state.epoch > u64::MAX - 1000 {
        let mut m = String::from_str("Invalid epoch: ");
        push_decimal(&mut m, state.epoch);
        return Err(RecoveryError::Validation(m));
    }
    if state.one_chain_round > state.preferred_round {
        let mut m = String::from_str("Invalid state: one_chain_round (");
        push_decimal(&mut m, state.one_chain_round);
        m.append(") > preferred_round (");
        push_decimal(&mut m, state.preferred_round);
        m.append(")");
        return Err(RecoveryError::Validation(m));
    }
    if state.preferred_round > state.last_voted_round + 100 {
        let mut m = String::from_str("Invalid state: preferred_round (");
        push_decimal(&mut m, state.preferred_round);
        m.append(") far ahead of last_voted_round (");
        push_decimal(&mut m, state.last_voted_round);
        m.append(")");
        return Err(RecoveryError::Validation(m));
    }
    Ok(())
}

/// Builds the safety rules from what storage answered when asked for the
/// persisted state: a valid stored state is restored as it is, a missing one
/// starts fresh rules for `epoch`, an invalid one is refused, and a storage
/// failure (given by its message) is reported as a storage error.
pub fn recover_safety_rules(loaded: Result<Option<SafetyStateData>, String>, epoch: u64) -> (r: Result<
    TwoChainSafetyRules,
    RecoveryError,
>)
    requires
        loaded matches Ok(Some(s)) ==> validation_defined(s),
    ensures
        loaded matches Ok(Some(s)) ==> {
            &&& r is Ok <==> validation_failure(s) is None
            &&& r matches Ok(sr) ==> sr@ == s
            &&& r matches Err(e) ==> e matches RecoveryError::Validation(m) && Some(m@) == validation_failure(s)
        },
        loaded matches Ok(None) ==> r matches Ok(sr) && sr@ == (SafetyStateData {
            epoch,
            last_voted_round: 0,
            preferred_round: 0,
            one_chain_round: 0,
            highest_timeout_round: 0,
        }),
        loaded matches Err(m) ==> r matches Err(e) && e matches RecoveryError::Storage(m2) && m2@ == m@,
{
    match loaded {
        Ok(Some(state)) => {
            validate_safety_state(&state)?;
            Ok(TwoChainSafetyRules::with_state(state))
        },
        Ok(None) => Ok(TwoChainSafetyRules::new(epoch)),
        Err(m) => Err(RecoveryError::Storage(m)),
    }
}

} // verus!
