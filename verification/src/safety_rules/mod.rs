//! Safety rules for Byzantine fault-tolerant consensus.
//!
//! This module provides the safety rules that enforce the 2-chain commit
//! protocol, ensuring consensus safety properties.
use vstd::prelude::*;

mod recovery;
mod state;
mod two_chain;

pub use recovery::{
    max_recovered_epoch, recover_safety_rules, recovery_error_text, validate_safety_state, validation_defined,
    validation_failure, RecoveryError,
};
pub use state::{max_round, safety_state_text, SafetyStateData};
pub use two_chain::{
    commit_decision, lemma_commit_after_qc, lemma_commit_rule, lemma_no_vote_below_recorded,
    lemma_one_chain_stays_within_preferred, lemma_record_vote, lemma_rounds_never_decrease, lemma_timeout_rule,
    lemma_vote_rule, observe_qc_state, observe_tc_state, one_chain_within_preferred, record_timeout_state,
    record_vote_outcome, rounds_not_below, timeout_rule, vote_rule, TwoChainSafetyRules,
};

verus! {

} // verus!
