//! Timeout certificates for the 2-chain protocol.
use vstd::prelude::*;

mod two_chain;

pub use two_chain::{lemma_tc_verifies_when_rounds_ordered, tc_verify_result, TwoChainTimeout, TwoChainTimeoutCertificate};

verus! {

} // verus!
