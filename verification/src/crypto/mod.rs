//! Signature aggregation and voting-power accounting used to form quorum
//! certificates.
use vstd::prelude::*;

mod signature_aggregator;

pub use signature_aggregator::{entries_map, SignatureAggregator};

verus! {

} // verus!
