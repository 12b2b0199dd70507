//! AptosBFT consensus core: safety rules, vote aggregation, timeouts, round
//! and epoch management, and the DAG, pipeline and synchronization layers.
use vstd::prelude::*;

mod clock;
pub mod text;
pub mod types;
pub mod error;
pub mod testing;
pub mod timeout;
pub mod safety_rules;
pub mod crypto;
pub mod votes;
pub mod state;
pub mod epoch_manager;
pub mod liveness;
pub mod round_manager;
pub mod pipeline;
pub mod consensus;
pub mod network;
pub mod proposal;
pub mod dag;

pub use types::{Epoch, Round};
pub use error::Error;
pub use safety_rules::{SafetyStateData, TwoChainSafetyRules};
pub use timeout::{TwoChainTimeout, TwoChainTimeoutCertificate};

verus! {

/// Version of the AptosBFT protocol implemented by this library.
pub const APTOSBFT_VERSION: &'static str = "0.1.0";

} // verus!
