//! Block proposal generation.
pub mod generator;

pub use generator::{ProposalConfig, ProposalGenerator};
