//! Liveness: round timeouts and progression, and proposer election.
pub mod pacemaker;
pub mod proposer;

pub use pacemaker::{NewRoundEvent, NewRoundReason, Pacemaker, RoundIntervalStrategy};
pub use proposer::{ProposerElection, ProposerElectionConfig, RoundRobinProposer, WeightedProposer};
