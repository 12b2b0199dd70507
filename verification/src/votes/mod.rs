//! Vote collection.
pub mod pending_votes;

pub use pending_votes::{PendingVotes, VoteReceptionResult};
pub use crate::types::VoteStatus;
