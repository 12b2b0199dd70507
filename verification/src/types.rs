//! Common types used throughout the consensus algorithm.
use vstd::prelude::*;

verus! {

/// A round number in the consensus protocol.
///
/// Rounds increment monotonically within an epoch. Each round has a designated
/// proposer who is responsible for creating a block proposal for that round.
pub type Round = u64;

/// An epoch number in the consensus protocol.
///
/// Epochs represent major reconfiguration boundaries.
pub type Epoch = u64;

/// The genesis round number (always 0).
pub const GENESIS_ROUND: Round = 0;

/// The genesis epoch number (always 0).
pub const GENESIS_EPOCH: Epoch = 0;

/// Reason for a round timeout.
#[derive(Clone, Copy, Debug, PartialEq, Eq, Structural)]
pub enum TimeoutReason {
    /// The round timed out without receiving enough votes
    NoQuorum,
    /// The round timed out due to a slow leader
    SlowLeader,
    /// The round timed out due to network issues
    NetworkDelay,
    /// The round timed out due to resource constraints
    ResourceConstraints,
}

/// The textual name of a timeout reason.
pub open spec fn timeout_reason_text(r: TimeoutReason) -> Seq<char> {
    match r {
        TimeoutReason::NoQuorum => "no_quorum"@,
        TimeoutReason::SlowLeader => "slow_leader"@,
        TimeoutReason::NetworkDelay => "network_delay"@,
        TimeoutReason::ResourceConstraints => "resource_constraints"@,
    }
}

impl TimeoutReason {
    /// The textual name of this reason, such as `no_quorum`.
    pub fn to_string(&self) -> (s: String)
        ensures
            s@ == timeout_reason_text(*self),
    {
        match self {
            TimeoutReason::NoQuorum => String::from_str("no_quorum"),
            TimeoutReason::SlowLeader => String::from_str("slow_leader"),
            TimeoutReason::NetworkDelay => String::from_str("network_delay"),
            TimeoutReason::ResourceConstraints => String::from_str("resource_constraints"),
        }
    }
}

/// Status of a vote in the consensus protocol.
#[derive(Clone, Copy, Debug, PartialEq, Eq, Structural)]
pub enum VoteStatus {
    /// The vote was accepted and added to pending votes
    Accepted,
    /// The vote was rejected (duplicate, invalid, or from wrong epoch)
    Rejected,
    /// The vote completed a quorum certificate
    QuorumCompleted,
    /// The vote was for an old round and ignored
    OldRound,
    /// The vote was for a future round and buffered
    FutureRound,
}

} // verus!
