use consensus_core::types::{TimeoutReason, VoteStatus, GENESIS_EPOCH, GENESIS_ROUND};

#[test]
fn test_timeout_reason_display() {
    assert_eq!(TimeoutReason::NoQuorum.to_string(), "no_quorum");
    assert_eq!(TimeoutReason::SlowLeader.to_string(), "slow_leader");
    assert_eq!(TimeoutReason::NetworkDelay.to_string(), "network_delay");
    assert_eq!(TimeoutReason::ResourceConstraints.to_string(), "resource_constraints");
}

#[test]
fn test_constants() {
    assert_eq!(GENESIS_ROUND, 0);
    assert_eq!(GENESIS_EPOCH, 0);
}

#[test]
fn test_vote_status_variants() {
    let _ = VoteStatus::Accepted;
    let _ = VoteStatus::Rejected;
    let _ = VoteStatus::QuorumCompleted;
    let _ = VoteStatus::OldRound;
    let _ = VoteStatus::FutureRound;
}
