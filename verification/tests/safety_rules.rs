use consensus_core::testing::{MockBlock, MockBlockMetadata, MockHash, MockQuorumCert, MockSignature};
use consensus_core::{SafetyStateData, TwoChainSafetyRules, TwoChainTimeout, TwoChainTimeoutCertificate};
use std::sync::Arc;

fn block(round: u64, parent: u8) -> Arc<MockBlock> {
    Arc::new(MockBlock::new(vec![], MockBlockMetadata::new(0, round, MockHash(0), MockHash(parent), 0)))
}

fn qc_at(round: u64, parent: u8, id: u8) -> MockQuorumCert {
    MockQuorumCert::with_metadata(MockBlockMetadata::new(0, round, MockHash(0), MockHash(parent), 0), MockHash(id))
}

fn tc(round: u64, hqc_round: u64, highest_tc_round: u64, timeout: TwoChainTimeout) -> TwoChainTimeoutCertificate {
    TwoChainTimeoutCertificate::new(0, round, hqc_round, highest_tc_round, Arc::new(timeout), MockSignature(0))
}

fn with_one_chain_round(r: u64) -> TwoChainSafetyRules {
    TwoChainSafetyRules::with_state(SafetyStateData {
        epoch: 0,
        last_voted_round: 0,
        preferred_round: 0,
        one_chain_round: r,
        highest_timeout_round: 0,
    })
}

#[test]
fn test_safety_rules_new() {
    let safety_rules = TwoChainSafetyRules::new(0);
    assert_eq!(safety_rules.state().epoch(), 0);
    assert_eq!(safety_rules.state().last_voted_round(), 0);
}

#[test]
fn test_safe_to_vote_normal_progression() {
    let safety_rules = TwoChainSafetyRules::new(0);
    let proposal = block(5, 4);

    // block.round (5) == qc.round (4) + 1
    assert!(safety_rules.safe_to_vote(&proposal, None).is_ok());
}

#[test]
fn test_safe_to_vote_normal_progression_always_passes() {
    let safety_rules = TwoChainSafetyRules::new(0);
    // The certified parent is taken to be the round before the block
    let proposal = block(10, 5);

    assert!(safety_rules.safe_to_vote(&proposal, None).is_ok());
}

#[test]
fn test_safe_to_timeout_normal() {
    let safety_rules = with_one_chain_round(3);

    // round (4) == qc.round (3) + 1 AND qc.round (3) >= one_chain_round (3)
    assert!(safety_rules.safe_to_timeout(4, 3, None).is_ok());
}

#[test]
fn test_safe_to_timeout_unsafe() {
    let safety_rules = with_one_chain_round(5);

    // qc.round (3) < one_chain_round (5)
    assert!(safety_rules.safe_to_timeout(4, 3, None).is_err());
}

#[test]
fn test_record_vote() {
    let mut safety_rules = TwoChainSafetyRules::new(0);

    assert!(safety_rules.record_vote(5).is_ok());
    assert_eq!(safety_rules.state().last_voted_round(), 5);

    // Not for an older round
    assert!(safety_rules.record_vote(3).is_err());
}

#[test]
fn test_observe_qc() {
    let mut safety_rules = TwoChainSafetyRules::new(0);

    let qc = qc_at(5, 4, 5);
    assert!(safety_rules.observe_qc(&qc).is_ok());
    assert_eq!(safety_rules.state().one_chain_round(), 5);
}

#[test]
fn test_record_timeout() {
    let mut safety_rules = TwoChainSafetyRules::new(0);

    safety_rules.record_timeout(10);
    assert_eq!(safety_rules.state().highest_timeout_round(), 10);

    safety_rules.record_timeout(15);
    assert_eq!(safety_rules.state().highest_timeout_round(), 15);
}

#[test]
fn test_safety_rules_with_state() {
    let state = SafetyStateData {
        epoch: 5,
        last_voted_round: 10,
        preferred_round: 10,
        one_chain_round: 8,
        highest_timeout_round: 7,
    };
    let safety_rules = TwoChainSafetyRules::with_state(state);

    assert_eq!(safety_rules.state().epoch(), 5);
    assert_eq!(safety_rules.state().last_voted_round(), 10);
    assert_eq!(safety_rules.state().one_chain_round(), 8);
}

#[test]
fn test_observe_tc() {
    let mut safety_rules = TwoChainSafetyRules::new(0);

    let tc = tc(10, 5, 8, TwoChainTimeout::new(0, 10, 5));

    assert!(safety_rules.observe_tc(&tc).is_ok());
    assert_eq!(safety_rules.state().highest_timeout_round(), 10);
    assert_eq!(safety_rules.state().one_chain_round(), 5); // from the certificate's hqc_round
}

#[test]
fn test_should_commit() {
    let safety_rules = with_one_chain_round(5);

    let proposal = block(6, 5);

    let commit_hash = safety_rules.should_commit(&proposal);
    assert!(commit_hash.is_some());
    assert_eq!(commit_hash.unwrap(), MockHash(5));
}

#[test]
fn test_should_commit_no_commit() {
    let safety_rules = TwoChainSafetyRules::new(0);

    // one_chain_round is 0: round 1 commits round 0
    let proposal = block(1, 0);

    let commit_hash = safety_rules.should_commit(&proposal);
    assert!(commit_hash.is_some());
    assert_eq!(commit_hash.unwrap(), MockHash(0));
}

#[test]
fn test_should_commit_different_round() {
    let safety_rules = with_one_chain_round(5);

    let proposal = block(7, 6);

    let commit_hash = safety_rules.should_commit(&proposal);
    assert!(commit_hash.is_none());
}

#[test]
fn test_should_commit_genesis() {
    let safety_rules = TwoChainSafetyRules::new(0);

    let proposal = block(0, 0);

    let commit_hash = safety_rules.should_commit(&proposal);
    assert!(commit_hash.is_none());
}

#[test]
fn test_debug_formatting() {
    let safety_rules = TwoChainSafetyRules::new(0);
    let debug_str = format!("{:?}", safety_rules);

    assert!(debug_str.contains("TwoChainSafetyRules"));
    assert!(debug_str.contains("state"));
}

#[test]
fn test_record_vote_error_message() {
    let mut safety_rules = TwoChainSafetyRules::new(0);

    assert!(safety_rules.record_vote(10).is_ok());

    let result = safety_rules.record_vote(5);
    assert!(result.is_err());

    let error_msg = result.unwrap_err().to_string();
    assert!(error_msg.contains("Cannot record vote"));
    assert!(error_msg.contains("5"));
    assert!(error_msg.contains("10"));
}

#[test]
fn test_safe_to_vote_with_timeout_cert() {
    let safety_rules = TwoChainSafetyRules::new(0);

    let tc = tc(10, 8, 5, TwoChainTimeout::new(0, 10, 8));

    // round 11 = tc.round + 1
    let proposal = block(11, 10);

    assert!(safety_rules.safe_to_vote(&proposal, Some(&tc)).is_ok());
}

#[test]
fn test_observe_qc_updates_preferred_round() {
    let mut safety_rules = TwoChainSafetyRules::new(0);

    let qc1 = qc_at(5, 4, 5);
    assert!(safety_rules.observe_qc(&qc1).is_ok());
    assert_eq!(safety_rules.state().one_chain_round(), 5);

    let qc2 = qc_at(6, 5, 6);
    assert!(safety_rules.observe_qc(&qc2).is_ok());
    assert_eq!(safety_rules.state().one_chain_round(), 6);
    assert_eq!(safety_rules.state().preferred_round(), 6);
}

#[test]
fn test_safe_to_vote_with_overflow_qc_round() {
    let safety_rules = TwoChainSafetyRules::new(0);

    // The certified parent is taken as u64::MAX - 1, so the block follows it
    let proposal = block(u64::MAX, 255);

    assert!(safety_rules.safe_to_vote(&proposal, None).is_ok());
}

#[test]
fn test_safe_to_vote_with_tc_overflow() {
    let safety_rules = TwoChainSafetyRules::new(0);

    let tc = tc(u64::MAX, u64::MAX - 1, u64::MAX - 2, TwoChainTimeout::new(0, u64::MAX, u64::MAX - 1));

    let proposal = block(u64::MAX, 254);

    let result = safety_rules.safe_to_vote(&proposal, Some(&tc));
    let _ = result;
}

#[test]
fn test_safe_to_timeout_with_tc_overflow() {
    let safety_rules = with_one_chain_round(u64::MAX - 10);

    let tc = tc(u64::MAX, u64::MAX - 1, u64::MAX - 2, TwoChainTimeout::new(0, u64::MAX, u64::MAX - 1));

    let result = safety_rules.safe_to_timeout(u64::MAX, u64::MAX - 1, Some(&tc));
    let _ = result;
}

#[test]
fn test_safe_to_timeout_normal_case_with_tc() {
    let safety_rules = TwoChainSafetyRules::new(0);

    let tc = tc(10, 9, 8, TwoChainTimeout::new(0, 10, 9));

    // round (11) == tc.round (10) + 1
    assert!(safety_rules.safe_to_timeout(11, 9, Some(&tc)).is_ok());
}

#[test]
fn test_safe_to_timeout_tc_round_progression() {
    let safety_rules = TwoChainSafetyRules::new(0);

    let tc = tc(10, 5, 0, TwoChainTimeout::new(0, 10, 5));

    assert!(safety_rules.safe_to_timeout(11, 9, Some(&tc)).is_ok());
}

#[test]
fn no_vote_below_a_recorded_vote() {
    let mut safety_rules = TwoChainSafetyRules::new(0);
    safety_rules.record_vote(7).unwrap();
    assert!(safety_rules.record_vote(6).is_err());
    assert_eq!(safety_rules.state().last_voted_round(), 7);
    assert!(safety_rules.record_vote(7).is_ok());
}

#[test]
fn a_timeout_that_follows_neither_round_is_unsafe() {
    let safety_rules = with_one_chain_round(0);
    assert!(safety_rules.safe_to_timeout(7, 3, None).is_err());
    let tc = tc(5, 3, 0, TwoChainTimeout::new(0, 5, 3));
    assert!(safety_rules.safe_to_timeout(7, 3, Some(&tc)).is_err());
    assert!(safety_rules.safe_to_timeout(6, 3, Some(&tc)).is_ok());
}

#[test]
fn normal_progression_is_safe_whatever_the_timeout_certificate() {
    let safety_rules = TwoChainSafetyRules::new(0);
    let cert = tc(u64::MAX, u64::MAX - 1, u64::MAX - 2, TwoChainTimeout::new(0, u64::MAX, u64::MAX - 1));
    assert!(safety_rules.safe_to_vote(&block(5, 4), Some(&cert)).is_ok());
}

#[test]
fn a_timeout_certificate_at_the_last_round_is_handled() {
    let safety_rules = TwoChainSafetyRules::new(0);
    let cert = tc(u64::MAX, u64::MAX - 1, u64::MAX - 2, TwoChainTimeout::new(0, u64::MAX, u64::MAX - 1));
    assert!(safety_rules.safe_to_timeout(5, 3, Some(&cert)).is_err());
    assert!(safety_rules.safe_to_timeout(4, 3, Some(&cert)).is_ok());
}

#[test]
fn observing_a_certificate_keeps_the_one_chain_within_the_preferred_round() {
    let mut safety_rules = TwoChainSafetyRules::new(0);
    safety_rules.observe_qc(&qc_at(5, 4, 5)).unwrap();
    assert_eq!(safety_rules.state().one_chain_round(), 5);
    assert_eq!(safety_rules.state().preferred_round(), 5);
    safety_rules.observe_qc(&qc_at(3, 2, 3)).unwrap();
    assert_eq!(safety_rules.state().one_chain_round(), 5);
    assert_eq!(safety_rules.state().preferred_round(), 5);
}
