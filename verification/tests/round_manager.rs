use consensus_core::round_manager::{ProposalProcessingResult, RoundManager, RoundManagerConfig};
use consensus_core::testing::{make_validator_set, MockBlock, MockBlockMetadata, MockHash, MockValidatorSet, MockVote};
use consensus_core::types::TimeoutReason;
use consensus_core::votes::{VoteReceptionResult, VoteStatus};
use consensus_core::TwoChainSafetyRules;
use std::sync::Arc;

// Four validators of 100 each: quorum 267.
fn validator_set() -> MockValidatorSet {
    make_validator_set(&[100, 100, 100, 100])
}

fn create_test_safety_rules() -> TwoChainSafetyRules {
    TwoChainSafetyRules::new(0)
}

fn manager() -> RoundManager {
    RoundManager::new(RoundManagerConfig::default(), create_test_safety_rules())
}

fn block(epoch: u64, round: u64) -> Arc<MockBlock> {
    Arc::new(MockBlock::new(vec![], MockBlockMetadata::new(epoch, round, MockHash(0), MockHash(0), 0)))
}

fn create_vote_with_sig(round: u64, sig: u8) -> Arc<MockVote> {
    Arc::new(MockVote::with_signature(MockHash(sig), MockHash(0), round, sig))
}

#[test]
fn test_round_manager_new() {
    let manager = manager();

    assert_eq!(manager.round(), 0);
    assert_eq!(manager.epoch(), 0);
}

#[test]
fn test_round_manager_start_round() {
    let mut manager = manager();

    manager.start_round(5).unwrap();
    assert_eq!(manager.round(), 5);
}

#[test]
fn test_round_manager_process_timeout() {
    let mut manager = manager();

    manager.process_timeout(TimeoutReason::NoQuorum).unwrap();
    assert_eq!(manager.round(), 1);
}

#[test]
fn test_round_manager_process_proposal() {
    let mut manager = manager();
    let verifier = validator_set();

    let proposal = block(0, 0);
    let result = manager.process_proposal(proposal, &verifier).unwrap();

    assert_eq!(result, ProposalProcessingResult::Accepted);
}

#[test]
fn test_quorum_certificate_formation() {
    let mut manager = manager();
    let verifier = validator_set();

    let block_id = MockHash(0);
    let round = 0;

    for i in 0..3 {
        let vote = create_vote_with_sig(0, i);
        let result = manager.process_vote(vote, &verifier).unwrap();

        if i < 2 {
            assert_eq!(result, VoteReceptionResult::Accepted);
        }
    }

    // The quorum certificate formed: the pending votes were cleaned up
    assert_eq!(manager.pending_votes().vote_count(round, block_id), 0);
}

#[test]
fn test_no_quorum_with_insufficient_votes() {
    let mut manager = manager();
    let verifier = validator_set();

    for i in 0..2 {
        let vote = create_vote_with_sig(0, i);
        manager.process_vote(vote, &verifier).unwrap();
    }

    assert_eq!(manager.pending_votes().vote_count(0, MockHash(0)), 2);
}

#[test]
fn test_has_quorum_certificate() {
    let mut manager = manager();
    let verifier = validator_set();

    assert!(!manager.has_quorum_certificate(MockHash(0), 0));

    for i in 0..3 {
        let vote = create_vote_with_sig(0, i);
        manager.process_vote(vote, &verifier).unwrap();
    }

    manager.start_round(1).unwrap();
    assert!(manager.has_quorum_certificate(MockHash(0), 0));
}

#[test]
fn test_vote_rejection_after_quorum() {
    let mut manager = manager();
    let verifier = validator_set();

    for i in 0..3 {
        let vote = create_vote_with_sig(0, i);
        manager.process_vote(vote, &verifier).unwrap();
    }

    manager.process_timeout(TimeoutReason::NoQuorum).unwrap();

    let vote = create_vote_with_sig(0, 3);
    let result = manager.process_vote(vote, &verifier).unwrap();

    assert_eq!(result, VoteReceptionResult::OldRound);
}

#[test]
fn test_integration_full_consensus_flow() {
    let mut manager = manager();
    let verifier = validator_set();

    manager.start_round(0).unwrap();

    let proposal = block(0, 0);
    assert_eq!(manager.process_proposal(proposal.clone(), &verifier).unwrap(), ProposalProcessingResult::Accepted);

    for i in 0..3 {
        let result = manager.process_vote(create_vote_with_sig(0, i), &verifier).unwrap();

        if i < 2 {
            assert_eq!(result, VoteReceptionResult::Accepted);
        }
    }

    manager.process_timeout(TimeoutReason::NoQuorum).unwrap();
    assert_eq!(manager.round(), 1);

    assert!(manager.has_quorum_certificate(MockHash(0), 0));
}

#[test]
fn test_safety_rules_accessor() {
    let manager = manager();

    let safety = manager.safety_rules();
    assert_eq!(safety.state().epoch(), 0);
}

#[test]
fn test_try_vote_for_proposal_success() {
    let mut manager = manager();

    let proposal = block(0, 1);

    // round 1 = qc round 0 + 1
    let result = manager.try_vote_for_proposal(&proposal, None);
    assert!(result.is_ok());

    assert_eq!(manager.safety_rules().state().last_voted_round(), 1);
}

#[test]
fn test_try_vote_for_proposal_old_round_rejection() {
    let mut manager = manager();

    let proposal_round_1 = block(0, 1);
    manager.try_vote_for_proposal(&proposal_round_1, None).unwrap();
    assert_eq!(manager.safety_rules().state().last_voted_round(), 1);

    let proposal_round_0 = block(0, 0);
    let result = manager.try_vote_for_proposal(&proposal_round_0, None);

    assert!(result.is_err());
    let error_msg = result.unwrap_err().to_string();
    assert!(error_msg.contains("already voted"));
}

#[test]
fn test_try_vote_for_proposal_with_timeout_cert() {
    let mut manager = manager();

    let proposal = block(0, 1);

    let result = manager.try_vote_for_proposal(&proposal, None);
    assert!(result.is_ok());
    assert_eq!(manager.safety_rules().state().last_voted_round(), 1);
}

#[test]
fn test_safety_rules_mut_accessor() {
    let mut manager = manager();

    let safety = manager.safety_rules_mut();
    assert_eq!(safety.state().epoch(), 0);
}

#[test]
fn test_round_state_accessor() {
    let manager = manager();

    let state = manager.round_state();
    assert_eq!(state.epoch(), 0);
    assert_eq!(state.round(), 0);
}

#[test]
fn test_pending_votes_accessor() {
    let manager = manager();

    let _votes = manager.pending_votes();
}

#[test]
fn test_epoch_accessor() {
    let manager = manager();

    assert_eq!(manager.epoch(), 0);
}

#[test]
fn test_round_accessor() {
    let manager = manager();

    assert_eq!(manager.round(), 0);
}

#[test]
fn test_try_vote_for_proposal_same_round_twice() {
    let mut manager = manager();

    let proposal = block(0, 1);
    manager.try_vote_for_proposal(&proposal, None).unwrap();
    assert_eq!(manager.safety_rules().state().last_voted_round(), 1);

    let result = manager.try_vote_for_proposal(&proposal, None);
    assert!(result.is_ok());
}

#[test]
fn test_process_vote_current_epoch_accepted() {
    let mut manager = manager();
    let verifier = validator_set();

    let vote = create_vote_with_sig(0, 0);

    let result = manager.process_vote(vote, &verifier).unwrap();

    assert_eq!(result, VoteReceptionResult::Accepted);
}

#[test]
fn test_round_manager_config_default() {
    let config = RoundManagerConfig::default();
    assert_eq!(config.max_buffered_rounds, 10);
    assert_eq!(config.round_timeout_ms, 5000);
    assert_eq!(config.max_pending_votes, 1000);
}

#[test]
fn test_round_manager_config_custom() {
    let config = RoundManagerConfig { max_buffered_rounds: 20, round_timeout_ms: 10000, max_pending_votes: 2000 };
    assert_eq!(config.max_buffered_rounds, 20);
    assert_eq!(config.round_timeout_ms, 10000);
    assert_eq!(config.max_pending_votes, 2000);
}

#[test]
fn test_proposal_processing_result_variants() {
    let accepted = ProposalProcessingResult::Accepted;
    let rejected = ProposalProcessingResult::Rejected("invalid".to_string());
    let old_round = ProposalProcessingResult::OldRound;
    let future_round = ProposalProcessingResult::FutureRound;

    assert_eq!(accepted, ProposalProcessingResult::Accepted);
    assert_eq!(rejected, ProposalProcessingResult::Rejected("invalid".to_string()));
    assert_eq!(old_round, ProposalProcessingResult::OldRound);
    assert_eq!(future_round, ProposalProcessingResult::FutureRound);
}

#[test]
fn test_process_proposal_old_round() {
    let mut manager = manager();
    let verifier = validator_set();

    manager.start_round(5).unwrap();

    let proposal = block(0, 3);
    let result = manager.process_proposal(proposal, &verifier).unwrap();

    assert_eq!(result, ProposalProcessingResult::OldRound);
}

#[test]
fn test_process_proposal_future_round() {
    let mut manager = manager();
    let verifier = validator_set();

    let proposal = block(0, 10);
    let result = manager.process_proposal(proposal, &verifier).unwrap();

    assert_eq!(result, ProposalProcessingResult::FutureRound);
}

#[test]
fn a_vote_from_a_non_member_does_not_help_the_quorum() {
    let mut manager = manager();
    let verifier = validator_set();
    for i in [0u8, 1, 9] {
        manager.process_vote(create_vote_with_sig(0, i), &verifier).unwrap();
    }
    // author 9 is no member: 200 < 267
    assert!(!manager.has_quorum_certificate(MockHash(0), 0));
    assert_eq!(manager.pending_votes().vote_count(0, MockHash(0)), 3);
}

#[test]
fn test_process_vote_epoch_mismatch() {
    let mut manager = manager();
    let verifier = validator_set();
    // the manager moves to epoch 5, while the vote belongs to epoch 0
    manager.round_state_mut().set_epoch(5);
    let result = manager.process_vote(create_vote_with_sig(0, 0), &verifier).unwrap();
    assert_eq!(result, VoteReceptionResult::Rejected(VoteStatus::Rejected));
}
