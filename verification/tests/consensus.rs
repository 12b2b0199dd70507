use consensus_core::consensus::{Consensus, ConsensusBuilder, ConsensusConfig, ConsensusState};
use consensus_core::liveness::{Pacemaker, ProposerElectionConfig, RoundIntervalStrategy, RoundRobinProposer};
use consensus_core::pipeline::PipelineConfig;
use consensus_core::round_manager::RoundManagerConfig;
use consensus_core::testing::{make_validator_set, MockBlock, MockBlockMetadata, MockHash, MockQuorumCert, MockVote};
use std::sync::Arc;
use std::time::Duration;

struct FixedInterval;

impl RoundIntervalStrategy for FixedInterval {
    fn round_duration(&self, _round_index_after_ordered: usize) -> Duration {
        Duration::from_millis(1000)
    }

    fn get_round_duration(&self, round_index_after_ordered: usize) -> Duration {
        self.round_duration(round_index_after_ordered)
    }
}

type TestProposerElection = RoundRobinProposer<MockHash>;

fn proposer() -> TestProposerElection {
    RoundRobinProposer::new(vec![MockHash(1), MockHash(2)], ProposerElectionConfig { num_validators: 2, initial_round: 0 })
}

fn builder() -> ConsensusBuilder<TestProposerElection, FixedInterval> {
    ConsensusBuilder::new(Pacemaker::new(FixedInterval, 1))
}

fn make_qc(round: u64, epoch: u64, block_id: MockHash) -> MockQuorumCert {
    let metadata = MockBlockMetadata::new(epoch, round, MockHash(0), block_id, round * 1000);
    MockQuorumCert::with_metadata(metadata, block_id)
}

#[test]
fn test_consensus_state_display() {
    assert_eq!(ConsensusState::Running.to_string(), "running");
    assert_eq!(ConsensusState::Stopped.to_string(), "stopped");
}

#[test]
fn test_consensus_config_default() {
    let config = ConsensusConfig::default();
    assert_eq!(config.initial_round, 1);
    assert_eq!(config.initial_epoch, 0);
}

#[test]
fn test_consensus_builder() {
    let result = builder().proposer_election(proposer()).build();

    assert!(result.is_ok());
    let consensus: Consensus<TestProposerElection, FixedInterval> = result.unwrap();
    assert_eq!(consensus.state(), &ConsensusState::Bootstrapping);
}

#[test]
fn test_consensus_start_stop() {
    let mut consensus = builder().proposer_election(proposer()).build().unwrap();

    assert!(consensus.start().is_ok());
    assert_eq!(consensus.state(), &ConsensusState::Running);

    assert!(consensus.stop().is_ok());
    assert_eq!(consensus.state(), &ConsensusState::Stopped);
}

#[test]
fn test_consensus_start_twice_fails() {
    let mut consensus = builder().proposer_election(proposer()).build().unwrap();

    assert!(consensus.start().is_ok());
    assert!(consensus.start().is_err());
}

#[test]
fn test_consensus_getters() {
    let consensus = builder().proposer_election(proposer()).build().unwrap();

    assert_eq!(consensus.epoch(), 0);
    assert_eq!(consensus.round(), 0);
}

#[test]
fn test_consensus_round_state() {
    let consensus = builder().proposer_election(proposer()).build().unwrap();

    let _round_state = consensus.round_state();
}

#[test]
fn test_consensus_pending_votes() {
    let consensus = builder().proposer_election(proposer()).build().unwrap();

    let _pending_votes = consensus.pending_votes();
}

#[test]
fn test_consensus_get_highest_quorum_cert_none() {
    let consensus = builder().proposer_election(proposer()).build().unwrap();

    let qc = consensus.get_highest_quorum_cert();
    assert!(qc.is_none());
}

#[test]
fn test_process_proposal_not_running() {
    let mut consensus = builder().proposer_election(proposer()).build().unwrap();

    let block = Arc::new(MockBlock::new_genesis());
    let verifier = make_validator_set(&[1, 1]);

    let result = consensus.process_proposal(block, &verifier).unwrap();
    assert!(!result.accepted);
    assert!(result.reason.is_some());
    assert!(result.reason.unwrap().contains("Not in running state"));
}

#[test]
fn test_stop_when_not_running() {
    let mut consensus = builder().proposer_election(proposer()).build().unwrap();

    let result = consensus.stop();
    assert!(result.is_err());
    assert!(result.unwrap_err().to_string().contains("Cannot stop consensus"));
}

#[test]
fn test_start_when_running_fails() {
    let mut consensus = builder().proposer_election(proposer()).build().unwrap();

    consensus.start().unwrap();

    let result = consensus.start();
    assert!(result.is_err());
    assert!(result.unwrap_err().to_string().contains("Cannot start consensus"));
}

#[test]
fn test_process_vote_not_running() {
    let mut consensus = builder().proposer_election(proposer()).self_validator_id(MockHash(1)).build().unwrap();

    let vote = MockVote::new(MockHash(1), MockHash(2), 5);
    let verifier = make_validator_set(&[1, 1]);

    let result = consensus.process_vote(vote, &verifier);
    assert!(result.is_err());
    assert!(result.unwrap_err().to_string().contains("Not in running state"));
}

#[test]
fn test_process_qc_not_running() {
    let mut consensus = builder().proposer_election(proposer()).build().unwrap();

    let qc = Arc::new(make_qc(0, 1, MockHash(0)));
    let result = consensus.process_qc(qc);

    assert!(result.is_err());
    assert!(result.unwrap_err().to_string().contains("Not in running state"));
}

#[test]
fn test_process_timeout_not_running() {
    let mut consensus = builder().proposer_election(proposer()).build().unwrap();

    let result = consensus.process_timeout(5);
    assert!(result.is_err());
    assert!(result.unwrap_err().to_string().contains("Not in running state"));
}

#[test]
fn test_generate_proposal_not_running() {
    let consensus = builder().proposer_election(proposer()).self_validator_id(MockHash(1)).build().unwrap();

    let result = consensus.generate_proposal();
    assert!(result.is_err());
    assert!(result.unwrap_err().to_string().contains("Not in running state"));
}

#[test]
fn test_generate_proposal_not_proposer() {
    let mut consensus = builder().proposer_election(proposer()).self_validator_id(MockHash(1)).build().unwrap();

    consensus.start().unwrap();

    let result = consensus.generate_proposal();
    assert!(result.is_ok());
    assert!(result.unwrap().is_none());
}

#[test]
fn test_generate_proposal_no_parent_qc() {
    let mut consensus = builder().proposer_election(proposer()).self_validator_id(MockHash(1)).build().unwrap();

    consensus.start().unwrap();

    let result = consensus.generate_proposal();
    assert!(result.is_ok());
    assert!(result.unwrap().is_none());
}

#[test]
fn test_process_qc_running() {
    let mut consensus = builder().proposer_election(proposer()).build().unwrap();

    consensus.start().unwrap();

    let qc = Arc::new(make_qc(1, 1, MockHash(0)));
    let result = consensus.process_qc(qc);
    let _ = result;
}

#[test]
fn test_process_timeout_running() {
    let mut consensus = builder().proposer_election(proposer()).build().unwrap();

    consensus.start().unwrap();

    let result = consensus.process_timeout(5);
    assert!(result.is_ok());
}

#[test]
fn test_consensus_state_display_all() {
    assert_eq!(ConsensusState::Bootstrapping.to_string(), "bootstrapping");
    assert_eq!(ConsensusState::Running.to_string(), "running");
    assert_eq!(ConsensusState::CatchingUp.to_string(), "catching_up");
    assert_eq!(ConsensusState::Stopping.to_string(), "stopping");
    assert_eq!(ConsensusState::Stopped.to_string(), "stopped");
}

#[test]
fn test_consensus_builder_with_config() {
    let config = ConsensusConfig { initial_round: 10, initial_epoch: 5, ..Default::default() };

    let consensus = builder().config(config).proposer_election(proposer()).build().unwrap();

    assert_eq!(consensus.epoch(), 5);
}

#[test]
fn test_consensus_builder_missing_proposer() {
    let result = builder().build();

    assert!(result.is_err());
    match result {
        Ok(_) => panic!("Expected error"),
        Err(e) => assert!(e.to_string().contains("Proposer election strategy required")),
    }
}

#[test]
fn test_consensus_builder_with_validator_id() {
    let mut consensus = builder().proposer_election(proposer()).self_validator_id(MockHash(1)).build().unwrap();

    consensus.start().unwrap();
    let _result = consensus.generate_proposal();
}

#[test]
fn test_consensus_config_new() {
    let config = ConsensusConfig::new(5, 2, RoundManagerConfig::default(), PipelineConfig::default());

    assert_eq!(config.initial_round, 5);
    assert_eq!(config.initial_epoch, 2);
    assert_eq!(config.max_rounds_per_epoch, 1000);
}

#[test]
fn a_proposal_in_running_state_goes_through_the_pipeline() {
    let mut consensus = builder().proposer_election(proposer()).build().unwrap();
    consensus.start().unwrap();
    let verifier = make_validator_set(&[1, 1]);
    let block = Arc::new(MockBlock::new(vec![], MockBlockMetadata::new(0, 1, MockHash(1), MockHash(0), 1000)));
    let result = consensus.process_proposal(block, &verifier).unwrap();
    assert_eq!(result.round, 1);
}

#[test]
fn a_refused_proposal_leaves_the_fresh_round_state_empty() {
    let mut consensus = builder().proposer_election(proposer()).build().unwrap();
    assert!(consensus.round_state().proposed_block().is_none());
    let result = consensus.process_proposal(Arc::new(MockBlock::new_genesis()), &make_validator_set(&[1, 1])).unwrap();
    assert!(!result.accepted && !result.voted && result.round == 0);
    assert_eq!(consensus.state(), &ConsensusState::Bootstrapping);
    assert!(consensus.round_state().proposed_block().is_none());
    assert!(consensus.round_state().quorum_cert().is_none());
}

#[test]
fn test_stop_from_catching_up() {
    let mut consensus = builder().proposer_election(proposer()).build().unwrap();
    consensus.set_state(ConsensusState::CatchingUp);
    let result = consensus.stop();
    assert!(result.is_ok());
    assert_eq!(consensus.state(), &ConsensusState::Stopped);
}
