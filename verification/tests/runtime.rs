use consensus_core::consensus::runtime::{ConsensusRuntime, ExecutionResult, NetworkMessage, RuntimeConfig};
use consensus_core::consensus::{Consensus, ConsensusBuilder};
use consensus_core::liveness::{Pacemaker, ProposerElectionConfig, RoundIntervalStrategy, RoundRobinProposer};
use consensus_core::testing::{MockBlock, MockBlockMetadata, MockHash, MockQuorumCert};
use std::sync::Arc;
use std::time::Duration;

struct FixedInterval;

impl RoundIntervalStrategy for FixedInterval {
    fn round_duration(&self, _round_index_after_ordered: usize) -> Duration {
        Duration::from_millis(1000)
    }

    fn get_round_duration(&self, round_index_after_ordered: usize) -> Duration {
        self.round_duration(round_index_after_ordered)
    }
}

type TestProposerElection = RoundRobinProposer<MockHash>;
type TestConsensus = Consensus<TestProposerElection, FixedInterval>;
type TestRuntime = ConsensusRuntime<TestProposerElection, FixedInterval, ()>;

fn consensus() -> TestConsensus {
    let proposer = RoundRobinProposer::new(vec![MockHash(1)], ProposerElectionConfig::default());
    ConsensusBuilder::new(Pacemaker::new(FixedInterval, 1)).proposer_election(proposer).build().unwrap()
}

#[test]
fn test_runtime_config_default() {
    let config = RuntimeConfig::default();
    assert_eq!(config.process_interval_ms, 100);
    assert_eq!(config.max_concurrent_tasks, 10);
}

#[test]
fn test_runtime_config_new() {
    let config = RuntimeConfig::new(50, 5, 2000, 2048);
    assert_eq!(config.process_interval_ms, 50);
    assert_eq!(config.max_concurrent_tasks, 5);
    assert_eq!(config.network_timeout_ms, 2000);
    assert_eq!(config.network_buffer_size, 2048);
}

#[test]
fn test_execution_result() {
    assert!(ExecutionResult::success().is_success());
    assert!(ExecutionResult::failed("test error").is_success() == false);
    assert!(ExecutionResult::timeout().is_success() == false);
    assert!(ExecutionResult::skipped("test skip").is_success() == false);
}

#[test]
fn runtime_test_network_message_display() {
    let block = Arc::new(MockBlock::genesis());
    let msg = NetworkMessage::Proposal { block };

    assert!(msg.to_string().contains("Proposal"));
}

#[test]
fn test_runtime_new() {
    let runtime = TestRuntime::new(consensus(), RuntimeConfig::default(), None);
    assert!(!runtime.is_running());
    assert_eq!(runtime.pending_message_count(), 0);
}

#[test]
fn test_runtime_add_message() {
    let mut runtime = TestRuntime::new(consensus(), RuntimeConfig::default(), None);
    let block = Arc::new(MockBlock::genesis());
    runtime.add_network_message(NetworkMessage::Proposal { block });

    assert_eq!(runtime.pending_message_count(), 1);
}

#[test]
fn test_runtime_start_stop() {
    let mut runtime = TestRuntime::new(consensus(), RuntimeConfig::default(), None);

    assert!(runtime.start().is_ok());
    assert!(runtime.is_running());

    assert!(runtime.shutdown().is_ok());
    assert!(!runtime.is_running());
}

#[test]
fn test_runtime_getters() {
    let runtime = TestRuntime::new(consensus(), RuntimeConfig::default(), None);

    assert_eq!(runtime.epoch(), 0);
    assert_eq!(runtime.round(), 0);
    assert_eq!(runtime.active_task_count(), 0);
}

#[test]
fn network_messages_name_their_round() {
    let block = Arc::new(MockBlock::new(vec![], MockBlockMetadata::new(0, 7, MockHash(1), MockHash(0), 0)));
    assert_eq!(NetworkMessage::Proposal { block }.to_string(), "Proposal(round=7)");
    assert_eq!(NetworkMessage::Timeout { round: 3 }.to_string(), "Timeout(round=3)");
    assert_eq!(NetworkMessage::SyncResponse { blocks: vec![] }.to_string(), "SyncResponse(count=0)");
}

#[test]
fn starting_twice_is_refused() {
    let mut runtime = TestRuntime::new(consensus(), RuntimeConfig::default(), None);
    runtime.start().unwrap();
    assert!(runtime.start().is_err());
    assert!(runtime.is_running());
}

#[test]
fn consensus_mut_changes_the_runtime_instance() {
    let mut runtime = TestRuntime::new(consensus(), RuntimeConfig::default(), None);
    runtime.consensus_mut().start().unwrap();
    assert_eq!(runtime.state(), &consensus_core::consensus::ConsensusState::Running);
}

#[test]
fn queued_messages_are_handled_in_order_against_the_moving_pacemaker() {
    let mut runtime = TestRuntime::new(consensus(), RuntimeConfig::default(), None);
    runtime.start().unwrap();
    let qc = |round: u64| {
        Arc::new(MockQuorumCert::with_metadata(MockBlockMetadata::new(0, round, MockHash(0), MockHash(0), 0), MockHash(0)))
    };
    runtime.add_network_message(NetworkMessage::Timeout { round: 5 });
    runtime.add_network_message(NetworkMessage::Timeout { round: 3 });
    runtime.add_network_message(NetworkMessage::QuorumCertificate { qc: qc(2) });
    runtime.add_network_message(NetworkMessage::QuorumCertificate { qc: qc(2) });
    runtime.add_network_message(NetworkMessage::SyncRequest { target_round: 9 });
    let results = runtime.process_pending_messages();
    assert_eq!(runtime.pending_message_count(), 0);
    assert_eq!(results.len(), 5);
    assert!(results[0].1.is_success());
    match &results[1].1 {
        ExecutionResult::Failed { message } => assert_eq!(message, "Cannot enter round 4: current round is 6"),
        _ => panic!("expected a failure"),
    }
    assert!(results[2].1.is_success());
    match &results[3].1 {
        ExecutionResult::Failed { message } => {
            assert_eq!(message, "Round 2 is not greater than highest ordered round 2")
        }
        _ => panic!("expected a failure"),
    }
    assert!(matches!(&results[4].1, ExecutionResult::Skipped { .. }));
}

#[test]
fn messages_before_start_fail_as_not_running() {
    let mut runtime = TestRuntime::new(consensus(), RuntimeConfig::default(), None);
    let r = runtime.handle_network_message(NetworkMessage::Timeout { round: 1 });
    match r {
        ExecutionResult::Failed { message } => assert_eq!(message, "Not in running state: bootstrapping"),
        _ => panic!("expected a failure"),
    }
}

#[test]
fn runtime_config_durations_are_in_milliseconds() {
    let config = RuntimeConfig::new(250, 4, 7000, 64);
    assert_eq!(config.process_interval(), Duration::from_millis(250));
    assert_eq!(config.network_timeout(), Duration::from_millis(7000));
}
