use consensus_core::dag::{
    AnchorElection, CommitEvent, DagDriver, DagDriverConfig, TestAuthor, TestCertifiedNode, TestNodeBuilder, TestRound,
};
use std::sync::Arc;

struct TestAnchorElection;

impl AnchorElection for TestAnchorElection {
    type Round = TestRound;
    type Author = TestAuthor;

    fn get_anchor(&self, _round: &Self::Round) -> Self::Author {
        TestAuthor(1)
    }

    fn update_reputation(&self, _event: &CommitEvent<Self::Round, Self::Author>) {}
}

type TestDriver = DagDriver<TestCertifiedNode, TestAnchorElection>;

fn driver_at(round: TestRound) -> TestDriver {
    let authors = vec![TestAuthor(1), TestAuthor(2), TestAuthor(3)];
    let anchor_election = Arc::new(TestAnchorElection);
    let config = DagDriverConfig::default();
    TestDriver::new(authors, anchor_election, round, config)
}

#[test]
fn test_dag_driver_config_default() {
    let config = DagDriverConfig::default();
    assert_eq!(config.window_size, 100);
    assert_eq!(config.anchor_interval, 2);
    assert_eq!(config.max_concurrent_rounds, 10);
}

#[test]
fn test_dag_driver_config_new() {
    let config = DagDriverConfig { window_size: 200, anchor_interval: 5, max_concurrent_rounds: 20 };
    assert_eq!(config.window_size, 200);
    assert_eq!(config.anchor_interval, 5);
    assert_eq!(config.max_concurrent_rounds, 20);
}

#[test]
fn test_dag_driver_dag_accessor() {
    let driver = driver_at(TestRound(1));

    let _dag = driver.dag();
}

#[test]
fn test_dag_driver_order_rule_accessor() {
    let driver = driver_at(TestRound(1));

    let _order_rule = driver.order_rule();
}

#[test]
fn test_dag_driver_enter_new_round() {
    let mut driver = driver_at(TestRound(1));

    assert!(driver.enter_new_round(TestRound(2)).is_ok());
    assert_eq!(driver.current_round(), &TestRound(2));

    assert!(driver.enter_new_round(TestRound(5)).is_ok());
    assert_eq!(driver.current_round(), &TestRound(5));

    let result = driver.enter_new_round(TestRound(3));
    assert!(result.is_err());
}

#[test]
fn test_dag_driver_get_strong_links() {
    let driver = driver_at(TestRound(1));

    let links = driver.get_strong_links(&TestRound(1));
    assert_eq!(links.len(), 0);

    let links2 = driver.get_strong_links(&TestRound(10));
    assert_eq!(links2.len(), 0);
}

#[test]
fn test_dag_driver_create_proposal() {
    let driver = driver_at(TestRound(1));

    assert!(driver.create_proposal().is_ok());
}

#[test]
fn test_dag_driver_add_pending() {
    let mut driver = driver_at(TestRound(1));

    assert_eq!(driver.pending_count(), 0);

    let node = Arc::new(TestNodeBuilder::new().round(1).author(1).build());
    driver.add_pending(node);

    assert_eq!(driver.pending_count(), 1);

    let node2 = Arc::new(TestNodeBuilder::new().round(1).author(2).build());
    driver.add_pending(node2);

    assert_eq!(driver.pending_count(), 2);
}

#[test]
fn test_dag_driver_process_pending() {
    let mut driver = driver_at(TestRound(1));

    let node1 = Arc::new(TestNodeBuilder::new().round(1).author(1).build());
    let node2 = Arc::new(TestNodeBuilder::new().round(1).author(2).build());
    driver.add_pending(node1);
    driver.add_pending(node2);

    assert_eq!(driver.pending_count(), 2);

    assert!(driver.process_pending().is_ok());

    assert_eq!(driver.pending_count(), 0);
}

#[test]
fn test_dag_driver_process_pending_when_processing() {
    let mut driver = driver_at(TestRound(1));

    let node1 = Arc::new(TestNodeBuilder::new().round(1).author(1).build());
    driver.add_pending(node1);
    assert_eq!(driver.pending_count(), 1);

    driver.set_processing(true);

    assert!(driver.process_pending().is_ok());

    assert_eq!(driver.pending_count(), 1);
}

#[test]
fn test_dag_driver_prune() {
    let mut driver = driver_at(TestRound(1));

    assert!(driver.prune().is_ok());
}

#[test]
fn test_dag_driver_config_all_fields() {
    let config = DagDriverConfig { window_size: 150, anchor_interval: 3, max_concurrent_rounds: 15 };
    assert_eq!(config.window_size, 150);
    assert_eq!(config.anchor_interval, 3);
    assert_eq!(config.max_concurrent_rounds, 15);
}

#[test]
fn test_dag_driver_current_round() {
    let driver = driver_at(TestRound(42));

    assert_eq!(driver.current_round(), &TestRound(42));
}

#[test]
fn test_dag_driver_with_custom_start_round() {
    let driver = driver_at(TestRound(100));

    assert_eq!(driver.current_round(), &TestRound(100));
    assert_eq!(driver.pending_count(), 0);
}

#[test]
fn test_dag_driver_multiple_rounds() {
    let mut driver = driver_at(TestRound(1));

    assert!(driver.enter_new_round(TestRound(2)).is_ok());
    assert!(driver.enter_new_round(TestRound(3)).is_ok());
    assert!(driver.enter_new_round(TestRound(4)).is_ok());

    assert_eq!(driver.current_round(), &TestRound(4));
}

#[test]
fn moving_back_names_both_rounds() {
    let mut driver = driver_at(TestRound(5));
    let err = driver.enter_new_round(TestRound(3)).unwrap_err();
    assert_eq!(err.to_string(), "Cannot move to round TestRound(3) from TestRound(5)");
    assert_eq!(driver.current_round(), &TestRound(5));
}

#[test]
fn the_rule_starts_at_the_driver_start_round() {
    let driver = driver_at(TestRound(9));
    assert_eq!(*driver.order_rule().lowest_unordered_round(), TestRound(9));
    assert_eq!(driver.dag().num_authors(), 3);
}
