use consensus_core::dag::{
    AnchorElection, CommitEvent, DagStoreConfig, InMemDag, OrderRule, OrderingConfig, RoundRobinAnchorElection,
    TestAuthor, TestCertifiedNode, TestNodeBuilder, TestRound,
};
use std::sync::Arc;

fn order_rule_at(round: TestRound) -> OrderRule<TestCertifiedNode, RoundRobinAnchorElection<TestRound, TestAuthor>> {
    let authors = vec![TestAuthor(1), TestAuthor(2)];
    let election = Arc::new(RoundRobinAnchorElection::<TestRound, TestAuthor>::new(authors));
    let config = OrderingConfig::default();
    let dag = Arc::new(InMemDag::<TestCertifiedNode>::new(vec![TestAuthor(1), TestAuthor(2)], DagStoreConfig::default()));
    OrderRule::new(dag, election, round, config)
}

#[test]
fn test_ordering_config_new() {
    let config = OrderingConfig { window_size: 200, anchor_interval: 5 };
    assert_eq!(config.window_size, 200);
    assert_eq!(config.anchor_interval, 5);
}

#[test]
fn test_order_rule_new() {
    let round = TestRound(5);
    let order_rule = order_rule_at(round.clone());

    assert_eq!(*order_rule.lowest_unordered_round(), round);
}

#[test]
fn test_order_rule_lowest_unordered_round() {
    let authors = vec![TestAuthor(1), TestAuthor(2)];
    let election = Arc::new(RoundRobinAnchorElection::<TestRound, TestAuthor>::new(authors));
    let config = OrderingConfig::default();
    let dag = Arc::new(InMemDag::<TestCertifiedNode>::new(vec![TestAuthor(1), TestAuthor(2)], DagStoreConfig::default()));
    let round = TestRound(10);

    let order_rule = OrderRule::new(dag.clone(), election.clone(), round.clone(), config.clone());

    assert_eq!(*order_rule.lowest_unordered_round(), round);

    let order_rule2 = OrderRule::new(dag, election, TestRound(20), config);
    assert_eq!(*order_rule2.lowest_unordered_round(), TestRound(20));
}

#[test]
fn test_order_rule_process_new_node() {
    let mut order_rule = order_rule_at(TestRound(5));

    let node = TestNodeBuilder::new().epoch(1).round(5).author(1).build();

    let result = order_rule.process_new_node(&node);
    assert!(result.is_ok());
    assert!(result.unwrap().is_none());
}

#[test]
fn test_order_rule_process_all() {
    let mut order_rule = order_rule_at(TestRound(5));

    let result = order_rule.process_all();
    assert!(result.is_ok());
    assert!(result.unwrap().is_empty());
}

#[test]
fn test_order_rule_try_order_from_round() {
    let mut order_rule = order_rule_at(TestRound(5));

    let result = order_rule.try_order_from_round(TestRound(10));
    assert!(result.is_ok());
    assert!(result.unwrap().is_none());
}

#[test]
fn test_order_rule_find_anchor_with_enough_votes() {
    let order_rule = order_rule_at(TestRound(5));

    let result = order_rule.find_anchor_with_enough_votes(TestRound(10));
    assert!(result.is_ok());
    assert!(result.unwrap().is_none());
}

#[test]
fn test_order_rule_order_anchor() {
    let mut order_rule = order_rule_at(TestRound(5));

    let anchor = Arc::new(TestNodeBuilder::new().epoch(1).round(5).author(1).build());

    let result = order_rule.order_anchor(anchor);
    assert!(result.is_ok());
    assert!(result.unwrap().is_empty());
}

#[test]
fn test_order_rule_create_commit_event() {
    let order_rule = order_rule_at(TestRound(5));

    let event = order_rule.create_commit_event(&[]);

    assert_eq!(event.parents.len(), 0);
    assert_eq!(event.failed_authors.len(), 0);
}

#[test]
fn test_order_rule_can_trigger_ordering() {
    let order_rule = order_rule_at(TestRound(5));

    assert!(!order_rule.can_trigger_ordering(&TestRound(5)));
    assert!(!order_rule.can_trigger_ordering(&TestRound(10)));
}

#[test]
fn test_order_rule_compare_rounds() {
    let order_rule = order_rule_at(TestRound(5));

    assert_eq!(order_rule.compare_rounds(&TestRound(5), &TestRound(5)), std::cmp::Ordering::Equal);
    assert_eq!(order_rule.compare_rounds(&TestRound(5), &TestRound(10)), std::cmp::Ordering::Equal);
}

#[test]
fn test_order_rule_next_round() {
    let order_rule = order_rule_at(TestRound(5));

    assert_eq!(order_rule.next_round(TestRound(5)), TestRound(5));
    assert_eq!(order_rule.next_round(TestRound(10)), TestRound(10));
}

#[test]
fn test_round_robin_get_author_index() {
    let authors = vec![TestAuthor(1), TestAuthor(2), TestAuthor(3)];
    let election = RoundRobinAnchorElection::<TestRound, TestAuthor>::new(authors);

    assert_eq!(election.get_author_index(&TestAuthor(1)), Some(0));
    assert_eq!(election.get_author_index(&TestAuthor(2)), Some(1));
    assert_eq!(election.get_author_index(&TestAuthor(3)), Some(2));
    assert_eq!(election.get_author_index(&TestAuthor(99)), None);
}

#[test]
fn test_round_robin_update_reputation() {
    let authors = vec![TestAuthor(1), TestAuthor(2)];
    let election = RoundRobinAnchorElection::<TestRound, TestAuthor>::new(authors);

    let event = CommitEvent::new(TestRound(10), vec![], vec![]);

    election.update_reputation(&event);
}

#[test]
fn round_robin_anchors_take_turns() {
    let election = RoundRobinAnchorElection::<TestRound, TestAuthor>::new(vec![TestAuthor(4), TestAuthor(2)]);
    assert_eq!(election.get_anchor(&TestRound(0)), TestAuthor(4));
    assert_eq!(election.get_anchor(&TestRound(1)), TestAuthor(2));
    assert_eq!(election.get_anchor(&TestRound(2)), TestAuthor(4));
    assert_eq!(election.get_anchor(&TestRound(9)), TestAuthor(2));
    assert_ne!(election.get_anchor(&TestRound(1)), election.get_anchor(&TestRound(2)));
}

#[test]
fn commit_event_of_the_rule_is_anchored_at_the_lowest_unordered_round() {
    let order_rule = order_rule_at(TestRound(7));
    assert_eq!(order_rule.create_commit_event(&[]).anchor_id, TestRound(7));
}
