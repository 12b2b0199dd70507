use consensus_core::dag::{DagStoreConfig, InMemDag, TestAuthor, TestCertifiedNode, TestNodeBuilder, TestRound};

fn create_test_node(round: u64, author: u8) -> TestCertifiedNode {
    TestNodeBuilder::new().round(round).author(author).build()
}

fn store_of(authors: Vec<TestAuthor>) -> InMemDag<TestCertifiedNode> {
    InMemDag::<TestCertifiedNode>::new(authors, DagStoreConfig::default())
}

#[test]
fn test_dag_store_new() {
    let store = store_of(vec![TestAuthor(1), TestAuthor(2), TestAuthor(3)]);

    assert!(store.is_empty());
    assert_eq!(store.num_authors(), 3);
    assert_eq!(store.len(), 0);
}

#[test]
fn test_dag_store_add_node() {
    let mut store = store_of(vec![TestAuthor(1), TestAuthor(2), TestAuthor(3)]);

    let node = create_test_node(1, 1);
    assert!(store.add_node(node).is_ok());

    assert!(!store.is_empty());
    assert_eq!(store.len(), 1);
}

#[test]
fn test_dag_store_get_node() {
    let mut store = store_of(vec![TestAuthor(1), TestAuthor(2), TestAuthor(3)]);

    let node = create_test_node(1, 1);
    store.add_node(node).unwrap();

    let retrieved = store.get_node(&TestRound(1), &TestAuthor(1));
    assert!(retrieved.is_some());
}

#[test]
fn test_dag_store_get_round() {
    let mut store = store_of(vec![TestAuthor(1), TestAuthor(2), TestAuthor(3)]);

    store.add_node(create_test_node(1, 1)).unwrap();
    store.add_node(create_test_node(1, 2)).unwrap();
    store.add_node(create_test_node(2, 1)).unwrap();

    let round1 = store.get_round(&TestRound(1));
    assert_eq!(round1.len(), 2);

    let round2 = store.get_round(&TestRound(2));
    assert_eq!(round2.len(), 1);
}

#[test]
fn test_dag_store_exists() {
    let mut store = store_of(vec![TestAuthor(1), TestAuthor(2), TestAuthor(3)]);

    store.add_node(create_test_node(1, 1)).unwrap();

    assert!(store.node_exists(&TestRound(1), &TestAuthor(1)));
    assert!(!store.node_exists(&TestRound(1), &TestAuthor(2)));
    assert!(!store.node_exists(&TestRound(2), &TestAuthor(1)));
}

#[test]
fn test_dag_store_mark_ordered() {
    let mut store = store_of(vec![TestAuthor(1), TestAuthor(2), TestAuthor(3)]);

    let node = create_test_node(1, 1);
    store.add_node(node).unwrap();

    let status = store.get_node_status(&TestRound(1), &TestAuthor(1)).unwrap();
    assert!(!status.is_ordered());

    store.mark_ordered(&TestRound(1), &TestAuthor(1)).unwrap();

    let status = store.get_node_status(&TestRound(1), &TestAuthor(1)).unwrap();
    assert!(status.is_ordered());
}

#[test]
fn test_dag_store_add_duplicate_fails() {
    let mut store = store_of(vec![TestAuthor(1), TestAuthor(2), TestAuthor(3)]);

    store.add_node(create_test_node(1, 1)).unwrap();
    let result = store.add_node(create_test_node(1, 1));

    assert!(result.is_err());
}

#[test]
fn test_dag_store_unknown_author_fails() {
    let mut store = store_of(vec![TestAuthor(1), TestAuthor(2)]);

    let result = store.add_node(create_test_node(1, 3)); // Author 3 is not in the set

    assert!(result.is_err());
}

#[test]
fn test_dag_store_clear() {
    let mut store = store_of(vec![TestAuthor(1), TestAuthor(2), TestAuthor(3)]);

    store.add_node(create_test_node(1, 1)).unwrap();
    store.add_node(create_test_node(2, 2)).unwrap();

    assert_eq!(store.len(), 2);

    store.clear();

    assert!(store.is_empty());
}

#[test]
fn lowest_and_highest_round_of_the_stored_rounds() {
    let mut store = store_of(vec![TestAuthor(1), TestAuthor(2)]);
    assert_eq!(store.lowest_round(), TestRound(0));
    assert_eq!(store.highest_round(), TestRound(0));
    store.add_node(create_test_node(7, 1)).unwrap();
    store.add_node(create_test_node(3, 2)).unwrap();
    store.add_node(create_test_node(5, 1)).unwrap();
    assert_eq!(store.lowest_round(), TestRound(3));
    assert_eq!(store.highest_round(), TestRound(7));
}

#[test]
fn all_nodes_come_by_round_then_author() {
    let mut store = store_of(vec![TestAuthor(1), TestAuthor(2)]);
    store.add_node(create_test_node(2, 2)).unwrap();
    store.add_node(create_test_node(1, 2)).unwrap();
    store.add_node(create_test_node(2, 1)).unwrap();
    let all = store.all_nodes();
    let ids: Vec<(u64, u8)> =
        all.iter().map(|n| (n.node().metadata().node_id().round().0, n.node().metadata().node_id().author().0)).collect();
    assert_eq!(ids, vec![(1, 2), (2, 1), (2, 2)]);
}

#[test]
fn prune_below_keeps_rounds_from_the_bound_on() {
    let mut store = store_of(vec![TestAuthor(1)]);
    for r in 1..=5 {
        store.add_node(create_test_node(r, 1)).unwrap();
    }
    store.prune_below(&TestRound(3));
    assert_eq!(store.len(), 3);
    assert_eq!(store.lowest_round(), TestRound(3));
    assert!(!store.node_exists(&TestRound(2), &TestAuthor(1)));
    assert!(store.node_exists(&TestRound(3), &TestAuthor(1)));
}

#[test]
fn marking_twice_or_a_missing_node_is_refused() {
    let mut store = store_of(vec![TestAuthor(1), TestAuthor(2)]);
    store.add_node(create_test_node(1, 1)).unwrap();
    store.mark_ordered(&TestRound(1), &TestAuthor(1)).unwrap();
    assert!(store.mark_ordered(&TestRound(1), &TestAuthor(1)).is_err());
    assert!(store.mark_ordered(&TestRound(1), &TestAuthor(2)).is_err());
    assert!(store.mark_ordered(&TestRound(9), &TestAuthor(1)).is_err());
    assert!(store.mark_ordered(&TestRound(1), &TestAuthor(7)).is_err());
}

#[test]
fn authors_lists_each_author_once() {
    let store = store_of(vec![TestAuthor(4), TestAuthor(2), TestAuthor(9)]);
    let mut authors: Vec<u8> = store.authors().iter().map(|a| a.0).collect();
    authors.sort();
    assert_eq!(authors, vec![2, 4, 9]);
}

#[test]
fn a_node_below_the_pruned_rounds_is_refused() {
    let mut store = store_of(vec![TestAuthor(1), TestAuthor(2)]);
    store.add_node(create_test_node(6, 1)).unwrap();
    store.prune_below(&TestRound(5));
    let err = store.add_node(create_test_node(1, 1)).unwrap_err();
    assert_eq!(err.to_string(), "Round TestRound(1) is below the lowest round TestRound(5)");
    assert_eq!(store.len(), 1);
    assert!(!store.node_exists(&TestRound(1), &TestAuthor(1)));
    assert!(store.add_node(create_test_node(5, 2)).is_ok());
    assert_eq!(store.len(), 2);
}
