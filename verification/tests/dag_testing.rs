use consensus_core::dag::{
    create_test_authors, create_test_dag, DagNodeMetadataImpl, DagPayloadImpl, HashValue, ParentCertificatesImpl,
    TestAuthor, TestEpoch, TestNodeBuilder, TestNodeId, TestParents, TestRound,
};

#[test]
fn test_test_round_all_trait_methods() {
    let round = TestRound(42);

    assert_eq!(TestRound::zero(), TestRound(0));
    assert_eq!(round.as_bytes().len(), 0);

    assert_eq!(round.to_string(), "42");

    assert!(TestRound(10) < TestRound(20));
    assert!(TestRound(10) <= TestRound(10));
}

#[test]
fn test_test_round_default() {
    let round = TestRound::default();
    assert_eq!(round.0, 0);
}

#[test]
fn test_test_author_all_trait_methods() {
    let author = TestAuthor(42);

    assert_eq!(TestAuthor::zero(), TestAuthor(0));
    assert_eq!(author.as_bytes().len(), 0);

    assert_eq!(author.to_string(), "42");
}

#[test]
fn test_test_epoch_all_trait_methods() {
    let epoch = TestEpoch(42);

    assert_eq!(TestEpoch::zero(), TestEpoch(0));
    assert_eq!(epoch.as_bytes().len(), 0);

    assert_eq!(epoch.to_string(), "42");

    assert!(TestEpoch(10) < TestEpoch(20));
    assert!(TestEpoch(10) <= TestEpoch(10));
}

#[test]
fn test_test_node_builder_chaining() {
    let node = TestNodeBuilder::new().epoch(2).round(15).author(7).timestamp(5000).build();

    let metadata = node.node().metadata();
    let node_id = metadata.node_id();

    assert_eq!(node_id.epoch(), &TestEpoch(2));
    assert_eq!(node_id.round(), &TestRound(15));
    assert_eq!(node_id.author(), &TestAuthor(7));
    assert_eq!(metadata.timestamp(), 5000);
}

#[test]
fn test_test_node_builder_default() {
    let node = TestNodeBuilder::default().build();

    let metadata = node.node().metadata();
    let node_id = metadata.node_id();

    assert_eq!(node_id.epoch(), &TestEpoch(1));
    assert_eq!(node_id.round(), &TestRound(1));
    assert_eq!(node_id.author(), &TestAuthor(1));
    assert_eq!(metadata.timestamp(), 0);
}

#[test]
fn test_create_test_dag_multiple_rounds() {
    let authors = create_test_authors(2);
    let nodes = create_test_dag(3, authors);

    assert_eq!(nodes.len(), 6); // 3 rounds * 2 authors

    assert_eq!(nodes[0].node().metadata().node_id().round(), &TestRound(1));
    assert_eq!(nodes[2].node().metadata().node_id().round(), &TestRound(2));
    assert_eq!(nodes[4].node().metadata().node_id().round(), &TestRound(3));
}

#[test]
fn test_create_test_dag_single_author() {
    let authors = create_test_authors(1);
    let nodes = create_test_dag(5, authors);

    assert_eq!(nodes.len(), 5); // 5 rounds * 1 author

    for node in &nodes {
        assert_eq!(node.node().metadata().node_id().author(), &TestAuthor(1));
    }
}

#[test]
fn test_create_test_authors_count() {
    let authors1 = create_test_authors(3);
    assert_eq!(authors1.len(), 3);

    let authors2 = create_test_authors(10);
    assert_eq!(authors2.len(), 10);
}

#[test]
fn test_test_node_id_components() {
    let id = TestNodeId::new(TestEpoch(5), TestRound(10), TestAuthor(7));

    assert_eq!(id.epoch(), &TestEpoch(5));
    assert_eq!(id.round(), &TestRound(10));
    assert_eq!(id.author(), &TestAuthor(7));
}

#[test]
fn test_test_metadata_type() {
    let id = TestNodeId::new(TestEpoch(1), TestRound(5), TestAuthor(3));
    let metadata = DagNodeMetadataImpl::new(id.clone(), 12345, TestRound(5));

    assert_eq!(metadata.node_id(), &id);
    assert_eq!(metadata.timestamp(), 12345);
    assert_eq!(metadata.round(), TestRound(5));
}

#[test]
fn test_test_payload_type() {
    let payload = DagPayloadImpl::new(vec![], TestRound(10));

    assert_eq!(payload.data().len(), 0);
}

#[test]
fn test_test_parents_type() {
    let parents: TestParents = ParentCertificatesImpl::empty();

    assert!(parents.is_empty());
}

#[test]
fn test_test_node_type() {
    let certified_node = TestNodeBuilder::new().build();

    let _metadata = certified_node.node().metadata();
    let _payload = certified_node.node().payload();
    let _parents = certified_node.node().parents();
    let _cert = certified_node.certificate();
}

#[test]
fn test_test_certificate_type() {
    let node = TestNodeBuilder::new().epoch(1).round(5).author(3).build();

    let cert = node.certificate();

    assert_eq!(cert.metadata().node_id().round(), &TestRound(5));
}

#[test]
fn test_test_certified_node_type() {
    let certified_node = TestNodeBuilder::new().epoch(1).round(5).author(3).build();

    assert_eq!(certified_node.node().metadata().node_id().round(), &TestRound(5));
    assert_eq!(certified_node.certificate().metadata().node_id().round(), &TestRound(5));
}

#[test]
fn test_test_types_zero_values() {
    assert_eq!(TestRound::zero().0, 0);
    assert_eq!(TestAuthor::zero().0, 0);
    assert_eq!(TestEpoch::zero().0, 0);

    let id1 = TestNodeId::new(TestEpoch::zero(), TestRound::zero(), TestAuthor::zero());
    let id2 = TestNodeId::new(TestEpoch(0), TestRound(0), TestAuthor(0));

    assert_eq!(id1.epoch(), id2.epoch());
    assert_eq!(id1.round(), id2.round());
    assert_eq!(id1.author(), id2.author());
}

#[test]
fn test_create_test_dag_timestamps() {
    let authors = create_test_authors(2);
    let nodes = create_test_dag(2, authors);

    let node1 = &nodes[0]; // round 1, position 0
    let node2 = &nodes[1]; // round 1, position 1

    let timestamp1 = node1.node().metadata().timestamp();
    let timestamp2 = node2.node().metadata().timestamp();

    // Timestamps are round * 1000 + position
    assert_eq!(timestamp1, 1000);
    assert_eq!(timestamp2, 1001);
}

#[test]
fn test_create_test_authors_sequence() {
    let authors = create_test_authors(5);

    assert_eq!(authors[0], TestAuthor(1));
    assert_eq!(authors[1], TestAuthor(2));
    assert_eq!(authors[2], TestAuthor(3));
    assert_eq!(authors[3], TestAuthor(4));
    assert_eq!(authors[4], TestAuthor(5));
}
