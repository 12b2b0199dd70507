use consensus_core::dag::TestAuthor as TestHash;
use consensus_core::dag::{
    CertifiedNodeImpl, DagNodeId, DagNodeImpl, DagNodeMetadataImpl, DagPayloadImpl, DagVoteImpl, NodeCertificateImpl,
    ParentCertificatesImpl, TestAuthor, TestEpoch, TestRound,
};
use std::hash::{Hash, Hasher};

type TestDagNodeId = DagNodeId<TestEpoch, TestRound, TestAuthor>;

#[test]
fn test_dag_node_id_creation() {
    let id = TestDagNodeId::new(TestEpoch(1), TestRound(2), TestAuthor(3));
    assert_eq!(id.epoch(), &TestEpoch(1));
    assert_eq!(id.round(), &TestRound(2));
    assert_eq!(id.author(), &TestAuthor(3));
}

#[test]
fn test_dag_node_id_ord() {
    let id1 = TestDagNodeId::new(TestEpoch(1), TestRound(1), TestAuthor(1));
    let id2 = TestDagNodeId::new(TestEpoch(1), TestRound(2), TestAuthor(1));
    assert!(id1 < id2);
}

#[test]
fn test_parent_certificates_empty() {
    let parents = ParentCertificatesImpl::<DagNodeMetadataImpl<TestDagNodeId, TestHash>>::empty();
    assert!(parents.is_empty());
    assert_eq!(parents.len(), 0);
}

#[test]
fn test_parent_certificates_add() {
    let mut parents = ParentCertificatesImpl::new(vec![]);
    assert!(parents.is_empty());

    let metadata =
        DagNodeMetadataImpl::new(TestDagNodeId::new(TestEpoch(1), TestRound(1), TestAuthor(1)), 100, TestHash(1));
    parents.add(metadata.clone());
    assert_eq!(parents.len(), 1);
    assert!(!parents.is_empty());
}

#[test]
fn test_dag_payload_empty() {
    let payload = DagPayloadImpl::<TestHash>::empty();
    assert!(payload.is_empty());
    assert_eq!(payload.size(), 0);
}

#[test]
fn test_dag_payload_hash() {
    let payload = DagPayloadImpl::new(vec![1, 2, 3], TestHash(42));
    assert_eq!(payload.hash(), TestHash(42));
    assert!(!payload.is_empty());
    assert_eq!(payload.size(), 3);
}

#[test]
fn test_dag_node_metadata_impl() {
    let id = TestDagNodeId::new(TestEpoch(5), TestRound(10), TestAuthor(3));
    let metadata = DagNodeMetadataImpl::new(id.clone(), 12345, TestHash(99));

    assert_eq!(metadata.node_id(), &id);
    assert_eq!(metadata.timestamp(), 12345);
    assert_eq!(metadata.digest(), &TestHash(99));
}

#[test]
fn test_dag_node_metadata_impl_display() {
    let id = TestDagNodeId::new(TestEpoch(5), TestRound(10), TestAuthor(3));
    let metadata = DagNodeMetadataImpl::new(id, 12345, TestHash(99));

    let display = format!("{:?}", metadata);
    assert!(display.contains("DagNodeMetadataImpl"));
}

#[test]
fn test_parent_certificates_iter() {
    let metadata =
        DagNodeMetadataImpl::new(TestDagNodeId::new(TestEpoch(1), TestRound(1), TestAuthor(1)), 100, TestHash(1));
    let parents = ParentCertificatesImpl::new(vec![metadata.clone()]);

    let mut count = 0;
    for p in parents.iter() {
        assert_eq!(p.timestamp(), 100);
        count += 1;
    }
    assert_eq!(count, 1);
}

#[test]
fn test_parent_certificates_parents() {
    let metadata =
        DagNodeMetadataImpl::new(TestDagNodeId::new(TestEpoch(1), TestRound(1), TestAuthor(1)), 100, TestHash(1));
    let parents = ParentCertificatesImpl::new(vec![metadata.clone()]);

    assert_eq!(parents.parents().len(), 1);
    assert_eq!(parents.parents()[0].timestamp(), 100);
}

#[test]
fn test_parent_certificates_add_via_trait() {
    let mut parents = ParentCertificatesImpl::new(vec![]);
    let metadata =
        DagNodeMetadataImpl::new(TestDagNodeId::new(TestEpoch(1), TestRound(1), TestAuthor(1)), 100, TestHash(1));
    parents.add(metadata.clone());
    assert_eq!(parents.len(), 1);
}

#[test]
fn test_dag_node_impl() {
    let metadata =
        DagNodeMetadataImpl::new(TestDagNodeId::new(TestEpoch(1), TestRound(1), TestAuthor(1)), 100, TestHash(1));
    let payload = DagPayloadImpl::new(vec![1, 2], TestHash(42));
    let parents: ParentCertificatesImpl<DagNodeMetadataImpl<TestDagNodeId, TestHash>> = ParentCertificatesImpl::empty();

    let node = DagNodeImpl::new(metadata.clone(), payload, parents);

    assert_eq!(node.metadata().timestamp(), 100);
    assert_eq!(node.payload().hash(), TestHash(42));
}

#[test]
fn test_node_certificate_impl() {
    let metadata =
        DagNodeMetadataImpl::new(TestDagNodeId::new(TestEpoch(1), TestRound(1), TestAuthor(1)), 100, TestHash(1));
    let sig = TestHash(42);

    let cert = NodeCertificateImpl::new(metadata.clone(), sig);
    assert_eq!(cert.metadata().timestamp(), 100);
    assert_eq!(cert.signatures(), &sig);
}

#[test]
fn test_certified_node_impl() {
    let metadata =
        DagNodeMetadataImpl::new(TestDagNodeId::new(TestEpoch(1), TestRound(1), TestAuthor(1)), 100, TestHash(1));
    let payload = DagPayloadImpl::new(vec![1, 2], TestHash(42));
    let parents: ParentCertificatesImpl<DagNodeMetadataImpl<TestDagNodeId, TestHash>> = ParentCertificatesImpl::empty();
    let node = DagNodeImpl::new(metadata.clone(), payload, parents);

    let cert = NodeCertificateImpl::new(metadata, TestHash(99));
    let certified = CertifiedNodeImpl::new(node, cert);

    assert_eq!(certified.certificate().signatures(), &TestHash(99));
}

#[test]
fn test_dag_vote_impl() {
    let metadata =
        DagNodeMetadataImpl::new(TestDagNodeId::new(TestEpoch(1), TestRound(1), TestAuthor(1)), 100, TestHash(1));
    let sig = TestHash(42);

    let vote = DagVoteImpl::new(metadata.clone(), sig);
    assert_eq!(vote.metadata().timestamp(), 100);
    assert_eq!(vote.signature(), &sig);
}

#[test]
fn test_dag_node_id_display() {
    let id = TestDagNodeId::new(TestEpoch(5), TestRound(10), TestAuthor(3));
    let display = id.to_string();
    assert!(display.contains("epoch=5"));
    assert!(display.contains("round=10"));
    assert!(display.contains("author=3"));
}

#[test]
fn test_dag_node_id_hash() {
    let id1 = TestDagNodeId::new(TestEpoch(5), TestRound(10), TestAuthor(3));
    let id2 = TestDagNodeId::new(TestEpoch(5), TestRound(10), TestAuthor(3));

    let mut h1 = std::collections::hash_map::DefaultHasher::new();
    let mut h2 = std::collections::hash_map::DefaultHasher::new();

    id1.hash(&mut h1);
    id2.hash(&mut h2);

    assert_eq!(h1.finish(), h2.finish());
}

#[test]
fn test_dag_node_id_clone() {
    let id1 = TestDagNodeId::new(TestEpoch(5), TestRound(10), TestAuthor(3));
    let id2 = id1.clone();

    assert_eq!(id1.epoch(), id2.epoch());
    assert_eq!(id1.round(), id2.round());
    assert_eq!(id1.author(), id2.author());
}

#[test]
fn test_dag_node_id_partial_ord_different_rounds() {
    let id1 = TestDagNodeId::new(TestEpoch(1), TestRound(5), TestAuthor(1));
    let id2 = TestDagNodeId::new(TestEpoch(1), TestRound(10), TestAuthor(1));

    assert_eq!(id1.partial_cmp(&id2), Some(std::cmp::Ordering::Less));
    assert_eq!(id2.partial_cmp(&id1), Some(std::cmp::Ordering::Greater));
}

#[test]
fn test_dag_node_id_partial_ord_same_round() {
    let id1 = TestDagNodeId::new(TestEpoch(1), TestRound(5), TestAuthor(1));
    let id2 = TestDagNodeId::new(TestEpoch(1), TestRound(5), TestAuthor(2));

    // Same round: equal
    assert_eq!(id1.partial_cmp(&id2), Some(std::cmp::Ordering::Equal));
}

#[test]
fn test_dag_node_id_cmp() {
    let id1 = TestDagNodeId::new(TestEpoch(1), TestRound(5), TestAuthor(1));
    let id2 = TestDagNodeId::new(TestEpoch(1), TestRound(10), TestAuthor(1));

    assert!(id1.cmp(&id2) == std::cmp::Ordering::Less);
    assert!(id2.cmp(&id1) == std::cmp::Ordering::Greater);
}
