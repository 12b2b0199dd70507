//! DAG consensus: validators propose nodes in parallel, forming a DAG of
//! certified nodes that is then ordered.
pub mod types;

pub use types::{
    CertifiedNodeImpl, DagNodeId, DagNodeImpl, DagNodeMetadataImpl, DagPayloadImpl, DagVoteImpl, HashValue,
    NodeCertificateImpl, ParentCertificatesImpl,
};
pub mod testing;

pub use testing::{
    create_test_authors, create_test_dag, TestAuthor, TestCertificate, TestCertifiedNode, TestEpoch, TestMetadata,
    TestNode, TestNodeBuilder, TestNodeId, TestParents, TestPayload, TestRound,
};
mod key_order;
mod node_count;
pub mod store;

pub use store::{DagStoreConfig, DagStoreNode, InMemDag, StoredNodeStatus};
pub mod ordering;

pub use ordering::{AnchorElection, CommitEvent, OrderRule, OrderingConfig, OrderingResult, RoundRobinAnchorElection};
pub mod driver;

pub use driver::{DagDriver, DagDriverConfig};
