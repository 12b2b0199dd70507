//! Concrete DAG types for tests and examples: rounds, authors and epochs as
//! plain numbers, a node builder, and small test DAGs.
use vstd::prelude::*;

use std::cmp::Ordering;

use crate::dag::types::{
    CertifiedNodeImpl, DagNodeId, DagNodeImpl, DagNodeMetadataImpl, DagPayloadImpl, HashValue, NodeCertificateImpl,
    ParentCertificatesImpl,
};
use crate::error::Error;
use crate::text::{decimal, decimal_string};

verus! {

/// A round of the test DAG.
#[derive(Clone, Copy, Debug, PartialEq, Eq, Structural, Ord, Hash)]
pub struct TestRound(pub u64);

impl PartialOrd for TestRound {
    fn partial_cmp(&self, other: &Self) -> (r: Option<Ordering>) {
        if self.0 < other.0 {
            Some(Ordering::Less)
        } else if self.0 == other.0 {
            Some(Ordering::Equal)
        } else {
            Some(Ordering::Greater)
        }
    }
}

impl vstd::std_specs::cmp::PartialOrdSpecImpl for TestRound {
    open spec fn obeys_partial_cmp_spec() -> bool {
        true
    }

    open spec fn partial_cmp_spec(&self, other: &Self) -> Option<Ordering> {
        if self.0 < other.0 {
            Some(Ordering::Less)
        } else if self.0 == other.0 {
            Some(Ordering::Equal)
        } else {
            Some(Ordering::Greater)
        }
    }
}

impl Default for TestRound {
    fn default() -> (r: Self)
        ensures
            r == TestRound(0),
    {
        TestRound(0)
    }
}

impl HashValue for TestRound {
    fn zero() -> (r: Self)
        ensures
            r == TestRound(0),
    {
        TestRound(0)
    }

    fn from_bytes(bytes: &[u8]) -> (r: Result<Self, Error>)
        ensures
            r == Ok::<TestRound, Error>(TestRound(0)),
    {
        Ok(TestRound(0))
    }

    fn as_bytes(&self) -> (b: &[u8])
        ensures
            b@.len() == 0,
    {
        let e: &'static [u8] = &[];
        e
    }
}

impl TestRound {
    /// The round number in decimal.
    pub fn to_string(&self) -> (s: String)
        ensures
            s@ == decimal(self.0 as nat),
    {
        decimal_string(self.0)
    }
}

/// An author of the test DAG.
#[derive(Clone, Copy, Debug, PartialEq, Eq, Structural, Hash)]
pub struct TestAuthor(pub u8);

impl HashValue for TestAuthor {
    fn zero() -> (r: Self)
        ensures
            r == TestAuthor(0),
    {
        TestAuthor(0)
    }

    fn from_bytes(bytes: &[u8]) -> (r: Result<Self, Error>)
        ensures
            r == Ok::<TestAuthor, Error>(TestAuthor(0)),
    {
        Ok(TestAuthor(0))
    }

    fn as_bytes(&self) -> (b: &[u8])
        ensures
            b@.len() == 0,
    {
        let e: &'static [u8] = &[];
        e
    }
}

impl TestAuthor {
    /// The author number in decimal.
    pub fn to_string(&self) -> (s: String)
        ensures
            s@ == decimal(self.0 as nat),
    {
        decimal_string(self.0 as u64)
    }
}

/// An epoch of the test DAG.
#[derive(Clone, Copy, Debug, PartialEq, Eq, Structural, Ord, Hash)]
pub struct TestEpoch(pub u64);

impl PartialOrd for TestEpoch {
    fn partial_cmp(&self, other: &Self) -> (r: Option<Ordering>) {
        if self.0 < other.0 {
            Some(Ordering::Less)
        } else if self.0 == other.0 {
            Some(Ordering::Equal)
        } else {
            Some(Ordering::Greater)
        }
    }
}

impl vstd::std_specs::cmp::PartialOrdSpecImpl for TestEpoch {
    open spec fn obeys_partial_cmp_spec() -> bool {
        true
    }

    open spec fn partial_cmp_spec(&self, other: &Self) -> Option<Ordering> {
        if self.0 < other.0 {
            Some(Ordering::Less)
        } else if self.0 == other.0 {
            Some(Ordering::Equal)
        } else {
            Some(Ordering::Greater)
        }
    }
}

impl HashValue for TestEpoch {
    fn zero() -> (r: Self)
        ensures
            r == TestEpoch(0),
    {
        TestEpoch(0)
    }

    fn from_bytes(bytes: &[u8]) -> (r: Result<Self, Error>)
        ensures
            r == Ok::<TestEpoch, Error>(TestEpoch(0)),
    {
        Ok(TestEpoch(0))
    }

    fn as_bytes(&self) -> (b: &[u8])
        ensures
            b@.len() == 0,
    {
        let e: &'static [u8] = &[];
        e
    }
}

impl TestEpoch {
    /// The epoch number in decimal.
    pub fn to_string(&self) -> (s: String)
        ensures
            s@ == decimal(self.0 as nat),
    {
        decimal_string(self.0)
    }
}

/// Test node identifier.
pub type TestNodeId = DagNodeId<TestEpoch, TestRound, TestAuthor>;

/// Test metadata.
pub type TestMetadata = DagNodeMetadataImpl<TestNodeId, TestRound>;

/// Test payload.
pub type TestPayload = DagPayloadImpl<TestRound>;

/// Test parents.
pub type TestParents = ParentCertificatesImpl<TestMetadata>;

/// Test node.
pub type TestNode = DagNodeImpl<TestMetadata, TestPayload, TestParents>;

/// Test certificate.
pub type TestCertificate = NodeCertificateImpl<TestMetadata, TestRound>;

/// Test certified node.
pub type TestCertifiedNode = CertifiedNodeImpl<TestNode, TestCertificate>;

/// The text of a test node identifier.
pub open spec fn node_id_text(id: TestNodeId) -> Seq<char> {
    "DagNodeId[epoch="@ + decimal(id.spec_epoch().0 as nat) + ", round="@ + decimal(id.spec_round().0 as nat)
        + ", author="@ + decimal(id.spec_author().0 as nat) + "]"@
}

impl DagNodeId<TestEpoch, TestRound, TestAuthor> {
    /// A description such as `DagNodeId[epoch=5, round=10, author=3]`.
    pub fn to_string(&self) -> (s: String)
        ensures
            s@ == node_id_text(*self),
    {
        let mut s = String::from_str("DagNodeId[epoch=");
        let t = self.epoch().to_string();
        s.append(t.as_str());
        s.append(", round=");
        let t = self.round().to_string();
        s.append(t.as_str());
        s.append(", author=");
        let t = self.author().to_string();
        s.append(t.as_str());
        s.append("]");
        s
    }
}

/// Whether `c` is the certified node that the builder makes of these values:
/// no parents, an empty payload, the round as digest, payload hash and
/// certificate signature, and a certificate of the node's own metadata.
pub open spec fn is_test_node(c: TestCertifiedNode, epoch: u64, round: u64, author: u8, timestamp: u64) -> bool {
    let node = c.spec_node();
    let m = node.spec_metadata();
    &&& m.spec_node_id().spec_epoch() == TestEpoch(epoch)
    &&& m.spec_node_id().spec_round() == TestRound(round)
    &&& m.spec_node_id().spec_author() == TestAuthor(author)
    &&& m.spec_timestamp() == timestamp
    &&& m.spec_digest() == TestRound(round)
    &&& node.spec_payload().spec_data() == Seq::<u8>::empty()
    &&& node.spec_payload().spec_hash() == TestRound(round)
    &&& node.spec_parents().spec_parents() == Seq::<TestMetadata>::empty()
    &&& c.spec_certificate().spec_metadata() == m
    &&& c.spec_certificate().spec_signatures() == TestRound(round)
}

/// Builder of test certified nodes.
pub struct TestNodeBuilder {
    epoch: TestEpoch,
    round: TestRound,
    author: TestAuthor,
    timestamp: u64,
}

impl Default for TestNodeBuilder {
    fn default() -> (b: Self)
        ensures
            b.spec_values() == (1u64, 1u64, 1u8, 0u64),
    {
        Self::new()
    }
}

impl TestNodeBuilder {
    /// The epoch, round, author and timestamp being built.
    pub closed spec fn spec_values(&self) -> (u64, u64, u8, u64) {
        (self.epoch.0, self.round.0, self.author.0, self.timestamp)
    }

    /// A builder at epoch 1, round 1, author 1, timestamp 0.
    pub fn new() -> (b: Self)
        ensures
            b.spec_values() == (1u64, 1u64, 1u8, 0u64),
    {
        TestNodeBuilder { epoch: TestEpoch(1), round: TestRound(1), author: TestAuthor(1), timestamp: 0 }
    }

    /// Sets the epoch.
    pub fn epoch(self, epoch: u64) -> (b: Self)
        ensures
            b.spec_values() == (epoch, self.spec_values().1, self.spec_values().2, self.spec_values().3),
    {
        let mut b = self;
        b.epoch = TestEpoch(epoch);
        b
    }

    /// Sets the round.
    pub fn round(self, round: u64) -> (b: Self)
        ensures
            b.spec_values() == (self.spec_values().0, round, self.spec_values().2, self.spec_values().3),
    {
        let mut b = self;
        b.round = TestRound(round);
        b
    }

    /// Sets the author.
    pub fn author(self, author: u8) -> (b: Self)
        ensures
            b.spec_values() == (self.spec_values().0, self.spec_values().1, author, self.spec_values().3),
    {
        let mut b = self;
        b.author = TestAuthor(author);
        b
    }

    /// Sets the timestamp.
    pub fn timestamp(self, timestamp: u64) -> (b: Self)
        ensures
            b.spec_values() == (self.spec_values().0, self.spec_values().1, self.spec_values().2, timestamp),
    {
        let mut b = self;
        b.timestamp = timestamp;
        b
    }

    /// Builds the certified node.
    pub fn build(self) -> (c: TestCertifiedNode)
        ensures
            is_test_node(c, self.spec_values().0, self.spec_values().1, self.spec_values().2, self.spec_values().3),
    {
        let node_id = DagNodeId::new(self.epoch, self.round, self.author);
        let metadata = DagNodeMetadataImpl::new(node_id, self.timestamp, self.round);
        let payload = DagPayloadImpl::new(Vec::new(), self.round);
        let parents = ParentCertificatesImpl::empty();
        let node = DagNodeImpl::new(metadata, payload, parents);
        let cert = NodeCertificateImpl::new(metadata, self.round);
        CertifiedNodeImpl::new(node, cert)
    }
}

/// The position of the node of round `r` (from 1) and author index `i` in a
/// test DAG with `n` authors.
pub open spec fn dag_position(r: int, i: int, n: int) -> int {
    (r - 1) * n + i
}

/// A test DAG: for each round from 1 to `rounds`, one node per author in
/// order, in epoch 1, with timestamp `round * 1000 + author index`.
pub fn create_test_dag(rounds: u64, authors: Vec<TestAuthor>) -> (nodes: Vec<TestCertifiedNode>)
    requires
        rounds * 1000 + authors@.len() <= u64::MAX,
    ensures
        nodes@.len() == rounds * authors@.len(),
        forall|r: int, i: int|
            1 <= r <= rounds && 0 <= i < authors@.len() ==> is_test_node(
                #[trigger] nodes@[dag_position(r, i, authors@.len() as int)],
                1,
                r as u64,
                authors@[i].0,
                (r * 1000 + i) as u64,
            ),
{
    let n = authors.len();
    let mut nodes: Vec<TestCertifiedNode> = Vec::new();
    let mut round: u64 = 1;
    while round <= rounds
        invariant
            1 <= round <= rounds + 1,
            n == authors@.len(),
            rounds * 1000 + n <= u64::MAX,
            nodes@.len() == (round - 1) * n,
            forall|r: int, i: int|
                1 <= r < round && 0 <= i < n ==> is_test_node(
                    #[trigger] nodes@[dag_position(r, i, n as int)],
                    1,
                    r as u64,
                    authors@[i].0,
                    (r * 1000 + i) as u64,
                ),
        decreases rounds + 1 - round,
    {
        let mut i: usize = 0;
        while i < n
            invariant
                1 <= round <= rounds,
                i <= n,
                n == authors@.len(),
                rounds * 1000 + n <= u64::MAX,
                nodes@.len() == (round - 1) * n + i,
                forall|r: int, j: int|
                    1 <= r < round && 0 <= j < n ==> is_test_node(
                        #[trigger] nodes@[dag_position(r, j, n as int)],
                        1,
                        r as u64,
                        authors@[j].0,
                        (r * 1000 + j) as u64,
                    ),
                forall|j: int|
                    0 <= j < i ==> is_test_node(
                        #[trigger] nodes@[dag_position(round as int, j, n as int)],
                        1,
                        round,
                        authors@[j].0,
                        (round * 1000 + j) as u64,
                    ),
            decreases n - i,
        {
            proof {
                assert(round * 1000 <= rounds * 1000) by (nonlinear_arith)
                    requires
                        round <= rounds,
                ;
            }
            let node = TestNodeBuilder::new().epoch(1).round(round).author(authors[i].0).timestamp(
                round * 1000 + i as u64,
            ).build();
            let ghost before = nodes@;
            nodes.push(node);
            proof {
                assert(dag_position(round as int, i as int, n as int) == (round - 1) * n + i);
                assert forall|r: int, j: int|
                    1 <= r < round && 0 <= j < n implies is_test_node(
                        #[trigger] nodes@[dag_position(r, j, n as int)],
                        1,
                        r as u64,
                        authors@[j].0,
                        (r * 1000 + j) as u64,
                    ) by {
                    lemma_position_bound(r, j, n as int, round as int);
                    assert(nodes@[dag_position(r, j, n as int)] == before[dag_position(r, j, n as int)]);
                }
                assert forall|j: int|
                    0 <= j < i + 1 implies is_test_node(
                        #[trigger] nodes@[dag_position(round as int, j, n as int)],
                        1,
                        round,
                        authors@[j].0,
                        (round * 1000 + j) as u64,
                    ) by {
                    if j < i {
                        assert(dag_position(round as int, j, n as int) == (round - 1) * n + j);
                        assert(nodes@[dag_position(round as int, j, n as int)] == before[dag_position(
                            round as int,
                            j,
                            n as int,
                        )]);
                    }
                }
            }
            i = i + 1;
        }
        proof {
            assert((round - 1) * n + n == round * n) by (nonlinear_arith);
        }
        round = round + 1;
    }
    proof {
        assert(nodes@.len() == rounds * n);
    }
    nodes
}

proof fn lemma_position_bound(r: int, j: int, n: int, round: int)
    requires
        1 <= r < round,
        0 <= j < n,
    ensures
        dag_position(r, j, n) < (round - 1) * n,
        0 <= dag_position(r, j, n),
{
    assert((r - 1) * n + j < (round - 1) * n) by (nonlinear_arith)
        requires
            1 <= r < round,
            0 <= j < n,
    ;
    assert(0 <= (r - 1) * n) by (nonlinear_arith)
        requires
            1 <= r,
            0 <= n,
    ;
}

/// The authors 1 to `count`, in order.
pub fn create_test_authors(count: u8) -> (authors: Vec<TestAuthor>)
    ensures
        authors@.len() == count,
        forall|i: int| 0 <= i < count ==> #[trigger] authors@[i] == TestAuthor((i + 1) as u8),
{
    let mut authors: Vec<TestAuthor> = Vec::new();
    let mut a: u8 = 0;
    while a < count
        invariant
            a <= count,
            authors@.len() == a,
            forall|i: int| 0 <= i < a ==> #[trigger] authors@[i] == TestAuthor((i + 1) as u8),
        decreases count - a,
    {
        a = a + 1;
        authors.push(TestAuthor(a));
    }
    authors
}

} // verus!
