//! The DAG's node identifiers, metadata, payloads, parents, nodes,
//! certificates and votes.
use vstd::prelude::*;

use std::cmp::Ordering;
use std::sync::Arc;
use vstd::std_specs::cmp::PartialOrdSpec;
use vstd::std_specs::iter::IteratorSpec;

use crate::error::Error;

verus! {

/// A hash value of the DAG: it has a zero value and a byte form.
pub trait HashValue: Sized {
    /// The zero value.
    fn zero() -> Self;

    /// The value read from `bytes`.
    fn from_bytes(bytes: &[u8]) -> Result<Self, Error>;

    /// The byte form of the value.
    fn as_bytes(&self) -> &[u8];
}

/// A DAG node identifier: epoch, round and author. Identifiers are ordered
/// by round alone.
#[derive(Clone, Copy, Debug, PartialEq, Eq, Hash)]
pub struct DagNodeId<E, R, A> {
    epoch: E,
    round: R,
    author: A,
}

impl<E, R, A> DagNodeId<E, R, A> {
    /// The epoch.
    pub closed spec fn spec_epoch(&self) -> E {
        self.epoch
    }

    /// The round.
    pub closed spec fn spec_round(&self) -> R {
        self.round
    }

    /// The author.
    pub closed spec fn spec_author(&self) -> A {
        self.author
    }

    /// The identifier of the node of `author` in `round` of `epoch`.
    pub fn new(epoch: E, round: R, author: A) -> (id: Self)
        ensures
            id.spec_epoch() == epoch,
            id.spec_round() == round,
            id.spec_author() == author,
    {
        DagNodeId { epoch, round, author }
    }

    /// The epoch.
    pub fn epoch(&self) -> (e: &E)
        ensures
            *e == self.spec_epoch(),
    {
        &self.epoch
    }

    /// The round.
    pub fn round(&self) -> (r: &R)
        ensures
            *r == self.spec_round(),
    {
        &self.round
    }

    /// The author.
    pub fn author(&self) -> (a: &A)
        ensures
            *a == self.spec_author(),
    {
        &self.author
    }
}

impl<E: PartialEq, R: PartialOrd, A: PartialEq> PartialOrd for DagNodeId<E, R, A> {
    fn partial_cmp(&self, other: &Self) -> (r: Option<Ordering>) {
        match self.round.partial_cmp(&other.round) {
            Some(Ordering::Equal) => Some(Ordering::Equal),
            other => other,
        }
    }
}

impl<E: PartialEq, R: PartialOrd, A: PartialEq> vstd::std_specs::cmp::PartialOrdSpecImpl for DagNodeId<E, R, A> {
    open spec fn obeys_partial_cmp_spec() -> bool {
        R::obeys_partial_cmp_spec()
    }

    open spec fn partial_cmp_spec(&self, other: &Self) -> Option<Ordering> {
        self.spec_round().partial_cmp_spec(&other.spec_round())
    }
}

impl<E: PartialEq, R: PartialOrd, A: PartialEq> DagNodeId<E, R, A> {
    /// The order of two identifiers: the order of their rounds.
    pub fn cmp(&self, other: &Self) -> (r: Ordering)
        ensures
            R::obeys_partial_cmp_spec() ==> r == match self.spec_round().partial_cmp_spec(&other.spec_round()) {
                Some(o) => o,
                None => Ordering::Equal,
            },
    {
        match self.round.partial_cmp(&other.round) {
            Some(o) => o,
            None => Ordering::Equal,
        }
    }
}

/// The metadata of a DAG node: its identifier, timestamp and digest.
#[derive(Clone, Copy, Debug)]
pub struct DagNodeMetadataImpl<ID, H> {
    node_id: ID,
    timestamp: u64,
    digest: H,
}

impl<ID, H> DagNodeMetadataImpl<ID, H> {
    /// The node identifier.
    pub closed spec fn spec_node_id(&self) -> ID {
        self.node_id
    }

    /// The timestamp.
    pub closed spec fn spec_timestamp(&self) -> u64 {
        self.timestamp
    }

    /// The digest.
    pub closed spec fn spec_digest(&self) -> H {
        self.digest
    }

    /// Metadata from its parts.
    pub fn new(node_id: ID, timestamp: u64, digest: H) -> (m: Self)
        ensures
            m.spec_node_id() == node_id,
            m.spec_timestamp() == timestamp,
            m.spec_digest() == digest,
    {
        DagNodeMetadataImpl { node_id, timestamp, digest }
    }

    /// The node identifier.
    pub fn node_id(&self) -> (id: &ID)
        ensures
            *id == self.spec_node_id(),
    {
        &self.node_id
    }

    /// The timestamp.
    pub fn timestamp(&self) -> (t: u64)
        ensures
            t == self.spec_timestamp(),
    {
        self.timestamp
    }

    /// The digest.
    pub fn digest(&self) -> (d: &H)
        ensures
            *d == self.spec_digest(),
    {
        &self.digest
    }
}

impl<E: Copy, R: Copy, A: Copy, H> DagNodeMetadataImpl<DagNodeId<E, R, A>, H> {
    /// The epoch of the node.
    pub fn epoch(&self) -> (e: E)
        ensures
            e == self.spec_node_id().spec_epoch(),
    {
        *self.node_id.epoch()
    }

    /// The round of the node.
    pub fn round(&self) -> (r: R)
        ensures
            r == self.spec_node_id().spec_round(),
    {
        *self.node_id.round()
    }

    /// The author of the node.
    pub fn author(&self) -> (a: &A)
        ensures
            *a == self.spec_node_id().spec_author(),
    {
        self.node_id.author()
    }
}

/// The payload of a DAG node: raw bytes and their hash.
#[derive(Clone, Debug)]
pub struct DagPayloadImpl<H> {
    data: Vec<u8>,
    hash: H,
}

impl<H> DagPayloadImpl<H> {
    /// The bytes.
    pub closed spec fn spec_data(&self) -> Seq<u8> {
        self.data@
    }

    /// The hash.
    pub closed spec fn spec_hash(&self) -> H {
        self.hash
    }

    /// A payload of `data` with hash `hash`.
    pub fn new(data: Vec<u8>, hash: H) -> (p: Self)
        ensures
            p.spec_data() == data@,
            p.spec_hash() == hash,
    {
        DagPayloadImpl { data, hash }
    }

    /// The bytes.
    pub fn data(&self) -> (d: &[u8])
        ensures
            d@ == self.spec_data(),
    {
        self.data.as_slice()
    }

    /// Whether there are no bytes.
    pub fn is_empty(&self) -> (b: bool)
        ensures
            b == (self.spec_data().len() == 0),
    {
        self.data.len() == 0
    }

    /// The number of bytes.
    pub fn size(&self) -> (n: usize)
        ensures
            n == self.spec_data().len(),
    {
        self.data.len()
    }
}

impl<H: HashValue> DagPayloadImpl<H> {
    /// An empty payload with the zero hash.
    pub fn empty() -> (p: Self)
        ensures
            p.spec_data() == Seq::<u8>::empty(),
    {
        DagPayloadImpl { data: Vec::new(), hash: H::zero() }
    }
}

impl<H: Copy> DagPayloadImpl<H> {
    /// The hash.
    pub fn hash(&self) -> (h: H)
        ensures
            h == self.spec_hash(),
    {
        self.hash
    }
}

/// The certificates of a node's parents.
#[derive(Clone, Debug)]
pub struct ParentCertificatesImpl<M> {
    parents: Vec<M>,
}

impl<M> ParentCertificatesImpl<M> {
    /// The parents' metadata, in order.
    pub closed spec fn spec_parents(&self) -> Seq<M> {
        self.parents@
    }

    /// Parents from their metadata.
    pub fn new(parents: Vec<M>) -> (p: Self)
        ensures
            p.spec_parents() == parents@,
    {
        ParentCertificatesImpl { parents }
    }

    /// The parents' metadata.
    pub fn parents(&self) -> (p: &[M])
        ensures
            p@ == self.spec_parents(),
    {
        self.parents.as_slice()
    }

    /// No parents (for genesis nodes).
    pub fn empty() -> (p: Self)
        ensures
            p.spec_parents() == Seq::<M>::empty(),
    {
        ParentCertificatesImpl { parents: Vec::new() }
    }

    /// Adds a parent certificate.
    pub fn add(&mut self, certificate: M)
        ensures
            final(self).spec_parents() == old(self).spec_parents().push(certificate),
    {
        self.parents.push(certificate);
    }

    /// The number of parents.
    pub fn len(&self) -> (n: usize)
        ensures
            n == self.spec_parents().len(),
    {
        self.parents.len()
    }

    /// Whether there are no parents.
    pub fn is_empty(&self) -> (b: bool)
        ensures
            b == (self.spec_parents().len() == 0),
    {
        self.parents.len() == 0
    }

    /// The parents' metadata, in order.
    pub fn iter(&self) -> (it: std::slice::Iter<'_, M>)
        ensures
            it.remaining().unref() == self.spec_parents(),
    {
        let s = self.parents.as_slice();
        let it = s.iter();
        proof {
            vstd::std_specs::slice::axiom_spec_slice_iter(s);
        }
        it
    }
}

/// A DAG node: metadata, payload and parents.
#[derive(Clone, Debug)]
pub struct DagNodeImpl<M, P, Parents> {
    metadata: M,
    payload: P,
    parents: Parents,
}

impl<M, P, Parents> DagNodeImpl<M, P, Parents> {
    /// The metadata.
    pub closed spec fn spec_metadata(&self) -> M {
        self.metadata
    }

    /// The payload.
    pub closed spec fn spec_payload(&self) -> P {
        self.payload
    }

    /// The parents.
    pub closed spec fn spec_parents(&self) -> Parents {
        self.parents
    }

    /// A node from its parts.
    pub fn new(metadata: M, payload: P, parents: Parents) -> (n: Self)
        ensures
            n.spec_metadata() == metadata,
            n.spec_payload() == payload,
            n.spec_parents() == parents,
    {
        DagNodeImpl { metadata, payload, parents }
    }

    /// The metadata.
    pub fn metadata(&self) -> (m: &M)
        ensures
            *m == self.spec_metadata(),
    {
        &self.metadata
    }

    /// The payload.
    pub fn payload(&self) -> (p: &P)
        ensures
            *p == self.spec_payload(),
    {
        &self.payload
    }

    /// The parents.
    pub fn parents(&self) -> (p: &Parents)
        ensures
            *p == self.spec_parents(),
    {
        &self.parents
    }
}

/// The certificate of a node: its metadata and the aggregated signatures.
#[derive(Clone, Debug)]
pub struct NodeCertificateImpl<M, Sig> {
    metadata: M,
    signatures: Sig,
}

impl<M, Sig> NodeCertificateImpl<M, Sig> {
    /// The certified metadata.
    pub closed spec fn spec_metadata(&self) -> M {
        self.metadata
    }

    /// The signatures.
    pub closed spec fn spec_signatures(&self) -> Sig {
        self.signatures
    }

    /// A certificate of `metadata`.
    pub fn new(metadata: M, signatures: Sig) -> (c: Self)
        ensures
            c.spec_metadata() == metadata,
            c.spec_signatures() == signatures,
    {
        NodeCertificateImpl { metadata, signatures }
    }

    /// The certified metadata.
    pub fn metadata(&self) -> (m: &M)
        ensures
            *m == self.spec_metadata(),
    {
        &self.metadata
    }

    /// The signatures.
    pub fn signatures(&self) -> (s: &Sig)
        ensures
            *s == self.spec_signatures(),
    {
        &self.signatures
    }
}

/// A node together with its certificate.
#[derive(Clone, Debug)]
pub struct CertifiedNodeImpl<N, C> {
    node: Arc<N>,
    certificate: C,
}

impl<N, C> CertifiedNodeImpl<N, C> {
    /// The node.
    pub closed spec fn spec_node(&self) -> N {
        *self.node
    }

    /// The certificate.
    pub closed spec fn spec_certificate(&self) -> C {
        self.certificate
    }

    /// A certified node.
    pub fn new(node: N, certificate: C) -> (c: Self)
        ensures
            c.spec_node() == node,
            c.spec_certificate() == certificate,
    {
        CertifiedNodeImpl { node: Arc::new(node), certificate }
    }

    /// The node.
    pub fn node(&self) -> (n: &N)
        ensures
            *n == self.spec_node(),
    {
        &self.node
    }

    /// The certificate.
    pub fn certificate(&self) -> (c: &C)
        ensures
            *c == self.spec_certificate(),
    {
        &self.certificate
    }
}

/// A vote for a DAG node: its metadata and a signature.
#[derive(Clone, Debug)]
pub struct DagVoteImpl<M, S> {
    metadata: M,
    signature: S,
}

impl<M, S> DagVoteImpl<M, S> {
    /// The metadata voted for.
    pub closed spec fn spec_metadata(&self) -> M {
        self.metadata
    }

    /// The signature.
    pub closed spec fn spec_signature(&self) -> S {
        self.signature
    }

    /// A vote for `metadata`.
    pub fn new(metadata: M, signature: S) -> (v: Self)
        ensures
            v.spec_metadata() == metadata,
            v.spec_signature() == signature,
    {
        DagVoteImpl { metadata, signature }
    }

    /// The metadata voted for.
    pub fn metadata(&self) -> (m: &M)
        ensures
            *m == self.spec_metadata(),
    {
        &self.metadata
    }

    /// The signature.
    pub fn signature(&self) -> (s: &S)
        ensures
            *s == self.spec_signature(),
    {
        &self.signature
    }
}

} // verus!
