//! Blocks, block metadata, quorum certificates and transactions.
use vstd::prelude::*;

use super::{MockAggregatedSignature, MockHash, MockNodeId, MockSignature, MockVote};
use crate::error::Error;

verus! {

/// Metadata of a block: epoch, round, author, parent and timestamp.
#[derive(Clone, Copy, Debug, PartialEq, Eq, Structural)]
pub struct MockBlockMetadata {
    epoch: u64,
    round: u64,
    author: MockNodeId,
    parent_id: MockHash,
    timestamp: u64,
}

impl MockBlockMetadata {
    /// The epoch of the block.
    pub closed spec fn spec_epoch(&self) -> u64 {
        self.epoch
    }

    /// The round of the block.
    pub closed spec fn spec_round(&self) -> u64 {
        self.round
    }

    /// The author of the block.
    pub closed spec fn spec_author(&self) -> MockNodeId {
        self.author
    }

    /// The parent block's identifier.
    pub closed spec fn spec_parent_id(&self) -> MockHash {
        self.parent_id
    }

    /// The timestamp of the block.
    pub closed spec fn spec_timestamp(&self) -> u64 {
        self.timestamp
    }

    /// Creates block metadata.
    pub fn new(epoch: u64, round: u64, author: MockNodeId, parent_id: MockHash, timestamp: u64) -> (m: Self)
        ensures
            m.spec_epoch() == epoch,
            m.spec_round() == round,
            m.spec_author() == author,
            m.spec_parent_id() == parent_id,
            m.spec_timestamp() == timestamp,
    {
        MockBlockMetadata { epoch, round, author, parent_id, timestamp }
    }

    /// Metadata of the genesis block: every field zero.
    pub fn genesis() -> (m: Self)
        ensures
            is_genesis_metadata(m),
    {
        MockBlockMetadata { epoch: 0, round: 0, author: MockHash(0), parent_id: MockHash(0), timestamp: 0 }
    }

    /// The epoch of the block.
    pub fn epoch(&self) -> (e: u64)
        ensures
            e == self.spec_epoch(),
    {
        self.epoch
    }

    /// The round of the block.
    pub fn round(&self) -> (r: u64)
        ensures
            r == self.spec_round(),
    {
        self.round
    }

    /// The author of the block.
    pub fn author(&self) -> (a: MockNodeId)
        ensures
            a == self.spec_author(),
    {
        self.author
    }

    /// The parent block's identifier.
    pub fn parent_id(&self) -> (p: MockHash)
        ensures
            p == self.spec_parent_id(),
    {
        self.parent_id
    }

    /// The timestamp of the block.
    pub fn timestamp(&self) -> (t: u64)
        ensures
            t == self.spec_timestamp(),
    {
        self.timestamp
    }
}

/// Whether every field of the metadata is zero.
pub open spec fn is_genesis_metadata(m: MockBlockMetadata) -> bool {
    &&& m.spec_epoch() == 0
    &&& m.spec_round() == 0
    &&& m.spec_author() == MockHash(0)
    &&& m.spec_parent_id() == MockHash(0)
    &&& m.spec_timestamp() == 0
}

/// A quorum certificate: the certified block's metadata and its identifier.
#[derive(Clone, Copy, Debug)]
pub struct MockQuorumCert {
    metadata: MockBlockMetadata,
    block_id: MockHash,
}

impl MockQuorumCert {
    /// The metadata of the certified block.
    pub closed spec fn spec_certified_block(&self) -> MockBlockMetadata {
        self.metadata
    }

    /// The identifier of the certified block.
    pub closed spec fn spec_block_id(&self) -> MockHash {
        self.block_id
    }

    /// The round of the certified block.
    pub open spec fn spec_round(&self) -> u64 {
        self.spec_certified_block().spec_round()
    }

    /// A certificate for `block_id` with genesis metadata.
    pub fn new(block_id: MockHash) -> (qc: Self)
        ensures
            is_genesis_metadata(qc.spec_certified_block()),
            qc.spec_block_id() == block_id,
    {
        MockQuorumCert { metadata: MockBlockMetadata::genesis(), block_id }
    }

    /// A certificate for `block_id` certifying `metadata`.
    pub fn with_metadata(metadata: MockBlockMetadata, block_id: MockHash) -> (qc: Self)
        ensures
            qc.spec_certified_block() == metadata,
            qc.spec_block_id() == block_id,
    {
        MockQuorumCert { metadata, block_id }
    }

    /// The default certificate: block identifier zero, genesis metadata.
    pub fn default() -> (qc: Self)
        ensures
            is_genesis_metadata(qc.spec_certified_block()),
            qc.spec_block_id() == MockHash(0),
    {
        Self::new(MockHash(0))
    }

    /// The metadata of the certified block.
    pub fn certified_block(&self) -> (m: &MockBlockMetadata)
        ensures
            *m == self.spec_certified_block(),
    {
        &self.metadata
    }

    /// The identifier of the certified block.
    pub fn block_id(&self) -> (h: MockHash)
        ensures
            h == self.spec_block_id(),
    {
        self.block_id
    }

    /// The round of the certified block.
    pub fn round(&self) -> (r: u64)
        ensures
            r == self.spec_round(),
    {
        self.metadata.round
    }

    /// Builds a certificate from votes and their aggregated signature: the
    /// default certificate.
    pub fn from_votes(votes: &[std::sync::Arc<MockVote>], aggregated_signature: MockAggregatedSignature) -> (r: Result<
        MockQuorumCert,
        Error,
    >)
        ensures
            r matches Ok(qc) && is_genesis_metadata(qc.spec_certified_block()) && qc.spec_block_id() == MockHash(0),
    {
        Ok(Self::default())
    }

    /// Verifies the certificate; every certificate is valid.
    pub fn verify(&self) -> (r: Result<(), Error>)
        ensures
            r is Ok,
    {
        Ok(())
    }
}

/// A transaction.
#[derive(Clone, Copy, Debug)]
pub struct MockTransaction;

impl MockTransaction {
    /// The hash of the transaction (zero).
    pub fn hash(&self) -> (h: MockHash)
        ensures
            h == MockHash(0),
    {
        MockHash(0)
    }

    /// The size of the transaction in bytes (100).
    pub fn size(&self) -> (s: usize)
        ensures
            s == 100,
    {
        100
    }
}

/// A block: metadata and transactions.
#[derive(Clone, Debug)]
pub struct MockBlock {
    metadata: MockBlockMetadata,
    transactions: Vec<MockTransaction>,
}

/// The identifier of a block with the given metadata: the low byte of its
/// round combined by exclusive or with its author.
pub open spec fn block_id_of(m: MockBlockMetadata) -> MockHash {
    MockHash((m.spec_round() as u8) ^ m.spec_author().0)
}

impl MockBlock {
    /// The metadata of the block.
    pub closed spec fn spec_metadata(&self) -> MockBlockMetadata {
        self.metadata
    }

    /// The round of the block.
    pub open spec fn spec_round(&self) -> u64 {
        self.spec_metadata().spec_round()
    }

    /// The parent block's identifier.
    pub open spec fn spec_parent_id(&self) -> MockHash {
        self.spec_metadata().spec_parent_id()
    }

    /// The transactions of the block, in order.
    pub closed spec fn spec_transactions(&self) -> Seq<MockTransaction> {
        self.transactions@
    }

    /// The number of transactions in the block.
    pub open spec fn spec_num_transactions(&self) -> nat {
        self.spec_transactions().len()
    }

    /// Creates a block from transactions and metadata.
    pub fn new(transactions: Vec<MockTransaction>, metadata: MockBlockMetadata) -> (b: Self)
        ensures
            b.spec_metadata() == metadata,
            b.spec_transactions() == transactions@,
    {
        MockBlock { metadata, transactions }
    }

    /// The genesis block: genesis metadata and no transactions.
    pub fn genesis() -> (b: Self)
        ensures
            is_genesis_metadata(b.spec_metadata()),
            b.spec_transactions() == Seq::<MockTransaction>::empty(),
    {
        MockBlock { metadata: MockBlockMetadata::genesis(), transactions: Vec::new() }
    }

    /// The genesis block.
    pub fn new_genesis() -> (b: Self)
        ensures
            is_genesis_metadata(b.spec_metadata()),
            b.spec_transactions() == Seq::<MockTransaction>::empty(),
    {
        Self::genesis()
    }

    /// The identifier of the block, derived from its round and author.
    pub fn id(&self) -> (h: MockHash)
        ensures
            h == block_id_of(self.spec_metadata()),
    {
        MockHash((self.metadata.round as u8) ^ self.metadata.author.0)
    }

    /// The parent block's identifier.
    pub fn parent_id(&self) -> (h: MockHash)
        ensures
            h == self.spec_parent_id(),
    {
        self.metadata.parent_id
    }

    /// The transactions of the block.
    pub fn transactions(&self) -> (t: &[MockTransaction])
        ensures
            t@ == self.spec_transactions(),
    {
        self.transactions.as_slice()
    }

    /// The metadata of the block.
    pub fn metadata(&self) -> (m: &MockBlockMetadata)
        ensures
            *m == self.spec_metadata(),
    {
        &self.metadata
    }

    /// The signature of the block (none).
    pub fn signature(&self) -> (s: Option<&MockSignature>)
        ensures
            s is None,
    {
        None
    }

    /// Verifies the block signature; every block is valid.
    pub fn verify_signature(&self) -> (r: Result<(), Error>)
        ensures
            r is Ok,
    {
        Ok(())
    }

    /// Whether this is the genesis block: epoch and round are zero.
    pub fn is_genesis(&self) -> (g: bool)
        ensures
            g == (self.spec_metadata().spec_epoch() == 0 && self.spec_metadata().spec_round() == 0),
    {
        self.metadata.epoch == 0 && self.metadata.round == 0
    }

    /// Whether this is a nil block (never).
    pub fn is_nil(&self) -> (n: bool)
        ensures
            !n,
    {
        false
    }
}

} // verus!
