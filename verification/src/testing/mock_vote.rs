//! Votes, vote data, ledger information and commit information.
use vstd::prelude::*;

use super::{MockBlockMetadata, MockHash, MockNodeId, MockSignature};
use super::mock_block::is_genesis_metadata;
use crate::error::Error;

verus! {

/// The data a vote refers to.
#[derive(Clone, Copy, Debug)]
pub struct MockVoteData;

/// The ledger information a vote carries.
#[derive(Clone, Copy, Debug)]
pub struct MockLedgerInfo;

/// The commit information of a ledger info.
#[derive(Clone, Copy, Debug)]
pub struct MockCommitInfo;

/// A vote: author, block, round and signature.
#[derive(Clone, Copy, Debug)]
pub struct MockVote {
    author: MockNodeId,
    block_id: MockHash,
    round: u64,
    signature: MockSignature,
    vote_data: MockVoteData,
    ledger_info: MockLedgerInfo,
}

impl MockVote {
    /// The author of the vote.
    pub closed spec fn spec_author(&self) -> MockNodeId {
        self.author
    }

    /// The block voted for.
    pub closed spec fn spec_block_id(&self) -> MockHash {
        self.block_id
    }

    /// The round of the vote.
    pub closed spec fn spec_round(&self) -> u64 {
        self.round
    }

    /// The signature of the vote.
    pub closed spec fn spec_signature(&self) -> MockSignature {
        self.signature
    }

    /// A vote by `author` for `block_id` in `round`, signed with the author's byte.
    pub fn new(author: MockNodeId, block_id: MockHash, round: u64) -> (v: Self)
        ensures
            v.spec_author() == author,
            v.spec_block_id() == block_id,
            v.spec_round() == round,
            v.spec_signature() == MockSignature(author.0),
    {
        MockVote {
            author,
            block_id,
            round,
            signature: MockSignature(author.0),
            vote_data: MockVoteData,
            ledger_info: MockLedgerInfo,
        }
    }

    /// A vote by `author` for `block_id` in `round`, signed with `sig_byte`.
    pub fn with_signature(author: MockNodeId, block_id: MockHash, round: u64, sig_byte: u8) -> (v: Self)
        ensures
            v.spec_author() == author,
            v.spec_block_id() == block_id,
            v.spec_round() == round,
            v.spec_signature() == MockSignature(sig_byte),
    {
        MockVote {
            author,
            block_id,
            round,
            signature: MockSignature(sig_byte),
            vote_data: MockVoteData,
            ledger_info: MockLedgerInfo,
        }
    }

    /// The vote data.
    pub fn vote_data(&self) -> (d: &MockVoteData)
        ensures
            *d == MockVoteData,
    {
        &self.vote_data
    }

    /// The author of the vote.
    pub fn author(&self) -> (a: MockNodeId)
        ensures
            a == self.spec_author(),
    {
        self.author
    }

    /// The ledger information.
    pub fn ledger_info(&self) -> (l: &MockLedgerInfo)
        ensures
            *l == MockLedgerInfo,
    {
        &self.ledger_info
    }

    /// The signature of the vote.
    pub fn signature(&self) -> (s: &MockSignature)
        ensures
            *s == self.spec_signature(),
    {
        &self.signature
    }

    /// The block voted for.
    pub fn block_id(&self) -> (h: MockHash)
        ensures
            h == self.spec_block_id(),
    {
        self.block_id
    }

    /// The round of the vote.
    pub fn round(&self) -> (r: u64)
        ensures
            r == self.spec_round(),
    {
        self.round
    }

    /// Verifies the vote; every vote is valid.
    pub fn verify<T>(&self, verifier: &T) -> (r: Result<(), Error>)
        ensures
            r is Ok,
    {
        Ok(())
    }
}

impl MockVoteData {
    /// The proposed block's metadata (genesis).
    pub fn proposed_block(&self) -> (m: MockBlockMetadata)
        ensures
            is_genesis_metadata(m),
    {
        MockBlockMetadata::genesis()
    }

    /// The parent block's metadata (genesis).
    pub fn parent_block(&self) -> (m: MockBlockMetadata)
        ensures
            is_genesis_metadata(m),
    {
        MockBlockMetadata::genesis()
    }

    /// Verifies the vote data; always valid.
    pub fn verify(&self) -> (r: Result<(), Error>)
        ensures
            r is Ok,
    {
        Ok(())
    }
}

impl MockLedgerInfo {
    /// The commit information.
    pub fn commit_info(&self) -> (c: MockCommitInfo)
        ensures
            c == MockCommitInfo,
    {
        MockCommitInfo
    }

    /// The epoch of the ledger info (0).
    pub fn epoch(&self) -> (e: u64)
        ensures
            e == 0,
    {
        0
    }

    /// The round of the ledger info (0).
    pub fn round(&self) -> (r: u64)
        ensures
            r == 0,
    {
        0
    }

    /// The accumulated state hash (zero).
    pub fn accumulated_state(&self) -> (h: MockHash)
        ensures
            h == MockHash(0),
    {
        MockHash(0)
    }
}

impl MockCommitInfo {
    /// The committed block (zero).
    pub fn block_id(&self) -> (h: MockHash)
        ensures
            h == MockHash(0),
    {
        MockHash(0)
    }

    /// The epoch (0).
    pub fn epoch(&self) -> (e: u64)
        ensures
            e == 0,
    {
        0
    }

    /// The round (0).
    pub fn round(&self) -> (r: u64)
        ensures
            r == 0,
    {
        0
    }

    /// The version (0).
    pub fn version(&self) -> (v: u64)
        ensures
            v == 0,
    {
        0
    }

    /// The timestamp (0).
    pub fn timestamp(&self) -> (t: u64)
        ensures
            t == 0,
    {
        0
    }
}

} // verus!
