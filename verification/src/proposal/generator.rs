//! Generation of block proposals.
use vstd::prelude::*;

use crate::clock::{elapsed_since_unix_epoch, whole_millis};
use crate::error::Error;
use crate::testing::{MockBlock, MockHash, MockNodeId, MockQuorumCert, MockTransaction};
use crate::types::{Epoch, Round};

verus! {

/// Configuration for proposal generation.
#[derive(Clone, Copy, Debug, PartialEq, Eq, Structural)]
pub struct ProposalConfig {
    /// Maximum number of transactions per block
    pub max_block_txns: usize,
    /// Maximum block size in bytes
    pub max_block_bytes: usize,
    /// Whether to include a timestamp in proposals
    pub include_timestamp: bool,
}

impl Default for ProposalConfig {
    fn default() -> (c: Self)
        ensures
            c.max_block_txns == 10000,
            c.max_block_bytes == 10 * 1024 * 1024,
            c.include_timestamp,
    {
        ProposalConfig { max_block_txns: 10000, max_block_bytes: 10 * 1024 * 1024, include_timestamp: true }
    }
}

/// The timestamp of a proposal made at `now_ms` milliseconds after the Unix
/// epoch (`None`: a clock before it): the time in milliseconds when
/// timestamps are included, 0 otherwise.
pub open spec fn proposal_timestamp(include_timestamp: bool, now_ms: Option<u128>) -> u64 {
    if include_timestamp {
        match now_ms {
            Some(ms) => ms as u64,
            None => 0,
        }
    } else {
        0
    }
}

/// Generates block proposals authored by one validator.
pub struct ProposalGenerator {
    config: ProposalConfig,
    author_id: MockNodeId,
}

impl ProposalGenerator {
    /// The configuration.
    pub closed spec fn spec_config(&self) -> ProposalConfig {
        self.config
    }

    /// The author of the proposals.
    pub closed spec fn spec_author_id(&self) -> MockNodeId {
        self.author_id
    }

    /// A generator of proposals by `author_id`.
    pub fn new(config: ProposalConfig, author_id: MockNodeId) -> (g: Self)
        ensures
            g.spec_config() == config,
            g.spec_author_id() == author_id,
    {
        ProposalGenerator { config, author_id }
    }

    /// The timestamp of a proposal made at `now_ms` (see
    /// `proposal_timestamp`).
    pub fn timestamp_at(&self, now_ms: Option<u128>) -> (t: u64)
        ensures
            t == proposal_timestamp(self.spec_config().include_timestamp, now_ms),
    {
        if self.config.include_timestamp {
            match now_ms {
                Some(ms) => ms as u64,
                None => 0,
            }
        } else {
            0
        }
    }

    /// Builds the proposal for `round` of `epoch` extending the block that
    /// `parent_qc` certifies, made at `now_ms` milliseconds after the Unix
    /// epoch: `block_builder` gets this generator, the round, the epoch, the
    /// parent's identifier, the timestamp (see `proposal_timestamp`) and
    /// `txns`.
    pub fn generate_proposal_at<F>(
        &self,
        parent_qc: &MockQuorumCert,
        round: Round,
        epoch: Epoch,
        txns: Vec<MockTransaction>,
        block_builder: F,
        now_ms: Option<u128>,
    ) -> (r: Result<MockBlock, Error>) where
        F: FnOnce(&Self, Round, Epoch, MockHash, u64, Vec<MockTransaction>) -> MockBlock,

        requires
            block_builder.requires(
                (
                    self,
                    round,
                    epoch,
                    parent_qc.spec_block_id(),
                    proposal_timestamp(self.spec_config().include_timestamp, now_ms),
                    txns,
                ),
            ),
        ensures
            r matches Ok(b) && block_builder.ensures(
                (
                    self,
                    round,
                    epoch,
                    parent_qc.spec_block_id(),
                    proposal_timestamp(self.spec_config().include_timestamp, now_ms),
                    txns,
                ),
                b,
            ),
    {
        let parent_id = parent_qc.block_id();
        let timestamp = self.timestamp_at(now_ms);
        Ok(block_builder(self, round, epoch, parent_id, timestamp, txns))
    }

    /// Builds the proposal for `round` of `epoch` extending the block that
    /// `parent_qc` certifies, now (see `generate_proposal_at`): the
    /// timestamp is the system time in milliseconds, or 0 when timestamps
    /// are not included.
    pub fn generate_proposal<F>(
        &self,
        parent_qc: &MockQuorumCert,
        round: Round,
        epoch: Epoch,
        txns: Vec<MockTransaction>,
        block_builder: F,
    ) -> (r: Result<MockBlock, Error>) where
        F: FnOnce(&Self, Round, Epoch, MockHash, u64, Vec<MockTransaction>) -> MockBlock,

        requires
            forall|t: u64| block_builder.requires((self, round, epoch, parent_qc.spec_block_id(), t, txns)),
        ensures
            r is Ok,
            !self.spec_config().include_timestamp ==> (r matches Ok(b) && block_builder.ensures(
                (self, round, epoch, parent_qc.spec_block_id(), 0, txns),
                b,
            )),
            self.spec_config().include_timestamp ==> (r matches Ok(b) && exists|t: u64|
                #[trigger] block_builder.ensures((self, round, epoch, parent_qc.spec_block_id(), t, txns), b)),
    {
        let now_ms = if self.config.include_timestamp {
            match elapsed_since_unix_epoch() {
                Some(d) => Some(whole_millis(&d)),
                None => None,
            }
        } else {
            None
        };
        self.generate_proposal_at(parent_qc, round, epoch, txns, block_builder, now_ms)
    }

    /// The configuration.
    pub fn config(&self) -> (c: &ProposalConfig)
        ensures
            *c == self.spec_config(),
    {
        &self.config
    }

    /// The author of the proposals.
    pub fn author_id(&self) -> (a: &MockNodeId)
        ensures
            *a == self.spec_author_id(),
    {
        &self.author_id
    }

    /// Replaces the configuration.
    pub fn update_config(&mut self, config: ProposalConfig)
        ensures
            final(self).spec_config() == config,
            final(self).spec_author_id() == old(self).spec_author_id(),
    {
        self.config = config;
    }
}

} // verus!
