//! The epoch, round, proposal and quorum certificate of the current round.
use vstd::prelude::*;

use std::sync::Arc;

use crate::testing::{MockBlock, MockQuorumCert};
use crate::types::{Epoch, Round, GENESIS_EPOCH, GENESIS_ROUND};

verus! {

/// Configuration for `RoundState`.
#[derive(Clone, Copy, Debug)]
pub struct RoundStateConfig {
    /// The initial epoch
    pub initial_epoch: Epoch,
    /// The initial round
    pub initial_round: Round,
    /// Maximum number of rounds to buffer votes for
    pub max_buffered_rounds: u64,
}

impl Default for RoundStateConfig {
    fn default() -> (c: Self)
        ensures
            c.initial_epoch == GENESIS_EPOCH,
            c.initial_round == GENESIS_ROUND,
            c.max_buffered_rounds == 10,
    {
        RoundStateConfig { initial_epoch: GENESIS_EPOCH, initial_round: GENESIS_ROUND, max_buffered_rounds: 10 }
    }
}

/// The state of the protocol in the current round: epoch, round, the
/// proposed block of the round and the latest quorum certificate.
#[derive(Clone, Debug)]
pub struct RoundState {
    epoch: Epoch,
    round: Round,
    proposed_block: Option<Arc<MockBlock>>,
    quorum_cert: Option<MockQuorumCert>,
    config: RoundStateConfig,
}

impl RoundState {
    /// The current epoch.
    pub closed spec fn spec_epoch(&self) -> Epoch {
        self.epoch
    }

    /// The current round.
    pub closed spec fn spec_round(&self) -> Round {
        self.round
    }

    /// The block proposed in the current round, if any.
    pub closed spec fn spec_proposed_block(&self) -> Option<MockBlock> {
        match self.proposed_block {
            Some(b) => Some(*b),
            None => None,
        }
    }

    /// The current quorum certificate, if any.
    pub closed spec fn spec_quorum_cert(&self) -> Option<MockQuorumCert> {
        self.quorum_cert
    }

    /// The configuration the state was created with.
    pub closed spec fn spec_config(&self) -> RoundStateConfig {
        self.config
    }

    /// A state at the configured initial epoch and round, with no proposal
    /// and no quorum certificate.
    pub fn new(config: RoundStateConfig) -> (s: Self)
        ensures
            s.spec_epoch() == config.initial_epoch,
            s.spec_round() == config.initial_round,
            s.spec_proposed_block() is None,
            s.spec_quorum_cert() is None,
            s.spec_config() == config,
    {
        RoundState {
            epoch: config.initial_epoch,
            round: config.initial_round,
            proposed_block: None,
            quorum_cert: None,
            config,
        }
    }

    /// The current epoch.
    pub fn epoch(&self) -> (e: Epoch)
        ensures
            e == self.spec_epoch(),
    {
        self.epoch
    }

    /// The current round.
    pub fn round(&self) -> (r: Round)
        ensures
            r == self.spec_round(),
    {
        self.round
    }

    /// Moves to `round` and forgets the proposed block.
    pub fn set_round(&mut self, round: Round)
        ensures
            final(self).spec_round() == round,
            final(self).spec_proposed_block() is None,
            final(self).spec_epoch() == old(self).spec_epoch(),
            final(self).spec_quorum_cert() == old(self).spec_quorum_cert(),
            final(self).spec_config() == old(self).spec_config(),
    {
        self.round = round;
        self.proposed_block = None;
    }

    /// Moves to `epoch`, back at the configured initial round, forgetting the
    /// proposed block and the quorum certificate.
    pub fn set_epoch(&mut self, epoch: Epoch)
        ensures
            final(self).spec_epoch() == epoch,
            final(self).spec_round() == old(self).spec_config().initial_round,
            final(self).spec_proposed_block() is None,
            final(self).spec_quorum_cert() is None,
            final(self).spec_config() == old(self).spec_config(),
    {
        self.epoch = epoch;
        self.round = self.config.initial_round;
        self.proposed_block = None;
        self.quorum_cert = None;
    }

    /// The block proposed in the current round, if any.
    pub fn proposed_block(&self) -> (b: Option<&Arc<MockBlock>>)
        ensures
            b is Some == self.spec_proposed_block() is Some,
            b matches Some(a) ==> self.spec_proposed_block() == Some(**a),
    {
        self.proposed_block.as_ref()
    }

    /// Records the block proposed in the current round.
    pub fn set_proposed_block(&mut self, block: Arc<MockBlock>)
        ensures
            final(self).spec_proposed_block() == Some(*block),
            final(self).spec_epoch() == old(self).spec_epoch(),
            final(self).spec_round() == old(self).spec_round(),
            final(self).spec_quorum_cert() == old(self).spec_quorum_cert(),
            final(self).spec_config() == old(self).spec_config(),
    {
        self.proposed_block = Some(block);
    }

    /// The current quorum certificate, if any.
    pub fn quorum_cert(&self) -> (qc: Option<&MockQuorumCert>)
        ensures
            qc is Some == self.spec_quorum_cert() is Some,
            qc matches Some(q) ==> self.spec_quorum_cert() == Some(*q),
    {
        self.quorum_cert.as_ref()
    }

    /// Records the current quorum certificate.
    pub fn set_quorum_cert(&mut self, qc: MockQuorumCert)
        ensures
            final(self).spec_quorum_cert() == Some(qc),
            final(self).spec_epoch() == old(self).spec_epoch(),
            final(self).spec_round() == old(self).spec_round(),
            final(self).spec_proposed_block() == old(self).spec_proposed_block(),
            final(self).spec_config() == old(self).spec_config(),
    {
        self.quorum_cert = Some(qc);
    }

    /// Moves to the next round and forgets the proposed block.
    pub fn advance_round(&mut self)
        requires
            old(self).spec_round() < u64::MAX,
        ensures
            final(self).spec_round() == old(self).spec_round() + 1,
            final(self).spec_proposed_block() is None,
            final(self).spec_epoch() == old(self).spec_epoch(),
            final(self).spec_quorum_cert() == old(self).spec_quorum_cert(),
            final(self).spec_config() == old(self).spec_config(),
    {
        self.round = self.round + 1;
        self.proposed_block = None;
    }

    /// Whether `round` is the current round.
    pub fn is_current_round(&self, round: Round) -> (b: bool)
        ensures
            b == (round == self.spec_round()),
    {
        self.round == round
    }

    /// Whether `epoch` is the current epoch.
    pub fn is_current_epoch(&self, epoch: Epoch) -> (b: bool)
        ensures
            b == (epoch == self.spec_epoch()),
    {
        self.epoch == epoch
    }

    /// Whether `round` lies after the current round and at most
    /// `max_buffered_rounds` beyond it.
    pub fn is_buffered_round(&self, round: Round) -> (b: bool)
        requires
            self.spec_round() + self.spec_config().max_buffered_rounds <= u64::MAX,
        ensures
            b == (self.spec_round() < round <= self.spec_round() + self.spec_config().max_buffered_rounds),
    {
        round > self.round && round <= self.round + self.config.max_buffered_rounds
    }
}

} // verus!
