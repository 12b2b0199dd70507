//! The round-based consensus state machine: proposals, votes, quorum
//! certificates and timeouts, checked against the 2-chain safety rules.
use vstd::prelude::*;

use std::sync::Arc;

use crate::error::Error;
use crate::safety_rules::{
    observe_qc_state, record_timeout_state, record_vote_outcome, timeout_rule, vote_rule, SafetyStateData,
    TwoChainSafetyRules,
};
use crate::state::{RoundState, RoundStateConfig};
use crate::testing::{MockBlock, MockHash, MockQuorumCert, MockValidatorSet, MockVote, is_genesis_metadata};
use crate::timeout::TwoChainTimeoutCertificate;
use crate::types::{Epoch, Round, TimeoutReason, VoteStatus};
use crate::votes::pending_votes::{
    add_vote_outcome, has_quorum, member_authors, retained, signatures_of, votes_in, BucketView,
};
use crate::votes::{PendingVotes, VoteReceptionResult};
use crate::testing::signers_power;

verus! {

/// Configuration for the `RoundManager`.
#[derive(Clone, Copy, Debug)]
pub struct RoundManagerConfig {
    /// Maximum number of rounds to buffer votes for
    pub max_buffered_rounds: u64,
    /// Timeout duration for each round (in milliseconds)
    pub round_timeout_ms: u64,
    /// Maximum number of pending votes to track
    pub max_pending_votes: usize,
}

impl Default for RoundManagerConfig {
    fn default() -> (c: Self)
        ensures
            c.max_buffered_rounds == 10,
            c.round_timeout_ms == 5000,
            c.max_pending_votes == 1000,
    {
        RoundManagerConfig { max_buffered_rounds: 10, round_timeout_ms: 5000, max_pending_votes: 1000 }
    }
}

/// Result of processing a proposal.
#[derive(Clone, Debug, PartialEq, Eq)]
pub enum ProposalProcessingResult {
    /// The proposal was accepted
    Accepted,
    /// The proposal was rejected
    Rejected(String),
    /// The proposal was for an old round and ignored
    OldRound,
    /// The proposal was for a future round and buffered
    FutureRound,
}

/// The round of the parent that a proposal of `block_round` is taken to
/// extend (the round before it; 0 for a genesis proposal).
pub open spec fn parent_round(block_round: u64) -> u64 {
    if block_round == 0 {
        0
    } else {
        (block_round - 1) as u64
    }
}

/// The outcome of trying to vote for a proposal of `block_round`, with the
/// round and highest certified round of a timeout certificate when one is
/// given: refused below the last voted round, then checked by the 2-chain
/// voting rule, then recorded.
pub open spec fn try_vote_outcome(s: SafetyStateData, block_round: u64, tc: Option<(u64, u64)>) -> (
    SafetyStateData,
    Result<(), Error>,
) {
    if block_round < s.last_voted_round {
        (s, Err(Error::CannotVoteForRound { round: block_round, last_voted_round: s.last_voted_round }))
    } else {
        match vote_rule(
            block_round,
            parent_round(block_round),
            match tc { Some(t) => Some(t.0), None => None },
            match tc { Some(t) => Some(t.1), None => None },
        ) {
            Err(e) => (s, Err(e)),
            Ok(_) => record_vote_outcome(s, block_round),
        }
    }
}

/// Whether `qc` is the certificate formed from votes: block identifier
/// zero, genesis metadata.
pub open spec fn is_default_qc(qc: Option<MockQuorumCert>) -> bool {
    qc matches Some(q) && is_genesis_metadata(q.spec_certified_block()) && q.spec_block_id() == MockHash(0)
}

/// The error a refused timeout is reported with.
pub open spec fn timeout_error(e: Error) -> Error {
    match e {
        Error::RoundOverflow { round } => Error::TimeoutRoundOverflow { round },
        Error::NotSafeToTimeout { round, qc_round, tc_round, one_chain_round } =>
            Error::TimeoutRejected { round, qc_round, tc_round, one_chain_round },
        other => other,
    }
}

/// The core round-based consensus manager: round state, pending votes and
/// safety rules.
pub struct RoundManager {
    round_state: RoundState,
    pending_votes: PendingVotes,
    safety_rules: TwoChainSafetyRules,
    config: RoundManagerConfig,
}

/// What adding `vote` to `m` yields: a vote of an epoch other than the
/// round state's (always epoch 0 for these votes) is refused; otherwise the
/// result of adding it to the pending votes.
pub open spec fn vote_result(m: RoundManager, vote: MockVote, verifier: MockValidatorSet) -> VoteReceptionResult {
    if m.spec_round_state().spec_epoch() != 0 {
        VoteReceptionResult::Rejected(VoteStatus::Rejected)
    } else {
        add_vote_outcome(m.spec_pending_votes().buckets(), m.spec_pending_votes().spec_current_round(), vote, verifier).1
    }
}

/// Whether `after` is `before` once `vote` is processed: refused votes
/// change nothing; an accepted vote is added to the pending votes; a vote
/// that completes a quorum forms the quorum certificate, which the safety
/// rules observe, and the round's votes are dropped.
pub open spec fn after_vote(before: RoundManager, after: RoundManager, vote: MockVote, verifier: MockValidatorSet) -> bool {
    &&& after.spec_config() == before.spec_config()
    &&& after.spec_round_state().spec_epoch() == before.spec_round_state().spec_epoch()
    &&& after.spec_round_state().spec_round() == before.spec_round_state().spec_round()
    &&& after.spec_round_state().spec_proposed_block() == before.spec_round_state().spec_proposed_block()
    &&& after.spec_pending_votes().spec_current_round() == before.spec_pending_votes().spec_current_round()
    &&& after.spec_pending_votes().spec_max_rounds() == before.spec_pending_votes().spec_max_rounds()
    &&& if before.spec_round_state().spec_epoch() != 0 {
        &&& after.spec_pending_votes() == before.spec_pending_votes()
        &&& after.spec_safety() == before.spec_safety()
        &&& after.spec_round_state() == before.spec_round_state()
    } else {
        let (nb, res) = add_vote_outcome(
            before.spec_pending_votes().buckets(),
            before.spec_pending_votes().spec_current_round(),
            vote,
            verifier,
        );
        if res != VoteReceptionResult::QuorumCompleted {
            &&& after.spec_pending_votes().buckets() == nb
            &&& after.spec_safety() == before.spec_safety()
            &&& after.spec_round_state() == before.spec_round_state()
        } else {
            &&& after.spec_pending_votes().buckets() == retained(nb, false, vote.spec_round())
            &&& after.spec_safety() == observe_qc_state(before.spec_safety(), 0)
            &&& is_default_qc(after.spec_round_state().spec_quorum_cert())
        }
    }
}

impl RoundManager {
    /// The round state.
    pub closed spec fn spec_round_state(&self) -> RoundState {
        self.round_state
    }

    /// The pending votes.
    pub closed spec fn spec_pending_votes(&self) -> PendingVotes {
        self.pending_votes
    }

    /// The safety state.
    pub closed spec fn spec_safety(&self) -> SafetyStateData {
        self.safety_rules@
    }

    /// The configuration.
    pub closed spec fn spec_config(&self) -> RoundManagerConfig {
        self.config
    }

    /// The internal invariant.
    pub open spec fn wf(&self) -> bool {
        self.spec_pending_votes().wf()
    }

    /// A manager at epoch 0 and round 0, with no pending votes.
    pub fn new(config: RoundManagerConfig, safety_rules: TwoChainSafetyRules) -> (m: Self)
        ensures
            m.wf(),
            m.spec_round_state().spec_epoch() == 0,
            m.spec_round_state().spec_round() == 0,
            m.spec_round_state().spec_proposed_block() is None,
            m.spec_round_state().spec_quorum_cert() is None,
            m.spec_round_state().spec_config().max_buffered_rounds == config.max_buffered_rounds,
            m.spec_pending_votes().buckets() == Seq::<BucketView>::empty(),
            m.spec_pending_votes().spec_current_round() == 0,
            m.spec_pending_votes().spec_max_rounds() == config.max_buffered_rounds,
            m.spec_safety() == safety_rules@,
            m.spec_config() == config,
    {
        let round_state_config = RoundStateConfig {
            initial_epoch: 0,
            initial_round: 0,
            max_buffered_rounds: config.max_buffered_rounds,
        };
        RoundManager {
            round_state: RoundState::new(round_state_config),
            pending_votes: PendingVotes::new(config.max_buffered_rounds),
            safety_rules,
            config,
        }
    }

    /// The current epoch.
    pub fn epoch(&self) -> (e: Epoch)
        ensures
            e == self.spec_round_state().spec_epoch(),
    {
        self.round_state.epoch()
    }

    /// The current round.
    pub fn round(&self) -> (r: Round)
        ensures
            r == self.spec_round_state().spec_round(),
    {
        self.round_state.round()
    }

    /// The round state.
    pub fn round_state(&self) -> (s: &RoundState)
        ensures
            *s == self.spec_round_state(),
    {
        &self.round_state
    }

    /// The pending votes.
    pub fn pending_votes(&self) -> (p: &PendingVotes)
        ensures
            *p == self.spec_pending_votes(),
    {
        &self.pending_votes
    }

    /// The safety rules.
    pub fn safety_rules(&self) -> (s: &TwoChainSafetyRules)
        ensures
            s@ == self.spec_safety(),
    {
        &self.safety_rules
    }

    /// The round state, for update in place.
    pub fn round_state_mut(&mut self) -> (s: &mut RoundState)
        ensures
            *s == old(self).spec_round_state(),
            final(self).spec_round_state() == *final(s),
            final(self).spec_safety() == old(self).spec_safety(),
            final(self).spec_pending_votes() == old(self).spec_pending_votes(),
            final(self).spec_config() == old(self).spec_config(),
    {
        &mut self.round_state
    }

    /// The safety rules, for update in place.
    pub fn safety_rules_mut(&mut self) -> (s: &mut TwoChainSafetyRules)
        ensures
            s@ == old(self).spec_safety(),
            final(self).spec_safety() == final(s)@,
            final(self).spec_round_state() == old(self).spec_round_state(),
            final(self).spec_pending_votes() == old(self).spec_pending_votes(),
            final(self).spec_config() == old(self).spec_config(),
    {
        &mut self.safety_rules
    }

    /// Checks that voting for `proposal` is safe: not below the last voted
    /// round, and allowed by the 2-chain voting rule (after a timeout when a
    /// timeout certificate is given). When it is, records the vote. Nothing
    /// changes when it is not.
    pub fn try_vote_for_proposal(
        &mut self,
        proposal: &Arc<MockBlock>,
        timeout_cert: Option<&TwoChainTimeoutCertificate>,
    ) -> (r: Result<(), Error>)
        ensures
            (final(self).spec_safety(), r) == try_vote_outcome(
                old(self).spec_safety(),
                proposal.spec_round(),
                match timeout_cert { Some(tc) => Some((tc.round, tc.hqc_round)), None => None },
            ),
            final(self).spec_round_state() == old(self).spec_round_state(),
            final(self).spec_pending_votes() == old(self).spec_pending_votes(),
            final(self).spec_config() == old(self).spec_config(),
    {
        let proposal_round = proposal.metadata().round();
        let last_voted_round = self.safety_rules.state().last_voted_round;
        if proposal_round < last_voted_round {
            return Err(Error::CannotVoteForRound { round: proposal_round, last_voted_round });
        }
        match self.safety_rules.safe_to_vote(proposal, timeout_cert) {
            Err(e) => {
                return Err(e);
            },
            Ok(_) => {},
        }
        self.safety_rules.record_vote(proposal_round)
    }

    /// Processes a proposal: one for an older round is ignored (`OldRound`),
    /// one for a later round is left for later (`FutureRound`), and one for
    /// the current round becomes the round's proposed block (`Accepted`).
    pub fn process_proposal(&mut self, proposal: Arc<MockBlock>, verifier: &MockValidatorSet) -> (r: Result<
        ProposalProcessingResult,
        Error,
    >)
        ensures
            final(self).spec_pending_votes() == old(self).spec_pending_votes(),
            final(self).spec_safety() == old(self).spec_safety(),
            final(self).spec_config() == old(self).spec_config(),
            final(self).spec_round_state().spec_round() == old(self).spec_round_state().spec_round(),
            final(self).spec_round_state().spec_epoch() == old(self).spec_round_state().spec_epoch(),
            final(self).spec_round_state().spec_quorum_cert() == old(self).spec_round_state().spec_quorum_cert(),
            final(self).spec_round_state().spec_config() == old(self).spec_round_state().spec_config(),
            proposal.spec_round() < old(self).spec_round_state().spec_round() ==> r == Ok::<
                ProposalProcessingResult,
                Error,
            >(ProposalProcessingResult::OldRound) && final(self).spec_round_state() == old(self).spec_round_state(),
            proposal.spec_round() > old(self).spec_round_state().spec_round() ==> r == Ok::<
                ProposalProcessingResult,
                Error,
            >(ProposalProcessingResult::FutureRound) && final(self).spec_round_state() == old(
                self,
            ).spec_round_state(),
            proposal.spec_round() == old(self).spec_round_state().spec_round() ==> r == Ok::<
                ProposalProcessingResult,
                Error,
            >(ProposalProcessingResult::Accepted) && final(self).spec_round_state().spec_proposed_block() == Some(
                *proposal,
            ),
    {
        let proposal_round = proposal.metadata().round();
        if !self.round_state.is_current_round(proposal_round) {
            if proposal_round < self.round_state.round() {
                return Ok(ProposalProcessingResult::OldRound);
            }
            return Ok(ProposalProcessingResult::FutureRound);
        }
        match proposal.verify_signature() {
            Err(e) => {
                return Err(e);
            },
            Ok(_) => {},
        }
        self.round_state.set_proposed_block(proposal);
        Ok(ProposalProcessingResult::Accepted)
    }

    /// Processes a vote: a vote of another epoch is refused; otherwise it is
    /// added to the pending votes, and when it completes a quorum the quorum
    /// certificate is formed (see `form_quorum_certificate_for_block`).
    pub fn process_vote(&mut self, vote: Arc<MockVote>, verifier: &MockValidatorSet) -> (r: Result<
        VoteReceptionResult,
        Error,
    >)
        requires
            old(self).wf(),
        ensures
            final(self).wf(),
            r == Ok::<VoteReceptionResult, Error>(vote_result(*old(self), *vote, *verifier)),
            after_vote(*old(self), *final(self), *vote, *verifier),
    {
        match vote.verify(verifier) {
            Err(e) => {
                return Err(e);
            },
            Ok(_) => {},
        }
        if !self.round_state.is_current_epoch(vote.ledger_info().epoch()) {
            return Ok(VoteReceptionResult::Rejected(VoteStatus::Rejected));
        }
        let result = self.pending_votes.add_vote(vote.clone(), verifier);
        if let VoteReceptionResult::QuorumCompleted = result {
            proof {
                lemma_quorum_completed(
                    old(self).spec_pending_votes().buckets(),
                    old(self).spec_pending_votes().spec_current_round(),
                    *vote,
                    *verifier,
                );
            }
            match self.form_quorum_certificate_for_block(vote.block_id(), vote.round(), verifier) {
                Err(e) => {
                    return Err(e);
                },
                Ok(_) => {},
            }
        }
        Ok(result)
    }

    /// Forms the quorum certificate for `block_id` in `round` from its
    /// pending votes: the distinct member authors must hold a quorum. The
    /// safety rules then observe the certificate, it becomes the round
    /// state's certificate, and the round's votes are dropped.
    fn form_quorum_certificate_for_block(&mut self, block_id: MockHash, round: Round, verifier: &MockValidatorSet) -> (r:
        Result<(), Error>)
        requires
            old(self).wf(),
        ensures
            final(self).wf(),
            final(self).spec_config() == old(self).spec_config(),
            final(self).spec_round_state().spec_epoch() == old(self).spec_round_state().spec_epoch(),
            final(self).spec_round_state().spec_round() == old(self).spec_round_state().spec_round(),
            final(self).spec_round_state().spec_proposed_block() == old(self).spec_round_state().spec_proposed_block(),
            final(self).spec_pending_votes().spec_current_round() == old(self).spec_pending_votes().spec_current_round(),
            final(self).spec_pending_votes().spec_max_rounds() == old(self).spec_pending_votes().spec_max_rounds(),
            has_quorum(votes_in(old(self).spec_pending_votes().buckets(), round, block_id), *verifier) ==> r is Ok
                && final(self).spec_pending_votes().buckets() == retained(
                old(self).spec_pending_votes().buckets(),
                false,
                round,
            ) && final(self).spec_safety() == observe_qc_state(old(self).spec_safety(), 0)
                && is_default_qc(final(self).spec_round_state().spec_quorum_cert()),
            !has_quorum(votes_in(old(self).spec_pending_votes().buckets(), round, block_id), *verifier) ==> r is Err
                && *final(self) == *old(self),
    {
        let votes = self.pending_votes.get_votes(round, block_id);
        let aggregator = signatures_of(&votes, verifier);
        match aggregator.check_quorum(verifier) {
            Err(e) => {
                return Err(Error::Verify(e));
            },
            Ok(_) => {},
        }
        let aggregated_sig = match aggregator.aggregate(verifier) {
            Err(e) => {
                return Err(e);
            },
            Ok(s) => s,
        };
        let mut vote_arcs: Vec<Arc<MockVote>> = Vec::new();
        let mut i: usize = 0;
        while i < votes.len()
            invariant
                i <= votes@.len(),
            decreases votes@.len() - i,
        {
            vote_arcs.push(Arc::new(votes[i]));
            i = i + 1;
        }
        let qc = match MockQuorumCert::from_votes(vote_arcs.as_slice(), aggregated_sig) {
            Err(e) => {
                return Err(e);
            },
            Ok(qc) => qc,
        };
        match self.safety_rules.observe_qc(&qc) {
            Err(e) => {
                return Err(e);
            },
            Ok(_) => {},
        }
        self.round_state.set_quorum_cert(qc);
        self.pending_votes.remove_round(round);
        Ok(())
    }

    /// Whether the votes for `block_id` in `round` are gone and the round is
    /// past: the sign that its quorum certificate was formed.
    pub fn has_quorum_certificate(&self, block_id: MockHash, round: Round) -> (b: bool)
        requires
            self.wf(),
        ensures
            b == (votes_in(self.spec_pending_votes().buckets(), round, block_id).len() == 0 && round
                < self.spec_round_state().spec_round()),
    {
        self.pending_votes.vote_count(round, block_id) == 0 && round < self.round_state.round()
    }

    /// Times out the current round: the 2-chain timeout rule, with the
    /// highest 1-chain round as the certified round and no timeout
    /// certificate, must allow a timeout for the next round. Then the timeout
    /// is recorded, the next round starts and older votes are dropped.
    pub fn process_timeout(&mut self, reason: TimeoutReason) -> (r: Result<(), Error>)
        requires
            old(self).wf(),
            old(self).spec_round_state().spec_round() < u64::MAX,
        ensures
            final(self).wf(),
            final(self).spec_config() == old(self).spec_config(),
            ({
                let round = old(self).spec_round_state().spec_round();
                let s = old(self).spec_safety();
                match timeout_rule((round + 1) as u64, s.one_chain_round, None, s.one_chain_round) {
                    Err(e) => r == Err::<(), Error>(timeout_error(e)) && *final(self) == *old(self),
                    Ok(_) => {
                        &&& r is Ok
                        &&& final(self).spec_safety() == record_timeout_state(s, round)
                        &&& final(self).spec_round_state().spec_round() == round + 1
                        &&& final(self).spec_round_state().spec_epoch() == old(self).spec_round_state().spec_epoch()
                        &&& final(self).spec_round_state().spec_proposed_block() is None
                        &&& final(self).spec_round_state().spec_quorum_cert() == old(
                            self,
                        ).spec_round_state().spec_quorum_cert()
                        &&& final(self).spec_pending_votes().spec_current_round() == round + 1
                        &&& final(self).spec_pending_votes().buckets() == retained(
                            old(self).spec_pending_votes().buckets(),
                            true,
                            crate::votes::pending_votes::cutoff_round(
                                (round + 1) as u64,
                                old(self).spec_pending_votes().spec_max_rounds(),
                            ),
                        )
                    },
                }
            }),
    {
        let current_round = self.round_state.round();
        let qc_round = self.safety_rules.state().one_chain_round;
        match self.safety_rules.safe_to_timeout(current_round + 1, qc_round, None) {
            Err(Error::RoundOverflow { round }) => {
                return Err(Error::TimeoutRoundOverflow { round });
            },
            Err(Error::NotSafeToTimeout { round, qc_round, tc_round, one_chain_round }) => {
                return Err(Error::TimeoutRejected { round, qc_round, tc_round, one_chain_round });
            },
            Err(e) => {
                return Err(e);
            },
            Ok(_) => {},
        }
        self.safety_rules.record_timeout(current_round);
        self.round_state.advance_round();
        self.pending_votes.set_round(self.round_state.round());
        Ok(())
    }

    /// Starts `round`: the round state and the pending votes move to it.
    pub fn start_round(&mut self, round: Round) -> (r: Result<(), Error>)
        requires
            old(self).wf(),
        ensures
            r is Ok,
            final(self).wf(),
            final(self).spec_config() == old(self).spec_config(),
            final(self).spec_safety() == old(self).spec_safety(),
            final(self).spec_round_state().spec_round() == round,
            final(self).spec_round_state().spec_epoch() == old(self).spec_round_state().spec_epoch(),
            final(self).spec_round_state().spec_proposed_block() is None,
            final(self).spec_round_state().spec_quorum_cert() == old(self).spec_round_state().spec_quorum_cert(),
            final(self).spec_pending_votes().spec_current_round() == round,
            final(self).spec_pending_votes().buckets() == retained(
                old(self).spec_pending_votes().buckets(),
                true,
                crate::votes::pending_votes::cutoff_round(round, old(self).spec_pending_votes().spec_max_rounds()),
            ),
    {
        self.round_state.set_round(round);
        self.pending_votes.set_round(round);
        Ok(())
    }
}

/// A vote that completes a quorum leaves its block with a quorum of votes.
proof fn lemma_quorum_completed(buckets: Seq<BucketView>, current_round: Round, vote: MockVote, verifier: MockValidatorSet)
    requires
        add_vote_outcome(buckets, current_round, vote, verifier).1 == VoteReceptionResult::QuorumCompleted,
    ensures
        has_quorum(
            votes_in(add_vote_outcome(buckets, current_round, vote, verifier).0, vote.spec_round(), vote.spec_block_id()),
            verifier,
        ),
{
}

} // verus!
