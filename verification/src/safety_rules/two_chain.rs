//! 2-chain safety rules.
//!
//! The voting rule: a vote for block B is safe if EITHER
//! 1. `B.round == B.qc.round + 1` (normal progression), OR
//! 2. `B.round == tc.round + 1 && B.qc.round >= tc.hqc_round` (with a TC).
//!
//! The timeout rule: a timeout in round R is safe if
//! 1. `R == qc.round + 1 || R == tc.round + 1`, AND
//! 2. `qc.round >= one_chain_round`.
use vstd::prelude::*;

use std::sync::Arc;

use super::state::{max_round, SafetyStateData};
use crate::error::Error;
use crate::testing::{MockBlock, MockHash, MockQuorumCert};
use crate::timeout::TwoChainTimeoutCertificate;

verus! {

/// The outcome of the 2-chain voting rule for a block of round `block_round`
/// whose certified parent has round `qc_round`, with an optional timeout
/// certificate of round `tc_round` and highest certified round `tc_hqc_round`.
pub open spec fn vote_rule(block_round: u64, qc_round: u64, tc_round: Option<u64>, tc_hqc_round: Option<u64>) -> Result<
    (),
    Error,
> {
    if block_round == qc_round + 1 || (tc_round is Some && tc_hqc_round is Some && block_round == tc_round->0 + 1
        && qc_round >= tc_hqc_round->0) {
        Ok(())
    } else {
        Err(Error::NotSafeToVote { block_round, qc_round, tc_round, tc_hqc_round })
    }
}

/// The outcome of the 2-chain timeout rule for a timeout in `round` whose
/// highest certified round is `qc_round`, with an optional timeout
/// certificate of round `tc_round`, against the highest 1-chain round.
pub open spec fn timeout_rule(round: u64, qc_round: u64, tc_round: Option<u64>, one_chain_round: u64) -> Result<
    (),
    Error,
> {
    if (round == qc_round + 1 || (tc_round is Some && round == tc_round->0 + 1)) && qc_round >= one_chain_round {
        Ok(())
    } else {
        Err(Error::NotSafeToTimeout { round, qc_round, tc_round, one_chain_round })
    }
}

/// The state after observing a quorum certificate of round `qc_round`: the
/// 1-chain round rises to `qc_round`, and the preferred round rises with it,
/// so that the 1-chain round never exceeds the preferred round.
pub open spec fn observe_qc_state(s: SafetyStateData, qc_round: u64) -> SafetyStateData {
    let one_chain = max_round(s.one_chain_round, qc_round);
    SafetyStateData { preferred_round: max_round(s.preferred_round, one_chain), one_chain_round: one_chain, ..s }
}

/// The state after observing a timeout certificate: the highest timeout round
/// rises to the certificate's round and the 1-chain round to its highest
/// certified round, the preferred round rising with the 1-chain round.
pub open spec fn observe_tc_state(s: SafetyStateData, tc_round: u64, tc_hqc_round: u64) -> SafetyStateData {
    let one_chain = max_round(s.one_chain_round, tc_hqc_round);
    SafetyStateData {
        highest_timeout_round: max_round(s.highest_timeout_round, tc_round),
        preferred_round: max_round(s.preferred_round, one_chain),
        one_chain_round: one_chain,
        ..s
    }
}

/// The outcome of recording a vote in `round`: refused for a round older than
/// the last voted round, otherwise the last voted round rises to `round`.
pub open spec fn record_vote_outcome(s: SafetyStateData, round: u64) -> (SafetyStateData, Result<(), Error>) {
    if round < s.last_voted_round {
        (s, Err(Error::CannotRecordVote { round, last_voted_round: s.last_voted_round }))
    } else {
        (SafetyStateData { last_voted_round: round, ..s }, Ok(()))
    }
}

/// The state after recording a timeout in `round`.
pub open spec fn record_timeout_state(s: SafetyStateData, round: u64) -> SafetyStateData {
    SafetyStateData { highest_timeout_round: max_round(s.highest_timeout_round, round), ..s }
}

/// The block the 2-chain commit rule commits when a proposal of round
/// `proposal_round` with parent `parent_id` arrives: the parent, when its
/// round is the highest 1-chain round.
pub open spec fn commit_decision(s: SafetyStateData, proposal_round: u64, parent_id: MockHash) -> Option<MockHash> {
    if proposal_round > 0 && s.one_chain_round == proposal_round - 1 {
        Some(parent_id)
    } else {
        None
    }
}

/// Whether every round of `b` is at least the corresponding round of `a`,
/// in the same epoch.
pub open spec fn rounds_not_below(a: SafetyStateData, b: SafetyStateData) -> bool {
    &&& b.epoch == a.epoch
    &&& b.last_voted_round >= a.last_voted_round
    &&& b.preferred_round >= a.preferred_round
    &&& b.one_chain_round >= a.one_chain_round
    &&& b.highest_timeout_round >= a.highest_timeout_round
}

/// The voting rule accepts exactly the blocks that either directly follow
/// their certified parent, or directly follow a timeout certificate while
/// extending a parent at least as high as the certificate's highest
/// certified round.
pub proof fn lemma_vote_rule(block_round: u64, qc_round: u64, tc_round: Option<u64>, tc_hqc_round: Option<u64>)
    ensures
        vote_rule(block_round, qc_round, tc_round, tc_hqc_round) is Ok <==> (block_round == qc_round + 1 || (
        tc_round is Some && tc_hqc_round is Some && block_round == tc_round->0 + 1 && qc_round
            >= tc_hqc_round->0)),
{
}

/// The timeout rule accepts exactly the timeouts that directly follow the
/// certified round or the timeout certificate's round, and whose certified
/// round is at least the highest 1-chain round.
pub proof fn lemma_timeout_rule(round: u64, qc_round: u64, tc_round: Option<u64>, one_chain_round: u64)
    ensures
        timeout_rule(round, qc_round, tc_round, one_chain_round) is Ok <==> ((round == qc_round + 1 || (
        tc_round is Some && round == tc_round->0 + 1)) && qc_round >= one_chain_round),
{
}

/// Double-vote protection: once a vote in round `r` has been recorded, no
/// vote in an older round `r2` can be recorded.
pub proof fn lemma_no_vote_below_recorded(s: SafetyStateData, r: u64, r2: u64)
    requires
        r2 < r,
    ensures
        record_vote_outcome(record_vote_outcome(s, r).0, r2).1 is Err,
{
}

/// Recording a vote succeeds exactly for rounds not older than the last voted
/// round, and the last voted round then becomes the larger of the two.
pub proof fn lemma_record_vote(s: SafetyStateData, r: u64)
    ensures
        record_vote_outcome(s, r).1 is Ok <==> r >= s.last_voted_round,
        record_vote_outcome(s, r).0.last_voted_round == max_round(s.last_voted_round, r),
{
}

/// No safety-rules operation moves any round backwards or changes the epoch:
/// recording votes and timeouts, and observing quorum and timeout
/// certificates, only ever raise the rounds.
pub proof fn lemma_rounds_never_decrease(s: SafetyStateData, round: u64, qc_round: u64, tc_round: u64, tc_hqc_round: u64)
    ensures
        rounds_not_below(s, record_vote_outcome(s, round).0),
        rounds_not_below(s, record_timeout_state(s, round)),
        rounds_not_below(s, observe_qc_state(s, qc_round)),
        rounds_not_below(s, observe_tc_state(s, tc_round, tc_hqc_round)),
{
}

/// Once a quorum certificate of round `q` at least as high as the 1-chain
/// round has been observed, a proposal in round `q + 1` commits its parent.
pub proof fn lemma_commit_after_qc(s: SafetyStateData, q: u64, parent: MockHash)
    requires
        q >= s.one_chain_round,
        q < u64::MAX,
    ensures
        commit_decision(observe_qc_state(s, q), (q + 1) as u64, parent) == Some(parent),
{
}

/// The 2-chain commit rule commits only the parent of a proposal whose round
/// directly follows the highest 1-chain round.
pub proof fn lemma_commit_rule(s: SafetyStateData, proposal_round: u64, parent: MockHash)
    ensures
        commit_decision(s, proposal_round, parent) is Some <==> (proposal_round > 0 && proposal_round
            == s.one_chain_round + 1),
        commit_decision(s, proposal_round, parent) matches Some(c) ==> c == parent,
{
}

/// Whether the 1-chain round is at most the preferred round.
pub open spec fn one_chain_within_preferred(s: SafetyStateData) -> bool {
    s.one_chain_round <= s.preferred_round
}

/// Every safety-rules operation keeps the 1-chain round at most the preferred
/// round; observing a certificate restores it from any state.
pub proof fn lemma_one_chain_stays_within_preferred(
    s: SafetyStateData,
    round: u64,
    qc_round: u64,
    tc_round: u64,
    tc_hqc_round: u64,
)
    ensures
        one_chain_within_preferred(observe_qc_state(s, qc_round)),
        one_chain_within_preferred(observe_tc_state(s, tc_round, tc_hqc_round)),
        one_chain_within_preferred(s) ==> one_chain_within_preferred(record_vote_outcome(s, round).0),
        one_chain_within_preferred(s) ==> one_chain_within_preferred(record_timeout_state(s, round)),
{
}

/// 2-chain safety rules: the persistent safety state and the voting, timeout
/// and commit rules that read and update it.
#[derive(Debug)]
pub struct TwoChainSafetyRules {
    state: SafetyStateData,
}

impl View for TwoChainSafetyRules {
    type V = SafetyStateData;

    closed spec fn view(&self) -> SafetyStateData {
        self.state
    }
}

impl TwoChainSafetyRules {
    /// Safety rules for `epoch` with every round at zero.
    pub fn new(epoch: u64) -> (sr: Self)
        ensures
            sr@ == (SafetyStateData {
                epoch,
                last_voted_round: 0,
                preferred_round: 0,
                one_chain_round: 0,
                highest_timeout_round: 0,
            }),
    {
        TwoChainSafetyRules {
            state: SafetyStateData {
                epoch,
                last_voted_round: 0,
                preferred_round: 0,
                one_chain_round: 0,
                highest_timeout_round: 0,
            },
        }
    }

    /// Safety rules restored from a persisted state.
    pub fn with_state(state: SafetyStateData) -> (sr: Self)
        ensures
            sr@ == state,
    {
        TwoChainSafetyRules { state }
    }

    /// The successor of `round`, or an error when it does not exist.
    fn next_round(round: u64) -> (r: Result<u64, Error>)
        ensures
            round < u64::MAX ==> r == Ok::<u64, Error>((round + 1) as u64),
            round == u64::MAX ==> r == Err::<u64, Error>(Error::RoundOverflow { round }),
    {
        if round == u64::MAX {
            Err(Error::RoundOverflow { round })
        } else {
            Ok(round + 1)
        }
    }

    fn safe_to_vote_impl(&self, block_round: u64, qc_round: u64, tc_round: Option<u64>, tc_hqc_round: Option<u64>) -> (r:
        Result<(), Error>)
        ensures
            r == vote_rule(block_round, qc_round, tc_round, tc_hqc_round),
    {
        let normal_progression = match Self::next_round(qc_round) {
            Ok(next) => block_round == next,
            Err(_) => false,
        };
        let with_tc = match (tc_round, tc_hqc_round) {
            (Some(tc_r), Some(tc_hqc)) => match Self::next_round(tc_r) {
                Ok(next) => block_round == next && qc_round >= tc_hqc,
                Err(_) => false,
            },
            _ => false,
        };
        if normal_progression || with_tc {
            Ok(())
        } else {
            Err(Error::NotSafeToVote { block_round, qc_round, tc_round, tc_hqc_round })
        }
    }

    fn safe_to_timeout_impl(&self, round: u64, qc_round: u64, tc_round: Option<u64>) -> (r: Result<(), Error>)
        ensures
            r == timeout_rule(round, qc_round, tc_round, self@.one_chain_round),
    {
        let from_qc = match Self::next_round(qc_round) {
            Ok(next) => round == next,
            Err(_) => false,
        };
        let from_tc = match tc_round {
            Some(tc_r) => match Self::next_round(tc_r) {
                Ok(next) => round == next,
                Err(_) => false,
            },
            None => false,
        };
        let round_progression = from_qc || from_tc;
        let one_chain_safe = qc_round >= self.state.one_chain_round;
        if round_progression && one_chain_safe {
            Ok(())
        } else {
            Err(Error::NotSafeToTimeout { round, qc_round, tc_round, one_chain_round: self.state.one_chain_round })
        }
    }

    /// Checks the 2-chain voting rule for `proposal`. The certified parent is
    /// taken to be the round just before the proposal's round (round 0 for a
    /// genesis proposal).
    pub fn safe_to_vote(&self, proposal: &Arc<MockBlock>, timeout_cert: Option<&TwoChainTimeoutCertificate>) -> (r:
        Result<(), Error>)
        ensures
            r == vote_rule(
                proposal.spec_round(),
                if proposal.spec_round() == 0 { 0 } else { (proposal.spec_round() - 1) as u64 },
                match timeout_cert { Some(tc) => Some(tc.round), None => None },
                match timeout_cert { Some(tc) => Some(tc.hqc_round), None => None },
            ),
    {
        let block_round = proposal.metadata().round();
        let qc_round = block_round.saturating_sub(1);
        let (tc_round, tc_hqc_round) = match timeout_cert {
            Some(tc) => (Some(tc.round()), Some(tc.hqc_round())),
            None => (None, None),
        };
        self.safe_to_vote_impl(block_round, qc_round, tc_round, tc_hqc_round)
    }

    /// Checks the 2-chain timeout rule for a timeout in `round` with highest
    /// certified round `qc_round`.
    pub fn safe_to_timeout(&self, round: u64, qc_round: u64, timeout_cert: Option<&TwoChainTimeoutCertificate>) -> (r:
        Result<(), Error>)
        ensures
            r == timeout_rule(
                round,
                qc_round,
                match timeout_cert { Some(tc) => Some(tc.round), None => None },
                self@.one_chain_round,
            ),
    {
        let tc_round = match timeout_cert {
            Some(tc) => Some(tc.round()),
            None => None,
        };
        self.safe_to_timeout_impl(round, qc_round, tc_round)
    }

    /// Observes a quorum certificate: the 1-chain round rises to its round,
    /// and the preferred round with it (the 1-chain round never exceeds the
    /// preferred round).
    pub fn observe_qc(&mut self, qc: &MockQuorumCert) -> (r: Result<(), Error>)
        ensures
            r is Ok,
            final(self)@ == observe_qc_state(old(self)@, qc.spec_round()),
    {
        let qc_round = qc.round();
        self.state.update_one_chain_round(qc_round);
        let one_chain = self.state.one_chain_round;
        self.state.update_preferred_round(one_chain);
        Ok(())
    }

    /// Observes a timeout certificate: raises the highest timeout round and
    /// the 1-chain round, and the preferred round with the latter.
    pub fn observe_tc(&mut self, tc: &TwoChainTimeoutCertificate) -> (r: Result<(), Error>)
        ensures
            r is Ok,
            final(self)@ == observe_tc_state(old(self)@, tc.round, tc.hqc_round),
    {
        self.state.update_highest_timeout_round(tc.round());
        self.state.update_one_chain_round(tc.hqc_round());
        let one_chain = self.state.one_chain_round;
        self.state.update_preferred_round(one_chain);
        Ok(())
    }

    /// The safety state.
    pub fn state(&self) -> (s: &SafetyStateData)
        ensures
            *s == self@,
    {
        &self.state
    }

    /// The 2-chain commit rule: the parent of `proposal` is committed when its
    /// round is the highest 1-chain round.
    pub fn should_commit(&self, proposal: &Arc<MockBlock>) -> (c: Option<MockHash>)
        ensures
            c == commit_decision(self@, proposal.spec_round(), proposal.spec_parent_id()),
    {
        let proposal_round = proposal.metadata().round();
        if proposal_round > 0 && self.state.one_chain_round == proposal_round - 1 {
            Some(proposal.parent_id())
        } else {
            None
        }
    }

    /// Records a vote in `round`, refusing rounds older than the last voted round.
    pub fn record_vote(&mut self, round: u64) -> (r: Result<(), Error>)
        ensures
            (final(self)@, r) == record_vote_outcome(old(self)@, round),
    {
        if round < self.state.last_voted_round {
            return Err(Error::CannotRecordVote { round, last_voted_round: self.state.last_voted_round });
        }
        if round > self.state.last_voted_round {
            self.state.last_voted_round = round;
        }
        Ok(())
    }

    /// Records a timeout in `round`.
    pub fn record_timeout(&mut self, round: u64)
        ensures
            final(self)@ == record_timeout_state(old(self)@, round),
    {
        self.state.update_highest_timeout_round(round);
    }
}

} // verus!
