//! The consensus engine: the round manager, pacemaker, proposer election,
//! pipeline and epoch manager driven as one protocol instance.
use vstd::prelude::*;

pub mod runtime;
pub mod reconfig;
pub mod state_sync;

use std::sync::Arc;

use crate::epoch_manager::{EpochManager, EpochManagerConfig};
use crate::error::Error;
use crate::liveness::{Pacemaker, ProposerElection, RoundIntervalStrategy};
use crate::liveness::pacemaker::rounds_since_ordered;
use crate::pipeline::{stats_room, Pipeline, PipelineConfig, PipelineResult};
use crate::round_manager::{after_vote, ProposalProcessingResult, RoundManager, RoundManagerConfig};
use crate::safety_rules::{SafetyStateData, TwoChainSafetyRules};
use crate::state::RoundState;
use crate::testing::{MockBlock, MockNodeId, MockQuorumCert, MockValidatorSet, MockVote};
use crate::types::{Epoch, Round};
use crate::votes::PendingVotes;
use crate::votes::pending_votes::BucketView;

verus! {

/// Top-level consensus configuration.
#[derive(Clone, Copy, Debug)]
pub struct ConsensusConfig {
    /// Initial round number
    pub initial_round: Round,
    /// Initial epoch number
    pub initial_epoch: Epoch,
    /// Round manager configuration
    pub round_manager_config: RoundManagerConfig,
    /// Pipeline configuration
    pub pipeline_config: PipelineConfig,
    /// Maximum number of rounds per epoch
    pub max_rounds_per_epoch: Round,
}

impl Default for ConsensusConfig {
    fn default() -> (c: Self)
        ensures
            c.initial_round == 1,
            c.initial_epoch == 0,
            c.round_manager_config.max_buffered_rounds == 10,
            c.round_manager_config.round_timeout_ms == 5000,
            c.round_manager_config.max_pending_votes == 1000,
            c.pipeline_config.stage_timeout_ms == 5000,
            c.pipeline_config.max_concurrent == 10,
            c.pipeline_config.validate_immediately,
            !c.pipeline_config.parallel_processing,
            c.max_rounds_per_epoch == 1000,
    {
        ConsensusConfig {
            initial_round: 1,
            initial_epoch: 0,
            round_manager_config: RoundManagerConfig::default(),
            pipeline_config: PipelineConfig::default(),
            max_rounds_per_epoch: 1000,
        }
    }
}

impl ConsensusConfig {
    /// A configuration with at most 1000 rounds per epoch.
    pub fn new(
        initial_round: Round,
        initial_epoch: Epoch,
        round_manager_config: RoundManagerConfig,
        pipeline_config: PipelineConfig,
    ) -> (c: Self)
        ensures
            c == (ConsensusConfig {
                initial_round,
                initial_epoch,
                round_manager_config,
                pipeline_config,
                max_rounds_per_epoch: 1000,
            }),
    {
        ConsensusConfig { initial_round, initial_epoch, round_manager_config, pipeline_config, max_rounds_per_epoch: 1000 }
    }
}

/// Overall consensus state.
#[derive(Clone, Copy, Debug, PartialEq, Eq, Structural)]
pub enum ConsensusState {
    /// Consensus is starting up
    Bootstrapping,
    /// Consensus is running normally
    Running,
    /// Consensus is catching up to the network
    CatchingUp,
    /// Consensus is stopping
    Stopping,
    /// Consensus has stopped
    Stopped,
}

/// The name of a consensus state.
pub open spec fn consensus_state_text(s: ConsensusState) -> Seq<char> {
    match s {
        ConsensusState::Bootstrapping => "bootstrapping"@,
        ConsensusState::Running => "running"@,
        ConsensusState::CatchingUp => "catching_up"@,
        ConsensusState::Stopping => "stopping"@,
        ConsensusState::Stopped => "stopped"@,
    }
}

impl ConsensusState {
    /// The state's name, such as `running`.
    pub fn to_string(&self) -> (s: String)
        ensures
            s@ == consensus_state_text(*self),
    {
        match self {
            ConsensusState::Bootstrapping => String::from_str("bootstrapping"),
            ConsensusState::Running => String::from_str("running"),
            ConsensusState::CatchingUp => String::from_str("catching_up"),
            ConsensusState::Stopping => String::from_str("stopping"),
            ConsensusState::Stopped => String::from_str("stopped"),
        }
    }
}

/// Result of processing a proposal.
#[derive(Clone, Debug)]
pub struct ProposalResult {
    /// Whether the proposal was accepted
    pub accepted: bool,
    /// Reason if rejected
    pub reason: Option<String>,
    /// Round of the proposal
    pub round: Round,
    /// Whether we voted for this proposal
    pub voted: bool,
}

/// Result of processing a vote.
#[derive(Clone, Copy, Debug)]
pub struct VoteResult {
    /// Whether the vote was accepted
    pub accepted: bool,
    /// Round of the vote
    pub round: Round,
}

/// Whether `r` is a refusal with reason text `text`.
pub open spec fn refused_with(r: ProposalResult, round: Round, text: Seq<char>) -> bool {
    &&& !r.accepted
    &&& !r.voted
    &&& r.round == round
    &&& r.reason matches Some(s) && s@ == text
}

/// The main consensus coordinator.
pub struct Consensus<PE: ProposerElection<Author = MockNodeId>, S: RoundIntervalStrategy> {
    config: ConsensusConfig,
    state: ConsensusState,
    round_manager: RoundManager,
    pacemaker: Pacemaker<S>,
    proposer_election: Arc<PE>,
    pipeline: Pipeline<MockBlock, MockVote>,
    epoch_manager: EpochManager,
    self_validator_id: Option<MockNodeId>,
}

impl<PE: ProposerElection<Author = MockNodeId>, S: RoundIntervalStrategy> Consensus<PE, S> {
    /// The configuration.
    pub closed spec fn spec_config(&self) -> ConsensusConfig {
        self.config
    }

    /// The consensus state.
    pub closed spec fn spec_state(&self) -> ConsensusState {
        self.state
    }

    /// The round manager.
    pub closed spec fn spec_round_manager(&self) -> RoundManager {
        self.round_manager
    }

    /// The pacemaker.
    pub closed spec fn spec_pacemaker(&self) -> Pacemaker<S> {
        self.pacemaker
    }

    /// The proposer election.
    pub closed spec fn spec_proposer_election(&self) -> PE {
        *self.proposer_election
    }

    /// The pipeline.
    pub closed spec fn spec_pipeline(&self) -> Pipeline<MockBlock, MockVote> {
        self.pipeline
    }

    /// The epoch manager.
    pub closed spec fn spec_epoch_manager(&self) -> EpochManager {
        self.epoch_manager
    }

    /// Our validator identity, if we are a validator.
    pub closed spec fn spec_self_validator_id(&self) -> Option<MockNodeId> {
        self.self_validator_id
    }

    /// Whether this is the instance that `new` makes from these parts: a
    /// bootstrapping instance whose round manager is at epoch 0 and round 0
    /// with no proposed block, no quorum certificate and no pending votes,
    /// whose safety rules and epoch manager are at the initial epoch with
    /// every round at zero, and whose pipeline has processed nothing.
    pub open spec fn is_fresh(
        &self,
        config: ConsensusConfig,
        pacemaker: Pacemaker<S>,
        proposer_election: PE,
        self_validator_id: Option<MockNodeId>,
    ) -> bool {
        &&& self.spec_config() == config
        &&& self.spec_state() == ConsensusState::Bootstrapping
        &&& self.spec_round_manager().wf()
        &&& self.spec_round_manager().spec_config() == config.round_manager_config
        &&& self.spec_round_manager().spec_round_state().spec_round() == 0
        &&& self.spec_round_manager().spec_round_state().spec_epoch() == 0
        &&& self.spec_round_manager().spec_round_state().spec_proposed_block() is None
        &&& self.spec_round_manager().spec_round_state().spec_quorum_cert() is None
        &&& self.spec_round_manager().spec_pending_votes().buckets() == Seq::<BucketView>::empty()
        &&& self.spec_round_manager().spec_pending_votes().spec_current_round() == 0
        &&& self.spec_round_manager().spec_safety() == (SafetyStateData {
            epoch: config.initial_epoch,
            last_voted_round: 0,
            preferred_round: 0,
            one_chain_round: 0,
            highest_timeout_round: 0,
        })
        &&& self.spec_pacemaker() == pacemaker
        &&& self.spec_proposer_election() == proposer_election
        &&& self.spec_pipeline().spec_config() == config.pipeline_config
        &&& self.spec_pipeline().spec_stats().stage_counts@ == seq![0u64, 0u64, 0u64, 0u64]
        &&& self.spec_pipeline().spec_stats().total_processed == 0
        &&& self.spec_epoch_manager().spec_epoch_state().spec_epoch() == config.initial_epoch
        &&& self.spec_self_validator_id() == self_validator_id
    }

    /// A bootstrapping instance: 2-chain safety rules and epoch management at
    /// the initial epoch, a fresh round manager and pipeline.
    pub fn new(
        config: ConsensusConfig,
        pacemaker: Pacemaker<S>,
        proposer_election: PE,
        self_validator_id: Option<MockNodeId>,
    ) -> (c: Self)
        ensures
            c.is_fresh(config, pacemaker, proposer_election, self_validator_id),
    {
        let safety_rules = TwoChainSafetyRules::new(config.initial_epoch);
        let round_manager = RoundManager::new(config.round_manager_config, safety_rules);
        let pipeline = Pipeline::new(config.pipeline_config);
        let epoch_manager = EpochManager::new(
            EpochManagerConfig { initial_epoch: config.initial_epoch, auto_transition: false },
        );
        Consensus {
            config,
            state: ConsensusState::Bootstrapping,
            round_manager,
            pacemaker,
            proposer_election: Arc::new(proposer_election),
            pipeline,
            epoch_manager,
            self_validator_id,
        }
    }

    /// Starts consensus: allowed when bootstrapping or stopped.
    pub fn start(&mut self) -> (r: Result<(), Error>)
        ensures
            (old(self).spec_state() == ConsensusState::Bootstrapping || old(self).spec_state()
                == ConsensusState::Stopped) ==> r is Ok && final(self).spec_state() == ConsensusState::Running,
            !(old(self).spec_state() == ConsensusState::Bootstrapping || old(self).spec_state()
                == ConsensusState::Stopped) ==> r == Err::<(), Error>(Error::CannotStart { state: old(self).spec_state() })
                && final(self).spec_state() == old(self).spec_state(),
            final(self).spec_round_manager() == old(self).spec_round_manager(),
            final(self).spec_pacemaker() == old(self).spec_pacemaker(),
            final(self).spec_pipeline() == old(self).spec_pipeline(),
            final(self).spec_epoch_manager() == old(self).spec_epoch_manager(),
            final(self).spec_config() == old(self).spec_config(),
            final(self).spec_proposer_election() == old(self).spec_proposer_election(),
            final(self).spec_self_validator_id() == old(self).spec_self_validator_id(),
    {
        match self.state {
            ConsensusState::Bootstrapping | ConsensusState::Stopped => {},
            _ => {
                return Err(Error::CannotStart { state: self.state });
            },
        }
        self.state = ConsensusState::Running;
        Ok(())
    }

    /// Stops consensus: allowed when running or catching up.
    pub fn stop(&mut self) -> (r: Result<(), Error>)
        ensures
            (old(self).spec_state() == ConsensusState::Running || old(self).spec_state()
                == ConsensusState::CatchingUp) ==> r is Ok && final(self).spec_state() == ConsensusState::Stopped,
            !(old(self).spec_state() == ConsensusState::Running || old(self).spec_state()
                == ConsensusState::CatchingUp) ==> r == Err::<(), Error>(Error::CannotStop { state: old(self).spec_state() })
                && final(self).spec_state() == old(self).spec_state(),
            final(self).spec_round_manager() == old(self).spec_round_manager(),
            final(self).spec_pacemaker() == old(self).spec_pacemaker(),
            final(self).spec_pipeline() == old(self).spec_pipeline(),
            final(self).spec_epoch_manager() == old(self).spec_epoch_manager(),
            final(self).spec_config() == old(self).spec_config(),
            final(self).spec_proposer_election() == old(self).spec_proposer_election(),
            final(self).spec_self_validator_id() == old(self).spec_self_validator_id(),
    {
        match self.state {
            ConsensusState::Running | ConsensusState::CatchingUp => {},
            _ => {
                return Err(Error::CannotStop { state: self.state });
            },
        }
        self.state = ConsensusState::Stopping;
        self.state = ConsensusState::Stopped;
        Ok(())
    }

    /// The consensus state.
    pub fn state(&self) -> (s: &ConsensusState)
        ensures
            *s == self.spec_state(),
    {
        &self.state
    }

    /// Puts the instance in `state` (for callers that drive the state
    /// machine from outside, such as a catch-up coordinator); nothing else
    /// changes.
    pub fn set_state(&mut self, state: ConsensusState)
        ensures
            final(self).spec_state() == state,
            final(self).spec_config() == old(self).spec_config(),
            final(self).spec_round_manager() == old(self).spec_round_manager(),
            final(self).spec_pacemaker() == old(self).spec_pacemaker(),
            final(self).spec_proposer_election() == old(self).spec_proposer_election(),
            final(self).spec_pipeline() == old(self).spec_pipeline(),
            final(self).spec_epoch_manager() == old(self).spec_epoch_manager(),
            final(self).spec_self_validator_id() == old(self).spec_self_validator_id(),
    {
        self.state = state;
    }

    /// The current round.
    pub fn round(&self) -> (r: Round)
        ensures
            r == self.spec_round_manager().spec_round_state().spec_round(),
    {
        self.round_manager.round()
    }

    /// The current epoch.
    pub fn epoch(&self) -> (e: Epoch)
        ensures
            e == self.spec_epoch_manager().spec_epoch_state().spec_epoch(),
    {
        self.epoch_manager.epoch()
    }

    /// The round state.
    pub fn round_state(&self) -> (s: &RoundState)
        ensures
            *s == self.spec_round_manager().spec_round_state(),
    {
        self.round_manager.round_state()
    }

    /// The pending votes.
    pub fn pending_votes(&self) -> (p: &PendingVotes)
        ensures
            *p == self.spec_round_manager().spec_pending_votes(),
    {
        self.round_manager.pending_votes()
    }

    /// The highest quorum certificate: the round state's certificate.
    pub fn get_highest_quorum_cert(&self) -> (r: Option<Arc<MockQuorumCert>>)
        ensures
            r is Some == self.spec_round_manager().spec_round_state().spec_quorum_cert() is Some,
            r matches Some(qc) ==> self.spec_round_manager().spec_round_state().spec_quorum_cert() == Some(*qc),
    {
        match self.round_manager.round_state().quorum_cert() {
            Some(qc) => Some(Arc::new(*qc)),
            None => None,
        }
    }

    /// Processes a proposal: refused unless running; otherwise it runs
    /// through the pipeline and the round manager. A proposal for the current
    /// round is accepted, and we vote for it when we are a validator; one for
    /// another round is refused as old or future.
    pub fn process_proposal(&mut self, proposal: Arc<MockBlock>, verifier: &MockValidatorSet) -> (r: Result<
        ProposalResult,
        Error,
    >)
        requires
            stats_room(old(self).spec_pipeline().spec_stats(), 1),
        ensures
            r is Ok,
            final(self).spec_state() == old(self).spec_state(),
            final(self).spec_pacemaker() == old(self).spec_pacemaker(),
            final(self).spec_epoch_manager() == old(self).spec_epoch_manager(),
            final(self).spec_round_manager().spec_safety() == old(self).spec_round_manager().spec_safety(),
            final(self).spec_round_manager().spec_pending_votes() == old(
                self,
            ).spec_round_manager().spec_pending_votes(),
            old(self).spec_state() != ConsensusState::Running ==> (r matches Ok(pr) && refused_with(
                pr,
                proposal.spec_round(),
                "Not in running state: "@ + consensus_state_text(old(self).spec_state()),
            )) && final(self).spec_round_manager() == old(self).spec_round_manager() && final(self).spec_pipeline()
                == old(self).spec_pipeline(),
            old(self).spec_state() == ConsensusState::Running ==> {
                let current = old(self).spec_round_manager().spec_round_state().spec_round();
                &&& final(self).spec_pipeline().spec_stats().total_processed == old(
                    self,
                ).spec_pipeline().spec_stats().total_processed + 4
                &&& proposal.spec_round() < current ==> (r matches Ok(pr) && refused_with(
                    pr,
                    proposal.spec_round(),
                    "Old round"@,
                ))
                &&& proposal.spec_round() > current ==> (r matches Ok(pr) && refused_with(
                    pr,
                    proposal.spec_round(),
                    "Future round"@,
                ))
                &&& proposal.spec_round() == current ==> (r matches Ok(pr) && pr.accepted && pr.reason is None
                    && pr.round == proposal.spec_round() && pr.voted == old(self).spec_self_validator_id() is Some)
                    && final(self).spec_round_manager().spec_round_state().spec_proposed_block() == Some(*proposal)
            },
    {
        let round = proposal.metadata().round();
        if !matches!(self.state, ConsensusState::Running) {
            let mut reason = String::from_str("Not in running state: ");
            let t = self.state.to_string();
            reason.append(t.as_str());
            return Ok(ProposalResult { accepted: false, reason: Some(reason), round, voted: false });
        }
        let pipeline_result = match self.pipeline.process_block(&proposal) {
            Ok(p) => p,
            Err(e) => {
                return Err(e);
            },
        };
        if !pipeline_result.is_completed() {
            let mut reason = String::from_str("Pipeline rejected: ");
            if let Some(stage) = pipeline_result.final_stage() {
                reason.append(stage.name());
            }
            return Ok(ProposalResult { accepted: false, reason: Some(reason), round, voted: false });
        }
        let result = match self.round_manager.process_proposal(proposal.clone(), verifier) {
            Ok(res) => res,
            Err(e) => {
                return Err(e);
            },
        };
        match result {
            ProposalProcessingResult::Accepted => {
                let voted = self.self_validator_id.is_some();
                Ok(ProposalResult { accepted: true, reason: None, round, voted })
            },
            ProposalProcessingResult::Rejected(reason) => Ok(
                ProposalResult { accepted: false, reason: Some(reason), round, voted: false },
            ),
            ProposalProcessingResult::OldRound => Ok(
                ProposalResult { accepted: false, reason: Some(String::from_str("Old round")), round, voted: false },
            ),
            ProposalProcessingResult::FutureRound => Ok(
                ProposalResult {
                    accepted: false,
                    reason: Some(String::from_str("Future round")),
                    round,
                    voted: false,
                },
            ),
        }
    }

    /// Processes a vote through the round manager: refused unless running.
    pub fn process_vote(&mut self, vote: MockVote, verifier: &MockValidatorSet) -> (r: Result<VoteResult, Error>)
        requires
            old(self).spec_round_manager().wf(),
        ensures
            final(self).spec_round_manager().wf(),
            final(self).spec_state() == old(self).spec_state(),
            final(self).spec_pacemaker() == old(self).spec_pacemaker(),
            final(self).spec_pipeline() == old(self).spec_pipeline(),
            final(self).spec_epoch_manager() == old(self).spec_epoch_manager(),
            old(self).spec_state() != ConsensusState::Running ==> r == Err::<VoteResult, Error>(
                Error::NotRunning { state: old(self).spec_state() },
            ) && final(self).spec_round_manager() == old(self).spec_round_manager(),
            old(self).spec_state() == ConsensusState::Running ==> r == Ok::<VoteResult, Error>(
                VoteResult { accepted: true, round: 0 },
            ) && after_vote(old(self).spec_round_manager(), final(self).spec_round_manager(), vote, *verifier),
    {
        if !matches!(self.state, ConsensusState::Running) {
            return Err(Error::NotRunning { state: self.state });
        }
        let round = vote.vote_data().proposed_block().round();
        match self.round_manager.process_vote(Arc::new(vote), verifier) {
            Ok(_) => {},
            Err(e) => {
                return Err(e);
            },
        }
        Ok(VoteResult { accepted: true, round })
    }

    /// Processes a quorum certificate: refused unless running; its round is
    /// recorded with the pacemaker as ordered.
    pub fn process_qc(&mut self, qc: Arc<MockQuorumCert>) -> (r: Result<(), Error>)
        ensures
            final(self).spec_state() == old(self).spec_state(),
            final(self).spec_round_manager() == old(self).spec_round_manager(),
            final(self).spec_pipeline() == old(self).spec_pipeline(),
            final(self).spec_epoch_manager() == old(self).spec_epoch_manager(),
            final(self).spec_pacemaker().spec_current_round() == old(self).spec_pacemaker().spec_current_round(),
            old(self).spec_state() != ConsensusState::Running ==> r == Err::<(), Error>(
                Error::NotRunning { state: old(self).spec_state() },
            ) && final(self).spec_pacemaker() == old(self).spec_pacemaker(),
            old(self).spec_state() == ConsensusState::Running ==> {
                let highest = old(self).spec_pacemaker().spec_highest_ordered_round();
                &&& qc.spec_round() <= highest ==> r == Err::<(), Error>(
                    Error::RoundNotAboveOrdered { round: qc.spec_round(), highest_ordered_round: highest },
                ) && final(self).spec_pacemaker().spec_highest_ordered_round() == highest
                &&& qc.spec_round() > highest ==> r is Ok
                    && final(self).spec_pacemaker().spec_highest_ordered_round() == qc.spec_round()
            },
    {
        if !matches!(self.state, ConsensusState::Running) {
            return Err(Error::NotRunning { state: self.state });
        }
        let round = qc.round();
        self.pacemaker.record_ordered_round(round)
    }

    /// Processes a timeout of `round`: refused unless running; the pacemaker
    /// enters the next round.
    pub fn process_timeout(&mut self, round: Round) -> (r: Result<(), Error>)
        requires
            old(self).spec_state() == ConsensusState::Running ==> round < u64::MAX && (round + 1 > old(
                self,
            ).spec_pacemaker().spec_current_round() ==> old(self).spec_pacemaker().spec_highest_ordered_round()
                < u64::MAX),
        ensures
            final(self).spec_state() == old(self).spec_state(),
            final(self).spec_round_manager() == old(self).spec_round_manager(),
            final(self).spec_pipeline() == old(self).spec_pipeline(),
            final(self).spec_epoch_manager() == old(self).spec_epoch_manager(),
            final(self).spec_pacemaker().spec_highest_ordered_round() == old(
                self,
            ).spec_pacemaker().spec_highest_ordered_round(),
            old(self).spec_state() != ConsensusState::Running ==> r == Err::<(), Error>(
                Error::NotRunning { state: old(self).spec_state() },
            ) && final(self).spec_pacemaker() == old(self).spec_pacemaker(),
            old(self).spec_state() == ConsensusState::Running ==> {
                let current = old(self).spec_pacemaker().spec_current_round();
                &&& round + 1 <= current ==> r == Err::<(), Error>(
                    Error::CannotEnterRound { round: (round + 1) as u64, current_round: current },
                ) && final(self).spec_pacemaker().spec_current_round() == current
                &&& round + 1 > current ==> r is Ok && final(self).spec_pacemaker().spec_current_round() == round + 1
            },
    {
        if !matches!(self.state, ConsensusState::Running) {
            return Err(Error::NotRunning { state: self.state });
        }
        let next_round = round + 1;
        match self.pacemaker.enter_new_round(next_round) {
            Ok(_) => Ok(()),
            Err(e) => Err(e),
        }
    }

    /// Generates a proposal: refused unless running. No block is built here,
    /// so the result is `None`, whether or not we propose this round.
    pub fn generate_proposal(&self) -> (r: Result<Option<Arc<MockBlock>>, Error>)
        requires
            self.spec_proposer_election().electable(self.spec_round_manager().spec_round_state().spec_round()),
        ensures
            self.spec_state() != ConsensusState::Running ==> r == Err::<Option<Arc<MockBlock>>, Error>(
                Error::NotRunning { state: self.spec_state() },
            ),
            self.spec_state() == ConsensusState::Running ==> r matches Ok(None),
    {
        if !matches!(self.state, ConsensusState::Running) {
            return Err(Error::NotRunning { state: self.state });
        }
        let current_round = self.round_manager.round();
        let proposer = self.proposer_election.get_valid_proposer(&current_round);
        let is_proposer = match (self.self_validator_id, proposer) {
            (Some(my_id), Some(p)) => my_id == p,
            _ => false,
        };
        if !is_proposer {
            return Ok(None);
        }
        match self.get_highest_quorum_cert() {
            Some(_) => {},
            None => {
                return Ok(None);
            },
        }
        Ok(None)
    }
}

/// Builder for a consensus instance.
pub struct ConsensusBuilder<PE: ProposerElection<Author = MockNodeId>, S: RoundIntervalStrategy> {
    config: ConsensusConfig,
    pacemaker: Pacemaker<S>,
    proposer_election: Option<PE>,
    self_validator_id: Option<MockNodeId>,
}

impl<PE: ProposerElection<Author = MockNodeId>, S: RoundIntervalStrategy> ConsensusBuilder<PE, S> {
    /// The configuration being built.
    pub closed spec fn spec_config(&self) -> ConsensusConfig {
        self.config
    }

    /// The proposer election, once set.
    pub closed spec fn spec_proposer_election(&self) -> Option<PE> {
        self.proposer_election
    }

    /// Our validator identity, once set.
    pub closed spec fn spec_self_validator_id(&self) -> Option<MockNodeId> {
        self.self_validator_id
    }

    /// The pacemaker the instance will use.
    pub closed spec fn spec_pacemaker(&self) -> Pacemaker<S> {
        self.pacemaker
    }

    /// A builder with the default configuration and `pacemaker`.
    pub fn new(pacemaker: Pacemaker<S>) -> (b: Self)
        ensures
            b.spec_pacemaker() == pacemaker,
            b.spec_config().initial_round == 1,
            b.spec_config().initial_epoch == 0,
            b.spec_config().max_rounds_per_epoch == 1000,
            b.spec_proposer_election() is None,
            b.spec_self_validator_id() is None,
    {
        ConsensusBuilder { config: ConsensusConfig::default(), pacemaker, proposer_election: None, self_validator_id: None }
    }

    /// Sets the configuration.
    pub fn config(self, config: ConsensusConfig) -> (b: Self)
        ensures
            b.spec_config() == config,
            b.spec_proposer_election() == self.spec_proposer_election(),
            b.spec_self_validator_id() == self.spec_self_validator_id(),
            b.spec_pacemaker() == self.spec_pacemaker(),
    {
        let mut b = self;
        b.config = config;
        b
    }

    /// Sets the proposer election strategy.
    pub fn proposer_election(self, proposer_election: PE) -> (b: Self)
        ensures
            b.spec_config() == self.spec_config(),
            b.spec_proposer_election() == Some(proposer_election),
            b.spec_self_validator_id() == self.spec_self_validator_id(),
            b.spec_pacemaker() == self.spec_pacemaker(),
    {
        let mut b = self;
        b.proposer_election = Some(proposer_election);
        b
    }

    /// Sets our validator identity.
    pub fn self_validator_id(self, id: MockNodeId) -> (b: Self)
        ensures
            b.spec_config() == self.spec_config(),
            b.spec_proposer_election() == self.spec_proposer_election(),
            b.spec_self_validator_id() == Some(id),
            b.spec_pacemaker() == self.spec_pacemaker(),
    {
        let mut b = self;
        b.self_validator_id = Some(id);
        b
    }

    /// Builds the instance; a proposer election strategy is required.
    pub fn build(self) -> (r: Result<Consensus<PE, S>, Error>)
        ensures
            self.spec_proposer_election() is None ==> r matches Err(Error::ProposerElectionRequired),
            self.spec_proposer_election() is Some ==> (r matches Ok(c) && c.is_fresh(
                self.spec_config(),
                self.spec_pacemaker(),
                self.spec_proposer_election()->0,
                self.spec_self_validator_id(),
            )),
    {
        let proposer_election = match self.proposer_election {
            Some(pe) => pe,
            None => {
                return Err(Error::ProposerElectionRequired);
            },
        };
        Ok(Consensus::new(self.config, self.pacemaker, proposer_election, self.self_validator_id))
    }
}

} // verus!
