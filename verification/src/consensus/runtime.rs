//! The consensus runtime: a queue of network messages driven through the
//! consensus engine.
use vstd::prelude::*;

use std::collections::VecDeque;
use std::sync::Arc;
use std::time::Duration;

use super::{consensus_state_text, Consensus, ConsensusState};
use crate::error::{error_text, Error};
use crate::liveness::{ProposerElection, RoundIntervalStrategy};
use crate::pipeline::{duration_from_millis, millis_duration};
use crate::testing::{MockBlock, MockNodeId, MockQuorumCert, MockVote};
use crate::text::{decimal, push_decimal};
use crate::types::{Epoch, Round};

verus! {

/// Configuration for the consensus runtime.
#[derive(Clone, Copy, Debug)]
pub struct RuntimeConfig {
    /// Interval for processing pending items (in milliseconds)
    pub process_interval_ms: u64,
    /// Maximum concurrent tasks
    pub max_concurrent_tasks: usize,
    /// Timeout for network operations (in milliseconds)
    pub network_timeout_ms: u64,
    /// Buffer size for network messages
    pub network_buffer_size: usize,
}

impl Default for RuntimeConfig {
    fn default() -> (c: Self)
        ensures
            c.process_interval_ms == 100,
            c.max_concurrent_tasks == 10,
            c.network_timeout_ms == 5000,
            c.network_buffer_size == 1024 * 1024,
    {
        RuntimeConfig {
            process_interval_ms: 100,
            max_concurrent_tasks: 10,
            network_timeout_ms: 5000,
            network_buffer_size: 1024 * 1024,
        }
    }
}

impl RuntimeConfig {
    /// A runtime configuration from its four settings.
    pub fn new(
        process_interval_ms: u64,
        max_concurrent_tasks: usize,
        network_timeout_ms: u64,
        network_buffer_size: usize,
    ) -> (c: Self)
        ensures
            c == (RuntimeConfig { process_interval_ms, max_concurrent_tasks, network_timeout_ms, network_buffer_size }),
    {
        RuntimeConfig { process_interval_ms, max_concurrent_tasks, network_timeout_ms, network_buffer_size }
    }

    /// The process interval as a duration.
    pub fn process_interval(&self) -> (d: Duration)
        ensures
            d == millis_duration(self.process_interval_ms),
    {
        duration_from_millis(self.process_interval_ms)
    }

    /// The network timeout as a duration.
    pub fn network_timeout(&self) -> (d: Duration)
        ensures
            d == millis_duration(self.network_timeout_ms),
    {
        duration_from_millis(self.network_timeout_ms)
    }
}

/// Result of a consensus operation.
#[derive(Clone, Debug)]
pub enum ExecutionResult {
    /// Operation completed successfully
    Success,
    /// Operation failed with an error message
    Failed {
        /// Error message describing the failure
        message: String,
    },
    /// Operation timed out
    Timeout,
    /// Operation was skipped
    Skipped {
        /// Reason for skipping
        reason: String,
    },
}

impl ExecutionResult {
    /// Whether the operation succeeded.
    pub fn is_success(&self) -> (b: bool)
        ensures
            b == self is Success,
    {
        match self {
            ExecutionResult::Success => true,
            _ => false,
        }
    }

    /// A success.
    pub fn success() -> (r: Self)
        ensures
            r is Success,
    {
        ExecutionResult::Success
    }

    /// A failure with `message`.
    pub fn failed(message: &str) -> (r: Self)
        ensures
            r matches ExecutionResult::Failed { message: m } && m@ == message@,
    {
        ExecutionResult::Failed { message: String::from_str(message) }
    }

    /// A timeout.
    pub fn timeout() -> (r: Self)
        ensures
            r is Timeout,
    {
        ExecutionResult::Timeout
    }

    /// A skip, for `reason`.
    pub fn skipped(reason: &str) -> (r: Self)
        ensures
            r matches ExecutionResult::Skipped { reason: m } && m@ == reason@,
    {
        ExecutionResult::Skipped { reason: String::from_str(reason) }
    }
}

/// Network message types for consensus.
#[derive(Clone, Debug)]
pub enum NetworkMessage {
    /// Block proposal from the current proposer
    Proposal {
        /// The proposed block
        block: Arc<MockBlock>,
    },
    /// Vote for a proposed block
    Vote {
        /// The vote
        vote: Arc<MockVote>,
    },
    /// Quorum certificate proving block commitment
    QuorumCertificate {
        /// The quorum certificate
        qc: Arc<MockQuorumCert>,
    },
    /// Round timeout signal
    Timeout {
        /// The round that timed out
        round: Round,
    },
    /// State synchronization request
    SyncRequest {
        /// The target round
        target_round: Round,
    },
    /// State synchronization response
    SyncResponse {
        /// Blocks being synced
        blocks: Vec<Arc<MockBlock>>,
    },
}

/// The text of a network message.
pub open spec fn network_message_text(m: NetworkMessage) -> Seq<char> {
    match m {
        NetworkMessage::Proposal { block } => "Proposal(round="@ + decimal(block.spec_round() as nat) + ")"@,
        NetworkMessage::Vote { .. } => "Vote(round="@ + decimal(0) + ")"@,
        NetworkMessage::QuorumCertificate { qc } => "QC(round="@ + decimal(qc.spec_round() as nat) + ")"@,
        NetworkMessage::Timeout { round } => "Timeout(round="@ + decimal(round as nat) + ")"@,
        NetworkMessage::SyncRequest { target_round } => "SyncRequest(round="@ + decimal(target_round as nat) + ")"@,
        NetworkMessage::SyncResponse { blocks } => "SyncResponse(count="@ + decimal(blocks@.len()) + ")"@,
    }
}

impl NetworkMessage {
    /// A short description of the message, such as `Timeout(round=3)`.
    pub fn to_string(&self) -> (s: String)
        ensures
            s@ == network_message_text(*self),
    {
        let (mut s, n) = match self {
            NetworkMessage::Proposal { block } => (String::from_str("Proposal(round="), block.metadata().round()),
            NetworkMessage::Vote { vote } => (String::from_str("Vote(round="), vote.vote_data().proposed_block().round()),
            NetworkMessage::QuorumCertificate { qc } => (String::from_str("QC(round="), qc.round()),
            NetworkMessage::Timeout { round } => (String::from_str("Timeout(round="), *round),
            NetworkMessage::SyncRequest { target_round } => (String::from_str("SyncRequest(round="), *target_round),
            NetworkMessage::SyncResponse { blocks } => (String::from_str("SyncResponse(count="), blocks.len() as u64),
        };
        push_decimal(&mut s, n);
        s.append(")");
        s
    }
}

/// Whether handling `m` in consensus state `st`, with the pacemaker at
/// `current` and `highest`, stays within round numbers: a timeout handled
/// while running needs the round after the timed-out round, and, when that
/// round is entered, the round after the highest ordered round.
pub open spec fn message_in_range(st: ConsensusState, current: u64, highest: u64, m: NetworkMessage) -> bool {
    match m {
        NetworkMessage::Timeout { round } => st == ConsensusState::Running ==> round < u64::MAX && (round + 1
            > current ==> highest < u64::MAX),
        _ => true,
    }
}

/// Whether `r` is a failure with message `text`.
pub open spec fn failed_with(r: ExecutionResult, text: Seq<char>) -> bool {
    r matches ExecutionResult::Failed { message } && message@ == text
}

/// The skip reason for state synchronization messages.
pub open spec fn sync_skip_text() -> Seq<char> {
    "State sync not implemented"@
}

/// Whether `r` is the result of handling `m` without the consensus engine:
/// proposals and votes succeed, synchronization messages are skipped.
pub open spec fn passive_result(m: NetworkMessage, r: ExecutionResult) -> bool {
    match m {
        NetworkMessage::Proposal { .. } | NetworkMessage::Vote { .. } => r is Success,
        NetworkMessage::SyncRequest { .. } | NetworkMessage::SyncResponse { .. } =>
            r matches ExecutionResult::Skipped { reason } && reason@ == sync_skip_text(),
        _ => true,
    }
}

/// The pacemaker's current and highest ordered rounds after handling `m`
/// in consensus state `st`: a quorum certificate above the highest ordered
/// round becomes the highest ordered round, and a timeout of a round at or
/// after the current one moves to the round after it (both only while
/// running).
pub open spec fn step_rounds(st: ConsensusState, current: u64, highest: u64, m: NetworkMessage) -> (u64, u64) {
    match m {
        NetworkMessage::QuorumCertificate { qc } => if st == ConsensusState::Running && qc.spec_round() > highest {
            (current, qc.spec_round())
        } else {
            (current, highest)
        },
        NetworkMessage::Timeout { round } => if st == ConsensusState::Running && round + 1 > current {
            ((round + 1) as u64, highest)
        } else {
            (current, highest)
        },
        _ => (current, highest),
    }
}

/// Whether `r` is the result of handling `m` in consensus state `st` with
/// the pacemaker at `current` and `highest`: quorum certificates and
/// timeouts fail while not running, and otherwise fail with the engine's
/// refusal unless they move the pacemaker; the other messages as
/// `passive_result` says.
pub open spec fn handled_as(st: ConsensusState, current: u64, highest: u64, m: NetworkMessage, r: ExecutionResult) -> bool {
    match m {
        NetworkMessage::QuorumCertificate { qc } => if st != ConsensusState::Running {
            failed_with(r, "Not in running state: "@ + consensus_state_text(st))
        } else if qc.spec_round() > highest {
            r is Success
        } else {
            failed_with(
                r,
                error_text(Error::RoundNotAboveOrdered { round: qc.spec_round(), highest_ordered_round: highest }),
            )
        },
        NetworkMessage::Timeout { round } => if st != ConsensusState::Running {
            failed_with(r, "Not in running state: "@ + consensus_state_text(st))
        } else if round + 1 > current {
            r is Success
        } else {
            failed_with(r, error_text(Error::CannotEnterRound { round: (round + 1) as u64, current_round: current }))
        },
        _ => passive_result(m, r),
    }
}

/// The pacemaker's current and highest ordered rounds after handling the
/// messages `ms` in order, from `current` and `highest`.
pub open spec fn rounds_after(st: ConsensusState, current: u64, highest: u64, ms: Seq<NetworkMessage>) -> (u64, u64)
    decreases ms.len(),
{
    if ms.len() == 0 {
        (current, highest)
    } else {
        let (c, h) = rounds_after(st, current, highest, ms.drop_last());
        step_rounds(st, c, h, ms.last())
    }
}

/// The consensus runtime: drives queued network messages through the
/// consensus engine.
pub struct ConsensusRuntime<PE: ProposerElection<Author = MockNodeId>, S: RoundIntervalStrategy, N> {
    consensus: Consensus<PE, S>,
    config: RuntimeConfig,
    network: Option<Arc<N>>,
    pending_messages: VecDeque<NetworkMessage>,
    active_tasks: Vec<u64>,
    next_task_id: u64,
    is_running: bool,
}

impl<PE: ProposerElection<Author = MockNodeId>, S: RoundIntervalStrategy, N> ConsensusRuntime<PE, S, N> {
    /// The consensus engine.
    pub closed spec fn spec_consensus(&self) -> Consensus<PE, S> {
        self.consensus
    }

    /// The configuration.
    pub closed spec fn spec_config(&self) -> RuntimeConfig {
        self.config
    }

    /// The queued messages, oldest first.
    pub closed spec fn spec_pending(&self) -> Seq<NetworkMessage> {
        self.pending_messages@
    }

    /// The active background tasks.
    pub closed spec fn spec_active_tasks(&self) -> Seq<u64> {
        self.active_tasks@
    }

    /// Whether the runtime runs.
    pub closed spec fn spec_is_running(&self) -> bool {
        self.is_running
    }

    /// A stopped runtime around `consensus`, with nothing queued.
    pub fn new(consensus: Consensus<PE, S>, config: RuntimeConfig, network: Option<Arc<N>>) -> (r: Self)
        ensures
            r.spec_consensus() == consensus,
            r.spec_config() == config,
            r.spec_pending() == Seq::<NetworkMessage>::empty(),
            r.spec_active_tasks() == Seq::<u64>::empty(),
            !r.spec_is_running(),
    {
        ConsensusRuntime {
            consensus,
            config,
            network,
            pending_messages: VecDeque::new(),
            active_tasks: Vec::new(),
            next_task_id: 0,
            is_running: false,
        }
    }

    /// The consensus engine.
    pub fn consensus(&self) -> (c: &Consensus<PE, S>)
        ensures
            *c == self.spec_consensus(),
    {
        &self.consensus
    }

    /// The consensus instance, for update in place.
    pub fn consensus_mut(&mut self) -> (c: &mut Consensus<PE, S>)
        ensures
            *c == old(self).spec_consensus(),
            final(self).spec_consensus() == *final(c),
            final(self).spec_config() == old(self).spec_config(),
            final(self).spec_pending() == old(self).spec_pending(),
            final(self).spec_active_tasks() == old(self).spec_active_tasks(),
            final(self).spec_is_running() == old(self).spec_is_running(),
    {
        &mut self.consensus
    }

    /// The configuration.
    pub fn config(&self) -> (c: &RuntimeConfig)
        ensures
            *c == self.spec_config(),
    {
        &self.config
    }

    /// Whether the runtime runs.
    pub fn is_running(&self) -> (b: bool)
        ensures
            b == self.spec_is_running(),
    {
        self.is_running
    }

    /// Queues a message.
    pub fn add_network_message(&mut self, message: NetworkMessage)
        ensures
            final(self).spec_pending() == old(self).spec_pending().push(message),
            final(self).spec_consensus() == old(self).spec_consensus(),
            final(self).spec_is_running() == old(self).spec_is_running(),
    {
        self.pending_messages.push_back(message);
    }

    /// The number of queued messages.
    pub fn pending_message_count(&self) -> (n: usize)
        ensures
            n == self.spec_pending().len(),
    {
        self.pending_messages.len()
    }

    /// Handles every queued message in order, emptying the queue, and
    /// returns each message with its result: proposals and votes succeed,
    /// quorum certificates and timeouts go to the consensus engine (their
    /// refusals become failures), synchronization messages are skipped.
    /// Each message is handled with the pacemaker as the messages before it
    /// left it.
    pub fn process_pending_messages(&mut self) -> (results: Vec<(NetworkMessage, ExecutionResult)>)
        requires
            forall|i: int|
                0 <= i < old(self).spec_pending().len() ==> {
                    let (c, h) = rounds_after(
                        old(self).spec_consensus().spec_state(),
                        old(self).spec_consensus().spec_pacemaker().spec_current_round(),
                        old(self).spec_consensus().spec_pacemaker().spec_highest_ordered_round(),
                        old(self).spec_pending().take(i),
                    );
                    message_in_range(old(self).spec_consensus().spec_state(), c, h, #[trigger] old(self).spec_pending()[i])
                },
        ensures
            final(self).spec_pending() == Seq::<NetworkMessage>::empty(),
            results@.len() == old(self).spec_pending().len(),
            forall|i: int| 0 <= i < results@.len() ==> #[trigger] results@[i].0 == old(self).spec_pending()[i],
            forall|i: int|
                0 <= i < results@.len() ==> {
                    let (c, h) = rounds_after(
                        old(self).spec_consensus().spec_state(),
                        old(self).spec_consensus().spec_pacemaker().spec_current_round(),
                        old(self).spec_consensus().spec_pacemaker().spec_highest_ordered_round(),
                        old(self).spec_pending().take(i),
                    );
                    handled_as(old(self).spec_consensus().spec_state(), c, h, results@[i].0, #[trigger] results@[i].1)
                },
            (
                final(self).spec_consensus().spec_pacemaker().spec_current_round(),
                final(self).spec_consensus().spec_pacemaker().spec_highest_ordered_round(),
            ) == rounds_after(
                old(self).spec_consensus().spec_state(),
                old(self).spec_consensus().spec_pacemaker().spec_current_round(),
                old(self).spec_consensus().spec_pacemaker().spec_highest_ordered_round(),
                old(self).spec_pending(),
            ),
            final(self).spec_consensus().spec_state() == old(self).spec_consensus().spec_state(),
            final(self).spec_consensus().spec_round_manager() == old(self).spec_consensus().spec_round_manager(),
            final(self).spec_is_running() == old(self).spec_is_running(),
    {
        let mut results: Vec<(NetworkMessage, ExecutionResult)> = Vec::new();
        let ghost orig = self.pending_messages@;
        let ghost st = self.consensus.spec_state();
        let ghost c0 = self.consensus.spec_pacemaker().spec_current_round();
        let ghost h0 = self.consensus.spec_pacemaker().spec_highest_ordered_round();
        assert forall|i: int| 0 <= i < orig.len() implies {
            let (c, h) = rounds_after(st, c0, h0, orig.take(i));
            message_in_range(st, c, h, #[trigger] orig[i])
        } by {
            assert(orig[i] == old(self).spec_pending()[i]);
        }
        assert(orig.take(0) =~= Seq::<NetworkMessage>::empty());
        while self.pending_messages.len() > 0
            invariant
                results@.len() + self.pending_messages@.len() == orig.len(),
                self.pending_messages@ == orig.skip(results@.len() as int),
                forall|i: int|
                    0 <= i < orig.len() ==> {
                        let (c, h) = rounds_after(st, c0, h0, orig.take(i));
                        message_in_range(st, c, h, #[trigger] orig[i])
                    },
                forall|i: int| 0 <= i < results@.len() ==> #[trigger] results@[i].0 == orig[i],
                forall|i: int|
                    0 <= i < results@.len() ==> {
                        let (c, h) = rounds_after(st, c0, h0, orig.take(i));
                        handled_as(st, c, h, results@[i].0, #[trigger] results@[i].1)
                    },
                (self.consensus.spec_pacemaker().spec_current_round(),
                self.consensus.spec_pacemaker().spec_highest_ordered_round()) == rounds_after(
                    st,
                    c0,
                    h0,
                    orig.take(results@.len() as int),
                ),
                self.consensus.spec_state() == st,
                self.consensus.spec_round_manager() == old(self).spec_consensus().spec_round_manager(),
                self.is_running == old(self).spec_is_running(),
            decreases self.pending_messages@.len(),
        {
            let ghost k: int = results@.len() as int;
            let ghost before = self.pending_messages@;
            if let Some(message) = self.pending_messages.pop_front() {
                proof {
                    assert(before[0] == orig[k]);
                    assert(self.pending_messages@ =~= orig.skip(k + 1));
                    assert(orig.take(k + 1).drop_last() =~= orig.take(k));
                    assert(orig.take(k + 1).last() == orig[k]);
                }
                let result = self.handle_message_ref(&message);
                results.push((message, result));
                proof {
                    assert forall|i: int|
                        0 <= i < results@.len() implies {
                            let (c, h) = rounds_after(st, c0, h0, orig.take(i));
                            handled_as(st, c, h, results@[i].0, #[trigger] results@[i].1)
                        } by {
                        if i == k {
                            assert(results@[i].0 == orig[k]);
                        }
                    }
                }
            }
        }
        proof {
            assert(results@.len() == orig.len());
            assert(orig.take(orig.len() as int) =~= orig);
        }
        results
    }

    fn handle_message_ref(&mut self, message: &NetworkMessage) -> (r: ExecutionResult)
        requires
            message_in_range(
                old(self).consensus.spec_state(),
                old(self).consensus.spec_pacemaker().spec_current_round(),
                old(self).consensus.spec_pacemaker().spec_highest_ordered_round(),
                *message,
            ),
        ensures
            handled_as(
                old(self).consensus.spec_state(),
                old(self).consensus.spec_pacemaker().spec_current_round(),
                old(self).consensus.spec_pacemaker().spec_highest_ordered_round(),
                *message,
                r,
            ),
            (
                final(self).consensus.spec_pacemaker().spec_current_round(),
                final(self).consensus.spec_pacemaker().spec_highest_ordered_round(),
            ) == step_rounds(
                old(self).consensus.spec_state(),
                old(self).consensus.spec_pacemaker().spec_current_round(),
                old(self).consensus.spec_pacemaker().spec_highest_ordered_round(),
                *message,
            ),
            final(self).consensus.spec_state() == old(self).consensus.spec_state(),
            final(self).consensus.spec_round_manager() == old(self).consensus.spec_round_manager(),
            final(self).pending_messages@ == old(self).pending_messages@,
            final(self).is_running == old(self).is_running,
            final(self).config == old(self).config,
            !(*message is QuorumCertificate || *message is Timeout) ==> final(self).consensus == old(self).consensus,
    {
        match message {
            NetworkMessage::Proposal { .. } => ExecutionResult::success(),
            NetworkMessage::Vote { .. } => ExecutionResult::success(),
            NetworkMessage::QuorumCertificate { qc } => {
                match self.consensus.process_qc(qc.clone()) {
                    Ok(()) => ExecutionResult::success(),
                    Err(e) => ExecutionResult::Failed { message: e.to_string() },
                }
            },
            NetworkMessage::Timeout { round } => {
                match self.consensus.process_timeout(*round) {
                    Ok(()) => ExecutionResult::success(),
                    Err(e) => ExecutionResult::Failed { message: e.to_string() },
                }
            },
            NetworkMessage::SyncRequest { .. } => ExecutionResult::skipped("State sync not implemented"),
            NetworkMessage::SyncResponse { .. } => ExecutionResult::skipped("State sync not implemented"),
        }
    }

    /// Executes a block: succeeds.
    pub fn execute_block(&mut self, block: Arc<MockBlock>) -> (r: ExecutionResult)
        ensures
            r is Success,
            final(self).spec_consensus() == old(self).spec_consensus(),
            final(self).spec_pending() == old(self).spec_pending(),
            final(self).spec_is_running() == old(self).spec_is_running(),
    {
        ExecutionResult::success()
    }

    /// Broadcasts a proposal: succeeds.
    pub fn broadcast_proposal(&self, proposal: Arc<MockBlock>) -> (r: ExecutionResult)
        ensures
            r is Success,
    {
        ExecutionResult::success()
    }

    /// Broadcasts a vote: succeeds.
    pub fn broadcast_vote(&self, vote: Arc<MockVote>) -> (r: ExecutionResult)
        ensures
            r is Success,
    {
        ExecutionResult::success()
    }

    /// Starts the runtime and the consensus engine; refused when running.
    pub fn start(&mut self) -> (r: Result<(), Error>)
        ensures
            old(self).spec_is_running() ==> r == Err::<(), Error>(Error::RuntimeAlreadyRunning)
                && final(self).spec_consensus() == old(self).spec_consensus() && final(self).spec_is_running(),
            !old(self).spec_is_running() ==> final(self).spec_is_running() && ({
                let st = old(self).spec_consensus().spec_state();
                if st == ConsensusState::Bootstrapping || st == ConsensusState::Stopped {
                    r is Ok && final(self).spec_consensus().spec_state() == ConsensusState::Running
                } else {
                    r == Err::<(), Error>(Error::CannotStart { state: st })
                }
            }),
            final(self).spec_pending() == old(self).spec_pending(),
    {
        if self.is_running {
            return Err(Error::RuntimeAlreadyRunning);
        }
        self.is_running = true;
        self.consensus.start()
    }

    /// Shuts the runtime down: stops the consensus engine, then drops the
    /// queued messages and the tasks; refused when not running.
    pub fn shutdown(&mut self) -> (r: Result<(), Error>)
        ensures
            !old(self).spec_is_running() ==> r == Err::<(), Error>(Error::RuntimeNotRunning)
                && final(self).spec_consensus() == old(self).spec_consensus() && final(self).spec_pending() == old(
                self,
            ).spec_pending(),
            old(self).spec_is_running() ==> !final(self).spec_is_running() && ({
                let st = old(self).spec_consensus().spec_state();
                if st == ConsensusState::Running || st == ConsensusState::CatchingUp {
                    r is Ok && final(self).spec_consensus().spec_state() == ConsensusState::Stopped
                        && final(self).spec_pending() == Seq::<NetworkMessage>::empty()
                        && final(self).spec_active_tasks() == Seq::<u64>::empty()
                } else {
                    r == Err::<(), Error>(Error::CannotStop { state: st })
                }
            }),
    {
        if !self.is_running {
            return Err(Error::RuntimeNotRunning);
        }
        self.is_running = false;
        match self.consensus.stop() {
            Ok(_) => {},
            Err(e) => {
                return Err(e);
            },
        }
        self.pending_messages.clear();
        self.active_tasks.clear();
        Ok(())
    }

    /// Handles one message (see `process_pending_messages`).
    pub fn handle_network_message(&mut self, message: NetworkMessage) -> (r: ExecutionResult)
        requires
            message_in_range(
                old(self).spec_consensus().spec_state(),
                old(self).spec_consensus().spec_pacemaker().spec_current_round(),
                old(self).spec_consensus().spec_pacemaker().spec_highest_ordered_round(),
                message,
            ),
        ensures
            handled_as(
                old(self).spec_consensus().spec_state(),
                old(self).spec_consensus().spec_pacemaker().spec_current_round(),
                old(self).spec_consensus().spec_pacemaker().spec_highest_ordered_round(),
                message,
                r,
            ),
            (
                final(self).spec_consensus().spec_pacemaker().spec_current_round(),
                final(self).spec_consensus().spec_pacemaker().spec_highest_ordered_round(),
            ) == step_rounds(
                old(self).spec_consensus().spec_state(),
                old(self).spec_consensus().spec_pacemaker().spec_current_round(),
                old(self).spec_consensus().spec_pacemaker().spec_highest_ordered_round(),
                message,
            ),
            final(self).spec_pending() == old(self).spec_pending(),
            final(self).spec_is_running() == old(self).spec_is_running(),
            final(self).spec_consensus().spec_state() == old(self).spec_consensus().spec_state(),
            final(self).spec_consensus().spec_round_manager() == old(self).spec_consensus().spec_round_manager(),
            !(message is QuorumCertificate || message is Timeout) ==> final(self).spec_consensus() == old(
                self,
            ).spec_consensus(),
    {
        self.handle_message_ref(&message)
    }

    /// The current epoch.
    pub fn epoch(&self) -> (e: Epoch)
        ensures
            e == self.spec_consensus().spec_epoch_manager().spec_epoch_state().spec_epoch(),
    {
        self.consensus.epoch()
    }

    /// The current round.
    pub fn round(&self) -> (r: Round)
        ensures
            r == self.spec_consensus().spec_round_manager().spec_round_state().spec_round(),
    {
        self.consensus.round()
    }

    /// The consensus state.
    pub fn state(&self) -> (s: &ConsensusState)
        ensures
            *s == self.spec_consensus().spec_state(),
    {
        self.consensus.state()
    }

    /// The number of active background tasks.
    pub fn active_task_count(&self) -> (n: usize)
        ensures
            n == self.spec_active_tasks().len(),
    {
        self.active_tasks.len()
    }
}

} // verus!
