//! Network message handling: message kinds, a statistics-keeping handler,
//! and a router by message type.
use vstd::prelude::*;

use std::sync::Arc;

use crate::error::Error;
use crate::testing::{MockBlock, MockVote};
use crate::text::{decimal, push_decimal};

verus! {

/// Consensus network messages.
#[derive(Clone, Debug)]
pub enum NetworkMessage {
    /// Proposal message (contains a proposed block)
    Proposal {
        /// The proposed block
        block: Arc<MockBlock>,
    },
    /// Vote message (contains a vote for a block)
    Vote {
        /// The vote
        vote: MockVote,
    },
    /// Timeout message (indicates round timeout)
    Timeout {
        /// The round that timed out
        round: u64,
    },
    /// Sync request (request for missing blocks/data)
    SyncRequest {
        /// Target round
        round: u64,
    },
    /// Sync response (response with requested data)
    SyncResponse {
        /// Blocks being synced
        blocks: Vec<Arc<MockBlock>>,
    },
    /// Epoch change proof
    EpochChange {
        /// New epoch number
        epoch: u64,
    },
}

/// The text of a network message.
pub open spec fn message_text(m: NetworkMessage) -> Seq<char> {
    match m {
        NetworkMessage::Proposal { .. } => "Proposal"@,
        NetworkMessage::Vote { .. } => "Vote"@,
        NetworkMessage::Timeout { round } => "Timeout(round="@ + decimal(round as nat) + ")"@,
        NetworkMessage::SyncRequest { round } => "SyncRequest(round="@ + decimal(round as nat) + ")"@,
        NetworkMessage::SyncResponse { blocks } => "SyncResponse(count="@ + decimal(blocks@.len()) + ")"@,
        NetworkMessage::EpochChange { epoch } => "EpochChange(epoch="@ + decimal(epoch as nat) + ")"@,
    }
}

/// The name of a message's type, under which handlers are registered.
pub open spec fn message_type_name(m: NetworkMessage) -> Seq<char> {
    match m {
        NetworkMessage::Proposal { .. } => "proposal"@,
        NetworkMessage::Vote { .. } => "vote"@,
        NetworkMessage::Timeout { .. } => "timeout"@,
        NetworkMessage::SyncRequest { .. } => "sync_request"@,
        NetworkMessage::SyncResponse { .. } => "sync_response"@,
        NetworkMessage::EpochChange { .. } => "epoch_change"@,
    }
}

impl NetworkMessage {
    /// A short description, such as `Timeout(round=10)` or `Proposal`.
    pub fn to_string(&self) -> (s: String)
        ensures
            s@ == message_text(*self),
    {
        let (mut s, n) = match self {
            NetworkMessage::Proposal { .. } => {
                return String::from_str("Proposal");
            },
            NetworkMessage::Vote { .. } => {
                return String::from_str("Vote");
            },
            NetworkMessage::Timeout { round } => (String::from_str("Timeout(round="), *round),
            NetworkMessage::SyncRequest { round } => (String::from_str("SyncRequest(round="), *round),
            NetworkMessage::SyncResponse { blocks } => (String::from_str("SyncResponse(count="), blocks.len() as u64),
            NetworkMessage::EpochChange { epoch } => (String::from_str("EpochChange(epoch="), *epoch),
        };
        push_decimal(&mut s, n);
        s.append(")");
        s
    }
}

/// Result of processing a network message.
#[derive(Clone, Debug)]
pub enum ProcessResult {
    /// Message was successfully processed
    Success,
    /// Message validation failed
    ValidationFailed {
        /// Reason for failure
        reason: String,
    },
    /// Message was ignored (e.g., duplicate or old)
    Ignored {
        /// Reason for ignoring
        reason: String,
    },
    /// Message triggered further action
    NeedsAction {
        /// Description of the action needed
        action: String,
    },
}

impl ProcessResult {
    /// A success.
    pub fn success() -> (r: Self)
        ensures
            r is Success,
    {
        ProcessResult::Success
    }

    /// A validation failure, for `reason`.
    pub fn validation_failed(reason: &str) -> (r: Self)
        ensures
            r matches ProcessResult::ValidationFailed { reason: s } && s@ == reason@,
    {
        ProcessResult::ValidationFailed { reason: String::from_str(reason) }
    }

    /// An ignored message, for `reason`.
    pub fn ignored(reason: &str) -> (r: Self)
        ensures
            r matches ProcessResult::Ignored { reason: s } && s@ == reason@,
    {
        ProcessResult::Ignored { reason: String::from_str(reason) }
    }

    /// A message that needs `action`.
    pub fn needs_action(action: &str) -> (r: Self)
        ensures
            r matches ProcessResult::NeedsAction { action: s } && s@ == action@,
    {
        ProcessResult::NeedsAction { action: String::from_str(action) }
    }

    /// Whether processing succeeded.
    pub fn is_success(&self) -> (b: bool)
        ensures
            b == self is Success,
    {
        match self {
            ProcessResult::Success => true,
            _ => false,
        }
    }
}

/// Configuration for network message handling.
#[derive(Clone, Copy, Debug)]
pub struct NetworkConfig {
    /// Maximum message size in bytes
    pub max_message_size: usize,
    /// Timeout for network operations
    pub network_timeout_ms: u64,
    /// Maximum number of pending sync requests
    pub max_pending_syncs: usize,
    /// Whether to validate messages immediately
    pub validate_immediately: bool,
}

impl Default for NetworkConfig {
    fn default() -> (c: Self)
        ensures
            c.max_message_size == 10 * 1024 * 1024,
            c.network_timeout_ms == 5000,
            c.max_pending_syncs == 10,
            c.validate_immediately,
    {
        NetworkConfig {
            max_message_size: 10 * 1024 * 1024,
            network_timeout_ms: 5000,
            max_pending_syncs: 10,
            validate_immediately: true,
        }
    }
}

/// A handler of incoming network messages.
pub trait MessageHandler {
    /// Processes a message.
    fn process_message(&mut self, message: NetworkMessage) -> Result<ProcessResult, Error>;

    /// Whether a message is valid (by default, every message is).
    fn validate_message(&self, message: &NetworkMessage) -> (b: bool) {
        true
    }

    /// The processing statistics.
    fn get_stats(&self) -> MessageHandlerStats;
}

/// Statistics for message processing.
#[derive(Clone, Copy, Debug)]
pub struct MessageHandlerStats {
    /// Total messages processed
    pub total_processed: u64,
    /// Successful processes
    pub successful: u64,
    /// Failed validations
    pub validation_failures: u64,
    /// Ignored messages
    pub ignored: u64,
    /// Messages triggering actions
    pub needs_action: u64,
}

impl Default for MessageHandlerStats {
    fn default() -> (s: Self)
        ensures
            s == (MessageHandlerStats {
                total_processed: 0,
                successful: 0,
                validation_failures: 0,
                ignored: 0,
                needs_action: 0,
            }),
    {
        MessageHandlerStats { total_processed: 0, successful: 0, validation_failures: 0, ignored: 0, needs_action: 0 }
    }
}

/// Whether the counters that handling `m` updates (the total, and the
/// successes or the messages that need action) can count one more message.
pub open spec fn counters_have_room(s: MessageHandlerStats, m: NetworkMessage) -> bool {
    &&& s.total_processed < u64::MAX
    &&& if needs_action_kind(m) {
        s.needs_action < u64::MAX
    } else {
        s.successful < u64::MAX
    }
}

impl MessageHandlerStats {
    /// All counters at zero.
    pub fn new() -> (s: Self)
        ensures
            s == (MessageHandlerStats {
                total_processed: 0,
                successful: 0,
                validation_failures: 0,
                ignored: 0,
                needs_action: 0,
            }),
    {
        Self::default()
    }

    /// Counts a successful message.
    pub fn record_success(&mut self)
        requires
            old(self).total_processed < u64::MAX,
            old(self).successful < u64::MAX,
        ensures
            *final(self) == (MessageHandlerStats {
                total_processed: (old(self).total_processed + 1) as u64,
                successful: (old(self).successful + 1) as u64,
                ..*old(self)
            }),
    {
        self.total_processed = self.total_processed + 1;
        self.successful = self.successful + 1;
    }

    /// Counts a message that failed validation.
    pub fn record_validation_failure(&mut self)
        requires
            old(self).total_processed < u64::MAX,
            old(self).validation_failures < u64::MAX,
        ensures
            *final(self) == (MessageHandlerStats {
                total_processed: (old(self).total_processed + 1) as u64,
                validation_failures: (old(self).validation_failures + 1) as u64,
                ..*old(self)
            }),
    {
        self.total_processed = self.total_processed + 1;
        self.validation_failures = self.validation_failures + 1;
    }

    /// Counts an ignored message.
    pub fn record_ignored(&mut self)
        requires
            old(self).total_processed < u64::MAX,
            old(self).ignored < u64::MAX,
        ensures
            *final(self) == (MessageHandlerStats {
                total_processed: (old(self).total_processed + 1) as u64,
                ignored: (old(self).ignored + 1) as u64,
                ..*old(self)
            }),
    {
        self.total_processed = self.total_processed + 1;
        self.ignored = self.ignored + 1;
    }

    /// Counts a message that needs action.
    pub fn record_needs_action(&mut self)
        requires
            old(self).total_processed < u64::MAX,
            old(self).needs_action < u64::MAX,
        ensures
            *final(self) == (MessageHandlerStats {
                total_processed: (old(self).total_processed + 1) as u64,
                needs_action: (old(self).needs_action + 1) as u64,
                ..*old(self)
            }),
    {
        self.total_processed = self.total_processed + 1;
        self.needs_action = self.needs_action + 1;
    }
}

/// The action text of a message that needs action.
pub open spec fn action_text(m: NetworkMessage) -> Seq<char> {
    match m {
        NetworkMessage::Timeout { .. } => "Process timeout"@,
        NetworkMessage::SyncRequest { .. } => "Handle sync request"@,
        _ => "Handle epoch change"@,
    }
}

/// Whether a message needs action (timeouts, sync requests and epoch
/// changes) rather than being processed at once.
pub open spec fn needs_action_kind(m: NetworkMessage) -> bool {
    m is Timeout || m is SyncRequest || m is EpochChange
}

/// A basic handler: every message is valid; proposals, votes and sync
/// responses succeed, the other kinds need action; statistics are kept.
#[derive(Clone)]
pub struct SimpleMessageHandler {
    stats: MessageHandlerStats,
    config: NetworkConfig,
}

impl SimpleMessageHandler {
    /// The statistics.
    pub closed spec fn spec_stats(&self) -> MessageHandlerStats {
        self.stats
    }

    /// The configuration.
    pub closed spec fn spec_config(&self) -> NetworkConfig {
        self.config
    }

    /// A handler with zero statistics.
    pub fn new(config: NetworkConfig) -> (h: Self)
        ensures
            h.spec_config() == config,
            h.spec_stats() == MessageHandlerStats::new_spec(),
    {
        SimpleMessageHandler { stats: MessageHandlerStats::new(), config }
    }

    /// The configuration.
    pub fn config(&self) -> (c: &NetworkConfig)
        ensures
            *c == self.spec_config(),
    {
        &self.config
    }

    /// The statistics, for update in place.
    pub fn stats_mut(&mut self) -> (s: &mut MessageHandlerStats)
        ensures
            *s == old(self).spec_stats(),
            final(self).spec_stats() == *final(s),
            final(self).spec_config() == old(self).spec_config(),
    {
        &mut self.stats
    }

    /// Processes a message (see the type's description).
    pub fn handle(&mut self, message: NetworkMessage) -> (r: Result<ProcessResult, Error>)
        requires
            counters_have_room(old(self).spec_stats(), message),
        ensures
            final(self).spec_config() == old(self).spec_config(),
            needs_action_kind(message) ==> (r matches Ok(ProcessResult::NeedsAction { action })
                && action@ == action_text(message)) && final(self).spec_stats() == (MessageHandlerStats {
                total_processed: (old(self).spec_stats().total_processed + 1) as u64,
                needs_action: (old(self).spec_stats().needs_action + 1) as u64,
                ..old(self).spec_stats()
            }),
            !needs_action_kind(message) ==> (r matches Ok(ProcessResult::Success)) && final(self).spec_stats() == (
            MessageHandlerStats {
                total_processed: (old(self).spec_stats().total_processed + 1) as u64,
                successful: (old(self).spec_stats().successful + 1) as u64,
                ..old(self).spec_stats()
            }),
    {
        if self.config.validate_immediately && !self.validate_message(&message) {
            self.stats.record_validation_failure();
            return Ok(ProcessResult::validation_failed("Message validation failed"));
        }
        let result = match message {
            NetworkMessage::Proposal { .. } => {
                self.stats.record_success();
                ProcessResult::success()
            },
            NetworkMessage::Vote { .. } => {
                self.stats.record_success();
                ProcessResult::success()
            },
            NetworkMessage::Timeout { .. } => {
                self.stats.record_needs_action();
                ProcessResult::needs_action("Process timeout")
            },
            NetworkMessage::SyncRequest { .. } => {
                self.stats.record_needs_action();
                ProcessResult::needs_action("Handle sync request")
            },
            NetworkMessage::SyncResponse { .. } => {
                self.stats.record_success();
                ProcessResult::success()
            },
            NetworkMessage::EpochChange { .. } => {
                self.stats.record_needs_action();
                ProcessResult::needs_action("Handle epoch change")
            },
        };
        Ok(result)
    }
}

impl MessageHandlerStats {
    /// All counters at zero.
    pub open spec fn new_spec() -> MessageHandlerStats {
        MessageHandlerStats { total_processed: 0, successful: 0, validation_failures: 0, ignored: 0, needs_action: 0 }
    }
}

impl MessageHandler for SimpleMessageHandler {
    /// Processes a message as `handle` does; when a counter that the message
    /// would update is at its limit, that is reported as an error and nothing
    /// changes.
    fn process_message(&mut self, message: NetworkMessage) -> (r: Result<ProcessResult, Error>)
        ensures
            !counters_have_room(old(self).spec_stats(), message) ==> (r matches Err(Error::StatsOverflow)) && *final(self)
                == *old(self),
            counters_have_room(old(self).spec_stats(), message) ==> {
                &&& final(self).spec_config() == old(self).spec_config()
                &&& needs_action_kind(message) ==> (r matches Ok(ProcessResult::NeedsAction { action })
                    && action@ == action_text(message)) && final(self).spec_stats() == (MessageHandlerStats {
                    total_processed: (old(self).spec_stats().total_processed + 1) as u64,
                    needs_action: (old(self).spec_stats().needs_action + 1) as u64,
                    ..old(self).spec_stats()
                })
                &&& !needs_action_kind(message) ==> (r matches Ok(ProcessResult::Success))
                    && final(self).spec_stats() == (MessageHandlerStats {
                    total_processed: (old(self).spec_stats().total_processed + 1) as u64,
                    successful: (old(self).spec_stats().successful + 1) as u64,
                    ..old(self).spec_stats()
                })
            },
    {
        let needs_action = match message {
            NetworkMessage::Timeout { .. } | NetworkMessage::SyncRequest { .. } | NetworkMessage::EpochChange {
                ..
            } => true,
            _ => false,
        };
        let branch_full = if needs_action {
            self.stats.needs_action == u64::MAX
        } else {
            self.stats.successful == u64::MAX
        };
        if self.stats.total_processed == u64::MAX || branch_full {
            return Err(Error::StatsOverflow);
        }
        self.handle(message)
    }

    /// Every message is valid.
    fn validate_message(&self, message: &NetworkMessage) -> (b: bool)
        ensures
            b,
    {
        true
    }

    fn get_stats(&self) -> (s: MessageHandlerStats)
        ensures
            s == self.spec_stats(),
    {
        self.stats
    }
}

/// Routes messages to handlers by message type.
pub struct MessageRouter<H: MessageHandler> {
    handlers: Vec<(String, Arc<H>)>,
    default_handler: Option<Arc<H>>,
    config: NetworkConfig,
}

impl<H: MessageHandler> MessageRouter<H> {
    /// The registered message types, in order of registration.
    pub closed spec fn spec_handler_types(&self) -> Seq<Seq<char>> {
        self.handlers@.map_values(|e: (String, Arc<H>)| e.0@)
    }

    /// The handler registered for `message_type`, if any.
    pub closed spec fn spec_handler(&self, message_type: Seq<char>) -> Option<Arc<H>> {
        match self.spec_handler_types().index_of_first(message_type) {
            Some(i) => Some(self.handlers@[i].1),
            None => None,
        }
    }

    /// Whether a default handler is set.
    pub closed spec fn spec_has_default(&self) -> bool {
        self.default_handler is Some
    }

    /// A router with no handlers.
    pub fn new(config: NetworkConfig) -> (r: Self)
        ensures
            r.spec_handler_types() == Seq::<Seq<char>>::empty(),
            !r.spec_has_default(),
    {
        let r = MessageRouter { handlers: Vec::new(), default_handler: None, config };
        assert(r.spec_handler_types() =~= Seq::<Seq<char>>::empty());
        r
    }

    /// Registers `handler` for `message_type`, replacing an earlier one.
    pub fn register_handler(&mut self, message_type: &str, handler: Arc<H>)
        ensures
            final(self).spec_handler_types() == if old(self).spec_handler_types().contains(message_type@) {
                old(self).spec_handler_types()
            } else {
                old(self).spec_handler_types().push(message_type@)
            },
            final(self).spec_handler(message_type@) == Some(handler),
            forall|t: Seq<char>| t != message_type@ ==> #[trigger] final(self).spec_handler(t) == old(self).spec_handler(t),
            final(self).spec_has_default() == old(self).spec_has_default(),
    {
        let key = String::from_str(message_type);
        let mut i: usize = 0;
        while i < self.handlers.len()
            invariant
                i <= self.handlers@.len(),
                key@ == message_type@,
                forall|j: int| 0 <= j < i ==> #[trigger] self.handlers@[j].0@ != key@,
            ensures
                i <= self.handlers@.len(),
                forall|j: int| 0 <= j < i ==> #[trigger] self.handlers@[j].0@ != key@,
                i < self.handlers@.len() ==> self.handlers@[i as int].0@ == key@,
            decreases self.handlers@.len() - i,
        {
            if self.handlers[i].0 == key {
                break;
            }
            i = i + 1;
        }
        let ghost old_types = self.spec_handler_types();
        let ghost old_handlers = self.handlers@;
        let entry = (key, handler);
        if i < self.handlers.len() {
            self.handlers.set(i, entry);
            proof {
                assert(old_types[i as int] == message_type@);
                assert(old_types.contains(message_type@));
                assert(self.spec_handler_types() =~= old_types);
            }
        } else {
            self.handlers.push(entry);
            proof {
                assert(!old_types.contains(message_type@)) by {
                    if old_types.contains(message_type@) {
                        let j = choose|j: int| 0 <= j < old_types.len() && old_types[j] == message_type@;
                        assert(old_handlers[j].0@ == message_type@);
                    }
                }
                assert(self.spec_handler_types() =~= old_types.push(message_type@));
            }
        }
        proof {
            let types = self.spec_handler_types();
            types.index_of_first_ensures(message_type@);
            old_types.index_of_first_ensures(message_type@);
            assert(types[i as int] == message_type@);
            assert forall|j: int| 0 <= j < i implies types[j] != message_type@ by {
                assert(types[j] == old_handlers[j].0@);
            }
            assert(types.index_of_first(message_type@) == Some(i as int));
            assert forall|t: Seq<char>| t != message_type@ implies #[trigger] self.spec_handler(t) == old(
                self,
            ).spec_handler(t) by {
                types.index_of_first_ensures(t);
                old_types.index_of_first_ensures(t);
                match old_types.index_of_first(t) {
                    Some(a) => {
                        assert(types[a] == t);
                        assert(types.index_of_first(t) == Some(a));
                        assert(self.handlers@[a] == old_handlers[a]);
                    },
                    None => {
                        assert(!types.contains(t)) by {
                            if types.contains(t) {
                                let b = choose|b: int| 0 <= b < types.len() && types[b] == t;
                                assert(b != i);
                                assert(old_types[b] == t);
                            }
                        }
                    },
                }
            }
        }
    }

    /// Sets the default handler.
    pub fn set_default_handler(&mut self, handler: Arc<H>)
        ensures
            final(self).spec_has_default(),
            final(self).spec_handler_types() == old(self).spec_handler_types(),
            forall|t: Seq<char>| #[trigger] final(self).spec_handler(t) == old(self).spec_handler(t),
    {
        self.default_handler = Some(handler);
    }

    /// Routes a message. Handlers are shared and cannot be run from here,
    /// so no message is processed: the result is `None`.
    pub fn route_message(&self, message: NetworkMessage) -> (r: Result<Option<ProcessResult>, Error>)
        ensures
            r matches Ok(None),
    {
        let message_type = self.get_message_type(&message);
        let mut i: usize = 0;
        while i < self.handlers.len()
            invariant
                i <= self.handlers@.len(),
            decreases self.handlers@.len() - i,
        {
            if self.handlers[i].0 == message_type {
                return Ok(None);
            }
            i = i + 1;
        }
        Ok(None)
    }

    /// The type name of a message, such as `timeout`.
    pub fn get_message_type(&self, message: &NetworkMessage) -> (s: String)
        ensures
            s@ == message_type_name(*message),
    {
        match message {
            NetworkMessage::Proposal { .. } => String::from_str("proposal"),
            NetworkMessage::Vote { .. } => String::from_str("vote"),
            NetworkMessage::Timeout { .. } => String::from_str("timeout"),
            NetworkMessage::SyncRequest { .. } => String::from_str("sync_request"),
            NetworkMessage::SyncResponse { .. } => String::from_str("sync_response"),
            NetworkMessage::EpochChange { .. } => String::from_str("epoch_change"),
        }
    }
}

} // verus!
