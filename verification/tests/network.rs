use consensus_core::network::{
    MessageHandler, MessageHandlerStats, MessageRouter, NetworkConfig, NetworkMessage, ProcessResult,
    SimpleMessageHandler,
};
use consensus_core::testing::{MockBlock, MockHash, MockVote};
use std::sync::Arc;

#[test]
fn test_process_result() {
    assert!(ProcessResult::success().is_success());
    assert!(!ProcessResult::validation_failed("test").is_success());
    assert!(!ProcessResult::ignored("test").is_success());
    assert!(!ProcessResult::needs_action("test").is_success());
}

#[test]
fn test_message_handler_stats() {
    let mut stats = MessageHandlerStats::new();

    stats.record_success();
    stats.record_validation_failure();
    stats.record_ignored();
    stats.record_needs_action();

    assert_eq!(stats.total_processed, 4);
    assert_eq!(stats.successful, 1);
    assert_eq!(stats.validation_failures, 1);
    assert_eq!(stats.ignored, 1);
    assert_eq!(stats.needs_action, 1);
}

#[test]
fn test_simple_message_handler() {
    let config = NetworkConfig::default();
    let mut handler = SimpleMessageHandler::new(config);

    let message = NetworkMessage::Proposal { block: Arc::new(MockBlock::genesis()) };

    let result = handler.process_message(message).unwrap();

    assert!(result.is_success());
    assert_eq!(handler.get_stats().total_processed, 1);
    assert_eq!(handler.get_stats().successful, 1);
}

#[test]
fn test_message_router() {
    let config = NetworkConfig::default();
    let router = MessageRouter::<SimpleMessageHandler>::new(config);

    let message = NetworkMessage::Timeout { round: 10 };

    let message_type = router.get_message_type(&message);
    assert_eq!(message_type, "timeout");
}

#[test]
fn mod_test_network_message_display() {
    let message = NetworkMessage::Timeout { round: 10 };
    assert_eq!(message.to_string(), "Timeout(round=10)");
}

#[test]
fn test_network_message_display_proposal() {
    let message = NetworkMessage::Proposal { block: Arc::new(MockBlock::genesis()) };
    assert_eq!(message.to_string(), "Proposal");
}

#[test]
fn test_network_message_display_vote() {
    let message = NetworkMessage::Vote { vote: MockVote::new(MockHash(0), MockHash(0), 0) };
    assert_eq!(message.to_string(), "Vote");
}

#[test]
fn test_network_message_display_sync_request() {
    let message = NetworkMessage::SyncRequest { round: 5 };
    assert_eq!(message.to_string(), "SyncRequest(round=5)");
}

#[test]
fn test_network_message_display_sync_response() {
    let message = NetworkMessage::SyncResponse { blocks: vec![] };
    assert_eq!(message.to_string(), "SyncResponse(count=0)");
}

#[test]
fn test_network_message_display_epoch_change() {
    let message = NetworkMessage::EpochChange { epoch: 2 };
    assert_eq!(message.to_string(), "EpochChange(epoch=2)");
}

#[test]
fn test_message_handler_stats_mut() {
    let config = NetworkConfig::default();
    let mut handler = SimpleMessageHandler::new(config);

    handler.stats_mut().total_processed = 100;
    assert_eq!(handler.get_stats().total_processed, 100);
}

#[test]
fn test_simple_message_handler_with_validation_disabled() {
    let mut config = NetworkConfig::default();
    config.validate_immediately = false;
    let mut handler = SimpleMessageHandler::new(config);

    let message = NetworkMessage::Proposal { block: Arc::new(MockBlock::genesis()) };

    let result = handler.process_message(message).unwrap();
    assert!(result.is_success());
}

#[test]
fn test_simple_message_handler_vote() {
    let config = NetworkConfig::default();
    let mut handler = SimpleMessageHandler::new(config);

    let message = NetworkMessage::Vote { vote: MockVote::new(MockHash(0), MockHash(0), 0) };

    let result = handler.process_message(message).unwrap();
    assert!(result.is_success());
}

#[test]
fn test_simple_message_handler_timeout() {
    let config = NetworkConfig::default();
    let mut handler = SimpleMessageHandler::new(config);

    let message = NetworkMessage::Timeout { round: 5 };

    let result = handler.process_message(message).unwrap();
    assert!(!result.is_success()); // needs_action
    assert_eq!(handler.get_stats().needs_action, 1);
}

#[test]
fn test_simple_message_handler_sync_request() {
    let config = NetworkConfig::default();
    let mut handler = SimpleMessageHandler::new(config);

    let message = NetworkMessage::SyncRequest { round: 10 };

    let result = handler.process_message(message).unwrap();
    assert!(!result.is_success()); // needs_action
}

#[test]
fn test_simple_message_handler_sync_response() {
    let config = NetworkConfig::default();
    let mut handler = SimpleMessageHandler::new(config);

    let message = NetworkMessage::SyncResponse { blocks: vec![] };

    let result = handler.process_message(message).unwrap();
    assert!(result.is_success());
}

#[test]
fn test_simple_message_handler_epoch_change() {
    let config = NetworkConfig::default();
    let mut handler = SimpleMessageHandler::new(config);

    let message = NetworkMessage::EpochChange { epoch: 2 };

    let result = handler.process_message(message).unwrap();
    assert!(!result.is_success()); // needs_action
}

#[test]
fn test_message_router_register_handler() {
    let config = NetworkConfig::default();
    let router = MessageRouter::<SimpleMessageHandler>::new(config.clone());
    let handler = Arc::new(SimpleMessageHandler::new(config));

    let mut router = router;
    router.register_handler("proposal", handler);

    let message_type = router.get_message_type(&NetworkMessage::Proposal { block: Arc::new(MockBlock::genesis()) });
    assert_eq!(message_type, "proposal");
}

#[test]
fn test_message_router_set_default_handler() {
    let config = NetworkConfig::default();
    let router = MessageRouter::<SimpleMessageHandler>::new(config.clone());
    let handler = Arc::new(SimpleMessageHandler::new(config));

    let mut router = router;
    router.set_default_handler(handler);
}

#[test]
fn test_message_router_get_message_type_vote() {
    let config = NetworkConfig::default();
    let router = MessageRouter::<SimpleMessageHandler>::new(config);

    let message = NetworkMessage::Vote { vote: MockVote::new(MockHash(0), MockHash(0), 0) };

    let message_type = router.get_message_type(&message);
    assert_eq!(message_type, "vote");
}

#[test]
fn test_message_router_get_message_type_sync_request() {
    let config = NetworkConfig::default();
    let router = MessageRouter::<SimpleMessageHandler>::new(config);

    let message = NetworkMessage::SyncRequest { round: 5 };

    let message_type = router.get_message_type(&message);
    assert_eq!(message_type, "sync_request");
}

#[test]
fn test_message_router_get_message_type_sync_response() {
    let config = NetworkConfig::default();
    let router = MessageRouter::<SimpleMessageHandler>::new(config);

    let message = NetworkMessage::SyncResponse { blocks: vec![] };

    let message_type = router.get_message_type(&message);
    assert_eq!(message_type, "sync_response");
}

#[test]
fn test_message_router_get_message_type_epoch_change() {
    let config = NetworkConfig::default();
    let router = MessageRouter::<SimpleMessageHandler>::new(config);

    let message = NetworkMessage::EpochChange { epoch: 1 };

    let message_type = router.get_message_type(&message);
    assert_eq!(message_type, "epoch_change");
}

#[test]
fn test_message_router_route_message() {
    let config = NetworkConfig::default();
    let router = MessageRouter::<SimpleMessageHandler>::new(config);

    let message = NetworkMessage::Timeout { round: 10 };

    let result = router.route_message(message);
    assert!(result.is_ok());
    assert!(result.unwrap().is_none());
}

#[test]
fn test_process_result_constructors() {
    let _ = ProcessResult::success();
    let _ = ProcessResult::validation_failed("invalid signature");
    let _ = ProcessResult::ignored("duplicate message");
    let _ = ProcessResult::needs_action("rebroadcast required");
}

#[test]
fn test_network_config_default() {
    let config = NetworkConfig::default();
    assert_eq!(config.max_message_size, 10 * 1024 * 1024);
    assert_eq!(config.network_timeout_ms, 5000);
    assert_eq!(config.max_pending_syncs, 10);
    assert!(config.validate_immediately);
}

#[test]
fn test_simple_message_handler_config_accessor() {
    let config = NetworkConfig::default();
    let handler = SimpleMessageHandler::new(config.clone());

    assert_eq!(handler.config().max_message_size, config.max_message_size);
}

#[test]
fn a_full_counter_is_refused_rather_than_wrapped() {
    let mut handler = SimpleMessageHandler::new(NetworkConfig::default());
    handler.stats_mut().total_processed = u64::MAX;
    assert!(handler.process_message(NetworkMessage::Timeout { round: 1 }).is_err());
    assert_eq!(handler.get_stats().total_processed, u64::MAX);
}

#[test]
fn a_full_counter_refuses_only_the_messages_that_update_it() {
    let mut handler = SimpleMessageHandler::new(NetworkConfig::default());
    handler.stats_mut().successful = u64::MAX;
    assert!(handler.process_message(NetworkMessage::Timeout { round: 3 }).is_ok());
    assert_eq!(handler.get_stats().needs_action, 1);
    let err = handler.process_message(NetworkMessage::Proposal { block: Arc::new(MockBlock::new_genesis()) }).unwrap_err();
    assert_eq!(err.to_string(), "Message statistics overflow");
    assert_eq!(handler.get_stats().total_processed, 1);
}
