use consensus_core::safety_rules::{recover_safety_rules, validate_safety_state, RecoveryError};
use consensus_core::SafetyStateData;

#[test]
fn test_safety_state_creation() {
    let state = SafetyStateData::new(1, 5, 10, 8, 3);
    assert_eq!(state.epoch(), 1);
    assert_eq!(state.last_voted_round(), 5);
    assert_eq!(state.preferred_round(), 10);
    assert_eq!(state.one_chain_round(), 8);
    assert_eq!(state.highest_timeout_round(), 3);
}

#[test]
fn test_can_vote_in_round() {
    let state = SafetyStateData::new(0, 5, 10, 8, 3);
    assert!(state.can_vote_in_round(5)); // Equal to last_voted_round
    assert!(state.can_vote_in_round(6)); // Greater
    assert!(!state.can_vote_in_round(4)); // Less
}

#[test]
fn test_update_one_chain_round() {
    let mut state = SafetyStateData::new(0, 0, 0, 5, 0);
    assert!(state.update_one_chain_round(10));
    assert_eq!(state.one_chain_round(), 10);
    assert!(!state.update_one_chain_round(8)); // No update
    assert_eq!(state.one_chain_round(), 10);
}

#[test]
fn test_new_epoch() {
    let state = SafetyStateData::new(1, 10, 20, 15, 5);
    let new_state = state.new_epoch(2);
    assert_eq!(new_state.epoch(), 2);
    assert_eq!(new_state.last_voted_round(), 0); // Reset
    assert_eq!(new_state.preferred_round(), 20); // Preserved
    assert_eq!(new_state.one_chain_round(), 0); // Reset
    assert_eq!(new_state.highest_timeout_round(), 0); // Reset
}

#[test]
fn test_display() {
    let state = SafetyStateData::new(1, 5, 10, 8, 3);
    let display = state.to_string();
    assert!(display.contains("epoch = 1"));
    assert!(display.contains("last_voted_round = 5"));
}

#[test]
fn test_recovery_error_no_state_display() {
    let error = RecoveryError::NoState;
    assert_eq!(error.to_string(), "No safety state found in storage");
}

#[test]
fn test_recovery_error_storage_display() {
    let error = RecoveryError::Storage("disk full".to_string());
    assert_eq!(error.to_string(), "Storage error: disk full");
}

#[test]
fn test_recovery_error_deserialization_display() {
    let error = RecoveryError::Deserialization("invalid json".to_string());
    assert_eq!(error.to_string(), "Failed to deserialize safety state: invalid json");
}

#[test]
fn test_recovery_error_validation_display() {
    let error = RecoveryError::Validation("epoch overflow".to_string());
    assert_eq!(error.to_string(), "Safety state validation failed: epoch overflow");
}

fn stored(epoch: u64, last_voted: u64, preferred: u64, one_chain: u64, timeout: u64) -> SafetyStateData {
    SafetyStateData::new(epoch, last_voted, preferred, one_chain, timeout)
}

#[test]
fn recover_without_stored_state_starts_fresh_for_the_epoch() {
    let rules = recover_safety_rules(Ok(None), 5).unwrap();
    assert_eq!(rules.state().epoch(), 5);
    assert_eq!(rules.state().last_voted_round(), 0);
    assert_eq!(rules.state().one_chain_round(), 0);
}

#[test]
fn recover_restores_a_valid_stored_state() {
    let rules = recover_safety_rules(Ok(Some(stored(5, 10, 10, 9, 7))), 0).unwrap();
    assert_eq!(*rules.state(), stored(5, 10, 10, 9, 7));
    assert_eq!(rules.state().highest_timeout_round(), 7);
}

#[test]
fn recover_reports_storage_failure() {
    let r = recover_safety_rules(Err("Storage error: Storage error".to_string()), 0);
    let msg = r.unwrap_err().to_string();
    assert!(msg.contains("Storage error"));
    assert_eq!(msg, "Storage error: Storage error: Storage error");
}

#[test]
fn recover_refuses_epoch_near_the_end_of_the_range() {
    let r = recover_safety_rules(Ok(Some(stored(u64::MAX - 500, 10, 10, 9, 0))), 0);
    let msg = r.unwrap_err().to_string();
    assert_eq!(msg, format!("Safety state validation failed: Invalid epoch: {}", u64::MAX - 500));
}

#[test]
fn recover_accepts_epoch_at_the_threshold() {
    let rules = recover_safety_rules(Ok(Some(stored(u64::MAX - 1000, 10, 10, 9, 0))), 0).unwrap();
    assert_eq!(rules.state().epoch(), u64::MAX - 1000);
}

#[test]
fn recover_refuses_one_chain_round_above_preferred_round() {
    let r = recover_safety_rules(Ok(Some(stored(5, 10, 8, 10, 0))), 0);
    assert_eq!(
        r.unwrap_err().to_string(),
        "Safety state validation failed: Invalid state: one_chain_round (10) > preferred_round (8)"
    );
}

#[test]
fn recover_refuses_preferred_round_far_ahead() {
    let r = recover_safety_rules(Ok(Some(stored(5, 10, 150, 9, 0))), 0);
    assert_eq!(
        r.unwrap_err().to_string(),
        "Safety state validation failed: Invalid state: preferred_round (150) far ahead of last_voted_round (10)"
    );
}

#[test]
fn recover_accepts_preferred_round_at_the_threshold() {
    assert!(recover_safety_rules(Ok(Some(stored(5, 10, 110, 9, 0))), 0).is_ok());
    assert!(validate_safety_state(&stored(5, 10, 110, 9, 0)).is_ok());
    assert!(validate_safety_state(&stored(5, 10, 111, 9, 0)).is_err());
}
