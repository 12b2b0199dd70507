use consensus_core::epoch_manager::{EpochManager, EpochManagerConfig, EpochState, EpochTransitionError};

#[test]
fn test_epoch_manager_new() {
    let config = EpochManagerConfig::default();
    let manager = EpochManager::new(config);

    assert_eq!(manager.epoch(), 0);
}

#[test]
fn test_epoch_state_new() {
    let state = EpochState::new(5, 12345);

    assert_eq!(state.epoch(), 5);
    assert_eq!(state.start_time(), 12345);
}

#[test]
fn test_start_new_epoch() {
    let config = EpochManagerConfig::default();
    let mut manager = EpochManager::new(config);

    manager.start_new_epoch(1).unwrap();
    assert_eq!(manager.epoch(), 1);

    manager.start_new_epoch(2).unwrap();
    assert_eq!(manager.epoch(), 2);
}

#[test]
fn test_start_new_epoch_rejects_old() {
    let config = EpochManagerConfig::default();
    let mut manager = EpochManager::new(config);

    manager.start_new_epoch(1).unwrap();

    let result = manager.start_new_epoch(0);
    assert!(matches!(result, Err(EpochTransitionError::OldEpoch { current: 1, proposed: 0 })));
}

#[test]
fn test_start_new_epoch_rejects_skip() {
    let config = EpochManagerConfig::default();
    let mut manager = EpochManager::new(config);

    let result = manager.start_new_epoch(2);
    assert!(matches!(result, Err(EpochTransitionError::SkippedEpoch { current: 0, proposed: 2 })));
}

#[test]
fn test_force_next_epoch() {
    let config = EpochManagerConfig::default();
    let mut manager = EpochManager::new(config);

    manager.force_next_epoch().unwrap();
    assert_eq!(manager.epoch(), 1);

    manager.force_next_epoch().unwrap();
    assert_eq!(manager.epoch(), 2);
}

#[test]
fn test_epoch_transition_error_display() {
    let err = EpochTransitionError::OldEpoch { current: 5, proposed: 3 };
    assert_eq!(err.to_string(), "Cannot transition to epoch 3: already at epoch 5");

    let err = EpochTransitionError::SkippedEpoch { current: 1, proposed: 3 };
    assert_eq!(err.to_string(), "Cannot skip epochs: current=1, proposed=3");
}

#[test]
fn start_new_epoch_at_records_the_start_time() {
    let mut manager = EpochManager::new(EpochManagerConfig::default());
    manager.start_new_epoch_at(1, 777).unwrap();
    assert_eq!(manager.epoch(), 1);
    assert_eq!(manager.epoch_state().start_time(), 777);
    assert!(manager.start_new_epoch_at(3, 800).is_err());
    assert_eq!(manager.epoch(), 1);
}
