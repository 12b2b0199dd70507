use consensus_core::testing::{
    make_validator_set, MockBlock, MockHash, MockSignature, MockValidator, MockValidatorSet, MockVote,
};

#[test]
fn test_mock_validator_new() {
    let validator = MockValidator::new(1, 100);

    assert_eq!(validator.id(), MockHash(1));
    assert_eq!(validator.voting_power(), 100);
}

#[test]
fn test_mock_validator_set_new() {
    let validators = vec![MockValidator::new(0, 100), MockValidator::new(1, 150), MockValidator::new(2, 200)];

    let set = MockValidatorSet::new(validators);

    assert_eq!(set.len(), 3);
    assert_eq!(set.total_voting_power(), 450);
    // Quorum is (450 * 2 / 3) + 1 = 301
    assert_eq!(set.quorum_threshold(), 301);
}

#[test]
fn test_mock_validator_set_quorum_calculation() {
    let validators = vec![MockValidator::new(0, 100), MockValidator::new(1, 100), MockValidator::new(2, 100)];

    let set = MockValidatorSet::new(validators);

    assert_eq!(set.total_voting_power(), 300);
    // Quorum is (300 * 2 / 3) + 1 = 201
    assert_eq!(set.quorum_threshold(), 201);
}

#[test]
fn test_mock_validator_set_get_validator() {
    let validators = vec![MockValidator::new(0, 100), MockValidator::new(1, 150)];

    let set = MockValidatorSet::new(validators);

    assert!(set.get_validator(MockHash(0)).is_some());
    assert!(set.get_validator(MockHash(1)).is_some());
    assert!(set.get_validator(MockHash(2)).is_none());
}

#[test]
fn test_mock_validator_set_check_voting_power() {
    let validators = vec![MockValidator::new(0, 100), MockValidator::new(1, 100), MockValidator::new(2, 100)];

    let set = MockValidatorSet::new(validators);

    // 2 validators = 200 voting power, not enough for quorum (201)
    let signers = vec![MockHash(0), MockHash(1)];
    assert!(set.check_voting_power(&signers, true).is_err());

    // 3 validators = 300 voting power, meets quorum
    let signers = vec![MockHash(0), MockHash(1), MockHash(2)];
    assert!(set.check_voting_power(&signers, true).is_ok());

    // Without the quorum check it always succeeds
    let signers = vec![MockHash(0)];
    assert!(set.check_voting_power(&signers, false).is_ok());
}

#[test]
fn test_mock_validator_set_verify_vote() {
    let validators = vec![MockValidator::new(0, 100), MockValidator::new(1, 100)];

    let set = MockValidatorSet::new(validators);

    // A vote from a known validator passes
    let vote = MockVote::new(MockHash(0), MockHash(0), 0);
    assert!(set.verify_vote(&vote).is_ok());

    // A vote from an unknown validator fails
    let vote = MockVote::new(MockHash(99), MockHash(0), 0);
    assert!(set.verify_vote(&vote).is_err());
}

#[test]
fn test_mock_validator_public_key() {
    let validator = MockValidator::new(1, 100);
    let _pk = validator.public_key();
}

#[test]
fn test_mock_validator_set_is_empty() {
    let validators = vec![];
    let set = MockValidatorSet::new(validators);
    assert!(set.is_empty());

    let validators = vec![MockValidator::new(0, 100)];
    let set = MockValidatorSet::new(validators);
    assert!(!set.is_empty());
}

#[test]
fn test_mock_validator_set_validator_ids() {
    let validators = vec![MockValidator::new(0, 100), MockValidator::new(1, 150)];

    let set = MockValidatorSet::new(validators);
    let ids: Vec<_> = set.validator_ids();
    assert_eq!(ids.len(), 2);
}

#[test]
fn test_mock_validator_set_verify_block() {
    let validators = vec![MockValidator::new(0, 100)];
    let set = MockValidatorSet::new(validators);

    let block = MockBlock::genesis();
    assert!(set.verify_block(&block).is_ok());
}

#[test]
fn test_mock_validator_set_get_voting_power() {
    let validators = vec![MockValidator::new(0, 100), MockValidator::new(1, 150)];

    let set = MockValidatorSet::new(validators);
    assert_eq!(set.get_voting_power(&MockHash(0)), Some(100));
    assert_eq!(set.get_voting_power(&MockHash(1)), Some(150));
    assert_eq!(set.get_voting_power(&MockHash(99)), None);
}

#[test]
fn test_mock_validator_set_total_voting_power_trait() {
    let validators = vec![MockValidator::new(0, 100), MockValidator::new(1, 150)];

    let set = MockValidatorSet::new(validators);
    assert_eq!(set.total_voting_power(), 250);
}

#[test]
fn test_mock_validator_set_quorum_voting_power() {
    let validators = vec![MockValidator::new(0, 100), MockValidator::new(1, 150)];

    let set = MockValidatorSet::new(validators);
    // Quorum is (250 * 2 / 3) + 1 = 167
    assert_eq!(set.quorum_voting_power(), 167);
}

#[test]
fn test_mock_validator_set_aggregate_signatures() {
    let validators = vec![MockValidator::new(0, 100)];
    let set = MockValidatorSet::new(validators);

    let sigs = vec![MockSignature(1), MockSignature(2)];
    let aggregated = set.aggregate_signatures(&sigs);
    assert!(aggregated.is_ok());
}

#[test]
fn test_make_validator_set() {
    let validators = make_validator_set(&[100, 150, 200, 250]);

    assert_eq!(validators.len(), 4);
    assert_eq!(validators.total_voting_power(), 700);
}

#[test]
fn test_make_validator_set_empty() {
    let validators = make_validator_set(&[]);

    assert_eq!(validators.len(), 0);
    assert_eq!(validators.total_voting_power(), 0);
}

#[test]
fn test_make_validator_set_single() {
    let validators = make_validator_set(&[1000]);

    assert_eq!(validators.len(), 1);
    assert_eq!(validators.total_voting_power(), 1000);
}
