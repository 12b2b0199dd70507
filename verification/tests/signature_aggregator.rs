use consensus_core::crypto::SignatureAggregator;
use consensus_core::testing::{make_validator_set, MockHash, MockSignature};

#[test]
fn test_signature_aggregator_new() {
    let aggregator = SignatureAggregator::new();
    assert_eq!(aggregator.voting_power(), 0);
    assert_eq!(aggregator.signer_count(), 0);
    assert!(!aggregator.has_signed(&MockHash(1)));
}

#[test]
fn test_signature_aggregator_add_signature() {
    let mut aggregator = SignatureAggregator::new();

    aggregator.add_signature(MockHash(1), MockSignature(1), 100);

    assert_eq!(aggregator.voting_power(), 100);
    assert_eq!(aggregator.signer_count(), 1);
    assert!(aggregator.has_signed(&MockHash(1)));
    assert_eq!(aggregator.get_signature(&MockHash(1)), Some(&MockSignature(1)));
}

#[test]
fn test_signature_aggregator_duplicate_signer() {
    let mut aggregator = SignatureAggregator::new();

    aggregator.add_signature(MockHash(1), MockSignature(1), 100);
    aggregator.add_signature(MockHash(1), MockSignature(2), 100);

    // A duplicate does not add voting power
    assert_eq!(aggregator.voting_power(), 100);
    assert_eq!(aggregator.signer_count(), 1);
}

#[test]
fn test_signature_aggregator_multiple_signers() {
    let mut aggregator = SignatureAggregator::new();

    aggregator.add_signature(MockHash(1), MockSignature(1), 100);
    aggregator.add_signature(MockHash(2), MockSignature(2), 150);
    aggregator.add_signature(MockHash(3), MockSignature(3), 200);

    assert_eq!(aggregator.voting_power(), 450);
    assert_eq!(aggregator.signer_count(), 3);
}

#[test]
fn test_signature_aggregator_check_quorum() {
    // total power 400, quorum 267
    let verifier = make_validator_set(&[100, 100, 100, 100]);

    let mut aggregator = SignatureAggregator::new();

    aggregator.add_signature(MockHash(1), MockSignature(1), 100);
    aggregator.add_signature(MockHash(2), MockSignature(2), 100);

    assert!(aggregator.check_quorum(&verifier).is_err());

    aggregator.add_signature(MockHash(3), MockSignature(3), 100);

    assert!(aggregator.check_quorum(&verifier).is_ok());
}

#[test]
fn test_signature_aggregator_clear() {
    let mut aggregator = SignatureAggregator::new();

    aggregator.add_signature(MockHash(1), MockSignature(1), 100);
    aggregator.add_signature(MockHash(2), MockSignature(2), 100);

    aggregator.clear();

    assert_eq!(aggregator.voting_power(), 0);
    assert_eq!(aggregator.signer_count(), 0);
    assert!(!aggregator.has_signed(&MockHash(1)));
}

#[test]
fn test_signature_aggregator_aggregate() {
    let verifier = make_validator_set(&[100, 100, 100, 100]);

    let mut aggregator = SignatureAggregator::new();

    aggregator.add_signature(MockHash(1), MockSignature(1), 100);
    aggregator.add_signature(MockHash(2), MockSignature(2), 100);
    aggregator.add_signature(MockHash(3), MockSignature(3), 100);

    let _aggregated = aggregator.aggregate(&verifier).unwrap();
}

#[test]
fn test_signature_aggregator_default() {
    let aggregator = SignatureAggregator::default();
    assert_eq!(aggregator.voting_power(), 0);
    assert_eq!(aggregator.signer_count(), 0);
}

#[test]
fn signers_come_in_the_order_they_signed() {
    let mut aggregator = SignatureAggregator::new();
    aggregator.add_signature(MockHash(3), MockSignature(30), 1);
    aggregator.add_signature(MockHash(1), MockSignature(10), 1);
    aggregator.add_signature(MockHash(3), MockSignature(31), 1);
    assert_eq!(aggregator.signers(), vec![MockHash(3), MockHash(1)]);
    assert_eq!(aggregator.signatures(), vec![MockSignature(30), MockSignature(10)]);
}
