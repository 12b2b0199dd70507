use consensus_core::testing::{MockHash, MockPublicKey, MockSignature};

#[test]
fn test_mock_hash_zero() {
    let hash = MockHash::zero();
    assert_eq!(hash, MockHash(0));
}

#[test]
fn test_mock_hash_from_bytes() {
    let hash = MockHash::from_bytes(&[42]).unwrap();
    assert_eq!(hash, MockHash(42));
}

#[test]
fn test_mock_hash_from_bytes_empty() {
    assert!(MockHash::from_bytes(&[]).is_err());
}

#[test]
fn test_mock_signature_to_bytes() {
    let sig = MockSignature(42);
    assert_eq!(sig.to_bytes(), vec![42]);
}

#[test]
fn test_mock_signature_from_bytes() {
    let sig = MockSignature::from_bytes(&[42]).unwrap();
    assert_eq!(sig, MockSignature(42));
}

#[test]
fn test_mock_signature_verify() {
    let sig = MockSignature(0);
    let pk = MockPublicKey;
    assert!(sig.verify(&[], &pk).is_ok());
}

#[test]
fn test_mock_signature_aggregate() {
    let sigs = vec![MockSignature(1), MockSignature(2), MockSignature(3)];
    let aggregated = MockSignature::aggregate(&sigs).unwrap();
    let _ = aggregated;
}

#[test]
fn test_mock_node_id_from_bytes() {
    let node_id = MockHash::from_bytes(&[99]).unwrap();
    assert_eq!(node_id, MockHash(99));
}

#[test]
fn test_mock_node_id_from_bytes_empty() {
    assert!(MockHash::from_bytes(&[]).is_err());
}

#[test]
fn test_mock_node_id_as_bytes() {
    let node_id = MockHash(42);
    let bytes = node_id.as_bytes();
    assert_eq!(bytes, &[] as &[u8]);
}

#[test]
fn test_mock_hash_inner() {
    let hash = MockHash(123);
    assert_eq!(hash.inner(), 123);
}

#[test]
fn test_mock_signature_from_bytes_empty() {
    assert!(MockSignature::from_bytes(&[]).is_err());
}

#[test]
fn test_mock_public_key_to_bytes() {
    let pk = MockPublicKey;
    assert_eq!(pk.to_bytes(), Vec::<u8>::new());
}

#[test]
fn test_mock_public_key_from_bytes() {
    let pk = MockPublicKey::from_bytes(&[1, 2, 3]).unwrap();
    let _ = pk;
}
