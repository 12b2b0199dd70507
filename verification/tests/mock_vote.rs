use consensus_core::testing::{
    MockCommitInfo, MockHash, MockLedgerInfo, MockSignature, MockValidator, MockValidatorSet, MockVote, MockVoteData,
};

#[test]
fn test_mock_vote_new() {
    let vote = MockVote::new(MockHash(1), MockHash(2), 5);

    assert_eq!(vote.author(), MockHash(1));
    assert_eq!(vote.block_id(), MockHash(2));
    assert_eq!(vote.round(), 5);
}

#[test]
fn test_mock_vote_with_signature() {
    let vote = MockVote::with_signature(MockHash(1), MockHash(2), 5, 99);

    assert_eq!(vote.signature(), &MockSignature(99));
}

#[test]
fn test_mock_vote_default_signature() {
    let vote = MockVote::new(MockHash(5), MockHash(0), 0);

    // The signature is the author's id byte
    assert_eq!(vote.signature(), &MockSignature(5));
}

#[test]
fn test_mock_vote_vote_data() {
    let vote = MockVote::new(MockHash(1), MockHash(2), 5);
    let _data = vote.vote_data();
}

#[test]
fn test_mock_vote_ledger_info() {
    let vote = MockVote::new(MockHash(1), MockHash(2), 5);
    let _info = vote.ledger_info();
}

#[test]
fn test_mock_vote_verify() {
    let validators = vec![MockValidator::new(1, 100)];
    let verifier = MockValidatorSet::new(validators);
    let vote = MockVote::new(MockHash(1), MockHash(2), 5);
    assert!(vote.verify(&verifier).is_ok());
}

#[test]
fn test_mock_vote_data_proposed_block() {
    let vote_data = MockVoteData;
    let _block = vote_data.proposed_block();
}

#[test]
fn test_mock_vote_data_parent_block() {
    let vote_data = MockVoteData;
    let _block = vote_data.parent_block();
}

#[test]
fn test_mock_vote_data_verify() {
    let vote_data = MockVoteData;
    assert!(vote_data.verify().is_ok());
}

#[test]
fn test_mock_ledger_info_commit_info() {
    let ledger_info = MockLedgerInfo;
    let _info = ledger_info.commit_info();
}

#[test]
fn test_mock_ledger_info_epoch() {
    let ledger_info = MockLedgerInfo;
    assert_eq!(ledger_info.epoch(), 0);
}

#[test]
fn test_mock_ledger_info_round() {
    let ledger_info = MockLedgerInfo;
    assert_eq!(ledger_info.round(), 0);
}

#[test]
fn test_mock_ledger_info_accumulated_state() {
    let ledger_info = MockLedgerInfo;
    let _hash = ledger_info.accumulated_state();
}

#[test]
fn test_mock_commit_info_block_id() {
    let commit_info = MockCommitInfo;
    assert_eq!(commit_info.block_id(), MockHash(0));
}

#[test]
fn test_mock_commit_info_epoch() {
    let commit_info = MockCommitInfo;
    assert_eq!(commit_info.epoch(), 0);
}

#[test]
fn test_mock_commit_info_round() {
    let commit_info = MockCommitInfo;
    assert_eq!(commit_info.round(), 0);
}

#[test]
fn test_mock_commit_info_version() {
    let commit_info = MockCommitInfo;
    assert_eq!(commit_info.version(), 0);
}

#[test]
fn test_mock_commit_info_timestamp() {
    let commit_info = MockCommitInfo;
    assert_eq!(commit_info.timestamp(), 0);
}
