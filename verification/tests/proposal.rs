use consensus_core::proposal::{ProposalConfig, ProposalGenerator};
use consensus_core::testing::{MockBlock, MockBlockMetadata, MockHash, MockQuorumCert, MockTransaction};

#[test]
fn test_proposal_generator_new() {
    let config = ProposalConfig::default();
    let author_id = MockHash(1);
    let generator = ProposalGenerator::new(config.clone(), author_id);

    assert_eq!(generator.config(), &config);
    assert_eq!(generator.author_id(), &author_id);
}

#[test]
fn test_proposal_generator_generate_proposal() {
    let config = ProposalConfig::default();
    let author_id = MockHash(1);
    let generator = ProposalGenerator::new(config, author_id);

    let parent_qc = MockQuorumCert::default();
    let round = 5;
    let epoch = 2;
    let txns = vec![MockTransaction, MockTransaction];

    let proposal = generator
        .generate_proposal(&parent_qc, round, epoch, txns, |gen, r, e, parent_id, timestamp, txns| {
            MockBlock::new(txns, MockBlockMetadata::new(e, r, *gen.author_id(), parent_id, timestamp))
        })
        .unwrap();

    assert_eq!(proposal.metadata().epoch(), epoch);
    assert_eq!(proposal.metadata().round(), round);
    assert_eq!(proposal.metadata().author(), MockHash(1));
    assert_eq!(proposal.transactions().len(), 2);
}

#[test]
fn test_proposal_config_default() {
    let config = ProposalConfig::default();

    assert_eq!(config.max_block_txns, 10000);
    assert_eq!(config.max_block_bytes, 10 * 1024 * 1024);
    assert!(config.include_timestamp);
}

#[test]
fn test_proposal_generator_update_config() {
    let mut config = ProposalConfig::default();
    let mut generator = ProposalGenerator::new(config.clone(), MockHash(1));

    config.max_block_txns = 5000;
    config.include_timestamp = false;

    generator.update_config(config.clone());

    assert_eq!(generator.config().max_block_txns, 5000);
    assert!(!generator.config().include_timestamp);
}

#[test]
fn the_timestamp_is_the_given_time_or_zero() {
    let generator = ProposalGenerator::new(ProposalConfig::default(), MockHash(1));
    assert_eq!(generator.timestamp_at(Some(1234)), 1234);
    assert_eq!(generator.timestamp_at(None), 0);
    let mut config = ProposalConfig::default();
    config.include_timestamp = false;
    let quiet = ProposalGenerator::new(config, MockHash(1));
    assert_eq!(quiet.timestamp_at(Some(1234)), 0);
}

#[test]
fn the_proposal_extends_the_certified_parent() {
    let generator = ProposalGenerator::new(ProposalConfig::default(), MockHash(4));
    let parent_qc = MockQuorumCert::new(MockHash(9));
    let proposal = generator
        .generate_proposal_at(&parent_qc, 3, 1, vec![], |gen, r, e, parent_id, timestamp, txns| {
            MockBlock::new(txns, MockBlockMetadata::new(e, r, *gen.author_id(), parent_id, timestamp))
        }, Some(77))
        .unwrap();
    assert_eq!(proposal.parent_id(), MockHash(9));
    assert_eq!(proposal.metadata().timestamp(), 77);
}
