//! The concrete block, vote, validator and signature types of the library.
//!
//! The consensus components in this crate operate on these types. They are
//! small and fully specified, which makes them suitable both for production
//! embedding through conversion and for tests.
use vstd::prelude::*;

mod mock_types;
mod mock_block;
mod mock_vote;
mod mock_validator;

pub use mock_types::{MockAggregatedSignature, MockHash, MockNodeId, MockPublicKey, MockSignature};
pub use mock_block::{block_id_of, is_genesis_metadata, MockBlock, MockBlockMetadata, MockQuorumCert, MockTransaction};
pub use mock_validator::{
    members_from_powers, members_of, power_sum, quorum_of, signers_power, sum_powers, ids_unique, MockValidator,
    MockValidatorSet,
};
pub use mock_vote::{MockCommitInfo, MockLedgerInfo, MockVote, MockVoteData};

verus! {

/// Creates a validator set from voting powers: validator `i` gets identifier
/// `MockHash(i as u8)` and voting power `voting_powers[i]`.
pub fn make_validator_set(voting_powers: &[u64]) -> (set: MockValidatorSet)
    requires
        sum_powers(voting_powers@) * 2 <= u128::MAX,
    ensures
        set.members() == members_from_powers(voting_powers@),
        set.total() == sum_powers(voting_powers@),
{
    let mut validators: Vec<MockValidator> = Vec::new();
    let mut i: usize = 0;
    while i < voting_powers.len()
        invariant
            i <= voting_powers@.len(),
            validators@.len() == i,
            forall|k: int|
                0 <= k < i ==> #[trigger] validators@[k].spec_id() == MockHash(k as u8)
                    && validators@[k].spec_voting_power() == voting_powers@[k],
        decreases voting_powers@.len() - i,
    {
        validators.push(MockValidator::new(i as u8, voting_powers[i]));
        i = i + 1;
    }
    proof {
        mock_validator::lemma_members_from_powers(voting_powers@, validators@);
    }
    MockValidatorSet::new(validators)
}

} // verus!
