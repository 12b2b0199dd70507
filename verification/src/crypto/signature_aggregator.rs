//! Aggregation of validator signatures with voting-power tracking.
use vstd::prelude::*;

use crate::error::{Error, VerifyError};
use crate::testing::{signers_power, MockAggregatedSignature, MockNodeId, MockSignature, MockValidatorSet};

verus! {

/// The map from signer to signature held by a list of entries.
pub open spec fn entries_map(entries: Seq<(MockNodeId, MockSignature)>) -> Map<MockNodeId, MockSignature>
    decreases entries.len(),
{
    if entries.len() == 0 {
        Map::empty()
    } else {
        entries_map(entries.drop_last()).insert(entries.last().0, entries.last().1)
    }
}

/// Whether no two entries share a signer.
pub open spec fn signers_unique(entries: Seq<(MockNodeId, MockSignature)>) -> bool {
    forall|i: int, j: int| 0 <= i < j < entries.len() ==> entries[i].0 != entries[j].0
}

proof fn lemma_entries_lookup(entries: Seq<(MockNodeId, MockSignature)>)
    requires
        signers_unique(entries),
    ensures
        forall|i: int|
            0 <= i < entries.len() ==> #[trigger] entries_map(entries).contains_key(entries[i].0)
                && entries_map(entries)[entries[i].0] == entries[i].1,
        forall|id: MockNodeId|
            #[trigger] entries_map(entries).contains_key(id) ==> exists|i: int|
                0 <= i < entries.len() && entries[i].0 == id,
        entries_map(entries).dom().finite(),
        entries_map(entries).dom().len() == entries.len(),
    decreases entries.len(),
{
    if entries.len() > 0 {
        let pre = entries.drop_last();
        lemma_entries_lookup(pre);
        let m = entries_map(pre);
        assert(!m.contains_key(entries.last().0)) by {
            if m.contains_key(entries.last().0) {
                let i = choose|i: int| 0 <= i < pre.len() && pre[i].0 == entries.last().0;
                assert(entries[i].0 == entries[entries.len() - 1].0);
            }
        }
        assert forall|i: int|
            0 <= i < entries.len() implies #[trigger] entries_map(entries).contains_key(entries[i].0)
                && entries_map(entries)[entries[i].0] == entries[i].1 by {
            if i < entries.len() - 1 {
                assert(pre[i] == entries[i]);
                assert(entries[i].0 != entries[entries.len() - 1].0);
            }
        }
        assert forall|id: MockNodeId|
            #[trigger] entries_map(entries).contains_key(id) implies exists|i: int|
                0 <= i < entries.len() && entries[i].0 == id by {
            if id != entries.last().0 {
                let i = choose|i: int| 0 <= i < pre.len() && pre[i].0 == id;
                assert(entries[i] == pre[i]);
            } else {
                assert(entries[entries.len() - 1].0 == id);
            }
        }
        assert(entries_map(entries).dom() == m.dom().insert(entries.last().0));
    }
}

/// Collects signatures from distinct validators together with their
/// accumulated voting power.
#[derive(Clone, Debug)]
pub struct SignatureAggregator {
    signatures: Vec<(MockNodeId, MockSignature)>,
    voting_power: u128,
    signer_count: usize,
}

impl SignatureAggregator {
    /// The internal invariant: signers are distinct and counted.
    pub closed spec fn wf(&self) -> bool {
        &&& signers_unique(self.signatures@)
        &&& self.signer_count == self.signatures@.len()
    }

    /// The signature of each signer.
    pub closed spec fn signed(&self) -> Map<MockNodeId, MockSignature> {
        entries_map(self.signatures@)
    }

    /// The signers in the order they signed.
    pub closed spec fn signer_seq(&self) -> Seq<MockNodeId> {
        self.signatures@.map_values(|e: (MockNodeId, MockSignature)| e.0)
    }

    /// The accumulated voting power.
    pub closed spec fn power(&self) -> nat {
        self.voting_power as nat
    }

    proof fn lemma_signers(&self)
        requires
            self.wf(),
        ensures
            self.signed().dom().finite(),
            self.signed().dom().len() == self.signatures@.len(),
            self.signer_seq().no_duplicates(),
            self.signer_seq().len() == self.signatures@.len(),
            forall|id: MockNodeId| self.signer_seq().contains(id) <==> self.signed().contains_key(id),
    {
        lemma_entries_lookup(self.signatures@);
        let s = self.signer_seq();
        assert forall|id: MockNodeId| s.contains(id) <==> self.signed().contains_key(id) by {
            if s.contains(id) {
                let k = choose|k: int| 0 <= k < s.len() && s[k] == id;
                assert(entries_map(self.signatures@).contains_key(self.signatures@[k].0));
            }
            if self.signed().contains_key(id) {
                let k = choose|k: int| 0 <= k < self.signatures@.len() && self.signatures@[k].0 == id;
                assert(s[k] == id);
            }
        }
    }

    /// Each signer is counted once: there are as many signatures as signers.
    pub proof fn lemma_signer_count(&self)
        requires
            self.wf(),
        ensures
            self.signed().dom().len() == self.signer_seq().len(),
    {
        self.lemma_signers();
    }

    /// An empty aggregator.
    pub fn new() -> (a: Self)
        ensures
            a.wf(),
            a.signed() == Map::<MockNodeId, MockSignature>::empty(),
            a.signer_seq() == Seq::<MockNodeId>::empty(),
            a.power() == 0,
    {
        let a = SignatureAggregator { signatures: Vec::new(), voting_power: 0, signer_count: 0 };
        proof {
            assert(a.signer_seq() =~= Seq::<MockNodeId>::empty());
            assert(a.signed() =~= Map::<MockNodeId, MockSignature>::empty());
        }
        a
    }

    /// An empty aggregator.
    pub fn default() -> (a: Self)
        ensures
            a.wf(),
            a.signed() == Map::<MockNodeId, MockSignature>::empty(),
            a.power() == 0,
    {
        Self::new()
    }

    /// Adds the signature of `validator_id` with its voting power, unless that
    /// validator has already signed (a validator counts at most once).
    pub fn add_signature(&mut self, validator_id: MockNodeId, signature: MockSignature, voting_power: u64)
        requires
            old(self).wf(),
            old(self).power() + voting_power <= u128::MAX,
            old(self).signed().dom().len() < usize::MAX,
        ensures
            final(self).wf(),
            old(self).signed().contains_key(validator_id) ==> final(self).signed() == old(self).signed()
                && final(self).power() == old(self).power(),
            !old(self).signed().contains_key(validator_id) ==> final(self).signed() == old(self).signed().insert(
                validator_id,
                signature,
            ) && final(self).power() == old(self).power() + voting_power,
            old(self).signer_seq().contains(validator_id) <==> old(self).signed().contains_key(validator_id),
            old(self).signer_seq().contains(validator_id) ==> final(self).signer_seq() == old(self).signer_seq(),
            !old(self).signer_seq().contains(validator_id) ==> final(self).signer_seq() == old(
                self,
            ).signer_seq().push(validator_id),
    {
        proof {
            lemma_entries_lookup(self.signatures@);
            self.lemma_signers();
        }
        let ghost old_seq = self.signer_seq();
        if !self.has_signed(&validator_id) {
            let ghost prev = self.signatures@;
            self.voting_power = self.voting_power + voting_power as u128;
            self.signer_count = self.signer_count + 1;
            self.signatures.push((validator_id, signature));
            proof {
                assert(self.signatures@.drop_last() == prev);
                assert forall|a: int, b: int| 0 <= a < b < self.signatures@.len() implies self.signatures@[a].0
                    != self.signatures@[b].0 by {
                    assert(self.signatures@[a] == prev[a]);
                    if b < prev.len() {
                        assert(self.signatures@[b] == prev[b]);
                    } else {
                        assert(entries_map(prev).contains_key(prev[a].0));
                    }
                }
                assert(self.signer_seq() =~= old_seq.push(validator_id));
            }
        }
    }

    /// The accumulated voting power.
    pub fn voting_power(&self) -> (p: u128)
        ensures
            p == self.power(),
    {
        self.voting_power
    }

    /// The number of distinct signers.
    pub fn signer_count(&self) -> (n: usize)
        requires
            self.wf(),
        ensures
            n == self.signed().dom().len(),
    {
        proof {
            self.lemma_signers();
        }
        self.signer_count
    }

    /// The signers, each once, in the order they signed.
    pub fn signers(&self) -> (ids: Vec<MockNodeId>)
        requires
            self.wf(),
        ensures
            ids@ == self.signer_seq(),
            ids@.no_duplicates(),
            forall|id: MockNodeId| ids@.contains(id) <==> self.signed().contains_key(id),
    {
        proof {
            self.lemma_signers();
        }
        let mut ids: Vec<MockNodeId> = Vec::new();
        let mut i: usize = 0;
        while i < self.signatures.len()
            invariant
                i <= self.signatures@.len(),
                ids@ == self.signatures@.take(i as int).map_values(|e: (MockNodeId, MockSignature)| e.0),
            decreases self.signatures@.len() - i,
        {
            ids.push(self.signatures[i].0);
            i = i + 1;
            proof {
                assert(ids@ =~= self.signatures@.take(i as int).map_values(|e: (MockNodeId, MockSignature)| e.0));
            }
        }
        proof {
            assert(self.signatures@.take(i as int) == self.signatures@);
        }
        ids
    }

    /// The signatures, in the order they were added.
    pub fn signatures(&self) -> (sigs: Vec<MockSignature>)
        requires
            self.wf(),
        ensures
            sigs@.len() == self.signed().dom().len(),
            forall|k: int|
                0 <= k < sigs@.len() ==> self.signed().contains_key(self.signer_seq()[k]) && sigs@[k]
                    == self.signed()[self.signer_seq()[k]],
    {
        proof {
            self.lemma_signers();
            lemma_entries_lookup(self.signatures@);
        }
        let mut sigs: Vec<MockSignature> = Vec::new();
        let mut i: usize = 0;
        while i < self.signatures.len()
            invariant
                i <= self.signatures@.len(),
                sigs@.len() == i,
                forall|k: int| 0 <= k < i ==> sigs@[k] == self.signatures@[k].1,
            decreases self.signatures@.len() - i,
        {
            sigs.push(self.signatures[i].1);
            i = i + 1;
        }
        proof {
            assert forall|k: int| 0 <= k < sigs@.len() implies self.signed().contains_key(self.signer_seq()[k])
                && sigs@[k] == self.signed()[self.signer_seq()[k]] by {
                assert(self.signer_seq()[k] == self.signatures@[k].0);
            }
        }
        sigs
    }

    /// Checks that the signers hold a quorum of the validator set's voting power.
    pub fn check_quorum(&self, verifier: &MockValidatorSet) -> (r: Result<(), VerifyError>)
        requires
            self.wf(),
        ensures
            r is Err <==> signers_power(self.signer_seq(), verifier.members()) < verifier.quorum(),
            r is Err ==> r == Err::<(), VerifyError>(
                VerifyError::TooLittleVotingPower {
                    voting_power: signers_power(self.signer_seq(), verifier.members()) as u128,
                    expected_voting_power: verifier.quorum() as u128,
                },
            ),
    {
        let ids = self.signers();
        verifier.check_voting_power(ids.as_slice(), true)
    }

    /// Aggregates all signatures into one; aggregation always succeeds.
    pub fn aggregate(&self, verifier: &MockValidatorSet) -> (r: Result<MockAggregatedSignature, Error>)
        requires
            self.wf(),
        ensures
            r == Ok::<MockAggregatedSignature, Error>(MockAggregatedSignature),
    {
        let sigs = self.signatures();
        verifier.aggregate_signatures(sigs.as_slice())
    }

    /// Removes all signatures and resets the voting power.
    pub fn clear(&mut self)
        ensures
            final(self).wf(),
            final(self).signed() == Map::<MockNodeId, MockSignature>::empty(),
            final(self).power() == 0,
    {
        self.signatures = Vec::new();
        self.voting_power = 0;
        self.signer_count = 0;
        proof {
            assert(self.signed() =~= Map::<MockNodeId, MockSignature>::empty());
        }
    }

    /// Whether `validator_id` has signed.
    pub fn has_signed(&self, validator_id: &MockNodeId) -> (b: bool)
        requires
            self.wf(),
        ensures
            b == self.signed().contains_key(*validator_id),
    {
        self.get_signature(validator_id).is_some()
    }

    /// The signature of `validator_id`, if it has signed.
    pub fn get_signature(&self, validator_id: &MockNodeId) -> (r: Option<&MockSignature>)
        requires
            self.wf(),
        ensures
            r is Some == self.signed().contains_key(*validator_id),
            r matches Some(s) ==> *s == self.signed()[*validator_id],
    {
        proof {
            lemma_entries_lookup(self.signatures@);
        }
        let mut i: usize = 0;
        while i < self.signatures.len()
            invariant
                i <= self.signatures@.len(),
                forall|k: int| 0 <= k < i ==> self.signatures@[k].0 != *validator_id,
                signers_unique(self.signatures@),
            decreases self.signatures@.len() - i,
        {
            if self.signatures[i].0 == *validator_id {
                proof {
                    lemma_entries_lookup(self.signatures@);
                    assert(entries_map(self.signatures@).contains_key(self.signatures@[i as int].0));
                }
                return Some(&self.signatures[i].1);
            }
            i = i + 1;
        }
        None
    }
}

} // verus!
