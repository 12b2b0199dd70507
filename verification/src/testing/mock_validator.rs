//! Validators and validator sets with voting power.
use vstd::prelude::*;

use super::{MockAggregatedSignature, MockBlock, MockHash, MockNodeId, MockPublicKey, MockSignature, MockVote};
use crate::error::{Error, VerifyError};

verus! {

/// A validator: identifier, public key and voting power.
#[derive(Clone, Copy, Debug)]
pub struct MockValidator {
    id: MockHash,
    public_key: MockPublicKey,
    voting_power: u64,
}

impl MockValidator {
    /// The identifier of the validator.
    pub closed spec fn spec_id(&self) -> MockNodeId {
        self.id
    }

    /// The voting power of the validator.
    pub closed spec fn spec_voting_power(&self) -> u64 {
        self.voting_power
    }

    /// A validator with identifier `MockHash(id)` and the given voting power.
    pub fn new(id: u8, voting_power: u64) -> (v: Self)
        ensures
            v.spec_id() == MockHash(id),
            v.spec_voting_power() == voting_power,
    {
        MockValidator { id: MockHash(id), public_key: MockPublicKey, voting_power }
    }

    /// The identifier of the validator.
    pub fn id(&self) -> (h: MockHash)
        ensures
            h == self.spec_id(),
    {
        self.id
    }

    /// The public key of the validator.
    pub fn public_key(&self) -> (k: &MockPublicKey)
        ensures
            *k == MockPublicKey,
    {
        &self.public_key
    }

    /// The voting power of the validator.
    pub fn voting_power(&self) -> (p: u64)
        ensures
            p == self.spec_voting_power(),
    {
        self.voting_power
    }
}

/// The membership that results from inserting the validators in order: each
/// identifier maps to the voting power of the last validator carrying it.
pub open spec fn members_of(vs: Seq<MockValidator>) -> Map<MockNodeId, u64>
    decreases vs.len(),
{
    if vs.len() == 0 {
        Map::empty()
    } else {
        members_of(vs.drop_last()).insert(vs.last().spec_id(), vs.last().spec_voting_power())
    }
}

/// The sum of the voting powers of all validators of a sequence.
pub open spec fn power_sum(vs: Seq<MockValidator>) -> nat
    decreases vs.len(),
{
    if vs.len() == 0 {
        0
    } else {
        power_sum(vs.drop_last()) + vs.last().spec_voting_power() as nat
    }
}

/// The membership of validators numbered by position: validator `i` has
/// identifier `MockHash(i as u8)` and voting power `powers[i]`.
pub open spec fn members_from_powers(powers: Seq<u64>) -> Map<MockNodeId, u64>
    decreases powers.len(),
{
    if powers.len() == 0 {
        Map::empty()
    } else {
        members_from_powers(powers.drop_last()).insert(
            MockHash((powers.len() - 1) as u8),
            powers.last(),
        )
    }
}

/// The sum of a sequence of voting powers.
pub open spec fn sum_powers(powers: Seq<u64>) -> nat
    decreases powers.len(),
{
    if powers.len() == 0 {
        0
    } else {
        sum_powers(powers.drop_last()) + powers.last() as nat
    }
}

/// The voting power that a quorum needs out of a total: more than two thirds.
pub open spec fn quorum_of(total: nat) -> nat {
    total * 2 / 3 + 1
}

/// The voting power of a sequence of signers: each occurrence of a member
/// counts its voting power, non-members count nothing.
pub open spec fn signers_power(signers: Seq<MockNodeId>, members: Map<MockNodeId, u64>) -> nat
    decreases signers.len(),
{
    if signers.len() == 0 {
        0
    } else {
        signers_power(signers.drop_last(), members) + (if members.contains_key(signers.last()) {
            members[signers.last()] as nat
        } else {
            0
        })
    }
}

/// Whether no two validators of a sequence share an identifier.
pub open spec fn ids_unique(vs: Seq<MockValidator>) -> bool {
    forall|i: int, j: int| 0 <= i < j < vs.len() ==> vs[i].spec_id() != vs[j].spec_id()
}

proof fn lemma_members_lookup(vs: Seq<MockValidator>)
    requires
        ids_unique(vs),
    ensures
        forall|i: int|
            0 <= i < vs.len() ==> #[trigger] members_of(vs).contains_key(vs[i].spec_id())
                && members_of(vs)[vs[i].spec_id()] == vs[i].spec_voting_power(),
        forall|id: MockNodeId|
            #[trigger] members_of(vs).contains_key(id) ==> exists|i: int|
                0 <= i < vs.len() && vs[i].spec_id() == id,
        members_of(vs).dom().finite(),
        members_of(vs).dom().len() == vs.len(),
    decreases vs.len(),
{
    if vs.len() > 0 {
        let pre = vs.drop_last();
        lemma_members_lookup(pre);
        let m = members_of(pre);
        assert(!m.contains_key(vs.last().spec_id())) by {
            if m.contains_key(vs.last().spec_id()) {
                let i = choose|i: int| 0 <= i < pre.len() && pre[i].spec_id() == vs.last().spec_id();
                assert(vs[i].spec_id() == vs[vs.len() - 1].spec_id());
            }
        }
        assert forall|i: int|
            0 <= i < vs.len() implies #[trigger] members_of(vs).contains_key(vs[i].spec_id())
                && members_of(vs)[vs[i].spec_id()] == vs[i].spec_voting_power() by {
            if i < vs.len() - 1 {
                assert(pre[i] == vs[i]);
                assert(vs[i].spec_id() != vs[vs.len() - 1].spec_id());
            }
        }
        assert forall|id: MockNodeId|
            #[trigger] members_of(vs).contains_key(id) implies exists|i: int|
                0 <= i < vs.len() && vs[i].spec_id() == id by {
            if id != vs.last().spec_id() {
                assert(m.contains_key(id));
                let i = choose|i: int| 0 <= i < pre.len() && pre[i].spec_id() == id;
                assert(vs[i] == pre[i]);
            } else {
                assert(vs[vs.len() - 1].spec_id() == id);
            }
        }
        assert(members_of(vs).dom() == m.dom().insert(vs.last().spec_id()));
    }
}

proof fn lemma_members_update(vs: Seq<MockValidator>, j: int, v: MockValidator)
    requires
        ids_unique(vs),
        0 <= j < vs.len(),
        vs[j].spec_id() == v.spec_id(),
    ensures
        members_of(vs.update(j, v)) == members_of(vs).insert(v.spec_id(), v.spec_voting_power()),
        ids_unique(vs.update(j, v)),
    decreases vs.len(),
{
    let u = vs.update(j, v);
    if j == vs.len() - 1 {
        assert(u.drop_last() == vs.drop_last());
    } else {
        let pre = vs.drop_last();
        assert(u.drop_last() == pre.update(j, v));
        lemma_members_update(pre, j, v);
        assert(vs.last().spec_id() != v.spec_id()) by {
            assert(vs[j].spec_id() != vs[vs.len() - 1].spec_id());
        }
        assert(members_of(u) =~= members_of(vs).insert(v.spec_id(), v.spec_voting_power()));
    }
    assert forall|a: int, b: int| 0 <= a < b < u.len() implies u[a].spec_id() != u[b].spec_id() by {
        if a != j && b != j {
            assert(u[a] == vs[a] && u[b] == vs[b]);
        } else if a == j {
            assert(u[b] == vs[b]);
        } else {
            assert(u[a] == vs[a]);
        }
    }
}

proof fn lemma_power_sum_prefix(vs: Seq<MockValidator>, k: int)
    requires
        0 <= k <= vs.len(),
    ensures
        power_sum(vs.take(k)) <= power_sum(vs),
    decreases vs.len(),
{
    if k < vs.len() {
        let pre = vs.drop_last();
        assert(vs.take(k) == pre.take(k));
        lemma_power_sum_prefix(pre, k);
    } else {
        assert(vs.take(k) == vs);
    }
}

fn find_validator(vs: &Vec<MockValidator>, id: MockNodeId) -> (r: Option<usize>)
    ensures
        r matches Some(j) ==> j < vs@.len() && vs@[j as int].spec_id() == id,
        r is None ==> forall|k: int| 0 <= k < vs@.len() ==> vs@[k].spec_id() != id,
{
    let mut j: usize = 0;
    while j < vs.len()
        invariant
            j <= vs@.len(),
            forall|k: int| 0 <= k < j ==> vs@[k].spec_id() != id,
        decreases vs@.len() - j,
    {
        if vs[j].id == id {
            return Some(j);
        }
        j = j + 1;
    }
    None
}

pub(crate) proof fn lemma_members_from_powers(powers: Seq<u64>, vs: Seq<MockValidator>)
    requires
        vs.len() == powers.len(),
        forall|i: int|
            0 <= i < vs.len() ==> #[trigger] vs[i].spec_id() == MockHash(i as u8)
                && vs[i].spec_voting_power() == powers[i],
    ensures
        members_of(vs) == members_from_powers(powers),
        power_sum(vs) == sum_powers(powers),
    decreases vs.len(),
{
    if vs.len() > 0 {
        let pv = vs.drop_last();
        let pp = powers.drop_last();
        assert forall|i: int|
            0 <= i < pv.len() implies #[trigger] pv[i].spec_id() == MockHash(i as u8)
                && pv[i].spec_voting_power() == pp[i] by {
            assert(pv[i] == vs[i]);
        }
        lemma_members_from_powers(pp, pv);
        assert(vs[vs.len() - 1].spec_id() == MockHash((vs.len() - 1) as u8));
    }
}

/// A set of validators, indexed by identifier, with its total voting power and
/// quorum threshold.
#[derive(Debug)]
pub struct MockValidatorSet {
    validators: Vec<MockValidator>,
    total_voting_power: u128,
    quorum_threshold: u128,
}

impl Clone for MockValidatorSet {
    fn clone(&self) -> (r: Self)
        ensures
            r.members() == self.members(),
            r.total() == self.total(),
    {
        proof {
            use_type_invariant(self);
        }
        let mut validators: Vec<MockValidator> = Vec::new();
        let mut i: usize = 0;
        while i < self.validators.len()
            invariant
                i <= self.validators@.len(),
                validators@ == self.validators@.take(i as int),
            decreases self.validators@.len() - i,
        {
            validators.push(self.validators[i]);
            i = i + 1;
            proof {
                assert(validators@ == self.validators@.take(i as int));
            }
        }
        proof {
            assert(validators@ == self.validators@);
        }
        MockValidatorSet {
            validators,
            total_voting_power: self.total_voting_power,
            quorum_threshold: self.quorum_threshold,
        }
    }
}

impl MockValidatorSet {
    #[verifier::type_invariant]
    spec fn well_formed(&self) -> bool {
        &&& ids_unique(self.validators@)
        &&& self.quorum_threshold as nat == quorum_of(self.total_voting_power as nat)
        &&& self.total_voting_power * 2 <= u128::MAX
    }

    /// The voting power of each member, by identifier.
    pub closed spec fn members(&self) -> Map<MockNodeId, u64> {
        members_of(self.validators@)
    }

    /// The total voting power, counted over every validator the set was built from.
    pub closed spec fn total(&self) -> nat {
        self.total_voting_power as nat
    }

    /// The quorum threshold: more than two thirds of the total voting power.
    pub open spec fn quorum(&self) -> nat {
        quorum_of(self.total())
    }

    /// Builds a validator set. A validator whose identifier occurs again
    /// later is replaced by the later one, but every validator's voting power
    /// counts toward the total.
    pub fn new(validators: Vec<MockValidator>) -> (set: Self)
        requires
            power_sum(validators@) * 2 <= u128::MAX,
        ensures
            set.members() == members_of(validators@),
            set.total() == power_sum(validators@),
    {
        let mut acc: Vec<MockValidator> = Vec::new();
        let mut total_power: u128 = 0;
        let n = validators.len();
        let mut i: usize = 0;
        proof {
            assert(validators@.take(0) =~= Seq::<MockValidator>::empty());
        }
        while i < n
            invariant
                n == validators@.len(),
                i <= n,
                ids_unique(acc@),
                members_of(acc@) == members_of(validators@.take(i as int)),
                total_power == power_sum(validators@.take(i as int)),
                power_sum(validators@) * 2 <= u128::MAX,
            decreases n - i,
        {
            let v = validators[i];
            let ghost prev = acc@;
            proof {
                assert(validators@.take(i + 1) == validators@.take(i as int).push(v));
                assert(validators@.take(i + 1).drop_last() == validators@.take(i as int));
                lemma_power_sum_prefix(validators@, i + 1);
            }
            total_power = total_power + v.voting_power as u128;
            match find_validator(&acc, v.id) {
                Some(j) => {
                    proof {
                        lemma_members_update(prev, j as int, v);
                    }
                    acc.set(j, v);
                },
                None => {
                    acc.push(v);
                    proof {
                        assert(acc@.drop_last() == prev);
                        assert forall|a: int, b: int| 0 <= a < b < acc@.len() implies acc@[a].spec_id()
                            != acc@[b].spec_id() by {
                            if b == acc@.len() - 1 {
                                assert(acc@[a] == prev[a]);
                            } else {
                                assert(acc@[a] == prev[a] && acc@[b] == prev[b]);
                            }
                        }
                    }
                },
            }
            i = i + 1;
        }
        proof {
            assert(validators@.take(n as int) == validators@);
        }
        let quorum_threshold = (total_power * 2 / 3) + 1;
        MockValidatorSet { validators: acc, total_voting_power: total_power, quorum_threshold }
    }

    /// The number of distinct validators.
    pub fn len(&self) -> (l: usize)
        ensures
            l == self.members().dom().len(),
    {
        proof {
            use_type_invariant(self);
            lemma_members_lookup(self.validators@);
        }
        self.validators.len()
    }

    /// Whether the set has no validator.
    pub fn is_empty(&self) -> (e: bool)
        ensures
            e == (self.members().dom().len() == 0),
    {
        proof {
            use_type_invariant(self);
            lemma_members_lookup(self.validators@);
        }
        self.validators.len() == 0
    }

    /// The total voting power of all validators.
    pub fn total_voting_power(&self) -> (t: u128)
        ensures
            t == self.total(),
    {
        self.total_voting_power
    }

    /// The quorum threshold: more than two thirds of the total voting power.
    pub fn quorum_threshold(&self) -> (q: u128)
        ensures
            q == self.quorum(),
    {
        proof {
            use_type_invariant(self);
        }
        self.quorum_threshold
    }

    /// The quorum threshold (the voting power a quorum needs).
    pub fn quorum_voting_power(&self) -> (q: u128)
        ensures
            q == self.quorum(),
    {
        self.quorum_threshold()
    }

    /// The validator with identifier `id`, if it is a member.
    pub fn get_validator(&self, id: MockNodeId) -> (r: Option<&MockValidator>)
        ensures
            r is Some == self.members().contains_key(id),
            r matches Some(v) ==> v.spec_id() == id && v.spec_voting_power() == self.members()[id],
    {
        proof {
            use_type_invariant(self);
            lemma_members_lookup(self.validators@);
        }
        match find_validator(&self.validators, id) {
            Some(j) => {
                proof {
                    assert(members_of(self.validators@).contains_key(self.validators@[j as int].spec_id()));
                }
                Some(&self.validators[j])
            },
            None => None,
        }
    }

    /// The voting power of `validator_id`, if it is a member.
    pub fn get_voting_power(&self, validator_id: &MockNodeId) -> (r: Option<u64>)
        ensures
            r == (if self.members().contains_key(*validator_id) {
                Some(self.members()[*validator_id])
            } else {
                None::<u64>
            }),
    {
        match self.get_validator(*validator_id) {
            Some(v) => Some(v.voting_power),
            None => None,
        }
    }

    /// The identifiers of all members, each once.
    pub fn validator_ids(&self) -> (ids: Vec<MockNodeId>)
        ensures
            ids@.no_duplicates(),
            forall|id: MockNodeId| ids@.contains(id) <==> self.members().contains_key(id),
    {
        proof {
            use_type_invariant(self);
            lemma_members_lookup(self.validators@);
        }
        let mut ids: Vec<MockNodeId> = Vec::new();
        let mut i: usize = 0;
        while i < self.validators.len()
            invariant
                i <= self.validators@.len(),
                ids_unique(self.validators@),
                ids@.len() == i,
                forall|k: int| 0 <= k < i ==> ids@[k] == self.validators@[k].spec_id(),
            decreases self.validators@.len() - i,
        {
            ids.push(self.validators[i].id);
            i = i + 1;
        }
        proof {
            assert forall|a: int, b: int| 0 <= a < ids@.len() && 0 <= b < ids@.len() && a != b implies ids@[a]
                != ids@[b] by {
                if a < b {
                    assert(self.validators@[a].spec_id() != self.validators@[b].spec_id());
                } else {
                    assert(self.validators@[b].spec_id() != self.validators@[a].spec_id());
                }
            }
            assert forall|id: MockNodeId| ids@.contains(id) <==> self.members().contains_key(id) by {
                if ids@.contains(id) {
                    let k = choose|k: int| 0 <= k < ids@.len() && ids@[k] == id;
                    assert(members_of(self.validators@).contains_key(self.validators@[k].spec_id()));
                }
                if self.members().contains_key(id) {
                    let k = choose|k: int| 0 <= k < self.validators@.len() && self.validators@[k].spec_id() == id;
                    assert(ids@[k] == id);
                }
            }
        }
        ids
    }

    /// Checks that the author of `vote` is a member.
    pub fn verify_vote(&self, vote: &MockVote) -> (r: Result<(), Error>)
        ensures
            r is Ok == self.members().contains_key(vote.spec_author()),
            r is Err ==> r == Err::<(), Error>(Error::Verify(VerifyError::UnknownAuthor)),
    {
        if self.get_validator(vote.author()).is_some() {
            Ok(())
        } else {
            Err(Error::Verify(VerifyError::UnknownAuthor))
        }
    }

    /// Checks a block's signature; every block passes.
    pub fn verify_block(&self, block: &MockBlock) -> (r: Result<(), Error>)
        ensures
            r is Ok,
    {
        Ok(())
    }

    /// Checks the voting power of `signers` (each occurrence counts). When
    /// `check_quorum` is set, fails unless the power reaches the quorum.
    pub fn check_voting_power(&self, signers: &[MockNodeId], check_quorum: bool) -> (r: Result<(), VerifyError>)
        ensures
            r is Err <==> check_quorum && signers_power(signers@, self.members()) < self.quorum(),
            r is Err ==> r == Err::<(), VerifyError>(
                VerifyError::TooLittleVotingPower {
                    voting_power: signers_power(signers@, self.members()) as u128,
                    expected_voting_power: self.quorum() as u128,
                },
            ),
    {
        let mut power: u128 = 0;
        let mut i: usize = 0;
        while i < signers.len()
            invariant
                i <= signers@.len(),
                power == signers_power(signers@.take(i as int), self.members()),
                power <= i * 0xffff_ffff_ffff_ffffu64,
                i <= usize::MAX,
            decreases signers@.len() - i,
        {
            proof {
                assert(signers@.take(i + 1).drop_last() == signers@.take(i as int));
                assert(i * 0xffff_ffff_ffff_ffffu64 + 0xffff_ffff_ffff_ffffu64 == (i + 1) * 0xffff_ffff_ffff_ffffu64)
                    by (nonlinear_arith);
                assert((i + 1) * 0xffff_ffff_ffff_ffffu64 <= 0x1_0000_0000_0000_0000 * 0xffff_ffff_ffff_ffffu64)
                    by (nonlinear_arith)
                    requires
                        i + 1 <= 0x1_0000_0000_0000_0000,
                ;
            }
            if let Some(vp) = self.get_voting_power(&signers[i]) {
                power = power + vp as u128;
            }
            i = i + 1;
        }
        proof {
            assert(signers@.take(signers@.len() as int) == signers@);
        }
        let quorum = self.quorum_threshold();
        if check_quorum && power < quorum {
            return Err(VerifyError::TooLittleVotingPower { voting_power: power, expected_voting_power: quorum });
        }
        Ok(())
    }

    /// Aggregates signatures; aggregation always succeeds.
    pub fn aggregate_signatures(&self, signatures: &[MockSignature]) -> (r: Result<MockAggregatedSignature, Error>)
        ensures
            r == Ok::<MockAggregatedSignature, Error>(MockAggregatedSignature),
    {
        Ok(MockAggregatedSignature)
    }
}

} // verus!
