//! Proposer election: which validator proposes in each round.
use vstd::prelude::*;

verus! {

/// Configuration for proposer election.
#[derive(Clone, Copy, Debug)]
pub struct ProposerElectionConfig {
    /// Number of validators
    pub num_validators: usize,
    /// Starting round number
    pub initial_round: u64,
}

impl Default for ProposerElectionConfig {
    fn default() -> (c: Self)
        ensures
            c.num_validators == 4,
            c.initial_round == 1,
    {
        ProposerElectionConfig { num_validators: 4, initial_round: 1 }
    }
}

/// Election of the proposer of each round.
pub trait ProposerElection {
    /// The identity of a validator.
    type Author;

    /// Whether the proposer of `round` can be computed.
    spec fn electable(&self, round: u64) -> bool;

    /// The proposer of `round`, if there is one.
    spec fn proposer_of(&self, round: u64) -> Option<Self::Author>;

    /// Whether the proposer of `round` can be computed (to test before
    /// asking for it).
    fn can_elect(&self, round: &u64) -> (b: bool)
        ensures
            b == self.electable(*round),
    ;

    /// The proposer of `round`, if there is one.
    fn get_valid_proposer(&self, round: &u64) -> (r: Option<Self::Author>)
        requires
            self.electable(*round),
        ensures
            r == self.proposer_of(*round),
    ;
}

/// Round-robin election: the validators take turns, in order, from the
/// initial round on.
#[derive(Clone)]
pub struct RoundRobinProposer<A: Copy> {
    validators: Vec<A>,
    config: ProposerElectionConfig,
}

impl<A: Copy> RoundRobinProposer<A> {
    /// The validators, in turn order.
    pub closed spec fn spec_validators(&self) -> Seq<A> {
        self.validators@
    }

    /// The configuration.
    pub closed spec fn spec_config(&self) -> ProposerElectionConfig {
        self.config
    }

    /// A round-robin election over `validators`.
    pub fn new(validators: Vec<A>, config: ProposerElectionConfig) -> (p: Self)
        ensures
            p.spec_validators() == validators@,
            p.spec_config() == config,
    {
        RoundRobinProposer { validators, config }
    }

    /// The number of validators.
    pub fn num_validators(&self) -> (n: usize)
        ensures
            n == self.spec_validators().len(),
    {
        self.validators.len()
    }

    /// The validator at `index`, if there is one.
    pub fn get_validator(&self, index: usize) -> (r: Option<&A>)
        ensures
            index < self.spec_validators().len() ==> r == Some(&self.spec_validators()[index as int]),
            index >= self.spec_validators().len() ==> r is None,
    {
        if index < self.validators.len() {
            Some(&self.validators[index])
        } else {
            None
        }
    }
}

impl<A: Copy> ProposerElection for RoundRobinProposer<A> {
    type Author = A;

    open spec fn electable(&self, round: u64) -> bool {
        true
    }

    fn can_elect(&self, round: &u64) -> (b: bool) {
        true
    }

    /// Validator `(round - initial_round) mod n`, from the initial round on.
    open spec fn proposer_of(&self, round: u64) -> Option<A> {
        if self.spec_validators().len() == 0 || round < self.spec_config().initial_round {
            None
        } else {
            Some(
                self.spec_validators()[(((round - self.spec_config().initial_round) as usize) as nat
                    % self.spec_validators().len()) as int],
            )
        }
    }

    fn get_valid_proposer(&self, round: &u64) -> (r: Option<A>) {
        if self.validators.len() == 0 {
            return None;
        }
        if *round < self.config.initial_round {
            return None;
        }
        let round_index = (*round - self.config.initial_round) as usize;
        let proposer_index = round_index % self.validators.len();
        Some(self.validators[proposer_index])
    }
}

/// The voting power of the first `k` validators.
pub open spec fn prefix_power<A>(vs: Seq<(A, u64)>, k: int) -> nat
    decreases k,
{
    if k <= 0 {
        0
    } else {
        prefix_power(vs, k - 1) + vs[k - 1].1 as nat
    }
}

/// The first validator, from index `i` on, whose cumulative voting power
/// exceeds `target`.
pub open spec fn first_above<A>(vs: Seq<(A, u64)>, target: nat, i: int) -> Option<A>
    decreases vs.len() - i,
{
    if i < 0 || i >= vs.len() {
        None
    } else if target < prefix_power(vs, i + 1) {
        Some(vs[i].0)
    } else {
        first_above(vs, target, i + 1)
    }
}

/// Weighted election: round `r` goes to the validator whose slice of the
/// cumulative voting power holds `r mod total`.
pub struct WeightedProposer<A: Copy> {
    validators: Vec<(A, u64)>,
    total_voting_power: u128,
    config: ProposerElectionConfig,
}

impl<A: Copy> WeightedProposer<A> {
    /// The validators with their voting power.
    pub closed spec fn spec_validators(&self) -> Seq<(A, u64)> {
        self.validators@
    }

    /// The configuration.
    pub closed spec fn spec_config(&self) -> ProposerElectionConfig {
        self.config
    }

    /// The total voting power.
    pub closed spec fn spec_total(&self) -> nat {
        self.total_voting_power as nat
    }

    /// A weighted election over `validators`.
    pub fn new(validators: Vec<(A, u64)>, config: ProposerElectionConfig) -> (p: Self)
        ensures
            p.spec_validators() == validators@,
            p.spec_config() == config,
            p.spec_total() == prefix_power(validators@, validators@.len() as int),
    {
        let mut total: u128 = 0;
        let mut i: usize = 0;
        while i < validators.len()
            invariant
                i <= validators@.len(),
                total == prefix_power(validators@, i as int),
                total <= i * 0xffff_ffff_ffff_ffffu64,
            decreases validators@.len() - i,
        {
            proof {
                assert(i * 0xffff_ffff_ffff_ffffu64 + 0xffff_ffff_ffff_ffffu64 == (i + 1) * 0xffff_ffff_ffff_ffffu64)
                    by (nonlinear_arith);
                assert((i + 1) * 0xffff_ffff_ffff_ffffu64 <= 0x1_0000_0000_0000_0000 * 0xffff_ffff_ffff_ffffu64)
                    by (nonlinear_arith)
                    requires
                        i + 1 <= 0x1_0000_0000_0000_0000,
                ;
            }
            total = total + validators[i].1 as u128;
            i = i + 1;
        }
        WeightedProposer { validators, total_voting_power: total, config }
    }

    fn select_weighted_proposer(&self, round: &u64) -> (r: Option<A>)
        requires
            self.spec_validators().len() == 0 || self.spec_total() > 0,
            self.spec_total() == prefix_power(self.spec_validators(), self.spec_validators().len() as int),
        ensures
            r == weighted_pick(self.spec_validators(), self.spec_total(), *round),
    {
        if self.validators.len() == 0 {
            return None;
        }
        let mut cumulative: u128 = 0;
        let target = (*round as u128) % self.total_voting_power;
        assert(target as nat == (*round as nat) % self.spec_total());
        let mut i: usize = 0;
        while i < self.validators.len()
            invariant
                i <= self.validators@.len(),
                cumulative == prefix_power(self.validators@, i as int),
                self.total_voting_power == prefix_power(self.validators@, self.validators@.len() as int),
                first_above(self.validators@, target as nat, 0) == first_above(self.validators@, target as nat, i as int),
                target as nat == (*round as nat) % self.spec_total(),
                self.validators@.len() > 0,
            decreases self.validators@.len() - i,
        {
            proof {
                lemma_prefix_monotone(self.validators@, i + 1, self.validators@.len() as int);
            }
            cumulative = cumulative + self.validators[i].1 as u128;
            if target < cumulative {
                proof {
                    assert(first_above(self.validators@, target as nat, i as int) == Some(self.validators@[i as int].0));
                    assert(first_above(self.validators@, target as nat, 0) == Some(self.validators@[i as int].0));
                    assert(weighted_pick(self.spec_validators(), self.spec_total(), *round) == Some(
                        self.validators@[i as int].0,
                    ));
                }
                return Some(self.validators[i].0);
            }
            i = i + 1;
        }
        let last = self.validators.len() - 1;
        Some(self.validators[last].0)
    }
}

/// The weighted proposer of `round` among `vs` with total power `total`.
pub open spec fn weighted_pick<A>(vs: Seq<(A, u64)>, total: nat, round: u64) -> Option<A> {
    if vs.len() == 0 {
        None
    } else {
        match first_above(vs, (round as nat) % total, 0) {
            Some(a) => Some(a),
            None => Some(vs.last().0),
        }
    }
}

proof fn lemma_prefix_monotone<A>(vs: Seq<(A, u64)>, j: int, k: int)
    requires
        0 <= j <= k,
    ensures
        prefix_power(vs, j) <= prefix_power(vs, k),
    decreases k - j,
{
    if j < k {
        lemma_prefix_monotone(vs, j, k - 1);
    }
}

proof fn lemma_first_above_at<A>(vs: Seq<(A, u64)>, t: nat, j: int, i: int)
    requires
        0 <= j <= i < vs.len(),
        prefix_power(vs, i) <= t < prefix_power(vs, i + 1),
    ensures
        first_above(vs, t, j) == Some(vs[i].0),
    decreases i - j,
{
    if j < i {
        lemma_prefix_monotone(vs, j + 1, i);
        lemma_first_above_at(vs, t, j + 1, i);
    }
}

/// Weighted election hands each validator the rounds of its slice of the
/// voting power: with the validators' powers laid end to end from 0 (the
/// slice of validator `i` runs from the power of the validators before it
/// to that plus its own), a round at or after the initial round elects the
/// validator whose slice holds the round modulo the total power.
pub proof fn lemma_weighted_slices<A: Copy>(p: WeightedProposer<A>, round: u64, i: int)
    requires
        p.spec_total() == prefix_power(p.spec_validators(), p.spec_validators().len() as int),
        p.spec_total() > 0,
        round >= p.spec_config().initial_round,
        0 <= i < p.spec_validators().len(),
        prefix_power(p.spec_validators(), i) <= (round as nat) % p.spec_total() < prefix_power(
            p.spec_validators(),
            i + 1,
        ),
    ensures
        prefix_power(p.spec_validators(), 0) == 0,
        forall|j: int|
            0 <= j < p.spec_validators().len() ==> #[trigger] prefix_power(p.spec_validators(), j + 1) == prefix_power(
                p.spec_validators(),
                j,
            ) + p.spec_validators()[j].1,
        p.proposer_of(round) == Some(p.spec_validators()[i].0),
{
    lemma_first_above_at(p.spec_validators(), (round as nat) % p.spec_total(), 0, i);
}

impl<A: Copy> ProposerElection for WeightedProposer<A> {
    type Author = A;

    /// The weighted pick needs a positive total once there are validators.
    open spec fn electable(&self, round: u64) -> bool {
        round < self.spec_config().initial_round || self.spec_validators().len() == 0 || self.spec_total() > 0
    }

    open spec fn proposer_of(&self, round: u64) -> Option<A> {
        if round < self.spec_config().initial_round {
            None
        } else {
            weighted_pick(self.spec_validators(), self.spec_total(), round)
        }
    }

    fn can_elect(&self, round: &u64) -> (b: bool) {
        *round < self.config.initial_round || self.validators.len() == 0 || self.total_voting_power > 0
    }

    fn get_valid_proposer(&self, round: &u64) -> (r: Option<A>) {
        proof {
            use_type_invariant(self);
        }
        if *round < self.config.initial_round {
            return None;
        }
        self.select_weighted_proposer(round)
    }
}

impl<A: Copy> Clone for WeightedProposer<A> {
    fn clone(&self) -> (c: Self)
        ensures
            c.spec_validators() == self.spec_validators(),
            c.spec_config() == self.spec_config(),
            c.spec_total() == self.spec_total(),
    {
        proof {
            use_type_invariant(self);
        }
        let mut validators: Vec<(A, u64)> = Vec::new();
        let mut i: usize = 0;
        while i < self.validators.len()
            invariant
                i <= self.validators@.len(),
                validators@ == self.validators@.take(i as int),
            decreases self.validators@.len() - i,
        {
            validators.push(self.validators[i]);
            i = i + 1;
            proof {
                assert(validators@ =~= self.validators@.take(i as int));
            }
        }
        proof {
            assert(validators@ =~= self.validators@);
        }
        WeightedProposer { validators, total_voting_power: self.total_voting_power, config: self.config }
    }
}

impl<A: Copy> WeightedProposer<A> {
    #[verifier::type_invariant]
    spec fn total_matches(&self) -> bool {
        self.total_voting_power == prefix_power(self.validators@, self.validators@.len() as int)
    }
}

} // verus!
