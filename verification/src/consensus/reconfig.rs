//! Reconfiguration: epoch transitions and validator set changes.
use vstd::prelude::*;

use std::collections::HashMap;

use crate::epoch_manager::{epoch_transition_refusal, EpochManager};
use crate::error::Error;
use crate::liveness::ProposerElection;
use crate::testing::{MockBlock, MockNodeId};
use crate::types::{Epoch, Round};

verus! {

broadcast use vstd::std_specs::hash::group_hash_axioms;

/// Configuration for reconfiguration handling.
#[derive(Clone, Copy, Debug)]
pub struct ReconfigConfig {
    /// Number of rounds before epoch end to prepare for reconfiguration
    pub preparation_window: u64,
    /// Whether to verify validator signatures during reconfiguration
    pub verify_signatures: bool,
    /// Maximum time to wait for reconfiguration to complete (in milliseconds)
    pub reconfig_timeout_ms: u64,
}

impl Default for ReconfigConfig {
    fn default() -> (c: Self)
        ensures
            c.preparation_window == 5,
            c.verify_signatures,
            c.reconfig_timeout_ms == 30000,
    {
        ReconfigConfig { preparation_window: 5, verify_signatures: true, reconfig_timeout_ms: 30000 }
    }
}

/// Status of a reconfiguration operation.
#[derive(Clone, Debug, PartialEq, Eq)]
pub enum ReconfigStatus {
    /// No reconfiguration in progress
    Idle,
    /// Preparing for reconfiguration
    Preparing {
        /// Current epoch
        current_epoch: Epoch,
        /// Next epoch
        next_epoch: Epoch,
    },
    /// Reconfiguration in progress
    InProgress {
        /// New epoch being transitioned to
        new_epoch: Epoch,
        /// Number of validators processed
        validators_processed: usize,
        /// Total validators to process
        total_validators: usize,
    },
    /// Reconfiguration completed successfully
    Completed {
        /// The new epoch
        epoch: Epoch,
        /// Number of validators in the new set
        validator_count: usize,
    },
    /// Reconfiguration failed
    Failed {
        /// Error message
        error: String,
    },
}

impl ReconfigStatus {
    /// Whether a reconfiguration is being prepared or is under way.
    pub fn is_in_progress(&self) -> (b: bool)
        ensures
            b == (self is Preparing || self is InProgress),
    {
        match self {
            ReconfigStatus::Preparing { .. } | ReconfigStatus::InProgress { .. } => true,
            _ => false,
        }
    }

    /// Whether the reconfiguration completed.
    pub fn is_completed(&self) -> (b: bool)
        ensures
            b == self is Completed,
    {
        match self {
            ReconfigStatus::Completed { .. } => true,
            _ => false,
        }
    }

    /// Whether the reconfiguration failed.
    pub fn is_failed(&self) -> (b: bool)
        ensures
            b == self is Failed,
    {
        match self {
            ReconfigStatus::Failed { .. } => true,
            _ => false,
        }
    }

    /// The epoch being left: the current epoch while preparing, the one
    /// before the new epoch while in progress, the new one once completed.
    pub fn current_epoch(&self) -> (r: Option<Epoch>)
        requires
            self matches ReconfigStatus::InProgress { new_epoch, .. } ==> new_epoch > 0,
        ensures
            r == match *self {
                ReconfigStatus::Preparing { current_epoch, .. } => Some(current_epoch),
                ReconfigStatus::InProgress { new_epoch, .. } => Some((new_epoch - 1) as u64),
                ReconfigStatus::Completed { epoch, .. } => Some(epoch),
                _ => None::<Epoch>,
            },
    {
        match self {
            ReconfigStatus::Preparing { current_epoch, .. } => Some(*current_epoch),
            ReconfigStatus::InProgress { new_epoch, .. } => Some(*new_epoch - 1),
            ReconfigStatus::Completed { epoch, .. } => Some(*epoch),
            _ => None,
        }
    }

    /// The epoch being entered, if any.
    pub fn new_epoch(&self) -> (r: Option<Epoch>)
        ensures
            r == match *self {
                ReconfigStatus::Preparing { next_epoch, .. } => Some(next_epoch),
                ReconfigStatus::InProgress { new_epoch, .. } => Some(new_epoch),
                ReconfigStatus::Completed { epoch, .. } => Some(epoch),
                _ => None::<Epoch>,
            },
    {
        match self {
            ReconfigStatus::Preparing { next_epoch, .. } => Some(*next_epoch),
            ReconfigStatus::InProgress { new_epoch, .. } => Some(*new_epoch),
            ReconfigStatus::Completed { epoch, .. } => Some(*epoch),
            _ => None,
        }
    }
}

/// Whether no two entries share a validator.
pub open spec fn ids_distinct(s: Seq<(MockNodeId, u64)>) -> bool {
    forall|i: int, j: int| 0 <= i < j < s.len() ==> s[i].0 != s[j].0
}

/// The entries after assigning voting powers in order: a validator that
/// comes again keeps its first position and takes its latest power.
pub open spec fn assign_powers(s: Seq<(MockNodeId, u64)>) -> Seq<(MockNodeId, u64)>
    decreases s.len(),
{
    if s.len() == 0 {
        Seq::empty()
    } else {
        let pre = assign_powers(s.drop_last());
        let e = s.last();
        if exists|i: int| 0 <= i < pre.len() && pre[i].0 == e.0 {
            let i = choose|i: int| 0 <= i < pre.len() && pre[i].0 == e.0;
            pre.update(i, e)
        } else {
            pre.push(e)
        }
    }
}

/// The voting power of `id` among `s` (the last entry for it counts).
pub open spec fn power_of(s: Seq<(MockNodeId, u64)>, id: MockNodeId) -> Option<u64>
    decreases s.len(),
{
    if s.len() == 0 {
        None
    } else if s.last().0 == id {
        Some(s.last().1)
    } else {
        power_of(s.drop_last(), id)
    }
}

/// The sum of the voting powers of the entries.
pub open spec fn entries_power(s: Seq<(MockNodeId, u64)>) -> nat
    decreases s.len(),
{
    if s.len() == 0 {
        0
    } else {
        entries_power(s.drop_last()) + s.last().1 as nat
    }
}

/// The voting power of a sequence of voters: each occurrence of a member
/// counts its power.
pub open spec fn voters_power(voters: Seq<MockNodeId>, s: Seq<(MockNodeId, u64)>) -> nat
    decreases voters.len(),
{
    if voters.len() == 0 {
        0
    } else {
        voters_power(voters.drop_last(), s) + match power_of(s, voters.last()) {
            Some(p) => p as nat,
            None => 0,
        }
    }
}

proof fn lemma_assign_powers_distinct(s: Seq<(MockNodeId, u64)>)
    ensures
        ids_distinct(assign_powers(s)),
        forall|i: int| 0 <= i < s.len() ==> exists|j: int| 0 <= j < assign_powers(s).len() && #[trigger] s[i].0 == assign_powers(s)[j].0,
    decreases s.len(),
{
    if s.len() > 0 {
        let pre = assign_powers(s.drop_last());
        lemma_assign_powers_distinct(s.drop_last());
        let e = s.last();
        let r = assign_powers(s);
        if exists|i: int| 0 <= i < pre.len() && pre[i].0 == e.0 {
            let c = choose|i: int| 0 <= i < pre.len() && pre[i].0 == e.0;
            assert(r == pre.update(c, e));
            assert forall|i: int, j: int| 0 <= i < j < r.len() implies r[i].0 != r[j].0 by {
                assert(r[i].0 == pre[i].0 && r[j].0 == pre[j].0);
            }
            assert forall|i: int| 0 <= i < s.len() implies exists|j: int| 0 <= j < r.len() && #[trigger] s[i].0 == r[j].0 by {
                if i < s.len() - 1 {
                    assert(s[i] == s.drop_last()[i]);
                    let j = choose|j: int| 0 <= j < pre.len() && #[trigger] s.drop_last()[i].0 == pre[j].0;
                    assert(r[j].0 == pre[j].0);
                } else {
                    assert(r[c].0 == e.0);
                }
            }
        } else {
            assert(r == pre.push(e));
            assert forall|i: int| 0 <= i < s.len() implies exists|j: int| 0 <= j < r.len() && #[trigger] s[i].0 == r[j].0 by {
                if i < s.len() - 1 {
                    assert(s[i] == s.drop_last()[i]);
                    let j = choose|j: int| 0 <= j < pre.len() && #[trigger] s.drop_last()[i].0 == pre[j].0;
                    assert(r[j] == pre[j]);
                } else {
                    assert(r[r.len() - 1] == e);
                }
            }
        }
    }
}

proof fn lemma_power_of(s: Seq<(MockNodeId, u64)>, id: MockNodeId)
    requires
        ids_distinct(s),
    ensures
        forall|i: int| 0 <= i < s.len() && s[i].0 == id ==> power_of(s, id) == Some(s[i].1),
        (forall|i: int| 0 <= i < s.len() ==> s[i].0 != id) ==> power_of(s, id) is None,
    decreases s.len(),
{
    if s.len() > 0 {
        let pre = s.drop_last();
        assert forall|i: int, j: int| 0 <= i < j < pre.len() implies pre[i].0 != pre[j].0 by {
            assert(pre[i] == s[i] && pre[j] == s[j]);
        }
        lemma_power_of(pre, id);
        assert forall|i: int| 0 <= i < s.len() && s[i].0 == id implies power_of(s, id) == Some(s[i].1) by {
            if i < s.len() - 1 {
                assert(s[i] == pre[i]);
                assert(s[i].0 != s[s.len() - 1].0);
            }
        }
        if forall|i: int| 0 <= i < s.len() ==> s[i].0 != id {
            assert forall|i: int| 0 <= i < pre.len() implies pre[i].0 != id by {
                assert(pre[i] == s[i]);
            }
            assert(s[s.len() - 1].0 != id);
        }
    }
}

/// The voting power of a list of voters adds up every voter in the list:
/// none for no voters, and each further voter adds its voting power in the
/// set when it is a member, nothing when it is not (so a single member's
/// power is its own).
pub proof fn lemma_voters_power_adds_each_voter(vs: ValidatorSet, voters: Seq<MockNodeId>, v: MockNodeId)
    requires
        vs.wf(),
    ensures
        voters_power(Seq::<MockNodeId>::empty(), vs.spec_entries()) == 0,
        forall|i: int|
            0 <= i < vs.spec_entries().len() && #[trigger] vs.spec_entries()[i].0 == v ==> voters_power(
                voters.push(v),
                vs.spec_entries(),
            ) == voters_power(voters, vs.spec_entries()) + vs.spec_entries()[i].1 && voters_power(
                seq![v],
                vs.spec_entries(),
            ) == vs.spec_entries()[i].1,
        (forall|i: int| 0 <= i < vs.spec_entries().len() ==> vs.spec_entries()[i].0 != v) ==> voters_power(
            voters.push(v),
            vs.spec_entries(),
        ) == voters_power(voters, vs.spec_entries()),
{
    lemma_power_of(vs.spec_entries(), v);
    assert(voters.push(v).drop_last() =~= voters);
    assert(seq![v].drop_last() =~= Seq::<MockNodeId>::empty());
}

fn find_entry(entries: &Vec<(MockNodeId, u64)>, id: MockNodeId) -> (r: Option<usize>)
    ensures
        r matches Some(i) ==> i < entries@.len() && entries@[i as int].0 == id,
        r is None ==> forall|i: int| 0 <= i < entries@.len() ==> entries@[i].0 != id,
{
    let mut i: usize = 0;
    while i < entries.len()
        invariant
            i <= entries@.len(),
            forall|j: int| 0 <= j < i ==> entries@[j].0 != id,
        decreases entries@.len() - i,
    {
        if entries[i].0 == id {
            return Some(i);
        }
        i = i + 1;
    }
    None
}

/// A validator set for an epoch: each validator's voting power, and the
/// total.
#[derive(Clone, Debug)]
pub struct ValidatorSet {
    /// The epoch this validator set is for
    pub epoch: Epoch,
    /// Each validator with its voting power, each validator once
    pub validators: Vec<(MockNodeId, u64)>,
    /// Total voting power
    pub total_voting_power: u128,
}

impl ValidatorSet {
    /// The validators with their voting power, each validator once.
    pub open spec fn spec_entries(&self) -> Seq<(MockNodeId, u64)> {
        self.validators@
    }

    /// The internal invariant: each validator occurs once.
    pub open spec fn wf(&self) -> bool {
        ids_distinct(self.spec_entries())
    }

    /// A validator set for `epoch`. Voting powers are assigned in order, so
    /// a validator that comes again takes its latest power; the total is the
    /// sum of the resulting powers.
    pub fn new(epoch: Epoch, validators: Vec<(MockNodeId, u64)>) -> (vs: Self)
        ensures
            vs.wf(),
            vs.epoch == epoch,
            vs.spec_entries() == assign_powers(validators@),
            vs.total_voting_power == entries_power(assign_powers(validators@)),
    {
        let mut entries: Vec<(MockNodeId, u64)> = Vec::new();
        let mut k: usize = 0;
        while k < validators.len()
            invariant
                k <= validators@.len(),
                entries@ == assign_powers(validators@.take(k as int)),
                ids_distinct(entries@),
            decreases validators@.len() - k,
        {
            let e = validators[k];
            proof {
                assert(validators@.take(k + 1).drop_last() =~= validators@.take(k as int));
                assert(validators@.take(k + 1).last() == e);
                lemma_assign_powers_distinct(validators@.take(k + 1));
            }
            match find_entry(&entries, e.0) {
                Some(i) => {
                    proof {
                        let pre = entries@;
                        let c = choose|j: int| 0 <= j < pre.len() && pre[j].0 == e.0;
                        assert(c == i) by {
                            if c < i {
                                assert(pre[c].0 != pre[i as int].0);
                            } else if c > i {
                                assert(pre[i as int].0 != pre[c].0);
                            }
                        }
                    }
                    entries.set(i, e);
                },
                None => {
                    entries.push(e);
                },
            }
            k = k + 1;
        }
        proof {
            assert(validators@.take(k as int) =~= validators@);
        }
        let mut total: u128 = 0;
        let mut i: usize = 0;
        while i < entries.len()
            invariant
                i <= entries@.len(),
                total == entries_power(entries@.take(i as int)),
                total <= i * 0xffff_ffff_ffff_ffffu64,
            decreases entries@.len() - i,
        {
            proof {
                assert(entries@.take(i + 1).drop_last() =~= entries@.take(i as int));
                assert(i * 0xffff_ffff_ffff_ffffu64 + 0xffff_ffff_ffff_ffffu64 == (i + 1) * 0xffff_ffff_ffff_ffffu64)
                    by (nonlinear_arith);
                assert((i + 1) * 0xffff_ffff_ffff_ffffu64 <= 0x1_0000_0000_0000_0000 * 0xffff_ffff_ffff_ffffu64)
                    by (nonlinear_arith)
                    requires
                        i + 1 <= 0x1_0000_0000_0000_0000,
                ;
            }
            total = total + entries[i].1 as u128;
            i = i + 1;
        }
        proof {
            assert(entries@.take(i as int) =~= entries@);
        }
        ValidatorSet { epoch, validators: entries, total_voting_power: total }
    }

    /// The number of validators.
    pub fn len(&self) -> (n: usize)
        ensures
            n == self.spec_entries().len(),
    {
        self.validators.len()
    }

    /// Whether there are no validators.
    pub fn is_empty(&self) -> (b: bool)
        ensures
            b == (self.spec_entries().len() == 0),
    {
        self.validators.len() == 0
    }

    /// The voting power of `validator`, if it is in the set.
    pub fn get_voting_power(&self, validator: &MockNodeId) -> (r: Option<u64>)
        requires
            self.wf(),
        ensures
            r == power_of(self.spec_entries(), *validator),
    {
        proof {
            lemma_power_of(self.validators@, *validator);
        }
        match find_entry(&self.validators, *validator) {
            Some(i) => Some(self.validators[i].1),
            None => None,
        }
    }

    /// Whether `validator` is in the set.
    pub fn contains(&self, validator: &MockNodeId) -> (b: bool)
        requires
            self.wf(),
        ensures
            b == power_of(self.spec_entries(), *validator) is Some,
    {
        self.get_voting_power(validator).is_some()
    }

    /// The validators' identifiers.
    pub fn validator_ids(&self) -> (ids: Vec<MockNodeId>)
        ensures
            ids@ == self.spec_entries().map_values(|e: (MockNodeId, u64)| e.0),
    {
        let mut ids: Vec<MockNodeId> = Vec::new();
        let mut i: usize = 0;
        while i < self.validators.len()
            invariant
                i <= self.validators@.len(),
                ids@ == self.validators@.take(i as int).map_values(|e: (MockNodeId, u64)| e.0),
            decreases self.validators@.len() - i,
        {
            ids.push(self.validators[i].0);
            i = i + 1;
            proof {
                assert(ids@ =~= self.validators@.take(i as int).map_values(|e: (MockNodeId, u64)| e.0));
            }
        }
        proof {
            assert(self.validators@.take(i as int) =~= self.validators@);
        }
        ids
    }

    /// The quorum threshold: more than two thirds of the total voting power.
    pub fn quorum_threshold(&self) -> (q: u128)
        requires
            self.total_voting_power * 2 <= u128::MAX,
        ensures
            q == self.total_voting_power * 2 / 3 + 1,
    {
        (self.total_voting_power * 2 / 3) + 1
    }

    /// Whether the voting power of `voters` (each occurrence counted)
    /// reaches the quorum threshold.
    pub fn has_quorum(&self, voters: &[MockNodeId]) -> (b: bool)
        requires
            self.wf(),
            self.total_voting_power * 2 <= u128::MAX,
        ensures
            b == (voters_power(voters@, self.spec_entries()) >= self.total_voting_power * 2 / 3 + 1),
    {
        let mut power: u128 = 0;
        let mut i: usize = 0;
        while i < voters.len()
            invariant
                i <= voters@.len(),
                self.wf(),
                power == voters_power(voters@.take(i as int), self.spec_entries()),
                power <= i * 0xffff_ffff_ffff_ffffu64,
            decreases voters@.len() - i,
        {
            proof {
                assert(voters@.take(i + 1).drop_last() =~= voters@.take(i as int));
                assert(i * 0xffff_ffff_ffff_ffffu64 + 0xffff_ffff_ffff_ffffu64 == (i + 1) * 0xffff_ffff_ffff_ffffu64)
                    by (nonlinear_arith);
                assert((i + 1) * 0xffff_ffff_ffff_ffffu64 <= 0x1_0000_0000_0000_0000 * 0xffff_ffff_ffff_ffffu64)
                    by (nonlinear_arith)
                    requires
                        i + 1 <= 0x1_0000_0000_0000_0000,
                ;
            }
            if let Some(p) = self.get_voting_power(&voters[i]) {
                power = power + p as u128;
            }
            i = i + 1;
        }
        proof {
            assert(voters@.take(i as int) =~= voters@);
        }
        power >= self.quorum_threshold()
    }
}

/// Reconfiguration event.
#[derive(Clone, Debug)]
pub enum ReconfigEvent {
    /// New epoch starting
    NewEpoch {
        /// The new epoch number
        epoch: Epoch,
        /// Starting round of the new epoch
        start_round: Round,
    },
    /// Validator set changed
    ValidatorSetChanged {
        /// The new validator set
        validator_set: ValidatorSet,
    },
    /// Proposal generation policy changed
    PolicyChanged {
        /// Description of the policy change
        description: String,
    },
}

/// Coordinates safe transitions between epochs and validator sets.
pub struct ReconfigHandler<PE: ProposerElection> {
    config: ReconfigConfig,
    status: ReconfigStatus,
    epoch_manager: EpochManager,
    validator_sets: HashMap<Epoch, ValidatorSet>,
    pending_events: Vec<ReconfigEvent>,
    proposer_election: Option<PE>,
}

impl<PE: ProposerElection> ReconfigHandler<PE> {
    /// The configuration.
    pub closed spec fn spec_config(&self) -> ReconfigConfig {
        self.config
    }

    /// The reconfiguration status.
    pub closed spec fn spec_status(&self) -> ReconfigStatus {
        self.status
    }

    /// The current epoch.
    pub closed spec fn spec_epoch(&self) -> Epoch {
        self.epoch_manager.spec_epoch_state().spec_epoch()
    }

    /// The validator set of each epoch that has one.
    pub closed spec fn spec_validator_sets(&self) -> Map<Epoch, ValidatorSet> {
        self.validator_sets@
    }

    /// The proposer election strategy, once set.
    pub closed spec fn spec_proposer_election(&self) -> Option<PE> {
        self.proposer_election
    }

    /// The pending events, oldest first.
    pub closed spec fn spec_pending_events(&self) -> Seq<ReconfigEvent> {
        self.pending_events@
    }

    /// An idle handler with no validator sets and no events.
    pub fn new(config: ReconfigConfig, epoch_manager: EpochManager) -> (h: Self)
        ensures
            h.spec_config() == config,
            h.spec_status() == ReconfigStatus::Idle,
            h.spec_epoch() == epoch_manager.spec_epoch_state().spec_epoch(),
            h.spec_validator_sets() == Map::<Epoch, ValidatorSet>::empty(),
            h.spec_pending_events() == Seq::<ReconfigEvent>::empty(),
    {
        ReconfigHandler {
            config,
            status: ReconfigStatus::Idle,
            epoch_manager,
            validator_sets: HashMap::new(),
            pending_events: Vec::new(),
            proposer_election: None,
        }
    }

    /// The reconfiguration status.
    pub fn status(&self) -> (s: &ReconfigStatus)
        ensures
            *s == self.spec_status(),
    {
        &self.status
    }

    /// The current epoch.
    pub fn current_epoch(&self) -> (e: Epoch)
        ensures
            e == self.spec_epoch(),
    {
        self.epoch_manager.epoch()
    }

    /// The validator set of `epoch`, if there is one.
    pub fn validator_set(&self, epoch: Epoch) -> (r: Option<&ValidatorSet>)
        ensures
            r is Some == self.spec_validator_sets().contains_key(epoch),
            r matches Some(vs) ==> *vs == self.spec_validator_sets()[epoch],
    {
        self.validator_sets.get(&epoch)
    }

    /// The validator set of the current epoch, if there is one.
    pub fn current_validator_set(&self) -> (r: Option<&ValidatorSet>)
        ensures
            r is Some == self.spec_validator_sets().contains_key(self.spec_epoch()),
            r matches Some(vs) ==> *vs == self.spec_validator_sets()[self.spec_epoch()],
    {
        self.validator_set(self.current_epoch())
    }

    /// Sets the proposer election strategy.
    pub fn set_proposer_election(&mut self, proposer_election: PE)
        ensures
            final(self).spec_status() == old(self).spec_status(),
            final(self).spec_epoch() == old(self).spec_epoch(),
            final(self).spec_validator_sets() == old(self).spec_validator_sets(),
            final(self).spec_pending_events() == old(self).spec_pending_events(),
            final(self).spec_proposer_election() == Some(proposer_election),
            final(self).spec_config() == old(self).spec_config(),
    {
        self.proposer_election = Some(proposer_election);
    }

    /// Starts preparing the move to `new_epoch`: refused while a
    /// reconfiguration is under way, and for any epoch but the next one.
    pub fn prepare_reconfig(&mut self, new_epoch: Epoch) -> (r: Result<(), Error>)
        requires
            !(old(self).spec_status() is Preparing || old(self).spec_status() is InProgress) ==> old(
                self,
            ).spec_epoch() < u64::MAX,
        ensures
            final(self).spec_epoch() == old(self).spec_epoch(),
            final(self).spec_validator_sets() == old(self).spec_validator_sets(),
            final(self).spec_pending_events() == old(self).spec_pending_events(),
            (old(self).spec_status() is Preparing || old(self).spec_status() is InProgress) ==> r == Err::<(), Error>(
                Error::ReconfigInProgress,
            ) && final(self).spec_status() == old(self).spec_status(),
            !(old(self).spec_status() is Preparing || old(self).spec_status() is InProgress) ==> if new_epoch
                == old(self).spec_epoch() + 1 {
                r is Ok && final(self).spec_status() == (ReconfigStatus::Preparing {
                    current_epoch: old(self).spec_epoch(),
                    next_epoch: new_epoch,
                })
            } else {
                r == Err::<(), Error>(Error::NotNextEpoch) && final(self).spec_status() == old(self).spec_status()
            },
    {
        if self.status.is_in_progress() {
            return Err(Error::ReconfigInProgress);
        }
        let current_epoch = self.current_epoch();
        if new_epoch != current_epoch + 1 {
            return Err(Error::NotNextEpoch);
        }
        self.status = ReconfigStatus::Preparing { current_epoch, next_epoch: new_epoch };
        Ok(())
    }

    /// Sets the validator set of `epoch`.
    pub fn set_validator_set(&mut self, epoch: Epoch, validator_set: ValidatorSet)
        ensures
            final(self).spec_validator_sets() == old(self).spec_validator_sets().insert(epoch, validator_set),
            final(self).spec_status() == old(self).spec_status(),
            final(self).spec_epoch() == old(self).spec_epoch(),
            final(self).spec_pending_events() == old(self).spec_pending_events(),
    {
        self.validator_sets.insert(epoch, validator_set);
    }

    /// Begins the reconfiguration with the next epoch's validator set:
    /// refused unless preparing, and for an empty set.
    pub fn begin_reconfig(&mut self, validator_set: ValidatorSet) -> (r: Result<(), Error>)
        ensures
            final(self).spec_epoch() == old(self).spec_epoch(),
            final(self).spec_pending_events() == old(self).spec_pending_events(),
            match old(self).spec_status() {
                ReconfigStatus::Preparing { next_epoch, .. } => if validator_set.spec_entries().len() == 0 {
                    r == Err::<(), Error>(Error::EmptyValidatorSet) && final(self).spec_status() == old(
                        self,
                    ).spec_status() && final(self).spec_validator_sets() == old(self).spec_validator_sets()
                } else {
                    r is Ok && final(self).spec_status() == (ReconfigStatus::InProgress {
                        new_epoch: next_epoch,
                        validators_processed: 0,
                        total_validators: validator_set.spec_entries().len() as usize,
                    }) && final(self).spec_validator_sets() == old(self).spec_validator_sets().insert(
                        next_epoch,
                        validator_set,
                    )
                },
                _ => r == Err::<(), Error>(Error::NotPreparing) && final(self).spec_status() == old(self).spec_status()
                    && final(self).spec_validator_sets() == old(self).spec_validator_sets(),
            },
    {
        let next_epoch = match &self.status {
            ReconfigStatus::Preparing { next_epoch, .. } => *next_epoch,
            _ => {
                return Err(Error::NotPreparing);
            },
        };
        if validator_set.is_empty() {
            return Err(Error::EmptyValidatorSet);
        }
        let total_validators = validator_set.len();
        self.status = ReconfigStatus::InProgress { new_epoch: next_epoch, validators_processed: 0, total_validators };
        self.validator_sets.insert(next_epoch, validator_set);
        Ok(())
    }

    /// Completes the reconfiguration once every validator is processed: the
    /// epoch manager moves to the new epoch and the handler is idle again.
    pub fn complete_reconfig(&mut self) -> (r: Result<(), Error>)
        ensures
            final(self).spec_validator_sets() == old(self).spec_validator_sets(),
            final(self).spec_pending_events() == old(self).spec_pending_events(),
            match old(self).spec_status() {
                ReconfigStatus::InProgress { new_epoch, validators_processed, total_validators } =>
                    if validators_processed != total_validators {
                    r == Err::<(), Error>(
                        Error::ValidatorsNotProcessed { processed: validators_processed, total: total_validators },
                    ) && final(self).spec_status() == old(self).spec_status() && final(self).spec_epoch() == old(
                        self,
                    ).spec_epoch()
                } else {
                    match epoch_transition_refusal(old(self).spec_epoch(), new_epoch) {
                        Some(e) => r == Err::<(), Error>(Error::EpochTransition { error: e }) && final(self).spec_status()
                            == old(self).spec_status() && final(self).spec_epoch() == old(self).spec_epoch(),
                        None => r is Ok && final(self).spec_status() == ReconfigStatus::Idle && final(self).spec_epoch()
                            == new_epoch,
                    }
                },
                _ => r == Err::<(), Error>(Error::NotInProgress) && final(self).spec_status() == old(self).spec_status()
                    && final(self).spec_epoch() == old(self).spec_epoch(),
            },
    {
        let (new_epoch, validator_count) = match &self.status {
            ReconfigStatus::InProgress { new_epoch, validators_processed, total_validators } => {
                if *validators_processed != *total_validators {
                    return Err(
                        Error::ValidatorsNotProcessed { processed: *validators_processed, total: *total_validators },
                    );
                }
                (*new_epoch, *total_validators)
            },
            _ => {
                return Err(Error::NotInProgress);
            },
        };
        match self.epoch_manager.start_new_epoch(new_epoch) {
            Ok(_) => {},
            Err(e) => {
                return Err(Error::EpochTransition { error: e });
            },
        }
        self.status = ReconfigStatus::Completed { epoch: new_epoch, validator_count };
        self.status = ReconfigStatus::Idle;
        Ok(())
    }

    /// Queues an event.
    pub fn add_event(&mut self, event: ReconfigEvent)
        ensures
            final(self).spec_pending_events() == old(self).spec_pending_events().push(event),
            final(self).spec_status() == old(self).spec_status(),
            final(self).spec_epoch() == old(self).spec_epoch(),
            final(self).spec_validator_sets() == old(self).spec_validator_sets(),
    {
        self.pending_events.push(event);
    }

    /// The pending events.
    pub fn pending_events(&self) -> (events: &[ReconfigEvent])
        ensures
            events@ == self.spec_pending_events(),
    {
        self.pending_events.as_slice()
    }

    /// Takes the pending events, leaving none.
    pub fn take_pending_events(&mut self) -> (events: Vec<ReconfigEvent>)
        ensures
            events@ == old(self).spec_pending_events(),
            final(self).spec_pending_events() == Seq::<ReconfigEvent>::empty(),
            final(self).spec_status() == old(self).spec_status(),
            final(self).spec_epoch() == old(self).spec_epoch(),
            final(self).spec_validator_sets() == old(self).spec_validator_sets(),
    {
        let mut events: Vec<ReconfigEvent> = Vec::new();
        std::mem::swap(&mut events, &mut self.pending_events);
        events
    }

    /// Cancels the reconfiguration and drops the pending events.
    pub fn cancel(&mut self)
        ensures
            final(self).spec_status() == ReconfigStatus::Idle,
            final(self).spec_pending_events() == Seq::<ReconfigEvent>::empty(),
            final(self).spec_epoch() == old(self).spec_epoch(),
            final(self).spec_validator_sets() == old(self).spec_validator_sets(),
    {
        self.status = ReconfigStatus::Idle;
        self.pending_events.clear();
    }

    /// Whether `round` lies within the preparation window before
    /// `epoch_end_round`.
    pub fn should_reconfigure(&self, round: Round, epoch_end_round: Round) -> (b: bool)
        ensures
            b == (round >= if epoch_end_round >= self.spec_config().preparation_window {
                epoch_end_round - self.spec_config().preparation_window
            } else {
                0
            }),
    {
        round >= epoch_end_round.saturating_sub(self.config.preparation_window)
    }

    /// The reconfiguration signal of a block: a block of a later epoch starts
    /// that epoch at its round.
    pub fn process_block(&mut self, block: &MockBlock) -> (r: Option<ReconfigEvent>)
        ensures
            block.spec_metadata().spec_epoch() > old(self).spec_epoch() ==> (r matches Some(
                ReconfigEvent::NewEpoch { epoch, start_round },
            ) && epoch == block.spec_metadata().spec_epoch() && start_round == block.spec_round()),
            block.spec_metadata().spec_epoch() <= old(self).spec_epoch() ==> r is None,
            final(self).spec_status() == old(self).spec_status(),
            final(self).spec_epoch() == old(self).spec_epoch(),
            final(self).spec_validator_sets() == old(self).spec_validator_sets(),
            final(self).spec_pending_events() == old(self).spec_pending_events(),
    {
        let metadata = block.metadata();
        let epoch = metadata.epoch();
        let current_epoch = self.current_epoch();
        if epoch > current_epoch {
            return Some(ReconfigEvent::NewEpoch { epoch, start_round: metadata.round() });
        }
        None
    }

    /// The epoch whose configuration is certified: the current one.
    pub fn epoch_quorum_cert(&self) -> (r: Option<Epoch>)
        ensures
            r == Some(self.spec_epoch()),
    {
        Some(self.current_epoch())
    }

    /// Records how many validators are processed, while in progress.
    pub fn update_progress(&mut self, validators_processed: usize)
        ensures
            final(self).spec_status() == match old(self).spec_status() {
                ReconfigStatus::InProgress { new_epoch, total_validators, .. } => ReconfigStatus::InProgress {
                    new_epoch,
                    validators_processed,
                    total_validators,
                },
                other => other,
            },
            final(self).spec_epoch() == old(self).spec_epoch(),
            final(self).spec_validator_sets() == old(self).spec_validator_sets(),
            final(self).spec_pending_events() == old(self).spec_pending_events(),
    {
        if let ReconfigStatus::InProgress { new_epoch, total_validators, .. } = self.status {
            self.status = ReconfigStatus::InProgress { new_epoch, validators_processed, total_validators };
        }
    }

    /// The number of pending events.
    pub fn pending_event_count(&self) -> (n: usize)
        ensures
            n == self.spec_pending_events().len(),
    {
        self.pending_events.len()
    }
}

} // verus!
