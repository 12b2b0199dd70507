//! In-memory storage of the DAG's certified nodes, by round and author.
use vstd::prelude::*;

use std::collections::{BTreeMap, HashMap};
use std::sync::Arc;

use crate::dag::key_order::lemma_keys_increasing;
use crate::dag::node_count::lemma_count_grows;
use crate::dag::testing::{TestAuthor, TestRound};
use crate::dag::types::{CertifiedNodeImpl, DagNodeId, DagNodeImpl, DagNodeMetadataImpl};
use crate::error::Error;
use crate::safety_rules::max_round;

verus! {

broadcast use {vstd::std_specs::hash::group_hash_axioms, vstd::std_specs::btree::group_btree_axioms};

/// The ordering status of a stored node.
#[derive(Clone)]
pub enum StoredNodeStatus<N> {
    /// Node is not yet ordered
    Unordered { node: Arc<N>, aggregated_voting_power: u128 },
    /// Node has been ordered
    Ordered(Arc<N>),
}

impl<N> StoredNodeStatus<N> {
    /// The node, whatever its status.
    pub open spec fn spec_node(&self) -> N {
        match *self {
            StoredNodeStatus::Unordered { node, .. } => *node,
            StoredNodeStatus::Ordered(node) => *node,
        }
    }

    /// The node, whatever its status.
    pub fn as_node(&self) -> (n: &Arc<N>)
        ensures
            **n == self.spec_node(),
    {
        match self {
            StoredNodeStatus::Unordered { node, .. } => node,
            StoredNodeStatus::Ordered(node) => node,
        }
    }

    /// The aggregated voting power of an unordered node.
    pub fn aggregated_voting_power(&self) -> (r: Option<u128>)
        ensures
            r == match *self {
                StoredNodeStatus::Unordered { aggregated_voting_power, .. } => Some(aggregated_voting_power),
                StoredNodeStatus::Ordered(_) => None::<u128>,
            },
    {
        match self {
            StoredNodeStatus::Unordered { aggregated_voting_power, .. } => Some(*aggregated_voting_power),
            StoredNodeStatus::Ordered(_) => None,
        }
    }

    /// Whether the node is ordered.
    pub fn is_ordered(&self) -> (b: bool)
        ensures
            b == self is Ordered,
    {
        match self {
            StoredNodeStatus::Ordered(_) => true,
            _ => false,
        }
    }

    /// Marks an unordered node as ordered; refused when it is ordered
    /// already.
    pub fn mark_as_ordered(&mut self) -> (r: Result<(), Error>)
        ensures
            *old(self) is Ordered ==> r == Err::<(), Error>(Error::NodeAlreadyOrdered) && *final(self) == *old(self),
            *old(self) is Unordered ==> r is Ok && *final(self) is Ordered && final(self).spec_node() == old(self).spec_node(),
    {
        match self {
            StoredNodeStatus::Unordered { node, .. } => {
                let n = node.clone();
                *self = StoredNodeStatus::Ordered(n);
                Ok(())
            },
            StoredNodeStatus::Ordered(_) => Err(Error::NodeAlreadyOrdered),
        }
    }
}

/// Configuration for the DAG storage.
#[derive(Clone, Copy, Debug)]
pub struct DagStoreConfig {
    /// The starting round for the DAG
    pub start_round: u64,
    /// The window size to maintain (number of rounds to keep)
    pub window_size: u64,
}

impl Default for DagStoreConfig {
    fn default() -> (c: Self)
        ensures
            c.start_round == 0,
            c.window_size == 100,
    {
        DagStoreConfig { start_round: 0, window_size: 100 }
    }
}

/// A node that the DAG store can place: it tells its round and author.
pub trait DagStoreNode {
    /// The node's round.
    spec fn spec_store_round(&self) -> u64;

    /// The node's author.
    spec fn spec_store_author(&self) -> u8;

    /// The node's round.
    fn store_round(&self) -> (r: TestRound)
        ensures
            r.0 == self.spec_store_round(),
    ;

    /// The node's author.
    fn store_author(&self) -> (a: TestAuthor)
        ensures
            a.0 == self.spec_store_author(),
    ;
}

impl<E, H, P, Pa, C> DagStoreNode for CertifiedNodeImpl<
    DagNodeImpl<DagNodeMetadataImpl<DagNodeId<E, TestRound, TestAuthor>, H>, P, Pa>,
    C,
> {
    open spec fn spec_store_round(&self) -> u64 {
        self.spec_node().spec_metadata().spec_node_id().spec_round().0
    }

    open spec fn spec_store_author(&self) -> u8 {
        self.spec_node().spec_metadata().spec_node_id().spec_author().0
    }

    fn store_round(&self) -> (r: TestRound) {
        *self.node().metadata().node_id().round()
    }

    fn store_author(&self) -> (a: TestAuthor) {
        *self.node().metadata().node_id().author()
    }
}

/// The index of each author: its position in `authors` (the last one, for
/// an author listed twice).
pub open spec fn author_indices(authors: Seq<TestAuthor>) -> Map<u8, usize>
    decreases authors.len(),
{
    if authors.len() == 0 {
        Map::empty()
    } else {
        author_indices(authors.drop_last()).insert(authors.last().0, (authors.len() - 1) as usize)
    }
}

/// A sequence of `n` empty slots.
pub open spec fn empty_slots<N>(n: nat) -> Seq<Option<StoredNodeStatus<N>>> {
    Seq::new(n, |i: int| None::<StoredNodeStatus<N>>)
}

/// The slots of `round` before a node of author index `idx` is placed: the
/// round's slots (one empty slot per author for a new round), extended with
/// empty slots up to `idx`.
pub open spec fn slots_for<N>(
    rounds: Map<u64, Seq<Option<StoredNodeStatus<N>>>>,
    round: u64,
    num_authors: nat,
    idx: int,
) -> Seq<Option<StoredNodeStatus<N>>> {
    let base = if rounds.contains_key(round) {
        rounds[round]
    } else {
        empty_slots(num_authors)
    };
    if base.len() <= idx {
        base + empty_slots((idx + 1 - base.len()) as nat)
    } else {
        base
    }
}

/// The status stored for author index `idx` in `round`, if any.
pub open spec fn slot_of<N>(rounds: Map<u64, Seq<Option<StoredNodeStatus<N>>>>, round: u64, idx: int) -> Option<
    StoredNodeStatus<N>,
> {
    if rounds.contains_key(round) && 0 <= idx < rounds[round].len() {
        rounds[round][idx]
    } else {
        None
    }
}

/// In-memory DAG storage: certified nodes indexed by round and author.
pub struct InMemDag<N: DagStoreNode> {
    nodes_by_round: BTreeMap<u64, Vec<Option<StoredNodeStatus<N>>>>,
    author_to_index: HashMap<u8, usize>,
    config: DagStoreConfig,
    lowest_kept_round: u64,
}

impl<N: DagStoreNode> InMemDag<N> {
    /// The slots of each stored round, by author index.
    pub closed spec fn rounds(&self) -> Map<u64, Seq<Option<StoredNodeStatus<N>>>> {
        self.nodes_by_round@.map_values(|v: Vec<Option<StoredNodeStatus<N>>>| v@)
    }

    /// The index of each author.
    pub closed spec fn author_index(&self) -> Map<u8, usize> {
        self.author_to_index@
    }

    /// The configuration.
    pub closed spec fn spec_config(&self) -> DagStoreConfig {
        self.config
    }

    /// The lowest round the DAG keeps: nodes below it were pruned, and no
    /// node below it is added.
    pub closed spec fn spec_lowest_kept_round(&self) -> u64 {
        self.lowest_kept_round
    }

    /// An empty DAG over `authors`.
    pub fn new(authors: Vec<TestAuthor>, config: DagStoreConfig) -> (d: Self)
        ensures
            d.rounds() == Map::<u64, Seq<Option<StoredNodeStatus<N>>>>::empty(),
            d.author_index() == author_indices(authors@),
            d.spec_config() == config,
            d.spec_lowest_kept_round() == 0,
    {
        let mut author_to_index: HashMap<u8, usize> = HashMap::new();
        let mut i: usize = 0;
        while i < authors.len()
            invariant
                i <= authors@.len(),
                author_to_index@ == author_indices(authors@.take(i as int)),
            decreases authors@.len() - i,
        {
            author_to_index.insert(authors[i].0, i);
            i = i + 1;
            proof {
                assert(authors@.take(i as int).drop_last() =~= authors@.take(i - 1));
            }
        }
        proof {
            assert(authors@.take(i as int) =~= authors@);
        }
        let d = InMemDag { nodes_by_round: BTreeMap::new(), author_to_index, config, lowest_kept_round: 0 };
        proof {
            assert(d.rounds() =~= Map::<u64, Seq<Option<StoredNodeStatus<N>>>>::empty());
        }
        d
    }

    /// The number of authors.
    pub fn num_authors(&self) -> (n: usize)
        ensures
            n == self.author_index().dom().len(),
    {
        self.author_to_index.len()
    }

    fn index_of(&self, author: &TestAuthor) -> (r: Option<usize>)
        ensures
            r == (if self.author_index().contains_key(author.0) {
                Some(self.author_index()[author.0])
            } else {
                None::<usize>
            }),
    {
        match self.author_to_index.get(&author.0) {
            Some(i) => Some(*i),
            None => None,
        }
    }

    /// Adds a certified node: refused for a round below the lowest round kept
    /// (the DAG was pruned past it), for an author not in the set, and when
    /// the author's slot of that round is taken.
    pub fn add_node(&mut self, node: N) -> (r: Result<(), Error>)
        ensures
            final(self).author_index() == old(self).author_index(),
            final(self).spec_config() == old(self).spec_config(),
            final(self).spec_lowest_kept_round() == old(self).spec_lowest_kept_round(),
            node.spec_store_round() < old(self).spec_lowest_kept_round() ==> r == Err::<(), Error>(
                Error::RoundPruned { round: node.spec_store_round(), lowest_round: old(self).spec_lowest_kept_round() },
            ) && final(self).rounds() == old(self).rounds(),
            node.spec_store_round() >= old(self).spec_lowest_kept_round() && !old(self).author_index().contains_key(
                node.spec_store_author(),
            ) ==> r == Err::<(), Error>(Error::UnknownDagAuthor { author: node.spec_store_author() as u64 })
                && final(self).rounds() == old(self).rounds(),
            node.spec_store_round() >= old(self).spec_lowest_kept_round() && old(self).author_index().contains_key(
                node.spec_store_author(),
            ) ==> {
                let idx = old(self).author_index()[node.spec_store_author()] as int;
                let round = node.spec_store_round();
                if slot_of(old(self).rounds(), round, idx) is Some {
                    &&& r == Err::<(), Error>(
                        Error::NodeExists { round, author: node.spec_store_author() as u64 },
                    )
                    &&& final(self).rounds() == old(self).rounds()
                } else {
                    &&& r is Ok
                    &&& all_stored_nodes(final(self).rounds()).len() == all_stored_nodes(old(self).rounds()).len() + 1
                    &&& final(self).rounds() == old(self).rounds().insert(
                        round,
                        slots_for(old(self).rounds(), round, old(self).author_index().dom().len(), idx).update(
                            idx,
                            Some(StoredNodeStatus::Unordered { node: Arc::new(node), aggregated_voting_power: 0 }),
                        ),
                    )
                }
            },
    {
        let round = node.store_round();
        let author = node.store_author();
        if round.0 < self.lowest_kept_round {
            return Err(Error::RoundPruned { round: round.0, lowest_round: self.lowest_kept_round });
        }
        let author_index = match self.index_of(&author) {
            Some(i) => i,
            None => {
                return Err(Error::UnknownDagAuthor { author: author.0 as u64 });
            },
        };
        let ghost old_rounds = self.rounds();
        let num_authors = self.author_to_index.len();
        let mut round_nodes = match self.nodes_by_round.remove(&round.0) {
            Some(v) => v,
            None => {
                let mut v: Vec<Option<StoredNodeStatus<N>>> = Vec::new();
                let mut k: usize = 0;
                while k < num_authors
                    invariant
                        k <= num_authors,
                        v@ == empty_slots::<N>(k as nat),
                    decreases num_authors - k,
                {
                    v.push(None);
                    k = k + 1;
                    proof {
                        assert(v@ =~= empty_slots::<N>(k as nat));
                    }
                }
                v
            },
        };
        let ghost base = round_nodes@;
        if round_nodes.len() <= author_index {
            while round_nodes.len() <= author_index
                invariant
                    base.len() <= author_index + 1,
                    round_nodes@.len() <= author_index + 1,
                    round_nodes@.len() >= base.len(),
                    round_nodes@ == base + empty_slots::<N>((round_nodes@.len() - base.len()) as nat),
                decreases author_index + 1 - round_nodes@.len(),
            {
                round_nodes.push(None);
                proof {
                    assert(round_nodes@ =~= base + empty_slots::<N>((round_nodes@.len() - base.len()) as nat));
                }
            }
        }
        proof {
            assert(round_nodes@ =~= slots_for(old_rounds, round.0, num_authors as nat, author_index as int));
        }
        if round_nodes[author_index].is_some() {
            self.nodes_by_round.insert(round.0, round_nodes);
            proof {
                assert(self.rounds() =~= old_rounds);
            }
            return Err(Error::NodeExists { round: round.0, author: author.0 as u64 });
        }
        let ghost stored_node = node;
        round_nodes.set(
            author_index,
            Some(StoredNodeStatus::Unordered { node: Arc::new(node), aggregated_voting_power: 0 }),
        );
        self.nodes_by_round.insert(round.0, round_nodes);
        proof {
            assert(self.rounds() =~= old_rounds.insert(round.0, round_nodes@));
            broadcast use vstd::std_specs::btree::axiom_btree_map_view_finite_dom;
            assert(old(self).nodes_by_round@.dom().finite());
            assert(old_rounds.dom() =~= old(self).nodes_by_round@.dom());
            lemma_added_node_grows_count(old_rounds, num_authors as nat, round.0, author_index as int, stored_node);
        }
        Ok(())
    }

    fn round_keys(&self) -> (ks: Vec<u64>)
        ensures
            increasing(ks@),
            forall|k: u64| ks@.contains(k) <==> self.rounds().dom().contains(k),
            ks@ == sorted_rounds(self.rounds().dom()),
    {
        let ghost dom = self.nodes_by_round@.dom();
        let ghost full = vstd::std_specs::iter::IteratorSpec::remaining(
            &vstd::std_specs::btree::spec_keys_iter(&self.nodes_by_round),
        );
        proof {
            lemma_keys_increasing(full);
        }
        let mut ks: Vec<u64> = Vec::new();
        for k in it: self.nodes_by_round.keys()
            invariant
                it.seq() == full,
                full.unref().to_set() == dom,
                forall|a: int, b: int| 0 <= a < b < full.len() ==> *full[a] < *full[b],
                ks@.len() == it.index(),
                forall|j: int| 0 <= j < it.index() ==> #[trigger] ks@[j] == *full[j],
        {
            ks.push(*k);
        }
        proof {
            assert(ks@.len() == full.len());
            assert(self.rounds().dom() == dom);
            assert(ks@ =~= full.unref());
            assert forall|a: int, b: int| 0 <= a < b < ks@.len() implies ks@[a] < ks@[b] by {
                assert(ks@[a] == *full[a]);
                assert(ks@[b] == *full[b]);
            }
            assert forall|x: u64| ks@.contains(x) <==> dom.contains(x) by {
                assert(ks@.to_set().contains(x) <==> ks@.contains(x));
            }
            assert(ks@.to_set() =~= dom);
            lemma_sorted_rounds(ks@, dom);
        }
        ks
    }

    /// The lowest stored round (round 0 when none is stored).
    pub fn lowest_round(&self) -> (r: TestRound)
        ensures
            self.rounds().dom().len() == 0 ==> r == TestRound(0),
            self.rounds().dom().len() > 0 ==> self.rounds().dom().contains(r.0) && forall|k: u64|
                #[trigger] self.rounds().dom().contains(k) ==> r.0 <= k,
    {
        let ks = self.round_keys();
        proof {
            self.lemma_dom_len(ks@);
        }
        if ks.len() == 0 {
            TestRound(0)
        } else {
            proof {
                assert forall|k: u64| #[trigger] self.rounds().dom().contains(k) implies ks@[0] <= k by {
                    assert(ks@.contains(k));
                    let j = choose|j: int| 0 <= j < ks@.len() && ks@[j] == k;
                    if j > 0 {
                        assert(ks@[0] < ks@[j]);
                    }
                }
                assert(ks@.contains(ks@[0]));
            }
            TestRound(ks[0])
        }
    }

    /// The highest stored round (round 0 when none is stored).
    pub fn highest_round(&self) -> (r: TestRound)
        ensures
            self.rounds().dom().len() == 0 ==> r == TestRound(0),
            self.rounds().dom().len() > 0 ==> self.rounds().dom().contains(r.0) && forall|k: u64|
                #[trigger] self.rounds().dom().contains(k) ==> k <= r.0,
    {
        let ks = self.round_keys();
        proof {
            self.lemma_dom_len(ks@);
        }
        if ks.len() == 0 {
            TestRound(0)
        } else {
            let last = ks.len() - 1;
            proof {
                assert forall|k: u64| #[trigger] self.rounds().dom().contains(k) implies k <= ks@[last as int] by {
                    assert(ks@.contains(k));
                    let j = choose|j: int| 0 <= j < ks@.len() && ks@[j] == k;
                    if j < last {
                        assert(ks@[j] < ks@[last as int]);
                    }
                }
                assert(ks@.contains(ks@[last as int]));
            }
            TestRound(ks[last])
        }
    }

    proof fn lemma_dom_len(&self, ks: Seq<u64>)
        requires
            increasing(ks),
            forall|k: u64| ks.contains(k) <==> self.rounds().dom().contains(k),
        ensures
            self.rounds().dom().len() == ks.len(),
            self.rounds().dom().finite(),
    {
        lemma_increasing_no_duplicates(ks);
        assert(ks.to_set() =~= self.rounds().dom());
        ks.unique_seq_to_set();
    }

    /// The authors.
    pub fn authors(&self) -> (authors: Vec<TestAuthor>)
        ensures
            forall|a: TestAuthor| authors@.contains(a) <==> self.author_index().contains_key(a.0),
            authors@.len() == self.author_index().dom().len(),
    {
        let ghost dom = self.author_to_index@.dom();
        let ghost full = vstd::std_specs::iter::IteratorSpec::remaining(
            &vstd::std_specs::hash::spec_keys_iter(&self.author_to_index),
        );
        let mut authors: Vec<TestAuthor> = Vec::new();
        for k in it: self.author_to_index.keys()
            invariant
                it.seq() == full,
                full.unref().to_set() == dom,
                full.len() == dom.len(),
                authors@.len() == it.index(),
                forall|j: int| 0 <= j < it.index() ==> #[trigger] authors@[j] == TestAuthor(*full[j]),
        {
            authors.push(TestAuthor(*k));
        }
        proof {
            assert(authors@.len() == full.len());
            assert forall|a: TestAuthor| authors@.contains(a) <==> dom.contains(a.0) by {
                if authors@.contains(a) {
                    let j = choose|j: int| 0 <= j < authors@.len() && authors@[j] == a;
                    assert(full.unref()[j] == a.0);
                    assert(full.unref().to_set().contains(a.0));
                }
                if dom.contains(a.0) {
                    assert(full.unref().to_set().contains(a.0));
                    let j = choose|j: int| 0 <= j < full.len() && full.unref()[j] == a.0;
                    assert(authors@[j] == a);
                }
            }
        }
        authors
    }

    /// The node of `author` in `round`, if stored.
    pub fn get_node(&self, round: &TestRound, author: &TestAuthor) -> (r: Option<Arc<N>>)
        ensures
            r is Some == (self.author_index().contains_key(author.0) && slot_of(
                self.rounds(),
                round.0,
                self.author_index()[author.0] as int,
            ) is Some),
            r matches Some(n) ==> *n == slot_of(self.rounds(), round.0, self.author_index()[author.0] as int)->0.spec_node(),
    {
        match self.get_node_status(round, author) {
            Some(s) => Some(s.as_node().clone()),
            None => None,
        }
    }

    /// The status of the node of `author` in `round`, if stored.
    pub fn get_node_status(&self, round: &TestRound, author: &TestAuthor) -> (r: Option<&StoredNodeStatus<N>>)
        ensures
            r is Some == (self.author_index().contains_key(author.0) && slot_of(
                self.rounds(),
                round.0,
                self.author_index()[author.0] as int,
            ) is Some),
            r matches Some(s) ==> Some(*s) == slot_of(self.rounds(), round.0, self.author_index()[author.0] as int),
    {
        let author_index = match self.index_of(author) {
            Some(i) => i,
            None => {
                return None;
            },
        };
        let round_nodes = match self.nodes_by_round.get(&round.0) {
            Some(v) => v,
            None => {
                return None;
            },
        };
        if author_index < round_nodes.len() {
            match &round_nodes[author_index] {
                Some(s) => Some(s),
                None => None,
            }
        } else {
            None
        }
    }

    /// Whether the node of `author` in `round` is stored.
    pub fn node_exists(&self, round: &TestRound, author: &TestAuthor) -> (b: bool)
        ensures
            b == (self.author_index().contains_key(author.0) && slot_of(
                self.rounds(),
                round.0,
                self.author_index()[author.0] as int,
            ) is Some),
    {
        self.get_node(round, author).is_some()
    }

    /// Marks the node of `author` in `round` as ordered: refused for an
    /// unknown author, a round not stored, a missing slot or node, and a node
    /// ordered already.
    pub fn mark_ordered(&mut self, round: &TestRound, author: &TestAuthor) -> (r: Result<(), Error>)
        ensures
            final(self).author_index() == old(self).author_index(),
            final(self).spec_config() == old(self).spec_config(),
            final(self).spec_lowest_kept_round() == old(self).spec_lowest_kept_round(),
            ({
                let idx = old(self).author_index()[author.0] as int;
                let rounds = old(self).rounds();
                if !old(self).author_index().contains_key(author.0) {
                    r == Err::<(), Error>(Error::UnknownDagAuthor { author: author.0 as u64 })
                        && final(self).rounds() == rounds
                } else if !rounds.contains_key(round.0) {
                    r == Err::<(), Error>(Error::RoundNotFound { round: round.0 }) && final(self).rounds() == rounds
                } else if rounds[round.0].len() <= idx {
                    r == Err::<(), Error>(Error::AuthorIndexOutOfBounds) && final(self).rounds() == rounds
                } else if rounds[round.0][idx] is None {
                    r == Err::<(), Error>(Error::NodeNotFound) && final(self).rounds() == rounds
                } else if rounds[round.0][idx]->0 is Ordered {
                    r == Err::<(), Error>(Error::NodeAlreadyOrdered) && final(self).rounds() == rounds
                } else {
                    &&& r is Ok
                    &&& final(self).rounds().dom() == rounds.dom()
                    &&& forall|k: u64| k != round.0 && #[trigger] rounds.contains_key(k) ==> final(self).rounds()[k]
                        == rounds[k]
                    &&& final(self).rounds()[round.0] == rounds[round.0].update(
                        idx,
                        Some(StoredNodeStatus::Ordered(Arc::new(rounds[round.0][idx]->0.spec_node()))),
                    )
                }
            }),
    {
        let author_index = match self.index_of(author) {
            Some(i) => i,
            None => {
                return Err(Error::UnknownDagAuthor { author: author.0 as u64 });
            },
        };
        let ghost old_rounds = self.rounds();
        let mut round_nodes = match self.nodes_by_round.remove(&round.0) {
            Some(v) => v,
            None => {
                return Err(Error::RoundNotFound { round: round.0 });
            },
        };
        if round_nodes.len() <= author_index {
            self.nodes_by_round.insert(round.0, round_nodes);
            proof {
                assert(self.rounds() =~= old_rounds);
            }
            return Err(Error::AuthorIndexOutOfBounds);
        }
        let mut slot = None;
        round_nodes.set_and_swap(author_index, &mut slot);
        let result = match &mut slot {
            Some(status) => status.mark_as_ordered(),
            None => Err(Error::NodeNotFound),
        };
        round_nodes.set_and_swap(author_index, &mut slot);
        let ghost before_insert = round_nodes@;
        self.nodes_by_round.insert(round.0, round_nodes);
        proof {
            if result is Err {
                assert(before_insert =~= old_rounds[round.0]);
                assert(self.rounds() =~= old_rounds);
            } else {
                assert(self.rounds().dom() =~= old_rounds.dom());
            }
        }
        result
    }

    /// Appends the nodes present among `slots` to `out`, in slot order.
    fn push_present(slots: &Vec<Option<StoredNodeStatus<N>>>, out: &mut Vec<Arc<N>>)
        ensures
            arc_contents(final(out)@) == arc_contents(old(out)@) + present_nodes(slots@),
    {
        let ghost start = arc_contents(out@);
        let mut i: usize = 0;
        while i < slots.len()
            invariant
                i <= slots@.len(),
                arc_contents(out@) == start + present_nodes(slots@.take(i as int)),
            decreases slots@.len() - i,
        {
            proof {
                assert(slots@.take(i + 1).drop_last() =~= slots@.take(i as int));
            }
            match &slots[i] {
                Some(status) => {
                    let ghost before = out@;
                    let a = status.as_node().clone();
                    out.push(a);
                    proof {
                        assert(slots@.take(i + 1).last() == slots@[i as int]);
                        assert(arc_contents(out@) =~= arc_contents(before).push(status.spec_node()));
                        assert(arc_contents(out@) =~= start + present_nodes(slots@.take(i + 1)));
                    }
                },
                None => {},
            }
            i = i + 1;
        }
        proof {
            assert(slots@.take(i as int) =~= slots@);
        }
    }

    /// The nodes stored in `round`, by author index (none when the round is
    /// not stored).
    pub fn get_round(&self, round: &TestRound) -> (r: Vec<Arc<N>>)
        ensures
            arc_contents(r@) == round_nodes(self.rounds(), round.0),
    {
        let mut out: Vec<Arc<N>> = Vec::new();
        match self.nodes_by_round.get(&round.0) {
            Some(slots) => {
                Self::push_present(slots, &mut out);
                proof {
                    assert(arc_contents(Seq::<Arc<N>>::empty()) =~= Seq::<N>::empty());
                    assert(Seq::<N>::empty() + present_nodes(slots@) =~= present_nodes(slots@));
                }
            },
            None => {
                proof {
                    assert(arc_contents(out@) =~= Seq::<N>::empty());
                }
            },
        }
        out
    }

    /// All stored nodes, by increasing round and then by author index.
    pub fn all_nodes(&self) -> (r: Vec<Arc<N>>)
        ensures
            arc_contents(r@) == all_stored_nodes(self.rounds()),
    {
        let ks = self.round_keys();
        let mut out: Vec<Arc<N>> = Vec::new();
        let mut i: usize = 0;
        proof {
            assert(arc_contents(out@) =~= nodes_in_rounds(self.rounds(), ks@.take(0)));
        }
        while i < ks.len()
            invariant
                i <= ks@.len(),
                forall|k: u64| ks@.contains(k) <==> self.rounds().dom().contains(k),
                arc_contents(out@) == nodes_in_rounds(self.rounds(), ks@.take(i as int)),
            decreases ks@.len() - i,
        {
            proof {
                assert(ks@.take(i + 1).drop_last() =~= ks@.take(i as int));
                assert(ks@.contains(ks@[i as int]));
            }
            match self.nodes_by_round.get(&ks[i]) {
                Some(slots) => {
                    Self::push_present(slots, &mut out);
                },
                None => {},
            }
            i = i + 1;
        }
        proof {
            assert(ks@.take(i as int) =~= ks@);
        }
        out
    }

    /// The number of stored nodes.
    pub fn len(&self) -> (n: usize)
        requires
            all_stored_nodes(self.rounds()).len() <= usize::MAX,
        ensures
            n == all_stored_nodes(self.rounds()).len(),
    {
        let ks = self.round_keys();
        let mut total: usize = 0;
        let mut i: usize = 0;
        proof {
            lemma_nodes_in_rounds_prefix(self.rounds(), ks@, ks@.len() as int);
            assert(ks@.take(ks@.len() as int) =~= ks@);
        }
        while i < ks.len()
            invariant
                i <= ks@.len(),
                ks@ == sorted_rounds(self.rounds().dom()),
                forall|k: u64| ks@.contains(k) <==> self.rounds().dom().contains(k),
                all_stored_nodes(self.rounds()).len() <= usize::MAX,
                total == nodes_in_rounds(self.rounds(), ks@.take(i as int)).len(),
            decreases ks@.len() - i,
        {
            proof {
                assert(ks@.take(i + 1).drop_last() =~= ks@.take(i as int));
                assert(ks@.contains(ks@[i as int]));
                lemma_nodes_in_rounds_prefix(self.rounds(), ks@, i + 1);
                assert(ks@.take(ks@.len() as int) =~= ks@);
            }
            let slots = match self.nodes_by_round.get(&ks[i]) {
                Some(slots) => slots,
                None => {
                    proof {
                        assert(false);
                    }
                    return 0;
                },
            };
            let c = Self::count_present(slots);
            total = total + c;
            i = i + 1;
        }
        proof {
            assert(ks@.take(i as int) =~= ks@);
        }
        total
    }

    fn count_present(slots: &Vec<Option<StoredNodeStatus<N>>>) -> (c: usize)
        ensures
            c == present_nodes(slots@).len(),
    {
        let mut c: usize = 0;
        let mut i: usize = 0;
        while i < slots.len()
            invariant
                i <= slots@.len(),
                c == present_nodes(slots@.take(i as int)).len(),
                c <= i,
            decreases slots@.len() - i,
        {
            proof {
                assert(slots@.take(i + 1).drop_last() =~= slots@.take(i as int));
            }
            if slots[i].is_some() {
                c = c + 1;
            }
            i = i + 1;
        }
        proof {
            assert(slots@.take(i as int) =~= slots@);
        }
        c
    }

    /// Whether no node is stored.
    pub fn is_empty(&self) -> (b: bool)
        ensures
            b == (all_stored_nodes(self.rounds()).len() == 0),
    {
        let all = self.all_nodes();
        all.len() == 0
    }

    /// Removes every round below `min_round`; from then on no node below it
    /// is added.
    pub fn prune_below(&mut self, min_round: &TestRound)
        ensures
            final(self).rounds() == old(self).rounds().restrict(
                old(self).rounds().dom().filter(|k: u64| k >= min_round.0),
            ),
            final(self).author_index() == old(self).author_index(),
            final(self).spec_config() == old(self).spec_config(),
            final(self).spec_lowest_kept_round() == max_round(old(self).spec_lowest_kept_round(), min_round.0),
    {
        let ks = self.round_keys();
        let ghost old_rounds = self.rounds();
        let mut i: usize = 0;
        while i < ks.len()
            invariant
                i <= ks@.len(),
                forall|k: u64| ks@.contains(k) <==> old_rounds.dom().contains(k),
                ks@.no_duplicates(),
                self.author_index() == old(self).author_index(),
                self.spec_config() == old(self).spec_config(),
                self.lowest_kept_round == old(self).lowest_kept_round,
                forall|k: u64| #[trigger] self.rounds().contains_key(k) <==> (old_rounds.contains_key(k) && (k
                    >= min_round.0 || !ks@.take(i as int).contains(k))),
                forall|k: u64| #[trigger] self.rounds().contains_key(k) ==> self.rounds()[k] == old_rounds[k],
            decreases ks@.len() - i,
        {
            let k = ks[i];
            proof {
                assert(ks@.take(i + 1) =~= ks@.take(i as int).push(k));
            }
            let ghost pre = self.rounds();
            if k < min_round.0 {
                self.nodes_by_round.remove(&k);
                proof {
                    assert(self.rounds() =~= pre.remove(k));
                }
            }
            proof {
                assert forall|x: u64| #[trigger] ks@.take(i + 1).contains(x) <==> (ks@.take(i as int).contains(x) || x
                    == k) by {
                    if ks@.take(i + 1).contains(x) {
                        let j = choose|j: int| 0 <= j < i + 1 && #[trigger] ks@.take(i + 1)[j] == x;
                        if j < i {
                            assert(ks@.take(i as int)[j] == x);
                        }
                    }
                    if ks@.take(i as int).contains(x) {
                        let j = choose|j: int| 0 <= j < i && #[trigger] ks@.take(i as int)[j] == x;
                        assert(ks@.take(i + 1)[j] == x);
                    }
                    if x == k {
                        assert(ks@.take(i + 1)[i as int] == x);
                    }
                }
            }
            i = i + 1;
        }
        proof {
            assert(ks@.take(i as int) =~= ks@);
            assert(self.rounds() =~= old_rounds.restrict(old_rounds.dom().filter(|k: u64| k >= min_round.0)));
        }
        if min_round.0 > self.lowest_kept_round {
            self.lowest_kept_round = min_round.0;
        }
    }

    /// Removes every stored node.
    pub fn clear(&mut self)
        ensures
            final(self).rounds() == Map::<u64, Seq<Option<StoredNodeStatus<N>>>>::empty(),
            final(self).author_index() == old(self).author_index(),
            final(self).spec_config() == old(self).spec_config(),
            final(self).spec_lowest_kept_round() == old(self).spec_lowest_kept_round(),
    {
        self.nodes_by_round.clear();
        proof {
            assert(self.rounds() =~= Map::<u64, Seq<Option<StoredNodeStatus<N>>>>::empty());
        }
    }
}


/// The contents of a sequence of shared pointers.
pub open spec fn arc_contents<N>(s: Seq<Arc<N>>) -> Seq<N> {
    s.map_values(|a: Arc<N>| *a)
}

/// The nodes present among `slots`, in slot order.
pub open spec fn present_nodes<N>(slots: Seq<Option<StoredNodeStatus<N>>>) -> Seq<N>
    decreases slots.len(),
{
    if slots.len() == 0 {
        Seq::empty()
    } else {
        let rest = present_nodes(slots.drop_last());
        match slots.last() {
            Some(s) => rest.push(s.spec_node()),
            None => rest,
        }
    }
}

/// The nodes stored in `round` (none when the round is not stored).
pub open spec fn round_nodes<N>(rounds: Map<u64, Seq<Option<StoredNodeStatus<N>>>>, round: u64) -> Seq<N> {
    if rounds.contains_key(round) {
        present_nodes(rounds[round])
    } else {
        Seq::empty()
    }
}

/// The nodes of the rounds `ks`, in the order of `ks`.
pub open spec fn nodes_in_rounds<N>(rounds: Map<u64, Seq<Option<StoredNodeStatus<N>>>>, ks: Seq<u64>) -> Seq<N>
    decreases ks.len(),
{
    if ks.len() == 0 {
        Seq::empty()
    } else {
        nodes_in_rounds(rounds, ks.drop_last()) + round_nodes(rounds, ks.last())
    }
}

/// Every stored node, by increasing round.
pub open spec fn all_stored_nodes<N>(rounds: Map<u64, Seq<Option<StoredNodeStatus<N>>>>) -> Seq<N> {
    nodes_in_rounds(rounds, sorted_rounds(rounds.dom()))
}

proof fn lemma_nodes_in_rounds_prefix<N>(rounds: Map<u64, Seq<Option<StoredNodeStatus<N>>>>, ks: Seq<u64>, i: int)
    requires
        0 <= i <= ks.len(),
    ensures
        nodes_in_rounds(rounds, ks.take(i)).len() <= nodes_in_rounds(rounds, ks).len(),
    decreases ks.len() - i,
{
    if i < ks.len() {
        lemma_nodes_in_rounds_prefix(rounds, ks, i + 1);
        assert(ks.take(i + 1).drop_last() =~= ks.take(i));
    } else {
        assert(ks.take(i) =~= ks);
    }
}

/// What a read gives back of a write: after a node is placed in the slot
/// of author index `idx` in `round` (as `add_node` places it), that slot
/// holds the node, unordered, and every other slot holds what it held.
pub proof fn lemma_added_node_is_found<N>(
    rounds: Map<u64, Seq<Option<StoredNodeStatus<N>>>>,
    num_authors: nat,
    round: u64,
    idx: int,
    node: N,
    other_round: u64,
    other_idx: int,
)
    requires
        0 <= idx,
    ensures
        ({
            let stored = StoredNodeStatus::Unordered { node: Arc::new(node), aggregated_voting_power: 0 };
            let after = rounds.insert(round, slots_for(rounds, round, num_authors, idx).update(idx, Some(stored)));
            &&& slot_of(after, round, idx) == Some(stored)
            &&& (other_round != round || other_idx != idx) ==> slot_of(after, other_round, other_idx) == slot_of(
                rounds,
                other_round,
                other_idx,
            )
        }),
{
    let stored = StoredNodeStatus::Unordered { node: Arc::new(node), aggregated_voting_power: 0 };
    let base = if rounds.contains_key(round) {
        rounds[round]
    } else {
        empty_slots::<N>(num_authors)
    };
    let slots = slots_for(rounds, round, num_authors, idx);
    assert(slots.len() > idx);
    if other_round == round && other_idx != idx && 0 <= other_idx < slots.len() {
        if other_idx < base.len() {
            assert(slots[other_idx] == base[other_idx]);
        } else {
            assert(slots[other_idx] is None);
        }
    }
}

proof fn lemma_present_padding<N>(s: Seq<Option<StoredNodeStatus<N>>>, n: nat)
    ensures
        present_nodes(s + empty_slots::<N>(n)).len() == present_nodes(s).len(),
    decreases n,
{
    if n > 0 {
        lemma_present_padding(s, (n - 1) as nat);
        assert((s + empty_slots::<N>(n)).drop_last() =~= s + empty_slots::<N>((n - 1) as nat));
    } else {
        assert(s + empty_slots::<N>(n) =~= s);
    }
}

proof fn lemma_present_fill<N>(s: Seq<Option<StoredNodeStatus<N>>>, i: int, x: StoredNodeStatus<N>)
    requires
        0 <= i < s.len(),
        s[i] is None,
    ensures
        present_nodes(s.update(i, Some(x))).len() == present_nodes(s).len() + 1,
    decreases s.len(),
{
    let u = s.update(i, Some(x));
    if i == s.len() - 1 {
        assert(u.drop_last() =~= s.drop_last());
    } else {
        lemma_present_fill(s.drop_last(), i, x);
        assert(u.drop_last() =~= s.drop_last().update(i, Some(x)));
    }
}

/// Adding a node to a free slot (as `add_node` does) makes the DAG hold one
/// node more, and leaves the other rounds' nodes as they were.
pub proof fn lemma_added_node_grows_count<N>(
    rounds: Map<u64, Seq<Option<StoredNodeStatus<N>>>>,
    num_authors: nat,
    round: u64,
    idx: int,
    node: N,
)
    requires
        0 <= idx,
        rounds.dom().finite(),
        slot_of(rounds, round, idx) is None,
    ensures
        ({
            let stored = StoredNodeStatus::Unordered { node: Arc::new(node), aggregated_voting_power: 0 };
            let after = rounds.insert(round, slots_for(rounds, round, num_authors, idx).update(idx, Some(stored)));
            &&& all_stored_nodes(after).len() == all_stored_nodes(rounds).len() + 1
            &&& forall|k: u64| k != round ==> #[trigger] round_nodes(after, k) == round_nodes(rounds, k)
        }),
{
    let stored = StoredNodeStatus::Unordered { node: Arc::new(node), aggregated_voting_power: 0 };
    let slots = slots_for(rounds, round, num_authors, idx);
    let after = rounds.insert(round, slots.update(idx, Some(stored)));
    let base = if rounds.contains_key(round) {
        rounds[round]
    } else {
        empty_slots::<N>(num_authors)
    };
    if base.len() <= idx {
        lemma_present_padding(base, (idx + 1 - base.len()) as nat);
        assert(slots[idx] is None);
    } else {
        assert(slots == base);
        if !rounds.contains_key(round) {
            assert(base[idx] is None);
        }
    }
    lemma_present_fill(slots, idx, stored);
    if !rounds.contains_key(round) {
        lemma_present_padding(Seq::<Option<StoredNodeStatus<N>>>::empty(), num_authors);
        assert(Seq::<Option<StoredNodeStatus<N>>>::empty() + empty_slots::<N>(num_authors) =~= empty_slots::<N>(
            num_authors,
        ));
        assert(present_nodes(Seq::<Option<StoredNodeStatus<N>>>::empty()).len() == 0);
    }
    assert(after.dom() =~= rounds.dom().insert(round));
    assert forall|k: u64| k != round implies #[trigger] round_nodes(after, k) == round_nodes(rounds, k) by {}
    lemma_count_grows(after, rounds, round);
}

/// Whether the rounds of `s` strictly increase.
pub open spec fn increasing(s: Seq<u64>) -> bool {
    forall|a: int, b: int| 0 <= a < b < s.len() ==> s[a] < s[b]
}

/// The rounds of `d` in increasing order.
pub open spec fn sorted_rounds(d: Set<u64>) -> Seq<u64> {
    choose|s: Seq<u64>| increasing(s) && s.to_set() == d
}

proof fn lemma_increasing_no_duplicates(s: Seq<u64>)
    requires
        increasing(s),
    ensures
        s.no_duplicates(),
{
    assert forall|a: int, b: int| 0 <= a < s.len() && 0 <= b < s.len() && a != b implies s[a] != s[b] by {
        if a < b {
            assert(s[a] < s[b]);
        } else {
            assert(s[b] < s[a]);
        }
    }
}

proof fn lemma_increasing_unique(a: Seq<u64>, b: Seq<u64>)
    requires
        increasing(a),
        increasing(b),
        a.to_set() == b.to_set(),
    ensures
        a == b,
    decreases a.len(),
{
    if a.len() == 0 {
        if b.len() > 0 {
            assert(b.to_set().contains(b[0]));
        }
        assert(b =~= a);
    } else {
        assert(a.to_set().contains(a[0]));
        assert(b.contains(a[0]));
        assert(b.len() > 0);
        assert(b.to_set().contains(b[0]));
        assert(a.contains(b[0]));
        let i = choose|i: int| 0 <= i < a.len() && a[i] == b[0];
        let j = choose|j: int| 0 <= j < b.len() && b[j] == a[0];
        if i > 0 {
            assert(a[0] < a[i]);
        }
        if j > 0 {
            assert(b[0] < b[j]);
        }
        assert(a[0] == b[0]);
        let a1 = a.drop_first();
        let b1 = b.drop_first();
        assert forall|x: u64| a1.to_set().contains(x) <==> b1.to_set().contains(x) by {
            if a1.contains(x) {
                let k = choose|k: int| 0 <= k < a1.len() && a1[k] == x;
                assert(a[k + 1] == x);
                assert(a[0] < a[k + 1]);
                assert(a.to_set().contains(x));
                assert(b.contains(x));
                let m = choose|m: int| 0 <= m < b.len() && b[m] == x;
                assert(m != 0);
                assert(b1[m - 1] == x);
            }
            if b1.contains(x) {
                let k = choose|k: int| 0 <= k < b1.len() && b1[k] == x;
                assert(b[k + 1] == x);
                assert(b[0] < b[k + 1]);
                assert(b.to_set().contains(x));
                assert(a.contains(x));
                let m = choose|m: int| 0 <= m < a.len() && a[m] == x;
                assert(m != 0);
                assert(a1[m - 1] == x);
            }
        }
        assert(a1.to_set() =~= b1.to_set());
        lemma_increasing_unique(a1, b1);
        assert(a.len() == b.len());
        assert forall|k: int| 0 <= k < a.len() implies a[k] == b[k] by {
            if k > 0 {
                assert(a[k] == a1[k - 1]);
                assert(b[k] == b1[k - 1]);
            }
        }
        assert(a =~= b);
    }
}

proof fn lemma_sorted_rounds(s: Seq<u64>, d: Set<u64>)
    requires
        increasing(s),
        s.to_set() == d,
    ensures
        sorted_rounds(d) == s,
{
    let c = sorted_rounds(d);
    assert(increasing(c) && c.to_set() == d);
    lemma_increasing_unique(c, s);
}

} // verus!
