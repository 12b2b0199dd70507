//! Ordering of DAG nodes: anchor election and the rule engine that decides
//! which certified nodes are committed, and in which order.
use vstd::prelude::*;

use std::marker::PhantomData;
use std::sync::Arc;

use crate::dag::store::{DagStoreNode, InMemDag};
use crate::dag::testing::{TestAuthor, TestRound};
use crate::error::Error;

verus! {

/// Configuration of the ordering rules.
#[derive(Clone, Copy, Debug)]
pub struct OrderingConfig {
    /// Window size for DAG retention
    pub window_size: u64,
    /// Anchor round interval (every N rounds)
    pub anchor_interval: u64,
}

impl Default for OrderingConfig {
    fn default() -> (c: Self)
        ensures
            c.window_size == 100,
            c.anchor_interval == 2,
    {
        OrderingConfig { window_size: 100, anchor_interval: 2 }
    }
}

/// What a commit of ordered nodes reports.
#[derive(Clone, Debug)]
pub struct CommitEvent<ID, A> {
    /// The anchor node that triggered ordering
    pub anchor_id: ID,
    /// Parents of the anchor
    pub parents: Vec<A>,
    /// Authors that failed to provide nodes
    pub failed_authors: Vec<A>,
}

impl<ID, A> CommitEvent<ID, A> {
    /// A commit event from its parts.
    pub fn new(anchor_id: ID, parents: Vec<A>, failed_authors: Vec<A>) -> (e: Self)
        ensures
            e.anchor_id == anchor_id,
            e.parents == parents,
            e.failed_authors == failed_authors,
    {
        CommitEvent { anchor_id, parents, failed_authors }
    }
}

/// The nodes that one ordering step committed.
#[derive(Clone)]
pub struct OrderingResult<N, ID, A> {
    /// Ordered nodes (including the anchor)
    pub ordered_nodes: Vec<Arc<N>>,
    /// Commit event describing what was ordered
    pub commit_event: CommitEvent<ID, A>,
}

/// Which validator anchors each round.
pub trait AnchorElection {
    /// Round type
    type Round;

    /// Author/validator type
    type Author;

    /// Whether an anchor can be named at all.
    open spec fn can_elect(&self) -> bool {
        true
    }

    /// The anchor author of `round`.
    fn get_anchor(&self, round: &Self::Round) -> Self::Author
        requires
            self.can_elect(),
    ;

    /// Takes note of a commit (for strategies that keep a reputation).
    fn update_reputation(&self, event: &CommitEvent<Self::Round, Self::Author>);
}

/// Round-robin anchor election over a fixed list of validators.
pub struct RoundRobinAnchorElection<R, A> {
    authors: Vec<A>,
    round: PhantomData<R>,
}

impl<R> RoundRobinAnchorElection<R, TestAuthor> {
    /// The validators, in order.
    pub closed spec fn spec_authors(&self) -> Seq<TestAuthor> {
        self.authors@
    }

    /// An election over `authors`.
    pub fn new(authors: Vec<TestAuthor>) -> (e: Self)
        ensures
            e.spec_authors() == authors@,
    {
        RoundRobinAnchorElection { authors, round: PhantomData }
    }

    /// The position of `author` in the list (its first one).
    pub fn get_author_index(&self, author: &TestAuthor) -> (r: Option<usize>)
        ensures
            r is None <==> !self.spec_authors().contains(*author),
            r matches Some(i) ==> i < self.spec_authors().len() && self.spec_authors()[i as int] == *author
                && forall|j: int| 0 <= j < i ==> self.spec_authors()[j] != *author,
    {
        let mut i: usize = 0;
        while i < self.authors.len()
            invariant
                i <= self.authors@.len(),
                forall|j: int| 0 <= j < i ==> self.authors@[j] != *author,
            decreases self.authors@.len() - i,
        {
            if self.authors[i].0 == author.0 {
                return Some(i);
            }
            i = i + 1;
        }
        None
    }
}

impl AnchorElection for RoundRobinAnchorElection<TestRound, TestAuthor> {
    type Round = TestRound;

    type Author = TestAuthor;

    open spec fn can_elect(&self) -> bool {
        self.spec_authors().len() > 0
    }

    /// The validators anchor the rounds in turn: round `r` is anchored by
    /// the validator at position `r` modulo their number.
    fn get_anchor(&self, round: &TestRound) -> (a: TestAuthor)
        ensures
            a == self.spec_authors()[(round.0 as int) % (self.spec_authors().len() as int)],
    {
        let n = self.authors.len();
        let idx = (round.0 % (n as u64)) as usize;
        self.authors[idx]
    }

    /// Round-robin keeps no reputation: nothing changes.
    fn update_reputation(&self, event: &CommitEvent<TestRound, TestAuthor>) {
    }
}

/// The rule engine that decides which nodes are committed. It holds the
/// place of the reachability and vote checks, which it does not make: it
/// never orders a node.
pub struct OrderRule<N: DagStoreNode, AE> {
    dag: Arc<InMemDag<N>>,
    anchor_election: Arc<AE>,
    lowest_unordered_round: TestRound,
    config: OrderingConfig,
}

impl<N: DagStoreNode, AE> OrderRule<N, AE> {
    /// The lowest round not ordered yet.
    pub closed spec fn spec_lowest_unordered_round(&self) -> TestRound {
        self.lowest_unordered_round
    }

    /// The DAG that the rule reads.
    pub closed spec fn spec_dag(&self) -> InMemDag<N> {
        *self.dag
    }

    /// The configuration.
    pub closed spec fn spec_config(&self) -> OrderingConfig {
        self.config
    }

    /// The anchor election the rule consults.
    pub closed spec fn spec_anchor_election(&self) -> AE {
        *self.anchor_election
    }

    /// A rule over `dag` that has ordered nothing below
    /// `lowest_unordered_round`.
    pub fn new(
        dag: Arc<InMemDag<N>>,
        anchor_election: Arc<AE>,
        lowest_unordered_round: TestRound,
        config: OrderingConfig,
    ) -> (o: Self)
        ensures
            o.spec_lowest_unordered_round() == lowest_unordered_round,
            o.spec_dag() == *dag,
            o.spec_config() == config,
            o.spec_anchor_election() == *anchor_election,
    {
        OrderRule { dag, anchor_election, lowest_unordered_round, config }
    }

    /// The lowest round not ordered yet.
    pub fn lowest_unordered_round(&self) -> (r: &TestRound)
        ensures
            *r == self.spec_lowest_unordered_round(),
    {
        &self.lowest_unordered_round
    }

    /// A new node orders nothing by itself.
    pub fn process_new_node(&mut self, node: &N) -> (r: Result<Option<OrderingResult<N, TestRound, TestAuthor>>, Error>)
        ensures
            r == Ok::<Option<OrderingResult<N, TestRound, TestAuthor>>, Error>(None),
            *final(self) == *old(self),
    {
        Ok(None)
    }

    /// Orders what can be ordered: nothing, as no anchor is ever found.
    pub fn process_all(&mut self) -> (r: Result<Vec<OrderingResult<N, TestRound, TestAuthor>>, Error>)
        ensures
            r matches Ok(v) && v@.len() == 0,
            *final(self) == *old(self),
    {
        Ok(Vec::new())
    }

    /// Orders from `start_round` on: nothing, as no anchor is ever found.
    pub fn try_order_from_round(&mut self, start_round: TestRound) -> (r: Result<
        Option<OrderingResult<N, TestRound, TestAuthor>>,
        Error,
    >)
        ensures
            r == Ok::<Option<OrderingResult<N, TestRound, TestAuthor>>, Error>(None),
            *final(self) == *old(self),
    {
        Ok(None)
    }

    /// An anchor from `start_round` on with enough votes: none is found.
    pub fn find_anchor_with_enough_votes(&self, start_round: TestRound) -> (r: Result<Option<Arc<N>>, Error>)
        ensures
            r == Ok::<Option<Arc<N>>, Error>(None),
    {
        Ok(None)
    }

    /// Orders `anchor` and what it reaches: nothing is marked ordered.
    pub fn order_anchor(&mut self, anchor: Arc<N>) -> (r: Result<Vec<Arc<N>>, Error>)
        ensures
            r matches Ok(v) && v@.len() == 0,
            *final(self) == *old(self),
    {
        Ok(Vec::new())
    }

    /// The commit event of `ordered_nodes`: anchored at the lowest unordered
    /// round, with no parents and no failed authors.
    pub fn create_commit_event(&self, ordered_nodes: &[Arc<N>]) -> (e: CommitEvent<TestRound, TestAuthor>)
        ensures
            e.anchor_id == self.spec_lowest_unordered_round(),
            e.parents@.len() == 0,
            e.failed_authors@.len() == 0,
    {
        CommitEvent::new(self.lowest_unordered_round, Vec::new(), Vec::new())
    }

    /// Whether `round` holds enough votes to order: never.
    pub fn can_trigger_ordering(&self, round: &TestRound) -> (b: bool)
        ensures
            !b,
    {
        false
    }

    /// Compares two rounds: they always compare equal.
    pub fn compare_rounds(&self, r1: &TestRound, r2: &TestRound) -> (o: std::cmp::Ordering)
        ensures
            o == std::cmp::Ordering::Equal,
    {
        std::cmp::Ordering::Equal
    }

    /// The round after `round`: the round itself.
    pub fn next_round(&self, round: TestRound) -> (r: TestRound)
        ensures
            r == round,
    {
        round
    }
}

} // verus!
