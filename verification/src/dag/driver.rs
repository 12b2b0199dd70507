//! The DAG consensus driver: it holds the DAG store and the ordering rule,
//! tracks the current round and queues certified nodes for processing.
use vstd::prelude::*;

use std::collections::VecDeque;
use std::sync::Arc;

use crate::dag::ordering::{OrderRule, OrderingConfig, OrderingResult};
use crate::dag::store::{DagStoreConfig, DagStoreNode, InMemDag};
use crate::dag::testing::{TestAuthor, TestRound};
use crate::error::Error;

verus! {

/// Configuration of the DAG driver.
#[derive(Clone, Copy, Debug)]
pub struct DagDriverConfig {
    /// Window size for DAG retention
    pub window_size: u64,
    /// Anchor round interval (every N rounds)
    pub anchor_interval: u64,
    /// Maximum number of concurrent rounds
    pub max_concurrent_rounds: usize,
}

impl Default for DagDriverConfig {
    fn default() -> (c: Self)
        ensures
            c.window_size == 100,
            c.anchor_interval == 2,
            c.max_concurrent_rounds == 10,
    {
        DagDriverConfig { window_size: 100, anchor_interval: 2, max_concurrent_rounds: 10 }
    }
}

/// The DAG consensus driver.
pub struct DagDriver<N: DagStoreNode, AE> {
    dag: Arc<InMemDag<N>>,
    order_rule: Arc<OrderRule<N, AE>>,
    config: DagDriverConfig,
    current_round: TestRound,
    pending_nodes: VecDeque<Arc<N>>,
    is_processing: bool,
}

impl<N: DagStoreNode + Clone, AE> DagDriver<N, AE> {
    /// The DAG store.
    pub closed spec fn spec_dag(&self) -> InMemDag<N> {
        *self.dag
    }

    /// The ordering rule.
    pub closed spec fn spec_order_rule(&self) -> OrderRule<N, AE> {
        *self.order_rule
    }

    /// The configuration.
    pub closed spec fn spec_config(&self) -> DagDriverConfig {
        self.config
    }

    /// The current round.
    pub closed spec fn spec_current_round(&self) -> TestRound {
        self.current_round
    }

    /// The nodes waiting to be processed, oldest first.
    pub closed spec fn spec_pending(&self) -> Seq<Arc<N>> {
        self.pending_nodes@
    }

    /// Whether pending nodes are being processed.
    pub closed spec fn spec_is_processing(&self) -> bool {
        self.is_processing
    }

    /// Whether the store, the ordering rule and the configuration are those
    /// of `other`.
    pub open spec fn same_parts(&self, other: Self) -> bool {
        &&& self.spec_dag() == other.spec_dag()
        &&& self.spec_order_rule() == other.spec_order_rule()
        &&& self.spec_config() == other.spec_config()
    }

    /// A driver over an empty DAG of `authors`, at `start_round`: the DAG
    /// keeps the configured window, and the ordering rule starts at
    /// `start_round` with the configured window and anchor interval.
    pub fn new(authors: Vec<TestAuthor>, anchor_election: Arc<AE>, start_round: TestRound, config: DagDriverConfig) -> (d:
        Self)
        ensures
            d.spec_dag().rounds() == Map::<u64, Seq<Option<crate::dag::store::StoredNodeStatus<N>>>>::empty(),
            d.spec_dag().author_index() == crate::dag::store::author_indices(authors@),
            d.spec_dag().spec_config() == (DagStoreConfig { start_round: 0, window_size: config.window_size }),
            d.spec_order_rule().spec_dag() == d.spec_dag(),
            d.spec_order_rule().spec_lowest_unordered_round() == start_round,
            d.spec_order_rule().spec_anchor_election() == *anchor_election,
            d.spec_order_rule().spec_config() == (OrderingConfig {
                window_size: config.window_size,
                anchor_interval: config.anchor_interval,
            }),
            d.spec_config() == config,
            d.spec_current_round() == start_round,
            d.spec_pending().len() == 0,
            !d.spec_is_processing(),
    {
        let dag_store_config = DagStoreConfig { start_round: 0, window_size: config.window_size };
        let dag = Arc::new(InMemDag::new(authors, dag_store_config));
        let ordering_config = OrderingConfig {
            window_size: config.window_size,
            anchor_interval: config.anchor_interval,
        };
        let order_rule = Arc::new(OrderRule::new(dag.clone(), anchor_election, start_round, ordering_config));
        DagDriver {
            dag,
            order_rule,
            config,
            current_round: start_round,
            pending_nodes: VecDeque::new(),
            is_processing: false,
        }
    }

    /// The current round.
    pub fn current_round(&self) -> (r: &TestRound)
        ensures
            *r == self.spec_current_round(),
    {
        &self.current_round
    }

    /// The DAG store.
    pub fn dag(&self) -> (d: &Arc<InMemDag<N>>)
        ensures
            **d == self.spec_dag(),
    {
        &self.dag
    }

    /// The ordering rule.
    pub fn order_rule(&self) -> (o: &Arc<OrderRule<N, AE>>)
        ensures
            **o == self.spec_order_rule(),
    {
        &self.order_rule
    }

    /// Takes a certified node from the network and checks what can be
    /// ordered. The driver holds its store behind a shared pointer, so the
    /// node is not added to it.
    pub fn process_certified_node(&mut self, node: N) -> (r: Result<(), Error>)
        ensures
            r is Ok,
            *final(self) == *old(self),
    {
        self.check_ordering()
    }

    /// Handles every ordering result the rule produces; the rule, held
    /// behind a shared pointer, produces none.
    fn check_ordering(&mut self) -> (r: Result<(), Error>)
        ensures
            r is Ok,
            *final(self) == *old(self),
    {
        let mut ordered_results: Vec<OrderingResult<N, TestRound, TestAuthor>> = Vec::new();
        loop
            invariant
                *self == *old(self),
            decreases ordered_results@.len(),
        {
            match ordered_results.pop() {
                Some(result) => {
                    match self.handle_ordered_nodes(result) {
                        Ok(()) => {},
                        Err(e) => {
                            return Err(e);
                        },
                    }
                },
                None => {
                    break ;
                },
            }
        }
        Ok(())
    }

    /// Acknowledges a batch of ordered nodes.
    fn handle_ordered_nodes(&mut self, result: OrderingResult<N, TestRound, TestAuthor>) -> (r: Result<(), Error>)
        ensures
            r is Ok,
            *final(self) == *old(self),
    {
        Ok(())
    }

    /// Moves to `new_round`: refused for a round below the current one.
    pub fn enter_new_round(&mut self, new_round: TestRound) -> (r: Result<(), Error>)
        ensures
            new_round.0 < old(self).spec_current_round().0 ==> r == Err::<(), Error>(
                Error::CannotMoveToRound { new_round: new_round.0, current_round: old(self).spec_current_round().0 },
            ) && *final(self) == *old(self),
            new_round.0 >= old(self).spec_current_round().0 ==> r is Ok && final(self).spec_current_round()
                == new_round && final(self).spec_pending() == old(self).spec_pending()
                && final(self).spec_is_processing() == old(self).spec_is_processing() && final(self).same_parts(*old(self)),
    {
        if new_round.0 < self.current_round.0 {
            return Err(Error::CannotMoveToRound { new_round: new_round.0, current_round: self.current_round.0 });
        }
        self.current_round = new_round;
        Ok(())
    }

    /// The strong links of `round`: every node stored in that round.
    pub fn get_strong_links(&self, round: &TestRound) -> (r: Vec<Arc<N>>)
        ensures
            crate::dag::store::arc_contents(r@) == crate::dag::store::round_nodes(self.spec_dag().rounds(), round.0),
    {
        self.dag.get_round(round)
    }

    /// Creates a proposal: there is nothing to propose from.
    pub fn create_proposal(&self) -> (r: Result<(), Error>)
        ensures
            r is Ok,
    {
        Ok(())
    }

    /// Processes the queued nodes, oldest first, unless processing is under
    /// way already; afterwards the queue is empty.
    pub fn process_pending(&mut self) -> (r: Result<(), Error>)
        ensures
            r is Ok,
            old(self).spec_is_processing() ==> *final(self) == *old(self),
            !old(self).spec_is_processing() ==> final(self).spec_pending().len() == 0
                && !final(self).spec_is_processing() && final(self).spec_current_round()
                == old(self).spec_current_round() && final(self).same_parts(*old(self)),
    {
        if self.is_processing {
            return Ok(());
        }
        self.is_processing = true;
        loop
            invariant
                self.is_processing,
                *self == (DagDriver { pending_nodes: self.pending_nodes, is_processing: true, ..*old(self) }),
            ensures
                self.pending_nodes@.len() == 0,
                *self == (DagDriver { pending_nodes: self.pending_nodes, is_processing: true, ..*old(self) }),
            decreases self.pending_nodes@.len(),
        {
            match self.pending_nodes.pop_front() {
                Some(node) => {
                    let n: N = (*node).clone();
                    let _ = self.process_certified_node(n);
                },
                None => {
                    break ;
                },
            }
        }
        self.is_processing = false;
        Ok(())
    }

    /// Queues `node` for processing.
    pub fn add_pending(&mut self, node: Arc<N>)
        ensures
            final(self).spec_pending() == old(self).spec_pending().push(node),
            final(self).spec_is_processing() == old(self).spec_is_processing(),
            final(self).spec_current_round() == old(self).spec_current_round(),
            final(self).same_parts(*old(self)),
    {
        self.pending_nodes.push_back(node);
    }

    /// The number of queued nodes.
    pub fn pending_count(&self) -> (n: usize)
        ensures
            n == self.spec_pending().len(),
    {
        self.pending_nodes.len()
    }

    /// Marks whether pending nodes are being processed.
    pub fn set_processing(&mut self, processing: bool)
        ensures
            final(self).spec_is_processing() == processing,
            final(self).spec_pending() == old(self).spec_pending(),
            final(self).spec_current_round() == old(self).spec_current_round(),
            final(self).same_parts(*old(self)),
    {
        self.is_processing = processing;
    }

    /// Prunes the DAG below the lowest unordered round. The driver holds its
    /// store behind a shared pointer, so nothing is removed.
    pub fn prune(&mut self) -> (r: Result<(), Error>)
        ensures
            r is Ok,
            *final(self) == *old(self),
    {
        let _lowest_unordered = self.order_rule.lowest_unordered_round();
        Ok(())
    }
}

} // verus!
