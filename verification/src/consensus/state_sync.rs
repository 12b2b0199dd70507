//! State synchronization: catching up with the network by fetching the
//! blocks of missed rounds.
use vstd::prelude::*;

use std::collections::HashMap;
use std::sync::Arc;

use crate::error::Error;
use crate::testing::MockBlock;
use crate::types::{Epoch, Round};

verus! {

broadcast use vstd::std_specs::hash::group_hash_axioms;

/// Configuration for state synchronization.
#[derive(Clone, Copy, Debug)]
pub struct StateSyncConfig {
    /// Maximum number of blocks to sync per batch
    pub max_batch_size: usize,
    /// Timeout for sync requests (in milliseconds)
    pub sync_timeout_ms: u64,
    /// Number of retries for failed sync requests
    pub max_retries: usize,
    /// Whether to request sync from multiple peers
    pub verify_from_multiple_peers: bool,
}

impl Default for StateSyncConfig {
    fn default() -> (c: Self)
        ensures
            c.max_batch_size == 100,
            c.sync_timeout_ms == 5000,
            c.max_retries == 3,
            c.verify_from_multiple_peers,
    {
        StateSyncConfig { max_batch_size: 100, sync_timeout_ms: 5000, max_retries: 3, verify_from_multiple_peers: true }
    }
}

/// Status of a state synchronization.
#[derive(Clone, Debug, PartialEq, Eq)]
pub enum SyncStatus {
    /// Not currently syncing
    Idle,
    /// Sync request in progress
    InProgress {
        /// Target round we're syncing to
        target_round: Round,
        /// Current round we've synced to
        current_round: Round,
        /// Number of blocks received so far
        blocks_received: usize,
    },
    /// Sync completed successfully
    Completed {
        /// Number of blocks synced
        blocks_synced: usize,
    },
    /// Sync failed
    Failed {
        /// Error message
        error: String,
    },
}

impl SyncStatus {
    /// Whether a sync is in progress.
    pub fn is_in_progress(&self) -> (b: bool)
        ensures
            b == self is InProgress,
    {
        match self {
            SyncStatus::InProgress { .. } => true,
            _ => false,
        }
    }

    /// Whether the sync completed.
    pub fn is_completed(&self) -> (b: bool)
        ensures
            b == self is Completed,
    {
        match self {
            SyncStatus::Completed { .. } => true,
            _ => false,
        }
    }

    /// Whether the sync failed.
    pub fn is_failed(&self) -> (b: bool)
        ensures
            b == self is Failed,
    {
        match self {
            SyncStatus::Failed { .. } => true,
            _ => false,
        }
    }

    /// The target round, while syncing.
    pub fn target_round(&self) -> (r: Option<Round>)
        ensures
            r == match *self {
                SyncStatus::InProgress { target_round, .. } => Some(target_round),
                _ => None::<Round>,
            },
    {
        match self {
            SyncStatus::InProgress { target_round, .. } => Some(*target_round),
            _ => None,
        }
    }

    /// The round synced to, while syncing.
    pub fn current_round(&self) -> (r: Option<Round>)
        ensures
            r == match *self {
                SyncStatus::InProgress { current_round, .. } => Some(current_round),
                _ => None::<Round>,
            },
    {
        match self {
            SyncStatus::InProgress { current_round, .. } => Some(*current_round),
            _ => None,
        }
    }
}

/// A request for the blocks of a range of rounds.
#[derive(Clone, Copy, Debug)]
pub struct SyncRequest {
    /// The target round to sync to
    pub target_round: Round,
    /// The starting round to sync from
    pub start_round: Round,
    /// The epoch we're syncing in
    pub epoch: Epoch,
}

impl SyncRequest {
    /// A request for rounds `start_round..=target_round` of `epoch`.
    pub fn new(target_round: Round, start_round: Round, epoch: Epoch) -> (r: Self)
        ensures
            r == (SyncRequest { target_round, start_round, epoch }),
    {
        SyncRequest { target_round, start_round, epoch }
    }

    /// Whether `round` is in the requested range.
    pub fn covers_round(&self, round: Round) -> (b: bool)
        ensures
            b == (self.start_round <= round <= self.target_round),
    {
        round >= self.start_round && round <= self.target_round
    }

    /// The number of rounds the request covers: those from the start round
    /// to the target round, none when the target is below the start.
    pub fn round_count(&self) -> (n: u64)
        requires
            self.target_round < u64::MAX || self.start_round > 0,
        ensures
            n == (if self.target_round >= self.start_round {
                self.target_round - self.start_round + 1
            } else {
                0
            }),
    {
        if self.target_round < self.start_round {
            0
        } else {
            self.target_round - self.start_round + 1
        }
    }
}

/// Whether consecutive blocks have consecutive rounds.
pub open spec fn rounds_sequential(blocks: Seq<Arc<MockBlock>>) -> bool {
    forall|i: int| 0 <= i < blocks.len() - 1 ==> #[trigger] blocks[i + 1].spec_round() == blocks[i].spec_round() + 1
}

/// The first pair of consecutive blocks whose rounds are not consecutive,
/// by their rounds.
pub open spec fn first_gap(blocks: Seq<Arc<MockBlock>>) -> Option<(Round, Round)>
    decreases blocks.len(),
{
    if blocks.len() < 2 {
        None
    } else {
        match first_gap(blocks.drop_last()) {
            Some(g) => Some(g),
            None => {
                let a = blocks[blocks.len() - 2].spec_round();
                let b = blocks.last().spec_round();
                if b == a + 1 {
                    None
                } else {
                    Some((a, b))
                }
            },
        }
    }
}

/// A response carrying synchronized blocks.
#[derive(Clone, Debug)]
pub struct SyncResponse {
    /// The blocks being synced
    pub blocks: Vec<Arc<MockBlock>>,
    /// The epoch these blocks belong to
    pub epoch: Epoch,
    /// Whether this is the final batch
    pub is_final: bool,
}

impl SyncResponse {
    /// A response with `blocks`.
    pub fn new(blocks: Vec<Arc<MockBlock>>, epoch: Epoch, is_final: bool) -> (r: Self)
        ensures
            r.blocks@ == blocks@,
            r.epoch == epoch,
            r.is_final == is_final,
    {
        SyncResponse { blocks, epoch, is_final }
    }

    /// Whether there are no blocks.
    pub fn is_empty(&self) -> (b: bool)
        ensures
            b == (self.blocks@.len() == 0),
    {
        self.blocks.len() == 0
    }

    /// The number of blocks.
    pub fn len(&self) -> (n: usize)
        ensures
            n == self.blocks@.len(),
    {
        self.blocks.len()
    }

    /// The round of the last block.
    pub fn highest_round(&self) -> (r: Option<Round>)
        ensures
            self.blocks@.len() == 0 ==> r is None,
            self.blocks@.len() > 0 ==> r == Some(self.blocks@.last().spec_round()),
    {
        if self.blocks.len() == 0 {
            None
        } else {
            Some(self.blocks[self.blocks.len() - 1].metadata().round())
        }
    }

    /// The round of the first block.
    pub fn lowest_round(&self) -> (r: Option<Round>)
        ensures
            self.blocks@.len() == 0 ==> r is None,
            self.blocks@.len() > 0 ==> r == Some(self.blocks@[0].spec_round()),
    {
        if self.blocks.len() == 0 {
            None
        } else {
            Some(self.blocks[0].metadata().round())
        }
    }

    /// Checks that consecutive blocks have consecutive rounds; reports the
    /// first pair that does not.
    pub fn verify_sequential(&self) -> (r: Result<(), Error>)
        requires
            forall|i: int| 0 <= i < self.blocks@.len() - 1 ==> #[trigger] self.blocks@[i].spec_round() < u64::MAX,
        ensures
            r is Ok <==> rounds_sequential(self.blocks@),
            r is Ok <==> first_gap(self.blocks@) is None,
            first_gap(self.blocks@) matches Some((a, b)) ==> r == Err::<(), Error>(
                Error::BlocksNotSequential { current_round: a, next_round: b },
            ),
    {
        if self.blocks.len() == 0 {
            return Ok(());
        }
        let mut i: usize = 0;
        while i < self.blocks.len() - 1
            invariant
                i < self.blocks@.len(),
                forall|j: int| 0 <= j < self.blocks@.len() - 1 ==> #[trigger] self.blocks@[j].spec_round() < u64::MAX,
                first_gap(self.blocks@.take(i + 1)) is None,
                forall|j: int| 0 <= j < i ==> #[trigger] self.blocks@[j + 1].spec_round() == self.blocks@[j].spec_round() + 1,
            decreases self.blocks@.len() - i,
        {
            let current_round = self.blocks[i].metadata().round();
            let next_round = self.blocks[i + 1].metadata().round();
            proof {
                assert(self.blocks@[i as int].spec_round() < u64::MAX);
                assert(self.blocks@.take(i + 2).drop_last() =~= self.blocks@.take(i + 1));
                assert(self.blocks@.take(i + 2)[i as int] == self.blocks@[i as int]);
            }
            if next_round != current_round + 1 {
                proof {
                    Self::lemma_gap_prefix(self.blocks@, i as int + 2);
                }
                return Err(Error::BlocksNotSequential { current_round, next_round });
            }
            i = i + 1;
        }
        proof {
            assert(self.blocks@.take(i + 1) =~= self.blocks@);
        }
        Ok(())
    }

    proof fn lemma_gap_prefix(blocks: Seq<Arc<MockBlock>>, k: int)
        requires
            2 <= k <= blocks.len(),
            first_gap(blocks.take(k)) is Some,
        ensures
            first_gap(blocks) == first_gap(blocks.take(k)),
        decreases blocks.len() - k,
    {
        if k < blocks.len() {
            assert(blocks.take(k + 1).drop_last() =~= blocks.take(k));
            Self::lemma_gap_prefix(blocks, k + 1);
        } else {
            assert(blocks.take(k) =~= blocks);
        }
    }
}

/// The state synchronization coordinator.
pub struct StateSync {
    config: StateSyncConfig,
    status: SyncStatus,
    pending_requests: Vec<SyncRequest>,
    received_blocks: HashMap<Round, Arc<MockBlock>>,
    highest_known_round: Option<Round>,
    current_round: Round,
    sync_epoch: Epoch,
}

/// The epoch of the first block of `blocks` not in `epoch`, if any.
pub open spec fn first_wrong_epoch(blocks: Seq<Arc<MockBlock>>, epoch: Epoch) -> Option<Epoch>
    decreases blocks.len(),
{
    if blocks.len() == 0 {
        None
    } else {
        match first_wrong_epoch(blocks.drop_last(), epoch) {
            Some(e) => Some(e),
            None => if blocks.last().spec_metadata().spec_epoch() != epoch {
                Some(blocks.last().spec_metadata().spec_epoch())
            } else {
                None
            },
        }
    }
}

proof fn lemma_first_wrong_epoch_prefix(blocks: Seq<Arc<MockBlock>>, epoch: Epoch, k: int)
    requires
        0 <= k <= blocks.len(),
        first_wrong_epoch(blocks.take(k), epoch) is Some,
    ensures
        first_wrong_epoch(blocks, epoch) == first_wrong_epoch(blocks.take(k), epoch),
    decreases blocks.len() - k,
{
    if k < blocks.len() {
        assert(blocks.take(k + 1).drop_last() =~= blocks.take(k));
        lemma_first_wrong_epoch_prefix(blocks, epoch, k + 1);
    } else {
        assert(blocks.take(k) =~= blocks);
    }
}

/// Whether every received block is stored under its own round.
pub open spec fn blocks_keyed(m: Map<Round, Arc<MockBlock>>) -> bool {
    forall|k: Round| #[trigger] m.contains_key(k) ==> m[k].spec_round() == k
}

/// The received blocks after storing `blocks` in order, each under its round.
pub open spec fn store_blocks(m: Map<Round, Arc<MockBlock>>, blocks: Seq<Arc<MockBlock>>) -> Map<
    Round,
    Arc<MockBlock>,
>
    decreases blocks.len(),
{
    if blocks.len() == 0 {
        m
    } else {
        store_blocks(m, blocks.drop_last()).insert(blocks.last().spec_round(), blocks.last())
    }
}

/// Whether `h` is the highest key of `m`.
pub open spec fn is_highest_key(m: Map<Round, Arc<MockBlock>>, h: Round) -> bool {
    &&& m.contains_key(h)
    &&& forall|k: Round| #[trigger] m.contains_key(k) ==> k <= h
}

/// The blocks of consecutive rounds after `from`, each in `m`.
pub open spec fn consecutive_from(m: Map<Round, Arc<MockBlock>>, from: Round, blocks: Seq<Arc<MockBlock>>) -> bool {
    &&& forall|i: int| 0 <= i < blocks.len() ==> #[trigger] m.contains_key(round_after(from, i))
    &&& forall|i: int| 0 <= i < blocks.len() ==> #[trigger] blocks[i] == m[round_after(from, i)]
    &&& from + blocks.len() < u64::MAX
    &&& !m.contains_key(round_after(from, blocks.len() as int))
}

impl StateSync {
    /// The configuration.
    pub closed spec fn spec_config(&self) -> StateSyncConfig {
        self.config
    }

    /// The sync status.
    pub closed spec fn spec_status(&self) -> SyncStatus {
        self.status
    }

    /// The pending requests, in order of creation.
    pub closed spec fn spec_pending_requests(&self) -> Seq<SyncRequest> {
        self.pending_requests@
    }

    /// The received blocks not yet handed out, by round.
    pub closed spec fn spec_received(&self) -> Map<Round, Arc<MockBlock>> {
        self.received_blocks@
    }

    /// The highest round known from peers.
    pub closed spec fn spec_highest_known_round(&self) -> Option<Round> {
        self.highest_known_round
    }

    /// Our current round.
    pub closed spec fn spec_current_round(&self) -> Round {
        self.current_round
    }

    /// The epoch of the last sync started (0 before any).
    pub closed spec fn spec_sync_epoch(&self) -> Epoch {
        self.sync_epoch
    }

    /// The internal invariant: each received block is stored under its round.
    pub open spec fn wf(&self) -> bool {
        blocks_keyed(self.spec_received())
    }

    /// An idle coordinator at `current_round`.
    pub fn new(config: StateSyncConfig, current_round: Round) -> (s: Self)
        ensures
            s.wf(),
            s.spec_config() == config,
            s.spec_status() == SyncStatus::Idle,
            s.spec_pending_requests() == Seq::<SyncRequest>::empty(),
            s.spec_received() == Map::<Round, Arc<MockBlock>>::empty(),
            s.spec_highest_known_round() is None,
            s.spec_current_round() == current_round,
            s.spec_sync_epoch() == 0,
    {
        StateSync {
            config,
            status: SyncStatus::Idle,
            pending_requests: Vec::new(),
            received_blocks: HashMap::new(),
            highest_known_round: None,
            current_round,
            sync_epoch: 0,
        }
    }

    /// The sync status.
    pub fn status(&self) -> (s: &SyncStatus)
        ensures
            *s == self.spec_status(),
    {
        &self.status
    }

    /// Our current round.
    pub fn current_round(&self) -> (r: Round)
        ensures
            r == self.spec_current_round(),
    {
        self.current_round
    }

    /// The highest round known from peers.
    pub fn highest_known_round(&self) -> (r: Option<Round>)
        ensures
            r == self.spec_highest_known_round(),
    {
        self.highest_known_round
    }

    /// Starts syncing to `target_round`: refused while a sync is in progress;
    /// complete at once when already there; otherwise in progress, with a
    /// request for the first batch of rounds after the current one.
    pub fn start_sync(&mut self, target_round: Round, epoch: Epoch) -> (r: Result<(), Error>)
        ensures
            final(self).spec_received() == old(self).spec_received(),
            final(self).spec_current_round() == old(self).spec_current_round(),
            final(self).spec_highest_known_round() == old(self).spec_highest_known_round(),
            final(self).spec_config() == old(self).spec_config(),
            old(self).spec_status() is InProgress ==> final(self).spec_sync_epoch() == old(self).spec_sync_epoch(),
            !(old(self).spec_status() is InProgress) ==> final(self).spec_sync_epoch() == epoch,
            old(self).spec_status() is InProgress ==> r == Err::<(), Error>(Error::SyncInProgress) && final(self).spec_status() == old(self).spec_status() && final(self).spec_pending_requests() == old(self).spec_pending_requests(),
            !(old(self).spec_status() is InProgress) && target_round <= old(self).spec_current_round() ==> r is Ok
                && final(self).spec_status() == (SyncStatus::Completed { blocks_synced: 0 }) && final(self).spec_pending_requests() == old(self).spec_pending_requests(),
            !(old(self).spec_status() is InProgress) && target_round > old(self).spec_current_round() ==> {
                let current = old(self).spec_current_round();
                let count = ((target_round - current) as u64) as usize;
                let batch = if count < old(self).spec_config().max_batch_size {
                    count
                } else {
                    old(self).spec_config().max_batch_size
                };
                &&& r is Ok
                &&& final(self).spec_status() == (SyncStatus::InProgress {
                    target_round,
                    current_round: current,
                    blocks_received: 0,
                })
                &&& final(self).spec_pending_requests() == old(self).spec_pending_requests().push(
                    SyncRequest { target_round: (current + batch) as u64, start_round: (current + 1) as u64, epoch },
                )
            },
    {
        if self.status.is_in_progress() {
            return Err(Error::SyncInProgress);
        }
        self.sync_epoch = epoch;
        if target_round <= self.current_round {
            self.status = SyncStatus::Completed { blocks_synced: 0 };
            return Ok(());
        }
        let round_count = target_round - self.current_round;
        let count = round_count as usize;
        let batch_size = if count < self.config.max_batch_size {
            count
        } else {
            self.config.max_batch_size
        };
        proof {
            assert(count as nat <= round_count) by (bit_vector)
                requires
                    count == round_count as usize,
            ;
        }
        self.status = SyncStatus::InProgress { target_round, current_round: self.current_round, blocks_received: 0 };
        let request = SyncRequest::new(self.current_round + batch_size as u64, self.current_round + 1, epoch);
        self.pending_requests.push(request);
        Ok(())
    }

    fn highest_received(&self) -> (r: Option<Round>)
        ensures
            r is None <==> self.spec_received().dom().len() == 0,
            r matches Some(h) ==> is_highest_key(self.spec_received(), h),
    {
        let ghost dom = self.received_blocks@.dom();
        let mut highest: Option<Round> = None;
        for k in it: self.received_blocks.keys()
            invariant
                it.seq().unref().to_set() == dom,
                it.seq().len() == dom.len(),
                forall|k: u64| dom.contains(k) ==> exists|j: int| 0 <= j < it.seq().len() && *#[trigger] it.seq()[j] == k,
                forall|j: int| 0 <= j < it.seq().len() ==> dom.contains(#[trigger] it.seq().unref()[j]),
                forall|j: int| 0 <= j < it.seq().len() ==> it.seq().unref()[j] == *#[trigger] it.seq()[j],
                highest is None <==> it.index() == 0,
                highest matches Some(h) ==> exists|j: int| 0 <= j < it.index() && *it.seq()[j] == h,
                highest matches Some(h) ==> forall|j: int| 0 <= j < it.index() ==> *#[trigger] it.seq()[j] <= h,
        {
            highest = match highest {
                Some(h) => if *k > h {
                    Some(*k)
                } else {
                    Some(h)
                },
                None => Some(*k),
            };
        }
        highest
    }

    /// Adds a response: refused when no sync is in progress or when its
    /// blocks' rounds are not consecutive. Its blocks are stored under their
    /// rounds. The sync then completes once the highest stored round reaches
    /// the target; otherwise it stays in progress at that round and, after a
    /// final batch, the next batch is requested.
    pub fn add_sync_response(&mut self, response: SyncResponse) -> (r: Result<(), Error>)
        requires
            old(self).wf(),
            forall|i: int| 0 <= i < response.blocks@.len() - 1 ==> #[trigger] response.blocks@[i].spec_round() < u64::MAX,
            old(self).spec_status() matches SyncStatus::InProgress { target_round, .. } ==> ({
                let m = store_blocks(old(self).spec_received(), response.blocks@);
                response.is_final && m.dom().len() > 0 && highest_key(m) < target_round ==> highest_key(m)
                    + old(self).spec_config().max_batch_size <= u64::MAX
            }),
        ensures
            final(self).wf(),
            final(self).spec_current_round() == old(self).spec_current_round(),
            final(self).spec_highest_known_round() == old(self).spec_highest_known_round(),
            final(self).spec_config() == old(self).spec_config(),
            final(self).spec_sync_epoch() == old(self).spec_sync_epoch(),
            !(old(self).spec_status() is InProgress) ==> r == Err::<(), Error>(Error::NoSyncInProgress)
                && final(self).spec_status() == old(self).spec_status() && final(self).spec_received() == old(self).spec_received()
                && final(self).spec_pending_requests() == old(self).spec_pending_requests(),
            old(self).spec_status() is InProgress && first_gap(response.blocks@) is Some ==> ({
                let (a, b) = first_gap(response.blocks@)->0;
                r == Err::<(), Error>(Error::BlocksNotSequential { current_round: a, next_round: b })
            }) && final(self).spec_status() == old(self).spec_status() && final(self).spec_received() == old(self).spec_received()
                && final(self).spec_pending_requests() == old(self).spec_pending_requests(),
            old(self).spec_status() is InProgress && first_gap(response.blocks@) is None && response.epoch != old(
                self,
            ).spec_sync_epoch() ==> r == Err::<(), Error>(
                Error::WrongSyncEpoch { expected: old(self).spec_sync_epoch(), actual: response.epoch },
            ) && final(self).spec_status() == old(self).spec_status() && final(self).spec_received() == old(
                self,
            ).spec_received() && final(self).spec_pending_requests() == old(self).spec_pending_requests(),
            old(self).spec_status() is InProgress && first_gap(response.blocks@) is None && response.epoch == old(
                self,
            ).spec_sync_epoch() && first_wrong_epoch(response.blocks@, old(self).spec_sync_epoch()) is Some ==> r
                == Err::<(), Error>(
                Error::WrongSyncEpoch {
                    expected: old(self).spec_sync_epoch(),
                    actual: first_wrong_epoch(response.blocks@, old(self).spec_sync_epoch())->0,
                },
            ) && final(self).spec_status() == old(self).spec_status() && final(self).spec_received() == old(
                self,
            ).spec_received() && final(self).spec_pending_requests() == old(self).spec_pending_requests(),
            old(self).spec_status() is InProgress && first_gap(response.blocks@) is None && response.epoch == old(
                self,
            ).spec_sync_epoch() && first_wrong_epoch(response.blocks@, old(self).spec_sync_epoch()) is None ==> {
                let target = old(self).spec_status()->target_round;
                let m = store_blocks(old(self).spec_received(), response.blocks@);
                let h = highest_key(m);
                let n = m.dom().len() as usize;
                &&& r is Ok
                &&& final(self).spec_received() == m
                &&& m.dom().len() == 0 ==> final(self).spec_status() == old(self).spec_status()
                    && final(self).spec_pending_requests() == old(self).spec_pending_requests()
                &&& m.dom().len() > 0 && h >= target ==> final(self).spec_status() == (SyncStatus::Completed {
                    blocks_synced: n,
                }) && final(self).spec_pending_requests() == old(self).spec_pending_requests()
                &&& m.dom().len() > 0 && h < target ==> final(self).spec_status() == (SyncStatus::InProgress {
                    target_round: target,
                    current_round: h,
                    blocks_received: n,
                }) && final(self).spec_pending_requests() == if response.is_final {
                    old(self).spec_pending_requests().push(
                        SyncRequest {
                            target_round: if target < h + old(self).spec_config().max_batch_size {
                                target
                            } else {
                                (h + old(self).spec_config().max_batch_size) as u64
                            },
                            start_round: (h + 1) as u64,
                            epoch: response.epoch,
                        },
                    )
                } else {
                    old(self).spec_pending_requests()
                }
            },
    {
        let target_round = match self.status.target_round() {
            Some(t) => t,
            None => {
                return Err(Error::NoSyncInProgress);
            },
        };
        match response.verify_sequential() {
            Ok(_) => {},
            Err(e) => {
                return Err(e);
            },
        }
        let expected_epoch = self.sync_epoch;
        if response.epoch != expected_epoch {
            return Err(Error::WrongSyncEpoch { expected: expected_epoch, actual: response.epoch });
        }
        let mut j: usize = 0;
        while j < response.blocks.len()
            invariant
                j <= response.blocks@.len(),
                first_wrong_epoch(response.blocks@.take(j as int), expected_epoch) is None,
                *self == *old(self),
                expected_epoch == old(self).sync_epoch,
                old(self).wf(),
                old(self).spec_status() is InProgress,
                first_gap(response.blocks@) is None,
                response.epoch == expected_epoch,
            decreases response.blocks@.len() - j,
        {
            let block_epoch = response.blocks[j].metadata().epoch();
            proof {
                assert(response.blocks@.take(j + 1).drop_last() =~= response.blocks@.take(j as int));
            }
            if block_epoch != expected_epoch {
                proof {
                    lemma_first_wrong_epoch_prefix(response.blocks@, expected_epoch, j + 1);
                }
                return Err(Error::WrongSyncEpoch { expected: expected_epoch, actual: block_epoch });
            }
            j = j + 1;
        }
        proof {
            assert(response.blocks@.take(j as int) =~= response.blocks@);
        }
        let ghost m0 = self.received_blocks@;
        let mut i: usize = 0;
        while i < response.blocks.len()
            invariant
                i <= response.blocks@.len(),
                self.received_blocks@ == store_blocks(m0, response.blocks@.take(i as int)),
                blocks_keyed(self.received_blocks@),
                self.current_round == old(self).current_round,
                self.highest_known_round == old(self).highest_known_round,
                self.status == old(self).status,
                self.config == old(self).config,
                self.pending_requests@ == old(self).pending_requests@,
                self.sync_epoch == old(self).sync_epoch,
                expected_epoch == response.epoch,
            decreases response.blocks@.len() - i,
        {
            let block = response.blocks[i].clone();
            let round = block.metadata().round();
            self.received_blocks.insert(round, block);
            i = i + 1;
            proof {
                assert(response.blocks@.take(i as int).drop_last() =~= response.blocks@.take(i - 1));
            }
        }
        proof {
            assert(response.blocks@.take(i as int) =~= response.blocks@);
        }
        let blocks_received = self.received_blocks.len();
        let highest_received = self.highest_received();
        if let Some(highest) = highest_received {
            proof {
                lemma_highest_key(self.received_blocks@, highest);
            }
            if highest >= target_round {
                self.status = SyncStatus::Completed { blocks_synced: blocks_received };
            } else {
                self.status = SyncStatus::InProgress { target_round, current_round: highest, blocks_received };
                if response.is_final && highest < target_round {
                    let next_start = highest + 1;
                    let next_end = if target_round < highest + self.config.max_batch_size as u64 {
                        target_round
                    } else {
                        highest + self.config.max_batch_size as u64
                    };
                    let request = SyncRequest::new(next_end, next_start, expected_epoch);
                    self.pending_requests.push(request);
                }
            }
        }
        Ok(())
    }

    /// The pending requests.
    pub fn pending_requests(&self) -> (r: &[SyncRequest])
        ensures
            r@ == self.spec_pending_requests(),
    {
        self.pending_requests.as_slice()
    }

    /// Takes the most recent pending request.
    pub fn take_next_request(&mut self) -> (r: Option<SyncRequest>)
        ensures
            old(self).spec_pending_requests().len() == 0 ==> r is None && final(self).spec_pending_requests()
                == old(self).spec_pending_requests(),
            old(self).spec_pending_requests().len() > 0 ==> r == Some(old(self).spec_pending_requests().last())
                && final(self).spec_pending_requests() == old(self).spec_pending_requests().drop_last(),
            final(self).spec_status() == old(self).spec_status(),
            final(self).spec_received() == old(self).spec_received(),
            final(self).spec_current_round() == old(self).spec_current_round(),
            final(self).spec_highest_known_round() == old(self).spec_highest_known_round(),
            final(self).spec_sync_epoch() == old(self).spec_sync_epoch(),
    {
        self.pending_requests.pop()
    }

    /// Hands out the received blocks of consecutive rounds after the current
    /// round, in round order, and advances the current round past them.
    pub fn ready_blocks(&mut self) -> (ready: Vec<Arc<MockBlock>>)
        requires
            old(self).wf(),
            exists|k: Round| old(self).spec_current_round() < k && !old(self).spec_received().contains_key(k),
        ensures
            final(self).wf(),
            consecutive_from(old(self).spec_received(), old(self).spec_current_round(), ready@),
            forall|i: int| 0 <= i < ready@.len() ==> #[trigger] ready@[i].spec_round() == old(self).spec_current_round() + 1 + i,
            final(self).spec_current_round() == old(self).spec_current_round() + ready@.len(),
            final(self).spec_received() == old(self).spec_received().remove_keys(
                Set::new(|k: Round| old(self).spec_current_round() < k <= old(self).spec_current_round() + ready@.len()),
            ),
            final(self).spec_status() == old(self).spec_status(),
            final(self).spec_pending_requests() == old(self).spec_pending_requests(),
            final(self).spec_highest_known_round() == old(self).spec_highest_known_round(),
            final(self).spec_sync_epoch() == old(self).spec_sync_epoch(),
    {
        let ghost m0 = self.received_blocks@;
        let ghost c0 = self.current_round;
        let ghost gap = choose|k: Round| c0 < k && !m0.contains_key(k);
        let mut ready: Vec<Arc<MockBlock>> = Vec::new();
        let mut next_round = self.current_round + 1;
        loop
            invariant_except_break
                next_round == self.current_round + 1,
                self.current_round == c0 + ready@.len(),
                next_round < u64::MAX || !self.received_blocks@.contains_key(next_round),
            invariant
                blocks_keyed(self.received_blocks@),
                blocks_keyed(m0),
                self.status == old(self).status,
                self.pending_requests@ == old(self).pending_requests@,
                self.highest_known_round == old(self).highest_known_round,
                self.sync_epoch == old(self).sync_epoch,
                c0 < gap,
                !m0.contains_key(gap),
                c0 + ready@.len() < gap,
                forall|i: int| 0 <= i < ready@.len() ==> #[trigger] m0.contains_key(round_after(c0, i)),
                forall|i: int| 0 <= i < ready@.len() ==> #[trigger] ready@[i] == m0[round_after(c0, i)],
                c0 + ready@.len() < u64::MAX,
                self.received_blocks@ == m0.remove_keys(Set::new(|k: Round| c0 < k <= c0 + ready@.len())),
            ensures
                self.current_round == c0 + ready@.len(),
                !m0.contains_key((c0 + 1 + ready@.len()) as u64),
            decreases self.received_blocks@.dom().len(),
        {
            proof {
                assert(self.received_blocks@.dom().finite());
            }
            let ghost pre_map = self.received_blocks@;
            match self.received_blocks.remove(&next_round) {
                Some(block) => {
                    proof {
                        assert(pre_map.contains_key(next_round));
                        assert(m0.contains_key(next_round));
                        assert(block == m0[next_round]);
                    }
                    let ghost before = ready@;
                    let ghost cur0 = self.current_round;
                    ready.push(block);
                    self.current_round = next_round;
                    proof {
                        assert(self.received_blocks@ =~= m0.remove_keys(
                            Set::new(|k: Round| c0 < k <= c0 + ready@.len()),
                        ));
                        assert(round_after(c0, before.len() as int) == next_round);
                        assert forall|i: int| 0 <= i < ready@.len() implies #[trigger] ready@[i] == m0[round_after(c0, i)] by {
                            if i < before.len() {
                                assert(ready@[i] == before[i]);
                            }
                        }
                        assert forall|i: int| 0 <= i < ready@.len() implies #[trigger] m0.contains_key(round_after(c0, i)) by {
                            if i < before.len() {
                                assert(m0.contains_key(round_after(c0, i)));
                            }
                        }
                    }
                    if next_round == u64::MAX {
                        break;
                    }
                    next_round = next_round + 1;
                },
                None => {
                    proof {
                        assert(!m0.contains_key(next_round));
                    }
                    break;
                },
            }
        }
        proof {
            assert forall|i: int| 0 <= i < ready@.len() implies #[trigger] ready@[i].spec_round() == c0 + 1 + i by {
                assert(ready@[i] == m0[round_after(c0, i)]);
                assert(m0.contains_key(round_after(c0, i)));
            }
            assert(consecutive_from(m0, c0, ready@));
        }
        ready
    }

    /// Raises the highest round known from peers to `round`.
    pub fn update_highest_known_round(&mut self, round: Round)
        ensures
            final(self).spec_highest_known_round() == Some(match old(self).spec_highest_known_round() {
                Some(c) => if c >= round {
                    c
                } else {
                    round
                },
                None => round,
            }),
            final(self).spec_status() == old(self).spec_status(),
            final(self).spec_received() == old(self).spec_received(),
            final(self).spec_current_round() == old(self).spec_current_round(),
            final(self).spec_pending_requests() == old(self).spec_pending_requests(),
            final(self).spec_sync_epoch() == old(self).spec_sync_epoch(),
    {
        if let Some(current) = self.highest_known_round {
            self.highest_known_round = Some(if current >= round {
                current
            } else {
                round
            });
        } else {
            self.highest_known_round = Some(round);
        }
    }

    /// Whether a sync is needed: a peer knows a later round and no sync is in
    /// progress.
    pub fn needs_sync(&self) -> (b: bool)
        ensures
            b == (self.spec_highest_known_round() matches Some(h) && h > self.spec_current_round()
                && !(self.spec_status() is InProgress)),
    {
        if let Some(highest) = self.highest_known_round {
            highest > self.current_round && !self.status.is_in_progress()
        } else {
            false
        }
    }

    /// Cancels the sync: idle, with no requests and no received blocks.
    pub fn cancel(&mut self)
        ensures
            final(self).wf(),
            final(self).spec_status() == SyncStatus::Idle,
            final(self).spec_pending_requests() == Seq::<SyncRequest>::empty(),
            final(self).spec_received() == Map::<Round, Arc<MockBlock>>::empty(),
            final(self).spec_current_round() == old(self).spec_current_round(),
            final(self).spec_highest_known_round() == old(self).spec_highest_known_round(),
    {
        self.status = SyncStatus::Idle;
        self.pending_requests.clear();
        self.received_blocks.clear();
    }

    /// Resets: like `cancel`, and the highest known round is forgotten.
    pub fn reset(&mut self)
        ensures
            final(self).wf(),
            final(self).spec_status() == SyncStatus::Idle,
            final(self).spec_pending_requests() == Seq::<SyncRequest>::empty(),
            final(self).spec_received() == Map::<Round, Arc<MockBlock>>::empty(),
            final(self).spec_highest_known_round() is None,
            final(self).spec_current_round() == old(self).spec_current_round(),
    {
        self.status = SyncStatus::Idle;
        self.pending_requests.clear();
        self.received_blocks.clear();
        self.highest_known_round = None;
    }

    /// The number of received blocks not yet handed out.
    pub fn pending_block_count(&self) -> (n: usize)
        ensures
            n == self.spec_received().dom().len(),
    {
        self.received_blocks.len()
    }

    /// Whether the block of `round` was received and not yet handed out.
    pub fn has_block(&self, round: Round) -> (b: bool)
        ensures
            b == self.spec_received().contains_key(round),
    {
        self.received_blocks.contains_key(&round)
    }

    /// The received block of `round`, if any.
    pub fn get_block(&self, round: Round) -> (r: Option<Arc<MockBlock>>)
        ensures
            r is Some == self.spec_received().contains_key(round),
            r matches Some(b) ==> b == self.spec_received()[round],
    {
        match self.received_blocks.get(&round) {
            Some(b) => Some(b.clone()),
            None => None,
        }
    }
}

/// The round `i + 1` rounds after `from`.
pub open spec fn round_after(from: Round, i: int) -> Round {
    (from + 1 + i) as u64
}

/// The highest key of `m`.
pub open spec fn highest_key(m: Map<Round, Arc<MockBlock>>) -> Round {
    choose|h: Round| is_highest_key(m, h)
}

proof fn lemma_highest_key(m: Map<Round, Arc<MockBlock>>, h: Round)
    requires
        is_highest_key(m, h),
    ensures
        highest_key(m) == h,
{
    let c = highest_key(m);
    assert(is_highest_key(m, c));
    assert(c <= h && h <= c);
}

} // verus!
