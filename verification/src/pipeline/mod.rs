//! The processing pipeline: the stages a block or vote passes through, with
//! per-stage statistics.
use vstd::prelude::*;

use std::marker::PhantomData;
use std::sync::Arc;
use std::time::Duration;

use crate::error::Error;

verus! {

/// Pipeline stage identifier.
#[derive(Clone, Copy, Debug, PartialEq, Eq, Structural, PartialOrd, Ord, Hash)]
pub enum Stage {
    /// Receiving stage - accepting incoming messages
    Receiving,
    /// Validation stage - checking message validity
    Validation,
    /// Processing stage - executing consensus logic
    Processing,
    /// Commit stage - committing blocks to chain
    Commit,
}

/// The position of a stage in the pipeline, from 0.
pub open spec fn stage_index(s: Stage) -> int {
    match s {
        Stage::Receiving => 0,
        Stage::Validation => 1,
        Stage::Processing => 2,
        Stage::Commit => 3,
    }
}

/// The name of a stage.
pub open spec fn stage_name(s: Stage) -> Seq<char> {
    match s {
        Stage::Receiving => "receiving"@,
        Stage::Validation => "validation"@,
        Stage::Processing => "processing"@,
        Stage::Commit => "commit"@,
    }
}

impl Stage {
    /// The stage after this one, if any.
    pub fn next(&self) -> (r: Option<Stage>)
        ensures
            match r {
                Some(n) => stage_index(n) == stage_index(*self) + 1,
                None => *self == Stage::Commit,
            },
    {
        match self {
            Stage::Receiving => Some(Stage::Validation),
            Stage::Validation => Some(Stage::Processing),
            Stage::Processing => Some(Stage::Commit),
            Stage::Commit => None,
        }
    }

    /// The stage's name, such as `receiving`.
    pub fn name(&self) -> (s: &str)
        ensures
            s@ == stage_name(*self),
    {
        match self {
            Stage::Receiving => "receiving",
            Stage::Validation => "validation",
            Stage::Processing => "processing",
            Stage::Commit => "commit",
        }
    }

    /// The stage's name, such as `receiving`.
    pub fn to_string(&self) -> (s: String)
        ensures
            s@ == stage_name(*self),
    {
        String::from_str(self.name())
    }

    fn index(&self) -> (i: usize)
        ensures
            i == stage_index(*self),
    {
        match self {
            Stage::Receiving => 0,
            Stage::Validation => 1,
            Stage::Processing => 2,
            Stage::Commit => 3,
        }
    }
}

/// The duration of `ms` milliseconds, as `std::time::Duration::from_millis`
/// makes it.
pub uninterp spec fn millis_duration(ms: u64) -> Duration;

/// A duration of `ms` milliseconds. Calls `std::time::Duration::from_millis`,
/// whose result depends on `ms` alone: the contract names that result
/// `millis_duration(ms)` and claims nothing more, as `Duration` is opaque here.
#[verifier::external_body]
pub(crate) fn duration_from_millis(ms: u64) -> (d: Duration)
    ensures
        d == millis_duration(ms),
{
    Duration::from_millis(ms)
}

/// Configuration for the consensus pipeline.
#[derive(Clone, Copy, Debug)]
pub struct PipelineConfig {
    /// Timeout for each stage
    pub stage_timeout_ms: u64,
    /// Maximum number of concurrent processing operations
    pub max_concurrent: usize,
    /// Whether to validate messages immediately
    pub validate_immediately: bool,
    /// Whether to process messages in parallel
    pub parallel_processing: bool,
}

impl Default for PipelineConfig {
    fn default() -> (c: Self)
        ensures
            c.stage_timeout_ms == 5000,
            c.max_concurrent == 10,
            c.validate_immediately,
            !c.parallel_processing,
    {
        PipelineConfig {
            stage_timeout_ms: 5000,
            max_concurrent: 10,
            validate_immediately: true,
            parallel_processing: false,
        }
    }
}

impl PipelineConfig {
    /// The stage timeout as a duration.
    pub fn stage_timeout(&self) -> (d: Duration)
        ensures
            d == millis_duration(self.stage_timeout_ms),
    {
        duration_from_millis(self.stage_timeout_ms)
    }
}

/// Result of processing a message through a stage.
#[derive(Clone, Debug)]
pub enum StageResult {
    /// Message should continue to the next stage
    Continue,
    /// Message should be stopped here
    Stop {
        /// Reason for stopping
        reason: String,
    },
    /// Message should be skipped
    Skip {
        /// Reason for skipping
        reason: String,
    },
}

impl StageResult {
    /// A result that continues to the next stage.
    pub fn continue_to_next() -> (r: Self)
        ensures
            r is Continue,
    {
        StageResult::Continue
    }

    /// A result that stops processing, for `reason`.
    pub fn stop(reason: &str) -> (r: Self)
        ensures
            r matches StageResult::Stop { reason: s } && s@ == reason@,
    {
        StageResult::Stop { reason: String::from_str(reason) }
    }

    /// A result that skips the message, for `reason`.
    pub fn skip(reason: &str) -> (r: Self)
        ensures
            r matches StageResult::Skip { reason: s } && s@ == reason@,
    {
        StageResult::Skip { reason: String::from_str(reason) }
    }

    /// Whether processing continues.
    pub fn should_continue(&self) -> (b: bool)
        ensures
            b == self is Continue,
    {
        match self {
            StageResult::Continue => true,
            _ => false,
        }
    }
}

/// Statistics for pipeline processing.
#[derive(Clone, Copy, Debug)]
pub struct PipelineStats {
    /// Messages processed at each stage
    pub stage_counts: [u64; 4],
    /// Total messages processed
    pub total_processed: u64,
    /// Messages that failed
    pub failed: u64,
    /// Messages that were skipped
    pub skipped: u64,
}

impl Default for PipelineStats {
    fn default() -> (s: Self)
        ensures
            s.stage_counts@ == seq![0u64, 0u64, 0u64, 0u64],
            s.total_processed == 0,
            s.failed == 0,
            s.skipped == 0,
    {
        let s = PipelineStats { stage_counts: [0, 0, 0, 0], total_processed: 0, failed: 0, skipped: 0 };
        assert(s.stage_counts@ =~= seq![0u64, 0u64, 0u64, 0u64]);
        s
    }
}

/// Whether every stage count and the total can take `n` more messages.
pub open spec fn stats_room(s: PipelineStats, n: int) -> bool {
    &&& forall|j: int| 0 <= j < 4 ==> s.stage_counts@[j] + n <= u64::MAX
    &&& s.total_processed + 4 * n <= u64::MAX
}

fn bump(counts: [u64; 4], i: usize) -> (r: [u64; 4])
    requires
        i < 4,
        counts@[i as int] < u64::MAX,
    ensures
        r@ == counts@.update(i as int, (counts@[i as int] + 1) as u64),
{
    let r = [
        if i == 0 { counts[0] + 1 } else { counts[0] },
        if i == 1 { counts[1] + 1 } else { counts[1] },
        if i == 2 { counts[2] + 1 } else { counts[2] },
        if i == 3 { counts[3] + 1 } else { counts[3] },
    ];
    assert(r@ =~= counts@.update(i as int, (counts@[i as int] + 1) as u64));
    r
}

/// The processing pipeline: blocks pass through every stage in order.
pub struct Pipeline<B, V> {
    config: PipelineConfig,
    current_stage: Stage,
    stats: PipelineStats,
    _phantom: PhantomData<(B, V)>,
}

impl<B, V> Pipeline<B, V> {
    /// The configuration.
    pub closed spec fn spec_config(&self) -> PipelineConfig {
        self.config
    }

    /// The current stage.
    pub closed spec fn spec_current_stage(&self) -> Stage {
        self.current_stage
    }

    /// The statistics.
    pub closed spec fn spec_stats(&self) -> PipelineStats {
        self.stats
    }

    /// A pipeline at the receiving stage with zero statistics.
    pub fn new(config: PipelineConfig) -> (p: Self)
        ensures
            p.spec_config() == config,
            p.spec_current_stage() == Stage::Receiving,
            p.spec_stats().stage_counts@ == seq![0u64, 0u64, 0u64, 0u64],
            p.spec_stats().total_processed == 0,
            p.spec_stats().failed == 0,
            p.spec_stats().skipped == 0,
    {
        Pipeline { config, current_stage: Stage::Receiving, stats: PipelineStats::default(), _phantom: PhantomData }
    }

    /// The current stage.
    pub fn current_stage(&self) -> (s: Stage)
        ensures
            s == self.spec_current_stage(),
    {
        self.current_stage
    }

    /// The statistics.
    pub fn stats(&self) -> (s: &PipelineStats)
        ensures
            *s == self.spec_stats(),
    {
        &self.stats
    }

    /// The configuration.
    pub fn config(&self) -> (c: &PipelineConfig)
        ensures
            *c == self.spec_config(),
    {
        &self.config
    }

    /// Sets the current stage (the pipeline is driven stage by stage).
    pub fn set_current_stage(&mut self, stage: Stage)
        ensures
            final(self).spec_current_stage() == stage,
            final(self).spec_stats() == old(self).spec_stats(),
            final(self).spec_config() == old(self).spec_config(),
    {
        self.current_stage = stage;
    }

    /// Moves back to the receiving stage.
    pub fn reset(&mut self)
        ensures
            final(self).spec_current_stage() == Stage::Receiving,
            final(self).spec_stats() == old(self).spec_stats(),
            final(self).spec_config() == old(self).spec_config(),
    {
        self.current_stage = Stage::Receiving;
    }

    /// Runs a block through every stage. Every stage lets it continue, so it
    /// completes, and each stage's count and the total grow accordingly.
    pub fn process_block(&mut self, block: &Arc<B>) -> (r: Result<PipelineResult, Error>)
        requires
            stats_room(old(self).spec_stats(), 1),
        ensures
            r matches Ok(PipelineResult::Completed),
            final(self).spec_stats().stage_counts@ == old(self).spec_stats().stage_counts@.map_values(
                |c: u64| (c + 1) as u64,
            ),
            final(self).spec_stats().total_processed == old(self).spec_stats().total_processed + 4,
            final(self).spec_stats().failed == old(self).spec_stats().failed,
            final(self).spec_stats().skipped == old(self).spec_stats().skipped,
            final(self).spec_current_stage() == old(self).spec_current_stage(),
            final(self).spec_config() == old(self).spec_config(),
    {
        let ghost s0 = self.stats;
        let mut current_stage = Stage::Receiving;
        loop
            invariant_except_break
                stats_room(s0, 1),
                self.spec_current_stage() == old(self).spec_current_stage(),
                self.spec_config() == old(self).spec_config(),
                self.stats.failed == s0.failed,
                self.stats.skipped == s0.skipped,
                self.stats.total_processed == s0.total_processed + stage_index(current_stage),
                self.stats.stage_counts@.len() == 4,
                forall|j: int|
                    0 <= j < 4 ==> #[trigger] self.stats.stage_counts@[j] == s0.stage_counts@[j] + (if j
                        < stage_index(current_stage) {
                        1int
                    } else {
                        0int
                    }),
            ensures
                self.spec_current_stage() == old(self).spec_current_stage(),
                self.spec_config() == old(self).spec_config(),
                self.stats.failed == s0.failed,
                self.stats.skipped == s0.skipped,
                self.stats.total_processed == s0.total_processed + 4,
                self.stats.stage_counts@ == s0.stage_counts@.map_values(|c: u64| (c + 1) as u64),
            decreases 4 - stage_index(current_stage),
        {
            let i = current_stage.index();
            self.stats.stage_counts = bump(self.stats.stage_counts, i);
            self.stats.total_processed = self.stats.total_processed + 1;
            let result = match self.process_at_stage(current_stage, block) {
                Ok(res) => res,
                Err(e) => {
                    proof {
                        assert(false);
                    }
                    return Err(e);
                },
            };
            match result {
                StageResult::Continue => {
                    match current_stage.next() {
                        Some(next) => {
                            current_stage = next;
                        },
                        None => {
                            proof {
                                assert(self.stats.stage_counts@ =~= s0.stage_counts@.map_values(
                                    |c: u64| (c + 1) as u64,
                                ));
                            }
                            break;
                        },
                    }
                },
                StageResult::Stop { reason } => {
                    proof {
                        assert(false);
                    }
                    self.stats.failed = self.stats.failed + 1;
                    return Ok(PipelineResult::Stopped { stage: current_stage, reason });
                },
                StageResult::Skip { reason } => {
                    proof {
                        assert(false);
                    }
                    self.stats.skipped = self.stats.skipped + 1;
                    return Ok(PipelineResult::Skipped { stage: current_stage, reason });
                },
            }
        }
        Ok(PipelineResult::Completed)
    }

    /// Runs a vote through the processing stage: it is counted at the
    /// receiving stage and completes.
    pub fn process_vote(&mut self, vote: &V) -> (r: Result<PipelineResult, Error>)
        requires
            old(self).spec_stats().stage_counts@[0] < u64::MAX,
            old(self).spec_stats().total_processed < u64::MAX,
        ensures
            r matches Ok(PipelineResult::Completed),
            final(self).spec_stats().stage_counts@ == old(self).spec_stats().stage_counts@.update(
                0,
                (old(self).spec_stats().stage_counts@[0] + 1) as u64,
            ),
            final(self).spec_stats().total_processed == old(self).spec_stats().total_processed + 1,
            final(self).spec_stats().failed == old(self).spec_stats().failed,
            final(self).spec_stats().skipped == old(self).spec_stats().skipped,
            final(self).spec_current_stage() == old(self).spec_current_stage(),
            final(self).spec_config() == old(self).spec_config(),
    {
        self.stats.stage_counts = bump(self.stats.stage_counts, Stage::Receiving.index());
        self.stats.total_processed = self.stats.total_processed + 1;
        let result = match self.process_vote_at_stage(vote) {
            Ok(res) => res,
            Err(e) => {
                return Err(e);
            },
        };
        match result {
            StageResult::Continue => Ok(PipelineResult::Completed),
            StageResult::Stop { reason } => Ok(PipelineResult::Stopped { stage: Stage::Processing, reason }),
            StageResult::Skip { reason } => Ok(PipelineResult::Skipped { stage: Stage::Processing, reason }),
        }
    }

    fn process_at_stage(&self, stage: Stage, block: &Arc<B>) -> (r: Result<StageResult, Error>)
        ensures
            r matches Ok(StageResult::Continue),
    {
        match stage {
            Stage::Receiving => Ok(StageResult::continue_to_next()),
            Stage::Validation => Ok(StageResult::continue_to_next()),
            Stage::Processing => Ok(StageResult::continue_to_next()),
            Stage::Commit => Ok(StageResult::continue_to_next()),
        }
    }

    fn process_vote_at_stage(&self, vote: &V) -> (r: Result<StageResult, Error>)
        ensures
            r matches Ok(StageResult::Continue),
    {
        Ok(StageResult::continue_to_next())
    }

    /// Processes a quorum certificate: it completes at once.
    pub fn process_qc(&mut self) -> (r: Result<PipelineResult, Error>)
        ensures
            r matches Ok(PipelineResult::Completed),
            *final(self) == *old(self),
    {
        Ok(PipelineResult::Completed)
    }
}

/// Result of pipeline processing.
#[derive(Clone, Debug)]
pub enum PipelineResult {
    /// Processing completed successfully
    Completed,
    /// Processing was stopped at a stage
    Stopped {
        /// Stage where processing stopped
        stage: Stage,
        /// Reason for stopping
        reason: String,
    },
    /// Processing was skipped at a stage
    Skipped {
        /// Stage where processing was skipped
        stage: Stage,
        /// Reason for skipping
        reason: String,
    },
}

impl PipelineResult {
    /// Whether processing completed.
    pub fn is_completed(&self) -> (b: bool)
        ensures
            b == self is Completed,
    {
        match self {
            PipelineResult::Completed => true,
            _ => false,
        }
    }

    /// The stage where processing ended early, if it did.
    pub fn final_stage(&self) -> (r: Option<Stage>)
        ensures
            r == match *self {
                PipelineResult::Completed => None,
                PipelineResult::Stopped { stage, .. } => Some(stage),
                PipelineResult::Skipped { stage, .. } => Some(stage),
            },
    {
        match self {
            PipelineResult::Completed => None,
            PipelineResult::Stopped { stage, .. } => Some(*stage),
            PipelineResult::Skipped { stage, .. } => Some(*stage),
        }
    }
}

/// Builder for a pipeline.
pub struct PipelineBuilder {
    config: PipelineConfig,
}

impl Default for PipelineBuilder {
    fn default() -> (b: Self)
        ensures
            b.spec_config().stage_timeout_ms == 5000,
            b.spec_config().max_concurrent == 10,
            b.spec_config().validate_immediately,
            !b.spec_config().parallel_processing,
    {
        Self::new()
    }
}

impl PipelineBuilder {
    /// The configuration being built.
    pub closed spec fn spec_config(&self) -> PipelineConfig {
        self.config
    }

    /// A builder starting from the default configuration.
    pub fn new() -> (b: Self)
        ensures
            b.spec_config().stage_timeout_ms == 5000,
            b.spec_config().max_concurrent == 10,
            b.spec_config().validate_immediately,
            !b.spec_config().parallel_processing,
    {
        PipelineBuilder { config: PipelineConfig::default() }
    }

    /// Sets the stage timeout.
    pub fn stage_timeout_ms(self, timeout: u64) -> (b: Self)
        ensures
            b.spec_config() == (PipelineConfig { stage_timeout_ms: timeout, ..self.spec_config() }),
    {
        let mut b = self;
        b.config.stage_timeout_ms = timeout;
        b
    }

    /// Sets the maximum number of concurrent operations.
    pub fn max_concurrent(self, max: usize) -> (b: Self)
        ensures
            b.spec_config() == (PipelineConfig { max_concurrent: max, ..self.spec_config() }),
    {
        let mut b = self;
        b.config.max_concurrent = max;
        b
    }

    /// Enables or disables immediate validation.
    pub fn validate_immediately(self, validate: bool) -> (b: Self)
        ensures
            b.spec_config() == (PipelineConfig { validate_immediately: validate, ..self.spec_config() }),
    {
        let mut b = self;
        b.config.validate_immediately = validate;
        b
    }

    /// Enables or disables parallel processing.
    pub fn parallel_processing(self, parallel: bool) -> (b: Self)
        ensures
            b.spec_config() == (PipelineConfig { parallel_processing: parallel, ..self.spec_config() }),
    {
        let mut b = self;
        b.config.parallel_processing = parallel;
        b
    }

    /// Builds the pipeline.
    pub fn build<B, V>(self) -> (p: Pipeline<B, V>)
        ensures
            p.spec_config() == self.spec_config(),
            p.spec_current_stage() == Stage::Receiving,
            p.spec_stats().stage_counts@ == seq![0u64, 0u64, 0u64, 0u64],
            p.spec_stats().total_processed == 0,
    {
        Pipeline::new(self.config)
    }
}

} // verus!
