use consensus_core::pipeline::{
    Pipeline, PipelineBuilder, PipelineConfig, PipelineResult, PipelineStats, Stage, StageResult,
};
use consensus_core::testing::{MockBlock, MockHash, MockVote};
use std::sync::Arc;

#[test]
fn test_stage_ordering() {
    assert_eq!(Stage::Receiving.next(), Some(Stage::Validation));
    assert_eq!(Stage::Validation.next(), Some(Stage::Processing));
    assert_eq!(Stage::Processing.next(), Some(Stage::Commit));
    assert_eq!(Stage::Commit.next(), None);
}

#[test]
fn test_stage_display() {
    assert_eq!(Stage::Validation.to_string(), "validation");
}

#[test]
fn test_stage_result() {
    assert!(StageResult::continue_to_next().should_continue());
    assert!(!StageResult::stop("test").should_continue());
    assert!(!StageResult::skip("test").should_continue());
}

#[test]
fn test_pipeline_config() {
    let config = PipelineConfig::default();
    assert_eq!(config.stage_timeout_ms, 5000);
    assert_eq!(config.max_concurrent, 10);
    assert!(config.validate_immediately);
}

#[test]
fn test_pipeline_stats() {
    let mut stats = PipelineStats::default();
    stats.stage_counts[0] = 10;
    stats.total_processed = 10;

    assert_eq!(stats.stage_counts[0], 10);
    assert_eq!(stats.total_processed, 10);
}

#[test]
fn test_pipeline() {
    let config = PipelineConfig::default();
    let mut pipeline = Pipeline::<MockBlock, MockVote>::new(config);

    let block = Arc::new(MockBlock::genesis());
    let result = pipeline.process_block(&block).unwrap();

    assert!(result.is_completed());

    assert_eq!(pipeline.stats().total_processed, 4); // 4 stages
    assert_eq!(pipeline.stats().stage_counts[0], 1); // Receiving
}

#[test]
fn test_pipeline_builder() {
    let pipeline = PipelineBuilder::new()
        .stage_timeout_ms(1000)
        .max_concurrent(5)
        .validate_immediately(false)
        .parallel_processing(true)
        .build::<MockBlock, MockVote>();

    assert_eq!(pipeline.config().stage_timeout_ms, 1000);
    assert_eq!(pipeline.config().max_concurrent, 5);
    assert!(!pipeline.config().validate_immediately);
    assert!(pipeline.config().parallel_processing);
}

#[test]
fn test_pipeline_reset() {
    let config = PipelineConfig::default();
    let mut pipeline = Pipeline::<MockBlock, MockVote>::new(config);

    pipeline.set_current_stage(Stage::Commit);
    pipeline.reset();

    assert_eq!(pipeline.current_stage(), Stage::Receiving);
}

#[test]
fn test_stage_name() {
    assert_eq!(Stage::Receiving.name(), "receiving");
    assert_eq!(Stage::Validation.name(), "validation");
    assert_eq!(Stage::Processing.name(), "processing");
    assert_eq!(Stage::Commit.name(), "commit");
}

#[test]
fn test_stage_result_constructors() {
    let _ = StageResult::continue_to_next();
    let _ = StageResult::stop("invalid block");
    let _ = StageResult::skip("duplicate");
}

#[test]
fn test_pipeline_config_stage_timeout() {
    let config = PipelineConfig::default();
    let duration = config.stage_timeout();
    assert_eq!(duration.as_millis(), 5000);
}

#[test]
fn test_pipeline_config_new() {
    let config =
        PipelineConfig { stage_timeout_ms: 2000, max_concurrent: 20, validate_immediately: false, parallel_processing: true };
    assert_eq!(config.stage_timeout_ms, 2000);
    assert_eq!(config.max_concurrent, 20);
    assert!(!config.validate_immediately);
    assert!(config.parallel_processing);
}

#[test]
fn test_pipeline_result_constructors() {
    let completed = PipelineResult::Completed;
    assert!(completed.is_completed());
    assert_eq!(completed.final_stage(), None);

    let stopped = PipelineResult::Stopped { stage: Stage::Validation, reason: "invalid".to_string() };
    assert!(!stopped.is_completed());
    assert_eq!(stopped.final_stage(), Some(Stage::Validation));

    let skipped = PipelineResult::Skipped { stage: Stage::Processing, reason: "old".to_string() };
    assert!(!skipped.is_completed());
    assert_eq!(skipped.final_stage(), Some(Stage::Processing));
}

#[test]
fn test_process_vote() {
    let config = PipelineConfig::default();
    let mut pipeline = Pipeline::<MockBlock, MockVote>::new(config);

    let vote = MockVote::new(MockHash(0), MockHash(0), 0);
    let result = pipeline.process_vote(&vote).unwrap();

    assert!(result.is_completed());
}

#[test]
fn test_process_qc() {
    let config = PipelineConfig::default();
    let mut pipeline = Pipeline::<MockBlock, MockVote>::new(config);

    let result = pipeline.process_qc().unwrap();
    assert!(result.is_completed());
}

#[test]
fn test_process_all_stages() {
    let config = PipelineConfig::default();
    let mut pipeline = Pipeline::<MockBlock, MockVote>::new(config);

    let block = Arc::new(MockBlock::genesis());
    let result = pipeline.process_block(&block).unwrap();

    assert!(result.is_completed());
    assert_eq!(pipeline.stats().stage_counts[0], 1); // Receiving
    assert_eq!(pipeline.stats().stage_counts[1], 1); // Validation
    assert_eq!(pipeline.stats().stage_counts[2], 1); // Processing
    assert_eq!(pipeline.stats().stage_counts[3], 1); // Commit
}

#[test]
fn test_pipeline_builder_default() {
    let builder = PipelineBuilder::default();
    let pipeline = builder.build::<MockBlock, MockVote>();

    assert_eq!(pipeline.config().stage_timeout_ms, 5000);
    assert_eq!(pipeline.config().max_concurrent, 10);
}

#[test]
fn test_pipeline_builder_all_methods() {
    let pipeline = PipelineBuilder::new()
        .stage_timeout_ms(2000)
        .max_concurrent(5)
        .validate_immediately(false)
        .parallel_processing(true)
        .build::<MockBlock, MockVote>();

    assert_eq!(pipeline.config().stage_timeout_ms, 2000);
    assert_eq!(pipeline.config().max_concurrent, 5);
    assert!(!pipeline.config().validate_immediately);
    assert!(pipeline.config().parallel_processing);
}

#[test]
fn test_pipeline_current_stage_accessor() {
    let config = PipelineConfig::default();
    let pipeline = Pipeline::<MockBlock, MockVote>::new(config);

    assert_eq!(pipeline.current_stage(), Stage::Receiving);
}

#[test]
fn test_pipeline_stats_accessor() {
    let config = PipelineConfig::default();
    let pipeline = Pipeline::<MockBlock, MockVote>::new(config);

    let stats = pipeline.stats();
    assert_eq!(stats.total_processed, 0);
    assert_eq!(stats.failed, 0);
    assert_eq!(stats.skipped, 0);
}

#[test]
fn processing_a_block_twice_accumulates_the_counts() {
    let mut pipeline = Pipeline::<MockBlock, MockVote>::new(PipelineConfig::default());
    let block = Arc::new(MockBlock::genesis());
    pipeline.process_block(&block).unwrap();
    pipeline.process_block(&block).unwrap();
    assert_eq!(pipeline.stats().total_processed, 8);
    assert_eq!(pipeline.stats().stage_counts[3], 2);
    assert_eq!(pipeline.current_stage(), Stage::Receiving);
}
