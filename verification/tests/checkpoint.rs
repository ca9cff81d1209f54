use quant_engine::engine::checkpoint::{
    checkpoint_lines, result_line_text, CheckpointLogger, CompositeCheckpointLogger,
    ConsoleCheckpointLogger, Stage, StageResult, TracingCheckpointLogger,
};

#[test]
fn test_stage_result_pass() {
    let result = StageResult::pass(Stage::Indicator, "EMA12=100");
    assert!(result.passed);
    assert_eq!(result.details, "EMA12=100");
    assert!(result.blocked_reason.is_none());
}

#[test]
fn test_stage_result_fail() {
    let result = StageResult::fail(Stage::Strategy, "TR_RATIO < 1");
    assert!(!result.passed);
    assert!(result.blocked_reason.is_some());
    assert_eq!(result.blocked_reason.unwrap(), "TR_RATIO < 1");
}

#[test]
fn test_console_logger() {
    let logger = ConsoleCheckpointLogger::new();
    logger.log_start(Stage::Indicator, "BTCUSDT");
    logger.log_pass(Stage::Indicator, "BTCUSDT", "EMA12=100 RSI=50");
    logger.log_blocked(Stage::Strategy, "BTCUSDT", "TR_RATIO < 1");
}

#[test]
fn test_composite_logger() {
    let logger = CompositeCheckpointLogger::new()
        .add(ConsoleCheckpointLogger::new())
        .add(TracingCheckpointLogger::new());

    logger.log_pass(Stage::Indicator, "BTCUSDT", "test");
}

#[test]
fn stage_names_are_fixed() {
    assert_eq!(Stage::Indicator.to_string(), "指标");
    assert_eq!(Stage::Strategy.debug_name(), "Strategy");
}

#[test]
fn checkpoint_lines_mark_blocked_stage() {
    let results = vec![
        StageResult::pass(Stage::Indicator, "EMA12=100"),
        StageResult::fail(Stage::Strategy, "TR_RATIO < 1"),
    ];
    let lines = checkpoint_lines(&results, Some(Stage::Strategy));
    assert!(lines.len() >= 2);
    let first = result_line_text(&results[0]);
    assert!(first.contains("EMA12=100"));
}
