use std::time::Duration;

use v8_runner::config::model::{
    AppConfig, BuildConfig, BuilderBackend, CredentialsConfig, McpConfig, McpExecutionConfig, McpHttpConfig,
    PlatformToolConfig, SourceFormat, SourceSetConfig, SourceSetPurpose, TestsConfig, ToolsConfig,
};
use v8_runner::mcp::error::{McpBusinessError, McpBusinessFailure};
use v8_runner::mcp::server::{max_concurrent_calls, shutdown_grace_period, shutdown_grace_period_secs, McpServerError};
use v8_runner::mcp::telemetry::{
    duration_millis, edt_drain_reason_name, edt_queue_depth_action_name, edt_queue_depth_reason_name,
    edt_restart_reason_name, saturating_millis, transport_name, EdtDrainReason, EdtQueueDepthAction,
    EdtQueueDepthReason, EdtRestartReason, EdtTelemetry, ExecutionTelemetry, McpTelemetry, SemaphoreWaitErrorKind,
    SemaphoreWaitOutcome,
};
use v8_runner::mcp::tool_result::{McpToolResult, McpToolStatus};
use v8_runner::use_cases::context::ExecutionTransport;

fn test_config(max_concurrent_calls: usize, shutdown_grace_period_secs: u64) -> AppConfig {
    AppConfig {
        base_path: "/tmp/project".to_owned(),
        work_path: "/tmp/work".to_owned(),
        format: SourceFormat::Designer,
        builder: BuilderBackend::Designer,
        connection: "File=/tmp/ib".to_owned(),
        credentials: CredentialsConfig::default(),
        source_sets: vec![SourceSetConfig {
            name: "main".to_owned(),
            purpose: SourceSetPurpose::Configuration,
            path: ".".to_owned(),
        }],
        build: BuildConfig::default(),
        tools: ToolsConfig { platform: PlatformToolConfig::default(), edt_cli: Default::default() },
        mcp: McpConfig {
            http: McpHttpConfig::default(),
            execution: McpExecutionConfig { max_concurrent_calls, shutdown_grace_period_secs },
        },
        tests: TestsConfig::default(),
    }
}

#[test]
fn shutdown_grace_period_uses_configured_value() {
    let config = test_config(3, 42);

    assert_eq!(max_concurrent_calls(&config), 3);
    assert_eq!(shutdown_grace_period(&config), Duration::from_secs(42));
}

#[test]
fn execution_limits_are_at_least_one() {
    let config = test_config(0, 0);

    assert_eq!(max_concurrent_calls(&config), 1);
    assert_eq!(shutdown_grace_period_secs(&config), 1);
    assert_eq!(shutdown_grace_period(&config), Duration::from_secs(1));
}

#[test]
fn execution_telemetry_counts_all_outcomes() {
    let mut telemetry = ExecutionTelemetry::default();

    telemetry.record_semaphore_wait(
        ExecutionTransport::McpHttp,
        "run_all_tests",
        SemaphoreWaitOutcome::Acquired,
        false,
        None,
        Duration::from_millis(3),
        None,
    );
    telemetry.record_semaphore_wait(
        ExecutionTransport::McpHttp,
        "run_all_tests",
        SemaphoreWaitOutcome::Cancelled,
        true,
        Some(Duration::from_millis(10)),
        Duration::from_millis(4),
        None,
    );
    telemetry.record_semaphore_wait(
        ExecutionTransport::McpHttp,
        "check_syntax_edt",
        SemaphoreWaitOutcome::Timeout,
        true,
        Some(Duration::from_millis(10)),
        Duration::from_millis(5),
        None,
    );
    telemetry.record_semaphore_wait(
        ExecutionTransport::McpHttp,
        "check_syntax_edt",
        SemaphoreWaitOutcome::InternalError,
        true,
        Some(Duration::from_millis(10)),
        Duration::from_millis(1),
        Some(SemaphoreWaitErrorKind::SemaphoreClosed),
    );

    let snapshot = telemetry.snapshot();
    assert_eq!(snapshot.acquired_total, 1);
    assert_eq!(snapshot.cancelled_total, 1);
    assert_eq!(snapshot.timeout_total, 1);
    assert_eq!(snapshot.internal_error_total, 1);
}

#[test]
fn semaphore_wait_event_carries_log_fields() {
    let mut telemetry = ExecutionTelemetry::default();

    let event = telemetry.record_semaphore_wait(
        ExecutionTransport::McpStdio,
        "build_project",
        SemaphoreWaitOutcome::InternalError,
        true,
        Some(Duration::from_millis(1500)),
        Duration::from_micros(2999),
        Some(SemaphoreWaitErrorKind::SemaphoreClosed),
    );

    assert_eq!(event.transport, "mcp_stdio");
    assert_eq!(event.tool, "build_project");
    assert_eq!(event.outcome, "internal_error");
    assert!(event.bounded);
    assert_eq!(event.timeout_ms, Some(1500));
    assert_eq!(event.wait_ms, 2);
    assert_eq!(event.error_kind, Some("semaphore_closed"));
}

#[test]
fn edt_telemetry_keeps_monotonic_max_depth_and_separate_totals() {
    let mut telemetry = EdtTelemetry::default();

    telemetry.record_queue_depth(EdtQueueDepthAction::Enqueue, 2, Some(EdtQueueDepthReason::QueuedCancelled));
    telemetry.record_queue_depth(EdtQueueDepthAction::Dequeue, 1, None);
    telemetry.record_queue_depth(EdtQueueDepthAction::RemoveQueued, 0, Some(EdtQueueDepthReason::QueuedTimeout));
    telemetry.record_startup_failure();
    telemetry.record_restart(EdtRestartReason::BaselineFailure);
    telemetry.record_restart(EdtRestartReason::CommandTimeout);
    telemetry.record_restart(EdtRestartReason::SessionFailure);
    telemetry.record_drain(EdtDrainReason::Restart, 3);
    telemetry.record_drain(EdtDrainReason::Shutdown, 1);

    let snapshot = telemetry.snapshot();
    assert_eq!(snapshot.queue_depth, 0);
    assert_eq!(snapshot.max_queue_depth, 2);
    assert_eq!(snapshot.startup_failure_total, 1);
    assert_eq!(snapshot.restart_total, 3);
    assert_eq!(snapshot.drain_restart_total, 1);
    assert_eq!(snapshot.drain_shutdown_total, 1);
    assert_eq!(snapshot.last_drained_jobs, 1);
}

#[test]
fn edt_events_report_running_totals() {
    let mut telemetry = McpTelemetry::default();

    assert_eq!(telemetry.edt.record_startup_failure(), 1);
    assert_eq!(telemetry.edt.record_startup_failure(), 2);
    let restart = telemetry.edt.record_restart(EdtRestartReason::CommandTimeout);
    assert_eq!(restart.restart_count, 1);
    assert_eq!(restart.reason, "command_timeout");
    let drain = telemetry.edt.record_drain(EdtDrainReason::Shutdown, 4);
    assert_eq!((drain.reason, drain.drained_jobs, drain.drain_restart_total, drain.drain_shutdown_total), ("shutdown", 4, 0, 1));
    let depth = telemetry.edt.record_queue_depth(EdtQueueDepthAction::Drain, 0, Some(EdtQueueDepthReason::Shutdown));
    assert_eq!((depth.action, depth.queue_depth, depth.reason), ("drain", 0, Some("shutdown")));
    assert_eq!(telemetry.execution.snapshot().acquired_total, 0);
}

#[test]
fn log_names_are_stable() {
    assert_eq!(transport_name(ExecutionTransport::Cli), "cli");
    assert_eq!(transport_name(ExecutionTransport::McpHttp), "mcp_http");
    assert_eq!(edt_queue_depth_action_name(EdtQueueDepthAction::RemoveQueued), "remove_queued");
    assert_eq!(edt_queue_depth_reason_name(EdtQueueDepthReason::QueuedTimeout), "queued_timeout");
    assert_eq!(edt_restart_reason_name(EdtRestartReason::BaselineFailure), "baseline_failure");
    assert_eq!(edt_drain_reason_name(EdtDrainReason::Restart), "restart");
    assert_eq!(SemaphoreWaitOutcome::Cancelled.as_str(), "cancelled");
    assert_eq!(SemaphoreWaitErrorKind::SemaphoreClosed.as_str(), "semaphore_closed");
}

#[test]
fn durations_are_reported_in_whole_milliseconds() {
    assert_eq!(duration_millis(Duration::from_millis(42)), 42);
    assert_eq!(duration_millis(Duration::from_secs(3)), 3000);
    assert_eq!(saturating_millis(u128::from(u64::MAX) + 5), u64::MAX);
    assert_eq!(saturating_millis(7), 7);
}

#[test]
fn tool_results_are_shaped_by_outcome() {
    let ok = McpToolResult::success("done".to_owned());
    assert_eq!(ok.status, McpToolStatus::Success);
    assert_eq!(ok.result.as_deref(), Some("done"));
    assert!(ok.error.is_none() && ok.response.is_none());

    let failed = McpToolResult::business_failure(McpBusinessFailure {
        error: McpBusinessError { code: "invalid_argument".to_owned(), message: "bad".to_owned() },
        response: "partial".to_owned(),
    });
    assert_eq!(failed.status, McpToolStatus::BusinessFailure);
    assert!(failed.result.is_none());
    assert_eq!(failed.error.expect("error").code, "invalid_argument");
    assert_eq!(failed.response.as_deref(), Some("partial"));
}

#[test]
fn server_errors_render_their_cause() {
    assert_eq!(McpServerError::Start("boom".to_owned()).message(), "failed to start MCP stdio server: boom");
    assert_eq!(McpServerError::Task("x".to_owned()).message(), "MCP stdio server task failed: x");
    assert_eq!(
        McpServerError::BuildRuntime("io".to_owned()).message(),
        "failed to build tokio runtime for MCP stdio: io"
    );
}
