//! Counters kept by the MCP server about its execution slots and the shared
//! EDT session, and the log records each update produces.
//!
//! Every `record_*` method updates the counters and returns the record the
//! caller writes to the log.

use vstd::prelude::*;
use std::time::Duration;
use crate::use_cases::context::ExecutionTransport;

verus! {

/// A counter that wraps to zero past its largest value.
pub open spec fn next_count(x: u64) -> u64 {
    if x == u64::MAX { 0 } else { (x + 1) as u64 }
}

fn bump(x: u64) -> (r: u64)
    ensures
        r == next_count(x),
{
    if x == u64::MAX { 0 } else { x + 1 }
}

/// The whole number of milliseconds in a duration.
pub uninterp spec fn millis_of(d: Duration) -> u128;

/// The duration of a whole number of seconds.
pub uninterp spec fn duration_of_secs(secs: u64) -> Duration;

/// Calls `Duration::as_millis`, which returns the total number of whole
/// milliseconds in the duration.
#[verifier::external_body]
fn duration_as_millis(d: Duration) -> (m: u128)
    ensures
        m == millis_of(d),
{
    d.as_millis()
}

/// Calls `Duration::from_secs`: a duration of `secs` seconds, which holds
/// `secs * 1000` whole milliseconds.
#[verifier::external_body]
pub(crate) fn duration_from_secs(secs: u64) -> (d: Duration)
    ensures
        d == duration_of_secs(secs),
        millis_of(d) == secs * 1000,
{
    Duration::from_secs(secs)
}

/// A millisecond count clamped to the range of `u64`.
pub open spec fn clamp_millis(millis: u128) -> u64 {
    if millis > u64::MAX { u64::MAX } else { millis as u64 }
}

/// Clamps a millisecond count to the range of `u64`.
pub fn saturating_millis(millis: u128) -> (r: u64)
    ensures
        r == clamp_millis(millis),
{
    if millis > u64::MAX as u128 { u64::MAX } else { millis as u64 }
}

/// The milliseconds of a duration, clamped to the range of `u64`.
pub fn duration_millis(d: Duration) -> (r: u64)
    ensures
        r == clamp_millis(millis_of(d)),
{
    saturating_millis(duration_as_millis(d))
}

/// The stable log name of a transport.
pub open spec fn transport_label(t: ExecutionTransport) -> Seq<char> {
    match t {
        ExecutionTransport::Cli => "cli"@,
        ExecutionTransport::McpStdio => "mcp_stdio"@,
        ExecutionTransport::McpHttp => "mcp_http"@,
    }
}

/// Returns the stable log name of a transport.
pub fn transport_name(transport: ExecutionTransport) -> (s: &'static str)
    ensures
        s@ == transport_label(transport),
{
    match transport {
        ExecutionTransport::Cli => "cli",
        ExecutionTransport::McpStdio => "mcp_stdio",
        ExecutionTransport::McpHttp => "mcp_http",
    }
}

/// How a wait for an execution slot ended.
#[derive(Debug, Clone, Copy, PartialEq, Eq, Structural)]
pub enum SemaphoreWaitOutcome {
    Acquired,
    Cancelled,
    Timeout,
    InternalError,
}

/// The stable log name of a wait outcome.
pub open spec fn outcome_label(o: SemaphoreWaitOutcome) -> Seq<char> {
    match o {
        SemaphoreWaitOutcome::Acquired => "acquired"@,
        SemaphoreWaitOutcome::Cancelled => "cancelled"@,
        SemaphoreWaitOutcome::Timeout => "timeout"@,
        SemaphoreWaitOutcome::InternalError => "internal_error"@,
    }
}

impl SemaphoreWaitOutcome {
    /// Returns the stable log name of the outcome.
    pub fn as_str(self) -> (s: &'static str)
        ensures
            s@ == outcome_label(self),
    {
        match self {
            SemaphoreWaitOutcome::Acquired => "acquired",
            SemaphoreWaitOutcome::Cancelled => "cancelled",
            SemaphoreWaitOutcome::Timeout => "timeout",
            SemaphoreWaitOutcome::InternalError => "internal_error",
        }
    }
}

/// Why a wait for an execution slot failed internally.
#[derive(Debug, Clone, Copy, PartialEq, Eq, Structural)]
pub enum SemaphoreWaitErrorKind {
    SemaphoreClosed,
}

impl SemaphoreWaitErrorKind {
    /// Returns the stable log name of the error kind.
    pub fn as_str(self) -> (s: &'static str)
        ensures
            s@ == "semaphore_closed"@,
    {
        match self {
            SemaphoreWaitErrorKind::SemaphoreClosed => "semaphore_closed",
        }
    }
}

/// Totals of execution-slot waits, by outcome.
#[derive(Debug, Clone, Copy, PartialEq, Eq, Structural)]
pub struct ExecutionTelemetrySnapshot {
    pub acquired_total: u64,
    pub cancelled_total: u64,
    pub timeout_total: u64,
    pub internal_error_total: u64,
}

/// The totals after one more wait with the given outcome.
pub open spec fn count_outcome(s: ExecutionTelemetrySnapshot, o: SemaphoreWaitOutcome) -> ExecutionTelemetrySnapshot {
    match o {
        SemaphoreWaitOutcome::Acquired => ExecutionTelemetrySnapshot { acquired_total: next_count(s.acquired_total), ..s },
        SemaphoreWaitOutcome::Cancelled => ExecutionTelemetrySnapshot { cancelled_total: next_count(s.cancelled_total), ..s },
        SemaphoreWaitOutcome::Timeout => ExecutionTelemetrySnapshot { timeout_total: next_count(s.timeout_total), ..s },
        SemaphoreWaitOutcome::InternalError => ExecutionTelemetrySnapshot { internal_error_total: next_count(s.internal_error_total), ..s },
    }
}

/// The log record of one execution-slot wait.
#[derive(Debug, Clone, PartialEq, Eq)]
pub struct SemaphoreWaitEvent {
    pub transport: &'static str,
    pub tool: &'static str,
    pub outcome: &'static str,
    pub bounded: bool,
    pub timeout_ms: Option<u64>,
    pub wait_ms: u64,
    pub error_kind: Option<&'static str>,
}

/// Counters of execution-slot waits.
#[derive(Debug)]
pub struct ExecutionTelemetry {
    totals: ExecutionTelemetrySnapshot,
}

impl Default for ExecutionTelemetry {
    fn default() -> (t: Self)
        ensures
            t@ == (ExecutionTelemetrySnapshot { acquired_total: 0, cancelled_total: 0, timeout_total: 0, internal_error_total: 0 }),
    {
        ExecutionTelemetry {
            totals: ExecutionTelemetrySnapshot { acquired_total: 0, cancelled_total: 0, timeout_total: 0, internal_error_total: 0 },
        }
    }
}

impl View for ExecutionTelemetry {
    type V = ExecutionTelemetrySnapshot;

    closed spec fn view(&self) -> ExecutionTelemetrySnapshot {
        self.totals
    }
}

impl ExecutionTelemetry {
    /// Counts one wait for an execution slot under its outcome and returns the
    /// record to log; only the total of that outcome changes.
    pub fn record_semaphore_wait(
        &mut self,
        transport: ExecutionTransport,
        tool: &'static str,
        outcome: SemaphoreWaitOutcome,
        bounded: bool,
        timeout: Option<Duration>,
        wait: Duration,
        error_kind: Option<SemaphoreWaitErrorKind>,
    ) -> (event: SemaphoreWaitEvent)
        ensures
            final(self)@ == count_outcome(old(self)@, outcome),
            event.transport@ == transport_label(transport),
            event.tool@ == tool@,
            event.outcome@ == outcome_label(outcome),
            event.bounded == bounded,
            event.timeout_ms == (match timeout {
                Some(t) => Some(clamp_millis(millis_of(t))),
                None => None::<u64>,
            }),
            event.wait_ms == clamp_millis(millis_of(wait)),
            event.error_kind is Some <==> error_kind is Some,
            error_kind is Some ==> event.error_kind.unwrap()@ == "semaphore_closed"@,
    {
        match outcome {
            SemaphoreWaitOutcome::Acquired => {
                self.totals.acquired_total = bump(self.totals.acquired_total);
            },
            SemaphoreWaitOutcome::Cancelled => {
                self.totals.cancelled_total = bump(self.totals.cancelled_total);
            },
            SemaphoreWaitOutcome::Timeout => {
                self.totals.timeout_total = bump(self.totals.timeout_total);
            },
            SemaphoreWaitOutcome::InternalError => {
                self.totals.internal_error_total = bump(self.totals.internal_error_total);
            },
        }
        let timeout_ms = match timeout {
            Some(t) => Some(duration_millis(t)),
            None => None,
        };
        let error_name = match error_kind {
            Some(k) => Some(k.as_str()),
            None => None,
        };
        SemaphoreWaitEvent {
            transport: transport_name(transport),
            tool,
            outcome: outcome.as_str(),
            bounded,
            timeout_ms,
            wait_ms: duration_millis(wait),
            error_kind: error_name,
        }
    }

    /// Returns the current totals.
    pub fn snapshot(&self) -> (s: ExecutionTelemetrySnapshot)
        ensures
            s == self@,
    {
        self.totals
    }
}

/// Why the EDT queue depth changed.
#[derive(Debug, Clone, Copy, PartialEq, Eq, Structural)]
pub enum EdtQueueDepthAction {
    Enqueue,
    Dequeue,
    RemoveQueued,
    Drain,
}

/// What caused a queued EDT job to leave the queue early.
#[derive(Debug, Clone, Copy, PartialEq, Eq, Structural)]
pub enum EdtQueueDepthReason {
    QueuedCancelled,
    QueuedTimeout,
    Restart,
    Shutdown,
}

/// Why the shared EDT session restarted.
#[derive(Debug, Clone, Copy, PartialEq, Eq, Structural)]
pub enum EdtRestartReason {
    BaselineFailure,
    CommandTimeout,
    SessionFailure,
}

/// Why the EDT queue was drained.
#[derive(Debug, Clone, Copy, PartialEq, Eq, Structural)]
pub enum EdtDrainReason {
    Restart,
    Shutdown,
}

/// The stable log name of a queue-depth action.
pub open spec fn action_label(a: EdtQueueDepthAction) -> Seq<char> {
    match a {
        EdtQueueDepthAction::Enqueue => "enqueue"@,
        EdtQueueDepthAction::Dequeue => "dequeue"@,
        EdtQueueDepthAction::RemoveQueued => "remove_queued"@,
        EdtQueueDepthAction::Drain => "drain"@,
    }
}

/// The stable log name of a queue-depth reason.
pub open spec fn depth_reason_label(r: EdtQueueDepthReason) -> Seq<char> {
    match r {
        EdtQueueDepthReason::QueuedCancelled => "queued_cancelled"@,
        EdtQueueDepthReason::QueuedTimeout => "queued_timeout"@,
        EdtQueueDepthReason::Restart => "restart"@,
        EdtQueueDepthReason::Shutdown => "shutdown"@,
    }
}

/// The stable log name of a restart reason.
pub open spec fn restart_reason_label(r: EdtRestartReason) -> Seq<char> {
    match r {
        EdtRestartReason::BaselineFailure => "baseline_failure"@,
        EdtRestartReason::CommandTimeout => "command_timeout"@,
        EdtRestartReason::SessionFailure => "session_failure"@,
    }
}

/// The stable log name of a drain reason.
pub open spec fn drain_reason_label(r: EdtDrainReason) -> Seq<char> {
    match r {
        EdtDrainReason::Restart => "restart"@,
        EdtDrainReason::Shutdown => "shutdown"@,
    }
}

/// Returns the stable log name of a queue-depth action.
pub fn edt_queue_depth_action_name(action: EdtQueueDepthAction) -> (s: &'static str)
    ensures
        s@ == action_label(action),
{
    match action {
        EdtQueueDepthAction::Enqueue => "enqueue",
        EdtQueueDepthAction::Dequeue => "dequeue",
        EdtQueueDepthAction::RemoveQueued => "remove_queued",
        EdtQueueDepthAction::Drain => "drain",
    }
}

/// Returns the stable log name of a queue-depth reason.
pub fn edt_queue_depth_reason_name(reason: EdtQueueDepthReason) -> (s: &'static str)
    ensures
        s@ == depth_reason_label(reason),
{
    match reason {
        EdtQueueDepthReason::QueuedCancelled => "queued_cancelled",
        EdtQueueDepthReason::QueuedTimeout => "queued_timeout",
        EdtQueueDepthReason::Restart => "restart",
        EdtQueueDepthReason::Shutdown => "shutdown",
    }
}

/// Returns the stable log name of a restart reason.
pub fn edt_restart_reason_name(reason: EdtRestartReason) -> (s: &'static str)
    ensures
        s@ == restart_reason_label(reason),
{
    match reason {
        EdtRestartReason::BaselineFailure => "baseline_failure",
        EdtRestartReason::CommandTimeout => "command_timeout",
        EdtRestartReason::SessionFailure => "session_failure",
    }
}

/// Returns the stable log name of a drain reason.
pub fn edt_drain_reason_name(reason: EdtDrainReason) -> (s: &'static str)
    ensures
        s@ == drain_reason_label(reason),
{
    match reason {
        EdtDrainReason::Restart => "restart",
        EdtDrainReason::Shutdown => "shutdown",
    }
}

/// The EDT session counters.
#[derive(Debug, Clone, Copy, PartialEq, Eq, Structural)]
pub struct EdtTelemetrySnapshot {
    pub queue_depth: usize,
    pub max_queue_depth: usize,
    pub startup_failure_total: u64,
    pub restart_total: u64,
    pub drain_restart_total: u64,
    pub drain_shutdown_total: u64,
    pub last_drained_jobs: usize,
}

/// The log record of a queue-depth change.
#[derive(Debug, Clone, PartialEq, Eq)]
pub struct QueueDepthEvent {
    pub action: &'static str,
    pub queue_depth: usize,
    pub reason: Option<&'static str>,
}

/// The log record of a session restart.
#[derive(Debug, Clone, PartialEq, Eq)]
pub struct RestartEvent {
    pub restart_count: u64,
    pub reason: &'static str,
}

/// The log record of a queue drain.
#[derive(Debug, Clone, PartialEq, Eq)]
pub struct DrainEvent {
    pub reason: &'static str,
    pub drained_jobs: usize,
    pub drain_restart_total: u64,
    pub drain_shutdown_total: u64,
}

/// Counters of the shared EDT session. The largest queue depth seen is
/// never below the current one.
#[derive(Debug)]
pub struct EdtTelemetry {
    counters: EdtTelemetrySnapshot,
}

impl Default for EdtTelemetry {
    fn default() -> (t: Self)
        ensures
            t@ == (EdtTelemetrySnapshot {
                queue_depth: 0,
                max_queue_depth: 0,
                startup_failure_total: 0,
                restart_total: 0,
                drain_restart_total: 0,
                drain_shutdown_total: 0,
                last_drained_jobs: 0,
            }),
    {
        EdtTelemetry {
            counters: EdtTelemetrySnapshot {
                queue_depth: 0,
                max_queue_depth: 0,
                startup_failure_total: 0,
                restart_total: 0,
                drain_restart_total: 0,
                drain_shutdown_total: 0,
                last_drained_jobs: 0,
            },
        }
    }
}

impl View for EdtTelemetry {
    type V = EdtTelemetrySnapshot;

    closed spec fn view(&self) -> EdtTelemetrySnapshot {
        self.counters
    }
}

impl EdtTelemetry {
    #[verifier::type_invariant]
    spec fn max_covers_current(self) -> bool {
        self.counters.max_queue_depth >= self.counters.queue_depth
    }

    /// Records the current queue depth; the largest depth seen never falls.
    pub fn record_queue_depth(
        &mut self,
        action: EdtQueueDepthAction,
        queue_depth: usize,
        reason: Option<EdtQueueDepthReason>,
    ) -> (event: QueueDepthEvent)
        ensures
            final(self)@ == (EdtTelemetrySnapshot {
                queue_depth,
                max_queue_depth: if queue_depth > old(self)@.max_queue_depth { queue_depth } else { old(self)@.max_queue_depth },
                ..old(self)@
            }),
            final(self)@.max_queue_depth >= old(self)@.max_queue_depth,
            final(self)@.max_queue_depth >= final(self)@.queue_depth,
            event.action@ == action_label(action),
            event.queue_depth == queue_depth,
            event.reason is Some <==> reason is Some,
            reason is Some ==> event.reason.unwrap()@ == depth_reason_label(reason.unwrap()),
    {
        proof { use_type_invariant(&*self); }
        let max = if queue_depth > self.counters.max_queue_depth { queue_depth } else { self.counters.max_queue_depth };
        self.counters = EdtTelemetrySnapshot { queue_depth, max_queue_depth: max, ..self.counters };
        let reason_name = match reason {
            Some(r) => Some(edt_queue_depth_reason_name(r)),
            None => None,
        };
        QueueDepthEvent { action: edt_queue_depth_action_name(action), queue_depth, reason: reason_name }
    }

    /// Counts one startup failure and returns the new total.
    pub fn record_startup_failure(&mut self) -> (total: u64)
        ensures
            final(self)@ == (EdtTelemetrySnapshot {
                startup_failure_total: next_count(old(self)@.startup_failure_total),
                ..old(self)@
            }),
            total == final(self)@.startup_failure_total,
    {
        proof { use_type_invariant(&*self); }
        let total = bump(self.counters.startup_failure_total);
        self.counters = EdtTelemetrySnapshot { startup_failure_total: total, ..self.counters };
        total
    }

    /// Counts one session restart.
    pub fn record_restart(&mut self, reason: EdtRestartReason) -> (event: RestartEvent)
        ensures
            final(self)@ == (EdtTelemetrySnapshot {
                restart_total: next_count(old(self)@.restart_total),
                ..old(self)@
            }),
            event.restart_count == final(self)@.restart_total,
            event.reason@ == restart_reason_label(reason),
    {
        proof { use_type_invariant(&*self); }
        let total = bump(self.counters.restart_total);
        self.counters = EdtTelemetrySnapshot { restart_total: total, ..self.counters };
        RestartEvent { restart_count: total, reason: edt_restart_reason_name(reason) }
    }

    /// Counts one drain under its reason, keeping the two drain totals apart,
    /// and remembers how many jobs it removed.
    pub fn record_drain(&mut self, reason: EdtDrainReason, drained_jobs: usize) -> (event: DrainEvent)
        ensures
            final(self)@ == (match reason {
                EdtDrainReason::Restart => EdtTelemetrySnapshot {
                    last_drained_jobs: drained_jobs,
                    drain_restart_total: next_count(old(self)@.drain_restart_total),
                    ..old(self)@
                },
                EdtDrainReason::Shutdown => EdtTelemetrySnapshot {
                    last_drained_jobs: drained_jobs,
                    drain_shutdown_total: next_count(old(self)@.drain_shutdown_total),
                    ..old(self)@
                },
            }),
            event.reason@ == drain_reason_label(reason),
            event.drained_jobs == drained_jobs,
            event.drain_restart_total == final(self)@.drain_restart_total,
            event.drain_shutdown_total == final(self)@.drain_shutdown_total,
    {
        proof { use_type_invariant(&*self); }
        let c = self.counters;
        let (restart_total, shutdown_total) = match reason {
            EdtDrainReason::Restart => (bump(c.drain_restart_total), c.drain_shutdown_total),
            EdtDrainReason::Shutdown => (c.drain_restart_total, bump(c.drain_shutdown_total)),
        };
        self.counters = EdtTelemetrySnapshot {
            last_drained_jobs: drained_jobs,
            drain_restart_total: restart_total,
            drain_shutdown_total: shutdown_total,
            ..c
        };
        DrainEvent {
            reason: edt_drain_reason_name(reason),
            drained_jobs,
            drain_restart_total: restart_total,
            drain_shutdown_total: shutdown_total,
        }
    }

    /// Returns the current counters.
    pub fn snapshot(&self) -> (s: EdtTelemetrySnapshot)
        ensures
            s == self@,
            s.max_queue_depth >= s.queue_depth,
    {
        proof { use_type_invariant(self); }
        self.counters
    }
}

/// The telemetry of one MCP server: execution slots and the EDT session.
#[derive(Debug)]
pub struct McpTelemetry {
    pub execution: ExecutionTelemetry,
    pub edt: EdtTelemetry,
}

impl Default for McpTelemetry {
    fn default() -> (t: Self)
        ensures
            t.execution@ == (ExecutionTelemetrySnapshot { acquired_total: 0, cancelled_total: 0, timeout_total: 0, internal_error_total: 0 }),
            t.edt@.queue_depth == 0,
            t.edt@.max_queue_depth == 0,
            t.edt@.startup_failure_total == 0,
            t.edt@.restart_total == 0,
            t.edt@.drain_restart_total == 0,
            t.edt@.drain_shutdown_total == 0,
            t.edt@.last_drained_jobs == 0,
    {
        McpTelemetry { execution: ExecutionTelemetry::default(), edt: EdtTelemetry::default() }
    }
}

} // verus!
