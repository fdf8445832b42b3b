//! Decisions of the `dump` use case: which dump procedure runs for the
//! project's format, the requested mode and the builder, and what a dump
//! reports.

use vstd::prelude::*;
use crate::config::model::{BuilderBackend, SourceFormat};
use crate::domain::dump::{DumpMode, DumpResult};
use crate::platform::utility::UtilityType;
use crate::support::error::AppError;
use crate::use_cases::result::{app_error_kind, app_error_message, UseCaseErrorKind};

verus! {

/// The requested dump mode.
#[derive(Debug, Clone, Copy, PartialEq, Eq, Structural)]
pub enum DumpModeRequest {
    Full,
    Incremental,
    Partial,
}

/// The dump mode of a request.
pub open spec fn dump_mode_of(m: DumpModeRequest) -> DumpMode {
    match m {
        DumpModeRequest::Full => DumpMode::Full,
        DumpModeRequest::Incremental => DumpMode::Incremental,
        DumpModeRequest::Partial => DumpMode::Partial,
    }
}

/// Maps the requested dump mode.
pub fn map_dump_mode(mode: DumpModeRequest) -> (m: DumpMode)
    ensures
        m == dump_mode_of(mode),
{
    match mode {
        DumpModeRequest::Full => DumpMode::Full,
        DumpModeRequest::Incremental => DumpMode::Incremental,
        DumpModeRequest::Partial => DumpMode::Partial,
    }
}

/// The utility that dumps the infobase for a builder.
pub fn dump_utility(builder: BuilderBackend) -> (u: UtilityType)
    ensures
        u == (match builder {
            BuilderBackend::Designer => UtilityType::V8,
            BuilderBackend::Ibcmd => UtilityType::Ibcmd,
        }),
{
    match builder {
        BuilderBackend::Designer => UtilityType::V8,
        BuilderBackend::Ibcmd => UtilityType::Ibcmd,
    }
}

/// The dump procedures.
#[derive(Debug, Clone, Copy, PartialEq, Eq, Structural)]
pub enum DumpRoute {
    IncrementalDesigner,
    IncrementalIbcmd,
    FullDesigner,
    FullIbcmd,
    PartialDesigner,
    PartialIbcmd,
    IncrementalEdtDesigner,
    IncrementalEdtIbcmd,
    FullEdtDesigner,
    FullEdtIbcmd,
    PartialEdtDesigner,
    PartialEdtIbcmd,
}

/// The procedure for a format, mode and builder; a partial dump needs its
/// validated objects and an EDT project needs the EDT binary, the former
/// checked first.
pub open spec fn route_of(format: SourceFormat, mode: DumpMode, builder: BuilderBackend, has_objects: bool, has_edt_binary: bool)
    -> Result<DumpRoute, Seq<char>> {
    if mode == DumpMode::Partial && !has_objects {
        Err("partial dump objects were not validated before execution"@)
    } else if format == SourceFormat::Edt && !has_edt_binary {
        Err("EDT binary must be resolved before executing format=EDT dump"@)
    } else {
        let designer = builder == BuilderBackend::Designer;
        Ok(match (format, mode) {
            (SourceFormat::Designer, DumpMode::Incremental) => if designer { DumpRoute::IncrementalDesigner } else { DumpRoute::IncrementalIbcmd },
            (SourceFormat::Designer, DumpMode::Full) => if designer { DumpRoute::FullDesigner } else { DumpRoute::FullIbcmd },
            (SourceFormat::Designer, DumpMode::Partial) => if designer { DumpRoute::PartialDesigner } else { DumpRoute::PartialIbcmd },
            (SourceFormat::Edt, DumpMode::Incremental) => if designer { DumpRoute::IncrementalEdtDesigner } else { DumpRoute::IncrementalEdtIbcmd },
            (SourceFormat::Edt, DumpMode::Full) => if designer { DumpRoute::FullEdtDesigner } else { DumpRoute::FullEdtIbcmd },
            (SourceFormat::Edt, DumpMode::Partial) => if designer { DumpRoute::PartialEdtDesigner } else { DumpRoute::PartialEdtIbcmd },
        })
    }
}

/// The dump mode a procedure performs.
pub open spec fn route_mode(r: DumpRoute) -> DumpMode {
    match r {
        DumpRoute::IncrementalDesigner | DumpRoute::IncrementalIbcmd
            | DumpRoute::IncrementalEdtDesigner | DumpRoute::IncrementalEdtIbcmd => DumpMode::Incremental,
        DumpRoute::FullDesigner | DumpRoute::FullIbcmd | DumpRoute::FullEdtDesigner | DumpRoute::FullEdtIbcmd => DumpMode::Full,
        DumpRoute::PartialDesigner | DumpRoute::PartialIbcmd
            | DumpRoute::PartialEdtDesigner | DumpRoute::PartialEdtIbcmd => DumpMode::Partial,
    }
}

/// The source format a procedure writes.
pub open spec fn route_format(r: DumpRoute) -> SourceFormat {
    match r {
        DumpRoute::IncrementalDesigner | DumpRoute::IncrementalIbcmd | DumpRoute::FullDesigner
            | DumpRoute::FullIbcmd | DumpRoute::PartialDesigner | DumpRoute::PartialIbcmd => SourceFormat::Designer,
        _ => SourceFormat::Edt,
    }
}

/// The builder a procedure dumps with.
pub open spec fn route_builder(r: DumpRoute) -> BuilderBackend {
    match r {
        DumpRoute::IncrementalDesigner | DumpRoute::FullDesigner | DumpRoute::PartialDesigner
            | DumpRoute::IncrementalEdtDesigner | DumpRoute::FullEdtDesigner | DumpRoute::PartialEdtDesigner => BuilderBackend::Designer,
        _ => BuilderBackend::Ibcmd,
    }
}

/// The procedure selected performs what was asked: the requested mode, into
/// the project's format, with the configured builder; and one is selected
/// whenever a partial dump has its objects and an EDT project its binary.
pub proof fn lemma_route_matches_request(format: SourceFormat, mode: DumpMode, builder: BuilderBackend, has_objects: bool, has_edt_binary: bool)
    ensures
        route_of(format, mode, builder, has_objects, has_edt_binary) matches Ok(r) ==>
            route_mode(r) == mode && route_format(r) == format && route_builder(r) == builder,
        route_of(format, mode, builder, has_objects, has_edt_binary) is Ok
            <==> (mode != DumpMode::Partial || has_objects) && (format != SourceFormat::Edt || has_edt_binary),
{
}

/// Selects the dump procedure.
pub fn select_dump_route(format: SourceFormat, mode: DumpMode, builder: BuilderBackend, has_objects: bool, has_edt_binary: bool)
    -> (r: Result<DumpRoute, AppError>)
    ensures
        match route_of(format, mode, builder, has_objects, has_edt_binary) {
            Ok(route) => r == Ok::<DumpRoute, AppError>(route),
            Err(m) => r matches Err(AppError::Runtime(s)) && s@ == m,
        },
        r matches Ok(route) ==> route_mode(route) == mode && route_format(route) == format && route_builder(route) == builder,
{
    proof { lemma_route_matches_request(format, mode, builder, has_objects, has_edt_binary); }
    match (format, mode, builder, has_objects, has_edt_binary) {
        (SourceFormat::Designer, DumpMode::Incremental, BuilderBackend::Designer, _, _) => Ok(DumpRoute::IncrementalDesigner),
        (SourceFormat::Designer, DumpMode::Incremental, BuilderBackend::Ibcmd, _, _) => Ok(DumpRoute::IncrementalIbcmd),
        (SourceFormat::Designer, DumpMode::Full, BuilderBackend::Designer, _, _) => Ok(DumpRoute::FullDesigner),
        (SourceFormat::Designer, DumpMode::Full, BuilderBackend::Ibcmd, _, _) => Ok(DumpRoute::FullIbcmd),
        (SourceFormat::Designer, DumpMode::Partial, BuilderBackend::Designer, true, _) => Ok(DumpRoute::PartialDesigner),
        (SourceFormat::Designer, DumpMode::Partial, BuilderBackend::Ibcmd, true, _) => Ok(DumpRoute::PartialIbcmd),
        (SourceFormat::Edt, DumpMode::Incremental, BuilderBackend::Designer, _, true) => Ok(DumpRoute::IncrementalEdtDesigner),
        (SourceFormat::Edt, DumpMode::Incremental, BuilderBackend::Ibcmd, _, true) => Ok(DumpRoute::IncrementalEdtIbcmd),
        (SourceFormat::Edt, DumpMode::Full, BuilderBackend::Designer, _, true) => Ok(DumpRoute::FullEdtDesigner),
        (SourceFormat::Edt, DumpMode::Full, BuilderBackend::Ibcmd, _, true) => Ok(DumpRoute::FullEdtIbcmd),
        (SourceFormat::Edt, DumpMode::Partial, BuilderBackend::Designer, true, true) => Ok(DumpRoute::PartialEdtDesigner),
        (SourceFormat::Edt, DumpMode::Partial, BuilderBackend::Ibcmd, true, true) => Ok(DumpRoute::PartialEdtIbcmd),
        (_, DumpMode::Partial, _, false, _) => Err(AppError::Runtime(String::from_str(
            "partial dump objects were not validated before execution"))),
        (SourceFormat::Edt, _, _, _, false) => Err(AppError::Runtime(String::from_str(
            "EDT binary must be resolved before executing format=EDT dump"))),
    }
}

/// The result of a finished dump; its message is the cleanup warning, or
/// `dump completed successfully` when there is none.
pub fn dumped_result(
    source_set: String,
    extension: Option<String>,
    mode: DumpMode,
    target_path: String,
    platform_log_path: Option<String>,
    duration_ms: u64,
    cleanup_message: Option<String>,
) -> (r: DumpResult)
    ensures
        r.ok,
        r.source_set == Some(source_set),
        r.extension == extension,
        r.mode == mode,
        r.target_path == target_path,
        r.platform_log_path == platform_log_path,
        r.duration_ms == duration_ms,
        r.message matches Some(m) && m@ == (match cleanup_message {
            Some(c) => c@,
            None => "dump completed successfully"@,
        }),
{
    let message = match cleanup_message {
        Some(c) => c,
        None => String::from_str("dump completed successfully"),
    };
    DumpResult {
        ok: true,
        source_set: Some(source_set),
        extension,
        mode,
        target_path,
        platform_log_path,
        duration_ms,
        message: Some(message),
    }
}

/// The result of a dump that failed after its target was resolved.
pub fn dump_failed_result(
    source_set: String,
    extension: Option<String>,
    mode: DumpMode,
    target_path: String,
    duration_ms: u64,
    message: String,
) -> (r: DumpResult)
    ensures
        !r.ok,
        r.source_set == Some(source_set),
        r.extension == extension,
        r.mode == mode,
        r.target_path == target_path,
        r.platform_log_path is None,
        r.duration_ms == duration_ms,
        r.message == Some(message),
{
    DumpResult {
        ok: false,
        source_set: Some(source_set),
        extension,
        mode,
        target_path,
        platform_log_path: None,
        duration_ms,
        message: Some(message),
    }
}


/// What a dump procedure left: the platform log path and the cleanup message,
/// or the error that ended it.
pub type DumpOutcome = Result<(Option<String>, Option<String>), AppError>;

/// Where a dump stands once its request was validated and its target resolved.
#[derive(Debug)]
pub enum DumpPhase {
    LocatingTool,
    LocatingEdt,
    Locking,
    CleaningOrphans,
    CleaningPlatformOrphans,
    CheckingTarget,
    CheckingPlatformTarget,
    /// The procedure `select_dump_route` chose is running.
    Dumping,
    Releasing(DumpOutcome),
    Finished(DumpOutcome),
}

/// The state of a dump: the lock file, whether the project is in EDT format
/// (EDT is needed too), whether the platform writes to its own directory
/// before the target, and the phase.
#[derive(Debug)]
pub struct DumpRun {
    pub lock_path: String,
    pub edt_format: bool,
    pub separate_platform_target: bool,
    pub phase: DumpPhase,
}

/// What happened to the last action of a dump.
#[derive(Debug, Clone)]
pub enum DumpEvent {
    ToolReady,
    ToolFailed(String),
    EdtReady,
    EdtFailed(String),
    LockAcquired,
    LockFailed(String),
    OrphansCleaned,
    CleanupFailed(String),
    PlatformOrphansCleaned,
    PlatformCleanupFailed(String),
    /// The target may be published to (`validate_publish_target`), or why not.
    TargetChecked(Option<AppError>),
    /// The platform's own target may be written (or why not).
    PlatformTargetChecked(Option<AppError>),
    Dumped { platform_log_path: Option<String>, cleanup_message: Option<String> },
    DumpFailed(AppError),
    LockReleased,
}

/// What the caller does next in a dump.
#[derive(Debug, Clone, Copy, PartialEq, Eq, Structural)]
pub enum DumpAction {
    LocateTool,
    LocateEdt,
    AcquireLock,
    CleanOrphans,
    CleanPlatformOrphans,
    CheckTarget,
    CheckPlatformTarget,
    /// Run the dump procedure that `select_dump_route` chose.
    RunDump,
    ReleaseLock,
    /// The dump is over: report the outcome its phase holds.
    Finish,
}

/// The action a dump waits on in each phase.
pub open spec fn dump_pending(p: DumpPhase) -> DumpAction {
    match p {
        DumpPhase::LocatingTool => DumpAction::LocateTool,
        DumpPhase::LocatingEdt => DumpAction::LocateEdt,
        DumpPhase::Locking => DumpAction::AcquireLock,
        DumpPhase::CleaningOrphans => DumpAction::CleanOrphans,
        DumpPhase::CleaningPlatformOrphans => DumpAction::CleanPlatformOrphans,
        DumpPhase::CheckingTarget => DumpAction::CheckTarget,
        DumpPhase::CheckingPlatformTarget => DumpAction::CheckPlatformTarget,
        DumpPhase::Dumping => DumpAction::RunDump,
        DumpPhase::Releasing(_) => DumpAction::ReleaseLock,
        DumpPhase::Finished(_) => DumpAction::Finish,
    }
}

/// The dump now releases the lock after failing with this error.
pub open spec fn dump_releases_failing(r2: DumpRun, a: DumpAction, kind: UseCaseErrorKind, message: Seq<char>) -> bool {
    &&& a == DumpAction::ReleaseLock
    &&& r2.phase matches DumpPhase::Releasing(Err(e))
    &&& app_error_kind(e) == kind
    &&& app_error_message(e) == message
}

/// The dump is over, before taking the lock, failed with this error.
pub open spec fn dump_ends_failing(r2: DumpRun, a: DumpAction, kind: UseCaseErrorKind, message: Seq<char>) -> bool {
    &&& a == DumpAction::Finish
    &&& r2.phase matches DumpPhase::Finished(Err(e))
    &&& app_error_kind(e) == kind
    &&& app_error_message(e) == message
}

/// A dump going on to `phase` with `action`.
pub open spec fn dump_goes(r2: DumpRun, a: DumpAction, phase: DumpPhase, action: DumpAction) -> bool {
    r2.phase == phase && a == action
}

/// What follows `event` in dump `r`: the platform tool is located (and EDT
/// for an EDT project), the lock taken, stale temporary directories cleaned
/// (the platform's too when it writes elsewhere), the targets checked, then
/// the dump run. A failure before the lock ends the dump at once; once the
/// lock is taken every path releases it before the dump ends, and the dump
/// runs only after every check passed.
pub open spec fn dump_step_holds(r: DumpRun, event: DumpEvent, r2: DumpRun, a: DumpAction) -> bool {
    &&& r2.lock_path == r.lock_path && r2.edt_format == r.edt_format && r2.separate_platform_target == r.separate_platform_target
    &&& match (r.phase, event) {
        (DumpPhase::LocatingTool, DumpEvent::ToolReady) =>
            if r.edt_format { dump_goes(r2, a, DumpPhase::LocatingEdt, DumpAction::LocateEdt) }
            else { dump_goes(r2, a, DumpPhase::Locking, DumpAction::AcquireLock) },
        (DumpPhase::LocatingTool, DumpEvent::ToolFailed(m)) => dump_ends_failing(r2, a, UseCaseErrorKind::Platform, m@),
        (DumpPhase::LocatingEdt, DumpEvent::EdtReady) => dump_goes(r2, a, DumpPhase::Locking, DumpAction::AcquireLock),
        (DumpPhase::LocatingEdt, DumpEvent::EdtFailed(m)) => dump_ends_failing(r2, a, UseCaseErrorKind::Platform, m@),
        (DumpPhase::Locking, DumpEvent::LockAcquired) => dump_goes(r2, a, DumpPhase::CleaningOrphans, DumpAction::CleanOrphans),
        (DumpPhase::Locking, DumpEvent::LockFailed(m)) =>
            dump_ends_failing(r2, a, UseCaseErrorKind::Runtime, "failed to acquire dump lock '"@ + r.lock_path@ + "': "@ + m@),
        (DumpPhase::CleaningOrphans, DumpEvent::OrphansCleaned) =>
            if r.separate_platform_target { dump_goes(r2, a, DumpPhase::CleaningPlatformOrphans, DumpAction::CleanPlatformOrphans) }
            else { dump_goes(r2, a, DumpPhase::CheckingTarget, DumpAction::CheckTarget) },
        (DumpPhase::CleaningOrphans, DumpEvent::CleanupFailed(m)) =>
            dump_releases_failing(r2, a, UseCaseErrorKind::Runtime, "failed to cleanup stale dump temp dirs: "@ + m@),
        (DumpPhase::CleaningPlatformOrphans, DumpEvent::PlatformOrphansCleaned) =>
            dump_goes(r2, a, DumpPhase::CheckingTarget, DumpAction::CheckTarget),
        (DumpPhase::CleaningPlatformOrphans, DumpEvent::PlatformCleanupFailed(m)) =>
            dump_releases_failing(r2, a, UseCaseErrorKind::Runtime, "failed to cleanup stale dump platform temp dirs: "@ + m@),
        (DumpPhase::CheckingTarget, DumpEvent::TargetChecked(None)) =>
            if r.separate_platform_target { dump_goes(r2, a, DumpPhase::CheckingPlatformTarget, DumpAction::CheckPlatformTarget) }
            else { dump_goes(r2, a, DumpPhase::Dumping, DumpAction::RunDump) },
        (DumpPhase::CheckingTarget, DumpEvent::TargetChecked(Some(e))) =>
            dump_goes(r2, a, DumpPhase::Releasing(Err(e)), DumpAction::ReleaseLock),
        (DumpPhase::CheckingPlatformTarget, DumpEvent::PlatformTargetChecked(None)) =>
            dump_goes(r2, a, DumpPhase::Dumping, DumpAction::RunDump),
        (DumpPhase::CheckingPlatformTarget, DumpEvent::PlatformTargetChecked(Some(e))) =>
            dump_goes(r2, a, DumpPhase::Releasing(Err(e)), DumpAction::ReleaseLock),
        (DumpPhase::Dumping, DumpEvent::Dumped { platform_log_path, cleanup_message }) =>
            dump_goes(r2, a, DumpPhase::Releasing(Ok((platform_log_path, cleanup_message))), DumpAction::ReleaseLock),
        (DumpPhase::Dumping, DumpEvent::DumpFailed(e)) =>
            dump_goes(r2, a, DumpPhase::Releasing(Err(e)), DumpAction::ReleaseLock),
        (DumpPhase::Releasing(o), DumpEvent::LockReleased) => dump_goes(r2, a, DumpPhase::Finished(o), DumpAction::Finish),
        _ => r2.phase == r.phase && a == dump_pending(r.phase),
    }
}

/// Starts a dump on a resolved target: locate the platform tool.
pub fn dump_begin(lock_path: String, edt_format: bool, separate_platform_target: bool) -> (r: (DumpRun, DumpAction))
    ensures
        r.0.lock_path == lock_path && r.0.edt_format == edt_format && r.0.separate_platform_target == separate_platform_target,
        r.0.phase matches DumpPhase::LocatingTool,
        r.1 == DumpAction::LocateTool,
{
    (DumpRun { lock_path, edt_format, separate_platform_target, phase: DumpPhase::LocatingTool }, DumpAction::LocateTool)
}

/// Decides what follows `event` in a dump, as `dump_step_holds` states.
pub fn dump_next(run: DumpRun, event: DumpEvent) -> (r: (DumpRun, DumpAction))
    ensures
        dump_step_holds(run, event, r.0, r.1),
{
    let DumpRun { lock_path, edt_format, separate_platform_target, phase } = run;
    let (next, action) = match (phase, event) {
        (DumpPhase::LocatingTool, DumpEvent::ToolReady) =>
            if edt_format { (DumpPhase::LocatingEdt, DumpAction::LocateEdt) } else { (DumpPhase::Locking, DumpAction::AcquireLock) },
        (DumpPhase::LocatingTool, DumpEvent::ToolFailed(m)) => (DumpPhase::Finished(Err(AppError::Platform(m))), DumpAction::Finish),
        (DumpPhase::LocatingEdt, DumpEvent::EdtReady) => (DumpPhase::Locking, DumpAction::AcquireLock),
        (DumpPhase::LocatingEdt, DumpEvent::EdtFailed(m)) => (DumpPhase::Finished(Err(AppError::Platform(m))), DumpAction::Finish),
        (DumpPhase::Locking, DumpEvent::LockAcquired) => (DumpPhase::CleaningOrphans, DumpAction::CleanOrphans),
        (DumpPhase::Locking, DumpEvent::LockFailed(m)) => {
            let message = String::from_str("failed to acquire dump lock '").concat(lock_path.as_str()).concat("': ").concat(m.as_str());
            (DumpPhase::Finished(Err(AppError::Runtime(message))), DumpAction::Finish)
        },
        (DumpPhase::CleaningOrphans, DumpEvent::OrphansCleaned) =>
            if separate_platform_target { (DumpPhase::CleaningPlatformOrphans, DumpAction::CleanPlatformOrphans) }
            else { (DumpPhase::CheckingTarget, DumpAction::CheckTarget) },
        (DumpPhase::CleaningOrphans, DumpEvent::CleanupFailed(m)) => {
            let message = String::from_str("failed to cleanup stale dump temp dirs: ").concat(m.as_str());
            (DumpPhase::Releasing(Err(AppError::Runtime(message))), DumpAction::ReleaseLock)
        },
        (DumpPhase::CleaningPlatformOrphans, DumpEvent::PlatformOrphansCleaned) => (DumpPhase::CheckingTarget, DumpAction::CheckTarget),
        (DumpPhase::CleaningPlatformOrphans, DumpEvent::PlatformCleanupFailed(m)) => {
            let message = String::from_str("failed to cleanup stale dump platform temp dirs: ").concat(m.as_str());
            (DumpPhase::Releasing(Err(AppError::Runtime(message))), DumpAction::ReleaseLock)
        },
        (DumpPhase::CheckingTarget, DumpEvent::TargetChecked(None)) =>
            if separate_platform_target { (DumpPhase::CheckingPlatformTarget, DumpAction::CheckPlatformTarget) }
            else { (DumpPhase::Dumping, DumpAction::RunDump) },
        (DumpPhase::CheckingTarget, DumpEvent::TargetChecked(Some(e))) => (DumpPhase::Releasing(Err(e)), DumpAction::ReleaseLock),
        (DumpPhase::CheckingPlatformTarget, DumpEvent::PlatformTargetChecked(None)) => (DumpPhase::Dumping, DumpAction::RunDump),
        (DumpPhase::CheckingPlatformTarget, DumpEvent::PlatformTargetChecked(Some(e))) =>
            (DumpPhase::Releasing(Err(e)), DumpAction::ReleaseLock),
        (DumpPhase::Dumping, DumpEvent::Dumped { platform_log_path, cleanup_message }) =>
            (DumpPhase::Releasing(Ok((platform_log_path, cleanup_message))), DumpAction::ReleaseLock),
        (DumpPhase::Dumping, DumpEvent::DumpFailed(e)) => (DumpPhase::Releasing(Err(e)), DumpAction::ReleaseLock),
        (DumpPhase::Releasing(o), DumpEvent::LockReleased) => (DumpPhase::Finished(o), DumpAction::Finish),
        (p, _) => {
            let action = match &p {
                DumpPhase::LocatingTool => DumpAction::LocateTool,
                DumpPhase::LocatingEdt => DumpAction::LocateEdt,
                DumpPhase::Locking => DumpAction::AcquireLock,
                DumpPhase::CleaningOrphans => DumpAction::CleanOrphans,
                DumpPhase::CleaningPlatformOrphans => DumpAction::CleanPlatformOrphans,
                DumpPhase::CheckingTarget => DumpAction::CheckTarget,
                DumpPhase::CheckingPlatformTarget => DumpAction::CheckPlatformTarget,
                DumpPhase::Dumping => DumpAction::RunDump,
                DumpPhase::Releasing(_) => DumpAction::ReleaseLock,
                DumpPhase::Finished(_) => DumpAction::Finish,
            };
            (p, action)
        },
    };
    (DumpRun { lock_path, edt_format, separate_platform_target, phase: next }, action)
}

/// The lock is released on every path once taken, and the dump runs only
/// after every check passed.
pub proof fn lemma_dump_lock_released_and_checked(r: DumpRun, event: DumpEvent, r2: DumpRun, a: DumpAction)
    requires
        dump_step_holds(r, event, r2, a),
    ensures
        r2.phase matches DumpPhase::Finished(_) && !(r.phase matches DumpPhase::Finished(_)) ==>
            (r.phase matches DumpPhase::Releasing(_) && event matches DumpEvent::LockReleased)
            || r.phase matches DumpPhase::LocatingTool || r.phase matches DumpPhase::LocatingEdt
            || r.phase matches DumpPhase::Locking,
        a == DumpAction::RunDump && !(r.phase matches DumpPhase::Dumping) ==>
            (r.phase matches DumpPhase::CheckingTarget && event matches DumpEvent::TargetChecked(None) && !r.separate_platform_target)
            || (r.phase matches DumpPhase::CheckingPlatformTarget && event matches DumpEvent::PlatformTargetChecked(None)),
{
}

} // verus!
