//! Decisions of the `convert` use case: checking the request against what
//! the caller found on disk, reporting a failed conversion, and assembling
//! the result.

use vstd::prelude::*;
use crate::config::model::AppConfig;
use crate::domain::convert::{ConvertDirection, ConvertResult};
use crate::path::{join, join_seq, parent, parent_seq};
use crate::platform::result::PlatformCommandResult;
use crate::support::error::AppError;
use crate::text::{
    has_control, contains_control, i32_to_decimal, is_blank, is_empty_text, join_strings, joined, signed_decimal,
    str_eq, trim, trim_seq, views_of,
};
use crate::use_cases::request::{ConvertDirectionRequest, ConvertRequest};

verus! {

/// Name prefix of the backups made while publishing a conversion.
pub const CONVERT_BACKUP_PREFIX: &'static str = ".convert-backup";

/// The direction a request asks for.
pub open spec fn direction_of(d: ConvertDirectionRequest) -> ConvertDirection {
    match d {
        ConvertDirectionRequest::EdtToDesigner => ConvertDirection::EdtToDesigner,
        ConvertDirectionRequest::DesignerToEdt => ConvertDirection::DesignerToEdt,
    }
}

/// Maps the requested direction.
pub fn map_direction(direction: ConvertDirectionRequest) -> (d: ConvertDirection)
    ensures
        d == direction_of(direction),
{
    match direction {
        ConvertDirectionRequest::EdtToDesigner => ConvertDirection::EdtToDesigner,
        ConvertDirectionRequest::DesignerToEdt => ConvertDirection::DesignerToEdt,
    }
}

/// The EDT workspace used for conversions: `convert/edt-workspace` below the
/// work path.
pub fn convert_workspace_path(config: &AppConfig) -> (r: String)
    ensures
        r@ == join_seq(join_seq(config.work_path@, "convert"@), "edt-workspace"@),
{
    let dir = join(config.work_path.as_str(), "convert");
    join(dir.as_str(), "edt-workspace")
}

/// A path argument, trimmed, or why it is refused.
pub open spec fn input_path_check(value: Seq<char>, label: Seq<char>) -> Result<Seq<char>, Seq<char>> {
    let t = trim_seq(value);
    if t.len() == 0 {
        Err("convert "@ + label + " path must not be blank"@)
    } else if has_control(t) {
        Err("convert "@ + label + " path must not contain control characters"@)
    } else {
        Ok(t)
    }
}

/// Trims a path argument; a blank one or one holding control characters is
/// refused.
pub fn normalize_input_path(value: &str, label: &str) -> (r: Result<String, AppError>)
    ensures
        match input_path_check(value@, label@) {
            Ok(p) => r matches Ok(s) && s@ == p,
            Err(m) => r matches Err(AppError::Validation(s)) && s@ == m,
        },
{
    let t = trim(value);
    if is_empty_text(t.as_str()) {
        return Err(AppError::Validation(String::from_str("convert ").concat(label).concat(" path must not be blank")));
    }
    if contains_control(t.as_str()) {
        return Err(AppError::Validation(String::from_str("convert ").concat(label)
            .concat(" path must not contain control characters")));
    }
    Ok(t)
}

/// An optional argument, trimmed, or why it is refused.
pub open spec fn optional_value_check(value: Option<Seq<char>>, label: Seq<char>) -> Result<Option<Seq<char>>, Seq<char>> {
    match value {
        None => Ok(None),
        Some(v) => {
            let t = trim_seq(v);
            if t.len() == 0 {
                Err("convert "@ + label + " must not be blank"@)
            } else if has_control(t) {
                Err("convert "@ + label + " must not contain control characters"@)
            } else {
                Ok(Some(t))
            }
        },
    }
}

/// The characters of an optional string.
pub open spec fn opt_view(o: Option<String>) -> Option<Seq<char>> {
    match o {
        Some(s) => Some(s@),
        None => None,
    }
}

/// Trims an optional argument; a given but blank one, or one holding control
/// characters, is refused.
pub fn normalize_optional_value(value: &Option<String>, label: &str) -> (r: Result<Option<String>, AppError>)
    ensures
        match optional_value_check(opt_view(*value), label@) {
            Ok(v) => r matches Ok(o) && opt_view(o) == v,
            Err(m) => r matches Err(AppError::Validation(s)) && s@ == m,
        },
{
    match value {
        None => Ok(None),
        Some(v) => {
            let t = trim(v.as_str());
            if is_empty_text(t.as_str()) {
                return Err(AppError::Validation(String::from_str("convert ").concat(label).concat(" must not be blank")));
            }
            if contains_control(t.as_str()) {
                return Err(AppError::Validation(String::from_str("convert ").concat(label)
                    .concat(" must not contain control characters")));
            }
            Ok(Some(t))
        },
    }
}

/// What the caller found on disk about the trimmed source and target paths:
/// their canonical forms (or the I/O error's text), whether they exist and
/// are directories, whether the source holds a `.project` file or a
/// `Configuration.xml`, and whether it holds any top-level `.xml` file (or
/// the error met while listing it).
#[derive(Debug, PartialEq, Eq)]
pub struct ConvertFacts {
    pub source_canonical: Result<String, String>,
    pub target_canonical: Result<String, String>,
    pub source_exists: bool,
    pub source_is_dir: bool,
    pub target_exists: bool,
    pub target_is_dir: bool,
    pub source_has_project: bool,
    pub source_has_configuration_xml: bool,
    pub source_has_top_level_xml: Result<bool, String>,
}

/// A checked conversion request.
#[derive(Debug, Clone, PartialEq, Eq)]
pub struct ResolvedConvertRequest {
    pub direction: ConvertDirection,
    pub source_path: String,
    pub target_path: String,
    pub workspace_path: String,
    pub version: Option<String>,
    pub base_project_name: Option<String>,
    pub build: bool,
}

/// A refusal: whether it is a validation error (else a runtime error), and its message.
pub type Refusal = (bool, Seq<char>);

/// Why a request is refused, if it is, checking in order: the two paths, that
/// they differ, that the source is a directory, that the target is not a
/// file, the source layout of the direction, then the version and base
/// project name.
pub open spec fn convert_refusal(request: ConvertRequest, direction: ConvertDirection, f: ConvertFacts) -> Option<Refusal> {
    match input_path_check(request.source_path@, "source"@) {
        Err(m) => Some((true, m)),
        Ok(source) => match input_path_check(request.target_path@, "target"@) {
            Err(m) => Some((true, m)),
            Ok(target) => match f.source_canonical {
                Err(e) => Some((false, "failed to canonicalize convert source '"@ + source + "': "@ + e@)),
                Ok(cs) => match f.target_canonical {
                    Err(e) => Some((false, "failed to canonicalize convert target '"@ + target + "': "@ + e@)),
                    Ok(ct) => if cs@ == ct@ {
                        Some((true, "convert source and target paths must be different"@))
                    } else if !f.source_exists {
                        Some((true, "convert source path does not exist: "@ + source))
                    } else if !f.source_is_dir {
                        Some((true, "convert source path is not a directory: "@ + source))
                    } else if f.target_exists && !f.target_is_dir {
                        Some((true, "convert target path is not a directory: "@ + target))
                    } else {
                        match layout_refusal(direction, source, f) {
                            Some(r) => Some(r),
                            None => match optional_value_check(opt_view(request.version), "version"@) {
                                Err(m) => Some((true, m)),
                                Ok(_) => match optional_value_check(opt_view(request.base_project_name), "base project name"@) {
                                    Err(m) => Some((true, m)),
                                    Ok(_) => None,
                                },
                            },
                        }
                    },
                },
            },
        },
    }
}

/// Why the source layout does not fit the direction, if it does not.
pub open spec fn layout_refusal(direction: ConvertDirection, source: Seq<char>, f: ConvertFacts) -> Option<Refusal> {
    match direction {
        ConvertDirection::EdtToDesigner => if !f.source_has_project {
            Some((true, "EDT source path must contain '.project': "@ + source))
        } else {
            None
        },
        ConvertDirection::DesignerToEdt => if f.source_has_configuration_xml {
            None
        } else {
            match f.source_has_top_level_xml {
                Err(e) => Some((false, "failed to inspect Designer source '"@ + source + "': "@ + e@)),
                Ok(true) => None,
                Ok(false) => Some((true, "Designer source path must contain 'Configuration.xml' or a top-level XML descriptor: "@ + source)),
            }
        },
    }
}

/// An error of a refusal.
pub open spec fn refused_with(r: Result<ResolvedConvertRequest, AppError>, refusal: Refusal) -> bool {
    if refusal.0 {
        r matches Err(AppError::Validation(s)) && s@ == refusal.1
    } else {
        r matches Err(AppError::Runtime(s)) && s@ == refusal.1
    }
}

fn layout_check(direction: ConvertDirection, source: &str, facts: &ConvertFacts) -> (r: Result<(), AppError>)
    ensures
        match layout_refusal(direction, source@, *facts) {
            None => r is Ok,
            Some((true, m)) => r matches Err(AppError::Validation(s)) && s@ == m,
            Some((false, m)) => r matches Err(AppError::Runtime(s)) && s@ == m,
        },
{
    match direction {
        ConvertDirection::EdtToDesigner => {
            if !facts.source_has_project {
                return Err(AppError::Validation(String::from_str("EDT source path must contain '.project': ").concat(source)));
            }
            Ok(())
        },
        ConvertDirection::DesignerToEdt => {
            if facts.source_has_configuration_xml {
                return Ok(());
            }
            match &facts.source_has_top_level_xml {
                Err(e) => Err(AppError::Runtime(String::from_str("failed to inspect Designer source '").concat(source)
                    .concat("': ").concat(e.as_str()))),
                Ok(true) => Ok(()),
                Ok(false) => Err(AppError::Validation(String::from_str(
                    "Designer source path must contain 'Configuration.xml' or a top-level XML descriptor: ").concat(source))),
            }
        },
    }
}

/// Checks a conversion request against what the caller found on disk.
pub fn resolve_request(config: &AppConfig, request: &ConvertRequest, direction: ConvertDirection, facts: &ConvertFacts)
    -> (r: Result<ResolvedConvertRequest, AppError>)
    ensures
        match convert_refusal(*request, direction, *facts) {
            Some(refusal) => refused_with(r, refusal),
            None => r matches Ok(resolved) && {
                &&& resolved.direction == direction
                &&& Ok::<Seq<char>, Seq<char>>(resolved.source_path@) == input_path_check(request.source_path@, "source"@)
                &&& Ok::<Seq<char>, Seq<char>>(resolved.target_path@) == input_path_check(request.target_path@, "target"@)
                &&& resolved.workspace_path@ == join_seq(join_seq(config.work_path@, "convert"@), "edt-workspace"@)
                &&& Ok::<Option<Seq<char>>, Seq<char>>(opt_view(resolved.version)) == optional_value_check(opt_view(request.version), "version"@)
                &&& Ok::<Option<Seq<char>>, Seq<char>>(opt_view(resolved.base_project_name))
                        == optional_value_check(opt_view(request.base_project_name), "base project name"@)
                &&& resolved.build == request.build
            },
        },
{
    let source = match normalize_input_path(request.source_path.as_str(), "source") {
        Err(e) => {
            return Err(e);
        },
        Ok(s) => s,
    };
    let target = match normalize_input_path(request.target_path.as_str(), "target") {
        Err(e) => {
            return Err(e);
        },
        Ok(t) => t,
    };
    let cs = match &facts.source_canonical {
        Err(e) => {
            return Err(AppError::Runtime(String::from_str("failed to canonicalize convert source '").concat(source.as_str())
                .concat("': ").concat(e.as_str())));
        },
        Ok(c) => c,
    };
    let ct = match &facts.target_canonical {
        Err(e) => {
            return Err(AppError::Runtime(String::from_str("failed to canonicalize convert target '").concat(target.as_str())
                .concat("': ").concat(e.as_str())));
        },
        Ok(c) => c,
    };
    if str_eq(cs.as_str(), ct.as_str()) {
        return Err(AppError::Validation(String::from_str("convert source and target paths must be different")));
    }
    if !facts.source_exists {
        return Err(AppError::Validation(String::from_str("convert source path does not exist: ").concat(source.as_str())));
    }
    if !facts.source_is_dir {
        return Err(AppError::Validation(String::from_str("convert source path is not a directory: ").concat(source.as_str())));
    }
    if facts.target_exists && !facts.target_is_dir {
        return Err(AppError::Validation(String::from_str("convert target path is not a directory: ").concat(target.as_str())));
    }
    match layout_check(direction, source.as_str(), facts) {
        Err(e) => {
            return Err(e);
        },
        Ok(()) => {},
    }
    let version = match normalize_optional_value(&request.version, "version") {
        Err(e) => {
            return Err(e);
        },
        Ok(v) => v,
    };
    let base_project_name = match normalize_optional_value(&request.base_project_name, "base project name") {
        Err(e) => {
            return Err(e);
        },
        Ok(v) => v,
    };
    Ok(ResolvedConvertRequest {
        direction,
        source_path: source,
        target_path: target,
        workspace_path: convert_workspace_path(config),
        version,
        base_project_name,
        build: request.build,
    })
}

/// Checks a conversion request before any work is done; the same checks as
/// [`resolve_request`].
pub fn preflight_validate(config: &AppConfig, request: &ConvertRequest, facts: &ConvertFacts) -> (r: Result<(), AppError>)
    ensures
        match convert_refusal(*request, direction_of(request.direction), *facts) {
            None => r is Ok,
            Some((true, m)) => r matches Err(AppError::Validation(s)) && s@ == m,
            Some((false, m)) => r matches Err(AppError::Runtime(s)) && s@ == m,
        },
{
    let direction = map_direction(request.direction);
    match resolve_request(config, request, direction, facts) {
        Ok(_) => Ok(()),
        Err(e) => Err(e),
    }
}

/// The label of a direction in messages.
pub open spec fn direction_label(d: ConvertDirection) -> Seq<char> {
    match d {
        ConvertDirection::EdtToDesigner => "edt-to-designer"@,
        ConvertDirection::DesignerToEdt => "designer-to-edt"@,
    }
}

/// The details of a failed conversion, in the order they are reported.
pub open spec fn convert_failure_details(d: ConvertDirection, result: PlatformCommandResult) -> Seq<Seq<char>> {
    let head = seq!["convert "@ + direction_label(d) + " failed with exit code "@ + signed_decimal(result.process.exit_code as int)];
    let out = if trim_seq(result.process.stdout@).len() > 0 { seq!["stdout: "@ + trim_seq(result.process.stdout@)] } else { Seq::empty() };
    let err = if trim_seq(result.process.stderr@).len() > 0 { seq!["stderr: "@ + trim_seq(result.process.stderr@)] } else { Seq::empty() };
    let log = match result.platform_log {
        Some(l) => if trim_seq(l@).len() > 0 { seq!["platform log: "@ + trim_seq(l@)] } else { Seq::empty() },
        None => Seq::empty(),
    };
    let path = match result.platform_log_path {
        Some(p) => seq!["platform log path: "@ + p@],
        None => Seq::empty(),
    };
    head + out + err + log + path
}

/// Turns a failed conversion into a platform error listing its exit code,
/// output and log.
pub fn ensure_conversion_success(direction: ConvertDirection, result: &PlatformCommandResult) -> (r: Result<(), AppError>)
    ensures
        result.process.exit_code == 0 <==> r is Ok,
        r matches Err(e) ==> e matches AppError::Platform(m) && m@ == joined(convert_failure_details(direction, *result), "; "@),
{
    if result.process.exit_code == 0 {
        return Ok(());
    }
    let ghost spec_details = convert_failure_details(direction, *result);
    let label = match direction {
        ConvertDirection::EdtToDesigner => "edt-to-designer",
        ConvertDirection::DesignerToEdt => "designer-to-edt",
    };
    let mut details: Vec<String> = Vec::new();
    let code = i32_to_decimal(result.process.exit_code);
    details.push(String::from_str("convert ").concat(label).concat(" failed with exit code ").concat(code.as_str()));
    if !is_blank(result.process.stdout.as_str()) {
        details.push(String::from_str("stdout: ").concat(trim(result.process.stdout.as_str()).as_str()));
    }
    if !is_blank(result.process.stderr.as_str()) {
        details.push(String::from_str("stderr: ").concat(trim(result.process.stderr.as_str()).as_str()));
    }
    match &result.platform_log {
        Some(l) => {
            if !is_blank(l.as_str()) {
                details.push(String::from_str("platform log: ").concat(trim(l.as_str()).as_str()));
            }
        },
        None => {},
    }
    match &result.platform_log_path {
        Some(p) => {
            details.push(String::from_str("platform log path: ").concat(p.as_str()));
        },
        None => {},
    }
    proof {
        reveal_strlit("stdout: ");
        reveal_strlit("stderr: ");
        reveal_strlit("platform log: ");
        reveal_strlit("platform log path: ");
        assert(views_of(details@) =~= spec_details);
    }
    Err(AppError::Platform(join_strings(&details, "; ")))
}

/// The parent directory a conversion target is published into.
pub fn convert_target_parent(target_path: &str) -> (r: Result<String, AppError>)
    ensures
        match parent_seq(target_path@) {
            Some(p) => r matches Ok(s) && s@ == p,
            None => r matches Err(AppError::Validation(s)) && s@ == "convert target path has no parent: "@ + target_path@,
        },
{
    match parent(target_path) {
        Some(p) => Ok(p),
        None => Err(AppError::Validation(String::from_str("convert target path has no parent: ").concat(target_path))),
    }
}

/// The staging directory of a conversion, beside the target:
/// `.convert-stage-<run id>`.
pub fn convert_staging_dir(target_parent: &str, run_id: &str) -> (r: String)
    ensures
        r@ == join_seq(target_parent@, ".convert-stage-"@ + run_id@),
{
    let name = String::from_str(".convert-stage-").concat(run_id);
    join(target_parent, name.as_str())
}

/// What interrupted a run.
#[derive(Debug, Clone, Copy, PartialEq, Eq, Structural)]
pub enum ExecutionInterruption {
    Cancelled,
    TimedOut,
}

/// The warning left when an interruption arrived while publishing.
pub open spec fn deferred_warning(i: Option<ExecutionInterruption>) -> Option<Seq<char>> {
    match i {
        None => None,
        Some(x) => Some("convert publication completed successfully after "@
            + (match x {
                ExecutionInterruption::Cancelled => "cancellation request"@,
                ExecutionInterruption::TimedOut => "timeout"@,
            })
            + " during critical phase; unsafe interruption was not performed"@),
    }
}

/// The warning left when an interruption arrived while publishing: the
/// publication finished and the interruption was not acted on.
pub fn deferred_interruption_warning(interruption: Option<ExecutionInterruption>) -> (r: Option<String>)
    ensures
        opt_view(r) == deferred_warning(interruption),
{
    match interruption {
        None => None,
        Some(x) => {
            let reason = match x {
                ExecutionInterruption::Cancelled => "cancellation request",
                ExecutionInterruption::TimedOut => "timeout",
            };
            Some(String::from_str("convert publication completed successfully after ").concat(reason)
                .concat(" during critical phase; unsafe interruption was not performed"))
        },
    }
}

/// Two optional messages merged: both joined by `; `, or whichever is present.
pub open spec fn merged(first: Option<Seq<char>>, second: Option<Seq<char>>) -> Option<Seq<char>> {
    match (first, second) {
        (Some(a), Some(b)) => Some(a + "; "@ + b),
        (Some(a), None) => Some(a),
        (None, Some(b)) => Some(b),
        (None, None) => None,
    }
}

/// Merges two optional messages.
pub fn merge_optional_messages(first: Option<String>, second: Option<String>) -> (r: Option<String>)
    ensures
        opt_view(r) == merged(opt_view(first), opt_view(second)),
{
    match (first, second) {
        (Some(a), Some(b)) => Some(a.concat("; ").concat(b.as_str())),
        (Some(a), None) => Some(a),
        (None, Some(b)) => Some(b),
        (None, None) => None,
    }
}

/// The result of a conversion that did not publish: failed, with the paths
/// known so far (empty when not yet known) and the message.
pub fn empty_result(
    direction: ConvertDirection,
    duration_ms: u64,
    source_path: Option<String>,
    target_path: Option<String>,
    workspace_path: String,
    message: Option<String>,
) -> (r: ConvertResult)
    ensures
        !r.ok,
        r.direction == direction,
        r.source_path@ == (match source_path { Some(p) => p@, None => Seq::<char>::empty() }),
        r.target_path@ == (match target_path { Some(p) => p@, None => Seq::<char>::empty() }),
        r.workspace_path == workspace_path,
        r.duration_ms == duration_ms,
        r.message == message,
{
    let source = match source_path {
        Some(p) => p,
        None => String::new(),
    };
    let target = match target_path {
        Some(p) => p,
        None => String::new(),
    };
    ConvertResult { ok: false, direction, source_path: source, target_path: target, workspace_path, duration_ms, message }
}

/// The result of a published conversion: the cleanup warning of the
/// publication merged with the warning of a deferred interruption.
pub fn converted_result(
    resolved: ResolvedConvertRequest,
    duration_ms: u64,
    cleanup_warning: Option<String>,
    interruption: Option<ExecutionInterruption>,
) -> (r: ConvertResult)
    ensures
        r.ok,
        r.direction == resolved.direction,
        r.source_path == resolved.source_path,
        r.target_path == resolved.target_path,
        r.workspace_path == resolved.workspace_path,
        r.duration_ms == duration_ms,
        opt_view(r.message) == merged(opt_view(cleanup_warning), deferred_warning(interruption)),
{
    let warning = deferred_interruption_warning(interruption);
    ConvertResult {
        ok: true,
        direction: resolved.direction,
        source_path: resolved.source_path,
        target_path: resolved.target_path,
        workspace_path: resolved.workspace_path,
        duration_ms,
        message: merge_optional_messages(cleanup_warning, warning),
    }
}


/// Where a conversion stands once its request was resolved.
#[derive(Debug, Clone, Copy, PartialEq, Eq, Structural)]
pub enum ConvertPhase {
    EnsuringParent,
    LocatingTool,
    CreatingStaging,
    WritingMetadata,
    Converting,
    CheckingInterruption,
    Publishing,
}

/// The state of a conversion: its direction, the target's parent, the
/// staging directory and the phase.
#[derive(Debug, Clone, PartialEq, Eq)]
pub struct ConvertRun {
    pub direction: ConvertDirection,
    pub target_parent: String,
    pub staging_dir: String,
    pub phase: ConvertPhase,
}

/// What happened to the last action of a conversion.
#[derive(Debug, Clone)]
pub enum ConvertEvent {
    ParentReady,
    ParentFailed(String),
    ToolReady,
    ToolFailed(String),
    StagingReady,
    StagingFailed(String),
    MetadataWritten,
    MetadataFailed(String),
    /// EDT ran the conversion into the staging directory.
    Converted(PlatformCommandResult),
    /// EDT could not be started or asked to convert.
    ConversionError(AppError),
    NotInterrupted,
    /// The run was interrupted; the interruption's message.
    Interrupted(String),
    /// The staging directory replaced the target, with the cleanup warning
    /// and the interruption deferred while publishing, if any.
    Published { cleanup_warning: Option<String>, deferred: Option<ExecutionInterruption> },
    PublishFailed(String),
}

/// What the caller does next in a conversion.
#[derive(Debug, Clone)]
pub enum ConvertAction {
    EnsureParent,
    LocateTool,
    CreateStaging,
    WriteMetadata,
    RunConversion,
    CheckInterruption,
    /// Replace the target by the staging directory.
    Publish,
    /// The conversion failed: remove the staging directory when asked, then
    /// report the error.
    Fail { error: AppError, remove_staging: bool },
    /// The conversion was published, with this message.
    Finish { message: Option<String> },
}

/// A run going on to `phase` with `action`.
pub open spec fn goes_on(r2: ConvertRun, action: ConvertAction, phase: ConvertPhase, a: ConvertAction) -> bool {
    r2.phase == phase && action == a
}

/// A failure with a runtime error of this message.
pub open spec fn runtime_fail(action: ConvertAction, message: Seq<char>, remove: bool) -> bool {
    action matches ConvertAction::Fail { error: AppError::Runtime(m), remove_staging } && m@ == message && remove_staging == remove
}

/// What follows `event` in conversion `r`: each stage runs only after the one
/// before succeeded; the target is replaced only after the conversion into
/// the staging directory succeeded and no interruption arrived; every
/// failure after the staging directory was set up (metadata, conversion,
/// interruption) removes it and leaves the target as it was.
pub open spec fn convert_step_holds(r: ConvertRun, event: ConvertEvent, r2: ConvertRun, action: ConvertAction) -> bool {
    &&& r2.direction == r.direction && r2.target_parent == r.target_parent && r2.staging_dir == r.staging_dir
    &&& match (r.phase, event) {
        (ConvertPhase::EnsuringParent, ConvertEvent::ParentReady) =>
            goes_on(r2, action, ConvertPhase::LocatingTool, ConvertAction::LocateTool),
        (ConvertPhase::EnsuringParent, ConvertEvent::ParentFailed(e)) =>
            r2.phase == r.phase && runtime_fail(action, "failed to create convert target parent '"@ + r.target_parent@ + "': "@ + e@, false),
        (ConvertPhase::LocatingTool, ConvertEvent::ToolReady) =>
            goes_on(r2, action, ConvertPhase::CreatingStaging, ConvertAction::CreateStaging),
        (ConvertPhase::LocatingTool, ConvertEvent::ToolFailed(e)) =>
            r2.phase == r.phase && action == (ConvertAction::Fail { error: AppError::Platform(e), remove_staging: false }),
        (ConvertPhase::CreatingStaging, ConvertEvent::StagingReady) =>
            goes_on(r2, action, ConvertPhase::WritingMetadata, ConvertAction::WriteMetadata),
        (ConvertPhase::CreatingStaging, ConvertEvent::StagingFailed(e)) =>
            r2.phase == r.phase && runtime_fail(action, "failed to create convert staging directory '"@ + r.staging_dir@ + "': "@ + e@, false),
        (ConvertPhase::WritingMetadata, ConvertEvent::MetadataWritten) =>
            goes_on(r2, action, ConvertPhase::Converting, ConvertAction::RunConversion),
        (ConvertPhase::WritingMetadata, ConvertEvent::MetadataFailed(e)) =>
            r2.phase == r.phase && runtime_fail(action, "failed to write convert staging metadata '"@ + r.staging_dir@ + "': "@ + e@, true),
        (ConvertPhase::Converting, ConvertEvent::Converted(result)) =>
            if result.process.exit_code == 0 {
                goes_on(r2, action, ConvertPhase::CheckingInterruption, ConvertAction::CheckInterruption)
            } else {
                r2.phase == r.phase && (action matches ConvertAction::Fail { error: AppError::Platform(m), remove_staging }
                    && m@ == joined(convert_failure_details(r.direction, result), "; "@) && remove_staging)
            },
        (ConvertPhase::Converting, ConvertEvent::ConversionError(e)) =>
            r2.phase == r.phase && action == (ConvertAction::Fail { error: e, remove_staging: true }),
        (ConvertPhase::CheckingInterruption, ConvertEvent::NotInterrupted) =>
            goes_on(r2, action, ConvertPhase::Publishing, ConvertAction::Publish),
        (ConvertPhase::CheckingInterruption, ConvertEvent::Interrupted(m)) =>
            r2.phase == r.phase && runtime_fail(action,
                m@ + " for command 'convert' before entering convert publication safe point"@, true),
        (ConvertPhase::Publishing, ConvertEvent::Published { cleanup_warning, deferred }) =>
            r2.phase == r.phase && (action matches ConvertAction::Finish { message }
                && opt_view(message) == merged(opt_view(cleanup_warning), deferred_warning(deferred))),
        (ConvertPhase::Publishing, ConvertEvent::PublishFailed(e)) =>
            r2.phase == r.phase && runtime_fail(action, "failed to publish converted target: "@ + e@, false),
        _ => r2.phase == r.phase && action == convert_pending(r.phase),
    }
}

/// The action a conversion waits on in each phase.
pub open spec fn convert_pending(p: ConvertPhase) -> ConvertAction {
    match p {
        ConvertPhase::EnsuringParent => ConvertAction::EnsureParent,
        ConvertPhase::LocatingTool => ConvertAction::LocateTool,
        ConvertPhase::CreatingStaging => ConvertAction::CreateStaging,
        ConvertPhase::WritingMetadata => ConvertAction::WriteMetadata,
        ConvertPhase::Converting => ConvertAction::RunConversion,
        ConvertPhase::CheckingInterruption => ConvertAction::CheckInterruption,
        ConvertPhase::Publishing => ConvertAction::Publish,
    }
}

/// Starts a resolved conversion: make sure the target's parent exists.
pub fn convert_begin(direction: ConvertDirection, target_parent: String, staging_dir: String) -> (r: (ConvertRun, ConvertAction))
    ensures
        r.0.direction == direction && r.0.target_parent == target_parent && r.0.staging_dir == staging_dir,
        r.0.phase == ConvertPhase::EnsuringParent,
        r.1 == ConvertAction::EnsureParent,
{
    (ConvertRun { direction, target_parent, staging_dir, phase: ConvertPhase::EnsuringParent }, ConvertAction::EnsureParent)
}

/// Decides what follows `event` in a conversion, as `convert_step_holds` states.
pub fn convert_next(run: ConvertRun, event: ConvertEvent) -> (r: (ConvertRun, ConvertAction))
    ensures
        convert_step_holds(run, event, r.0, r.1),
{
    let phase = run.phase;
    let (next_phase, action) = match (phase, event) {
        (ConvertPhase::EnsuringParent, ConvertEvent::ParentReady) => (ConvertPhase::LocatingTool, ConvertAction::LocateTool),
        (ConvertPhase::EnsuringParent, ConvertEvent::ParentFailed(e)) => {
            let error = AppError::Runtime(String::from_str("failed to create convert target parent '").concat(run.target_parent.as_str()).concat("': ").concat(e.as_str()));
            (phase, ConvertAction::Fail { error, remove_staging: false })
        },
        (ConvertPhase::LocatingTool, ConvertEvent::ToolReady) => (ConvertPhase::CreatingStaging, ConvertAction::CreateStaging),
        (ConvertPhase::LocatingTool, ConvertEvent::ToolFailed(e)) =>
            (phase, ConvertAction::Fail { error: AppError::Platform(e), remove_staging: false }),
        (ConvertPhase::CreatingStaging, ConvertEvent::StagingReady) => (ConvertPhase::WritingMetadata, ConvertAction::WriteMetadata),
        (ConvertPhase::CreatingStaging, ConvertEvent::StagingFailed(e)) => {
            let error = AppError::Runtime(String::from_str("failed to create convert staging directory '").concat(run.staging_dir.as_str()).concat("': ").concat(e.as_str()));
            (phase, ConvertAction::Fail { error, remove_staging: false })
        },
        (ConvertPhase::WritingMetadata, ConvertEvent::MetadataWritten) => (ConvertPhase::Converting, ConvertAction::RunConversion),
        (ConvertPhase::WritingMetadata, ConvertEvent::MetadataFailed(e)) => {
            let error = AppError::Runtime(String::from_str("failed to write convert staging metadata '").concat(run.staging_dir.as_str()).concat("': ").concat(e.as_str()));
            (phase, ConvertAction::Fail { error, remove_staging: true })
        },
        (ConvertPhase::Converting, ConvertEvent::Converted(result)) => {
            match ensure_conversion_success(run.direction, &result) {
                Ok(()) => (ConvertPhase::CheckingInterruption, ConvertAction::CheckInterruption),
                Err(error) => (phase, ConvertAction::Fail { error, remove_staging: true }),
            }
        },
        (ConvertPhase::Converting, ConvertEvent::ConversionError(e)) =>
            (phase, ConvertAction::Fail { error: e, remove_staging: true }),
        (ConvertPhase::CheckingInterruption, ConvertEvent::NotInterrupted) => (ConvertPhase::Publishing, ConvertAction::Publish),
        (ConvertPhase::CheckingInterruption, ConvertEvent::Interrupted(m)) => {
            let error = AppError::Runtime(m.concat(" for command 'convert' before entering convert publication safe point"));
            (phase, ConvertAction::Fail { error, remove_staging: true })
        },
        (ConvertPhase::Publishing, ConvertEvent::Published { cleanup_warning, deferred }) => {
            let message = merge_optional_messages(cleanup_warning, deferred_interruption_warning(deferred));
            (phase, ConvertAction::Finish { message })
        },
        (ConvertPhase::Publishing, ConvertEvent::PublishFailed(e)) => {
            let error = AppError::Runtime(String::from_str("failed to publish converted target: ").concat(e.as_str()));
            (phase, ConvertAction::Fail { error, remove_staging: false })
        },
        (p, _) => {
            let action = match p {
                ConvertPhase::EnsuringParent => ConvertAction::EnsureParent,
                ConvertPhase::LocatingTool => ConvertAction::LocateTool,
                ConvertPhase::CreatingStaging => ConvertAction::CreateStaging,
                ConvertPhase::WritingMetadata => ConvertAction::WriteMetadata,
                ConvertPhase::Converting => ConvertAction::RunConversion,
                ConvertPhase::CheckingInterruption => ConvertAction::CheckInterruption,
                ConvertPhase::Publishing => ConvertAction::Publish,
            };
            (p, action)
        },
    };
    (ConvertRun { direction: run.direction, target_parent: run.target_parent, staging_dir: run.staging_dir, phase: next_phase }, action)
}

/// The target is replaced only after a successful conversion into the
/// staging directory with no interruption since.
pub proof fn lemma_publish_only_after_conversion(r: ConvertRun, event: ConvertEvent, r2: ConvertRun, action: ConvertAction)
    requires
        convert_step_holds(r, event, r2, action),
        action matches ConvertAction::Publish,
    ensures
        (r.phase == ConvertPhase::CheckingInterruption && event matches ConvertEvent::NotInterrupted)
            || r.phase == ConvertPhase::Publishing,
{
}

} // verus!
