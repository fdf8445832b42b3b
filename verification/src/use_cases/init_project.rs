//! Decisions of project initialization: creating the file infobase and
//! importing the source-sets into the EDT workspace.
//!
//! The caller performs each filesystem check and platform command in the
//! order these functions ask for, and hands the outcome back; the functions
//! decide how each step ends and what it reports.

use vstd::prelude::*;
use crate::config::model::{AppConfig, SourceFormat, SourceSetConfig, SourceSetPurpose, resolve_source_set_path, resolved_source_set_path};
use crate::domain::init::{InitResult, InitStep, InitStepStatus};
use crate::path::{join, join_seq, parent, parent_seq};
use crate::platform::result::PlatformCommandResult;
use crate::support::error::AppError;
use crate::text::{i32_to_decimal, is_blank, join_strings, joined, signed_decimal, trim, trim_seq, views_of};
use crate::use_cases::result::{UseCaseError, UseCaseErrorKind, UseCaseFailure, app_error_kind, app_error_message};

verus! {

/// File name of the internal marker written once the EDT workspace is initialized.
pub const EDT_WORKSPACE_MARKER: &'static str = ".v8tr-initialized";

/// The data file that exists once a file infobase has been created.
pub fn infobase_marker_path(path: &str) -> (r: String)
    ensures
        r@ == join_seq(path@, "1Cv8.1CD"@),
{
    join(path, "1Cv8.1CD")
}

/// The marker file inside an initialized EDT workspace.
pub fn edt_workspace_marker_path(path: &str) -> (r: String)
    ensures
        r@ == join_seq(path@, ".v8tr-initialized"@),
{
    proof { reveal_strlit(".v8tr-initialized"); }
    join(path, EDT_WORKSPACE_MARKER)
}

/// The source-sets of one purpose, in configuration order.
pub open spec fn of_purpose(s: Seq<SourceSetConfig>, p: SourceSetPurpose) -> Seq<SourceSetConfig> {
    s.filter(|x: SourceSetConfig| x.purpose == p)
}

/// The import order: the configuration, then extensions, then external data
/// processors, then external reports, each group in configuration order.
pub open spec fn import_order(s: Seq<SourceSetConfig>) -> Seq<SourceSetConfig> {
    of_purpose(s, SourceSetPurpose::Configuration)
        + of_purpose(s, SourceSetPurpose::Extension)
        + of_purpose(s, SourceSetPurpose::ExternalDataProcessors)
        + of_purpose(s, SourceSetPurpose::ExternalReports)
}

/// The source-sets a sequence of references points at.
pub open spec fn derefs(v: Seq<&SourceSetConfig>) -> Seq<SourceSetConfig> {
    v.map_values(|x: &SourceSetConfig| *x)
}

/// Orders the source-sets for import: the configuration before the
/// extensions, then external data processors and external reports; within
/// each group the configured order is kept.
pub fn ordered_source_sets(config: &AppConfig) -> (r: Vec<&SourceSetConfig>)
    ensures
        derefs(r@) == import_order(config.source_sets@),
{
    let ghost s = config.source_sets@;
    let mut configuration: Vec<&SourceSetConfig> = Vec::new();
    let mut extensions: Vec<&SourceSetConfig> = Vec::new();
    let mut processors: Vec<&SourceSetConfig> = Vec::new();
    let mut reports: Vec<&SourceSetConfig> = Vec::new();
    let mut i: usize = 0;
    while i < config.source_sets.len()
        invariant
            s == config.source_sets@,
            i <= s.len(),
            derefs(configuration@) == of_purpose(s.take(i as int), SourceSetPurpose::Configuration),
            derefs(extensions@) == of_purpose(s.take(i as int), SourceSetPurpose::Extension),
            derefs(processors@) == of_purpose(s.take(i as int), SourceSetPurpose::ExternalDataProcessors),
            derefs(reports@) == of_purpose(s.take(i as int), SourceSetPurpose::ExternalReports),
        decreases s.len() - i,
    {
        let ss = &config.source_sets[i];
        proof {
            assert(s.take(i as int + 1) =~= s.take(i as int).push(s[i as int]));
            s.take(i as int).lemma_filter_push(s[i as int], |x: SourceSetConfig| x.purpose == SourceSetPurpose::Configuration);
            s.take(i as int).lemma_filter_push(s[i as int], |x: SourceSetConfig| x.purpose == SourceSetPurpose::Extension);
            s.take(i as int).lemma_filter_push(s[i as int], |x: SourceSetConfig| x.purpose == SourceSetPurpose::ExternalDataProcessors);
            s.take(i as int).lemma_filter_push(s[i as int], |x: SourceSetConfig| x.purpose == SourceSetPurpose::ExternalReports);
        }
        match ss.purpose {
            SourceSetPurpose::Configuration => configuration.push(ss),
            SourceSetPurpose::Extension => extensions.push(ss),
            SourceSetPurpose::ExternalDataProcessors => processors.push(ss),
            SourceSetPurpose::ExternalReports => reports.push(ss),
        }
        i = i + 1;
    }
    proof { assert(s.take(s.len() as int) =~= s); }
    let ghost (c0, e0, p0, r0) = (configuration@, extensions@, processors@, reports@);
    configuration.append(&mut extensions);
    configuration.append(&mut processors);
    configuration.append(&mut reports);
    proof { assert(derefs(c0 + e0 + p0 + r0) =~= derefs(c0) + derefs(e0) + derefs(p0) + derefs(r0)); }
    configuration
}

/// The details of a failed platform command, in the order they are reported.
pub open spec fn failure_details(action: Seq<char>, target: Seq<char>, result: PlatformCommandResult) -> Seq<Seq<char>> {
    let head = seq![action + " failed for '"@ + target + "' with exit code "@ + signed_decimal(result.process.exit_code as int)];
    let out = if trim_seq(result.process.stdout@).len() > 0 { seq!["stdout: "@ + trim_seq(result.process.stdout@)] } else { Seq::empty() };
    let err = if trim_seq(result.process.stderr@).len() > 0 { seq!["stderr: "@ + trim_seq(result.process.stderr@)] } else { Seq::empty() };
    let log = match result.platform_log {
        Some(l) => if trim_seq(l@).len() > 0 { seq!["platform log: "@ + trim_seq(l@)] } else { Seq::empty() },
        None => Seq::empty(),
    };
    let path = match result.platform_log_path {
        Some(p) => seq!["platform log path: "@ + p@],
        None => Seq::empty(),
    };
    head + out + err + log + path
}

/// Turns a failed platform command into a platform error that lists its exit
/// code and whatever it printed or logged; a zero exit code is success.
pub fn ensure_platform_success(action: &str, target: &str, result: &PlatformCommandResult) -> (r: Result<(), AppError>)
    ensures
        result.process.exit_code == 0 <==> r is Ok,
        r matches Err(e) ==> e matches AppError::Platform(m) && m@ == joined(failure_details(action@, target@, *result), "; "@),
{
    if result.process.exit_code == 0 {
        return Ok(());
    }
    let mut details: Vec<String> = Vec::new();
    let code = i32_to_decimal(result.process.exit_code);
    details.push(String::from_str(action).concat(" failed for '").concat(target).concat("' with exit code ").concat(code.as_str()));
    let ghost spec_details = failure_details(action@, target@, *result);
    if !is_blank(result.process.stdout.as_str()) {
        let stdout = trim(result.process.stdout.as_str());
        details.push(String::from_str("stdout: ").concat(stdout.as_str()));
    }
    if !is_blank(result.process.stderr.as_str()) {
        let stderr = trim(result.process.stderr.as_str());
        details.push(String::from_str("stderr: ").concat(stderr.as_str()));
    }
    match &result.platform_log {
        Some(log) => {
            if !is_blank(log.as_str()) {
                let log = trim(log.as_str());
                details.push(String::from_str("platform log: ").concat(log.as_str()));
            }
        },
        None => {},
    }
    match &result.platform_log_path {
        Some(p) => {
            details.push(String::from_str("platform log path: ").concat(p.as_str()));
        },
        None => {},
    }
    proof {
        reveal_strlit("stdout: ");
        reveal_strlit("stderr: ");
        reveal_strlit("platform log: ");
        reveal_strlit("platform log path: ");
        assert(views_of(details@) =~= spec_details);
    }
    let message = join_strings(&details, "; ");
    Err(AppError::Platform(message))
}

/// How one initialization step ended, and the error it raised if it failed.
#[derive(Debug, Clone)]
pub struct StepOutcome {
    pub step: InitStep,
    pub error: Option<UseCaseError>,
}

impl StepOutcome {
    /// A step that did its work.
    pub fn ok(target: &str, action: &str, duration_ms: u64, message: String) -> (o: Self)
        ensures
            o.step.target@ == target@,
            o.step.action@ == action@,
            o.step.status == InitStepStatus::Succeeded,
            o.step.message == Some(message),
            o.step.duration_ms == duration_ms,
            o.error is None,
    {
        StepOutcome {
            step: InitStep {
                target: String::from_str(target),
                action: String::from_str(action),
                status: InitStepStatus::Succeeded,
                message: Some(message),
                duration_ms,
            },
            error: None,
        }
    }

    /// A step that found nothing to do.
    pub fn skipped(target: &str, action: &str, duration_ms: u64, message: String) -> (o: Self)
        ensures
            o.step.target@ == target@,
            o.step.action@ == action@,
            o.step.status == InitStepStatus::Skipped,
            o.step.message == Some(message),
            o.step.duration_ms == duration_ms,
            o.error is None,
    {
        StepOutcome {
            step: InitStep {
                target: String::from_str(target),
                action: String::from_str(action),
                status: InitStepStatus::Skipped,
                message: Some(message),
                duration_ms,
            },
            error: None,
        }
    }

    /// A step that failed; its message is the error's message.
    pub fn failed(target: &str, action: &str, duration_ms: u64, error: UseCaseError) -> (o: Self)
        ensures
            o.step.target@ == target@,
            o.step.action@ == action@,
            o.step.status == InitStepStatus::Failed,
            o.step.message matches Some(m) && m@ == error.spec_message(),
            o.step.duration_ms == duration_ms,
            o.error == Some(error),
    {
        let message = String::from_str(error.message());
        StepOutcome {
            step: InitStep {
                target: String::from_str(target),
                action: String::from_str(action),
                status: InitStepStatus::Failed,
                message: Some(message),
                duration_ms,
            },
            error: Some(error),
        }
    }
}

/// Appends a step and keeps the first error seen: a later failure never
/// replaces an earlier one.
pub fn record_step(steps: &mut Vec<InitStep>, first_error: &mut Option<UseCaseError>, outcome: StepOutcome)
    ensures
        final(steps)@ == old(steps)@.push(outcome.step),
        *final(first_error) == (match *old(first_error) {
            None => outcome.error,
            Some(e) => Some(e),
        }),
{
    if first_error.is_none() {
        *first_error = outcome.error;
    }
    steps.push(outcome.step);
}

/// The steps of a run of outcomes.
pub open spec fn steps_of(outcomes: Seq<StepOutcome>) -> Seq<InitStep> {
    outcomes.map_values(|o: StepOutcome| o.step)
}

/// The error of the first failed outcome, if any.
pub open spec fn first_error_of(outcomes: Seq<StepOutcome>) -> Option<UseCaseError>
    decreases outcomes.len(),
{
    if outcomes.len() == 0 {
        None
    } else {
        match first_error_of(outcomes.drop_last()) {
            Some(e) => Some(e),
            None => outcomes.last().error,
        }
    }
}

/// Gathers the step outcomes of a run, in order: the run succeeds when no
/// step failed, and otherwise fails with the first step's error, still
/// carrying every step.
pub fn finish_init(outcomes: Vec<StepOutcome>, duration_ms: u64) -> (r: Result<InitResult, UseCaseFailure<InitResult>>)
    ensures
        match r {
            Ok(result) => {
                &&& first_error_of(outcomes@) is None
                &&& result.ok
                &&& result.steps@ == steps_of(outcomes@)
                &&& result.duration_ms == duration_ms
            },
            Err(failure) => {
                &&& first_error_of(outcomes@) == Some(failure.error)
                &&& failure.payload matches Some(result) && {
                    &&& !result.ok
                    &&& result.steps@ == steps_of(outcomes@)
                    &&& result.duration_ms == duration_ms
                }
            },
        },
{
    let mut steps: Vec<InitStep> = Vec::new();
    let mut first_error: Option<UseCaseError> = None;
    let mut rest = outcomes;
    let ghost all = rest@;
    let ghost mut done: int = 0;
    while rest.len() > 0
        invariant
            0 <= done <= all.len(),
            rest@ == all.skip(done),
            steps@ == steps_of(all.take(done)),
            first_error == first_error_of(all.take(done)),
        decreases rest.len(),
    {
        let o = rest.remove(0);
        proof {
            assert(all.take(done + 1).drop_last() =~= all.take(done));
            assert(all.take(done + 1).last() == o);
            assert(steps_of(all.take(done + 1)) =~= steps_of(all.take(done)).push(o.step));
            assert(rest@ =~= all.skip(done + 1));
        }
        record_step(&mut steps, &mut first_error, o);
        proof { done = done + 1; }
    }
    proof { assert(all.take(done) =~= all); }
    let ok = first_error.is_none();
    let result = InitResult { ok, steps, duration_ms };
    match first_error {
        Some(error) => Err(UseCaseFailure::with_payload(error, result)),
        None => Ok(result),
    }
}

/// An outcome of `target`/`action` that failed with an error of `kind` and `message`.
pub open spec fn failed_with(o: StepOutcome, target: Seq<char>, action: Seq<char>, kind: UseCaseErrorKind, message: Seq<char>, duration_ms: u64) -> bool {
    &&& o.step.target@ == target
    &&& o.step.action@ == action
    &&& o.step.status == InitStepStatus::Failed
    &&& o.step.message matches Some(m) && m@ == message
    &&& o.step.duration_ms == duration_ms
    &&& o.error matches Some(e) && e.spec_kind() == kind && e.spec_message() == message
}

/// An outcome of `target`/`action` that ended with `status` (not a failure) and `message`.
pub open spec fn ended_with(o: StepOutcome, target: Seq<char>, action: Seq<char>, status: InitStepStatus, message: Seq<char>, duration_ms: u64) -> bool {
    &&& o.step.target@ == target
    &&& o.step.action@ == action
    &&& o.step.status == status
    &&& o.step.message matches Some(m) && m@ == message
    &&& o.step.duration_ms == duration_ms
    &&& o.error is None
}

fn runtime_failure(target: &str, action: &str, duration_ms: u64, message: String) -> (o: StepOutcome)
    ensures
        failed_with(o, target@, action@, UseCaseErrorKind::Runtime, message@, duration_ms),
{
    StepOutcome::failed(target, action, duration_ms, UseCaseError::new(UseCaseErrorKind::Runtime, message))
}

/// What ensuring the infobase does after its first checks.
#[derive(Debug, Clone)]
pub enum InfobaseStart {
    /// The step is over.
    Finished(StepOutcome),
    /// Prepare the parent directory, then create the infobase.
    Create { marker: String, parent: String },
}

/// The first checks of the infobase step. `infobase_dir` is the directory of
/// a file infobase, absent for other connections; `marker_exists` tells
/// whether its data file exists already.
pub fn infobase_start(infobase_dir: Option<String>, marker_exists: bool, duration_ms: u64) -> (r: InfobaseStart)
    ensures
        match infobase_dir {
            None => r matches InfobaseStart::Finished(o) && failed_with(o, "infobase"@, "create"@, UseCaseErrorKind::Runtime,
                "init currently supports only file-based infobase connections"@, duration_ms),
            Some(dir) => {
                let marker = join_seq(dir@, "1Cv8.1CD"@);
                if marker_exists {
                    r matches InfobaseStart::Finished(o) && ended_with(o, "infobase"@, "create"@, InitStepStatus::Skipped,
                        "infobase already exists: "@ + marker, duration_ms)
                } else {
                    match parent_seq(dir@) {
                        None => r matches InfobaseStart::Finished(o) && failed_with(o, "infobase"@, "create"@, UseCaseErrorKind::Runtime,
                            "infobase path '"@ + dir@ + "' has no parent directory"@, duration_ms),
                        Some(p) => r matches InfobaseStart::Create { marker: m, parent: q } && m@ == marker && q@ == p,
                    }
                }
            },
        },
{
    let dir = match infobase_dir {
        None => {
            return InfobaseStart::Finished(runtime_failure("infobase", "create", duration_ms,
                String::from_str("init currently supports only file-based infobase connections")));
        },
        Some(d) => d,
    };
    let marker = infobase_marker_path(dir.as_str());
    if marker_exists {
        return InfobaseStart::Finished(StepOutcome::skipped("infobase", "create", duration_ms,
            String::from_str("infobase already exists: ").concat(marker.as_str())));
    }
    match parent(dir.as_str()) {
        None => InfobaseStart::Finished(runtime_failure("infobase", "create", duration_ms,
            String::from_str("infobase path '").concat(dir.as_str()).concat("' has no parent directory"))),
        Some(p) => InfobaseStart::Create { marker, parent: p },
    }
}

/// The infobase step when its parent directory could not be created.
pub fn infobase_parent_failed(parent: &str, error: &str, duration_ms: u64) -> (o: StepOutcome)
    ensures
        failed_with(o, "infobase"@, "create"@, UseCaseErrorKind::Runtime,
            "failed to prepare infobase parent '"@ + parent@ + "': "@ + error@, duration_ms),
{
    runtime_failure("infobase", "create", duration_ms,
        String::from_str("failed to prepare infobase parent '").concat(parent).concat("': ").concat(error))
}

/// How the infobase step ends once the create command ran: a command that
/// could not run, or that failed, fails the step; so does a successful
/// command that left no data file behind.
pub fn infobase_created(marker: &str, created: Result<PlatformCommandResult, AppError>, marker_exists_after: bool, duration_ms: u64) -> (o: StepOutcome)
    ensures
        match created {
            Err(e) => failed_with(o, "infobase"@, "create"@, app_error_kind(e), app_error_message(e), duration_ms),
            Ok(res) => if res.process.exit_code != 0 {
                failed_with(o, "infobase"@, "create"@, UseCaseErrorKind::Platform,
                    joined(failure_details("create infobase"@, "infobase"@, res), "; "@), duration_ms)
            } else if !marker_exists_after {
                failed_with(o, "infobase"@, "create"@, UseCaseErrorKind::Runtime,
                    "infobase creation did not produce marker file '"@ + marker@ + "'"@, duration_ms)
            } else {
                ended_with(o, "infobase"@, "create"@, InitStepStatus::Succeeded, "infobase created: "@ + marker@, duration_ms)
            },
        },
{
    match created {
        Err(e) => StepOutcome::failed("infobase", "create", duration_ms, UseCaseError::from_app_error(e)),
        Ok(res) => {
            match ensure_platform_success("create infobase", "infobase", &res) {
                Err(e) => {
                    return StepOutcome::failed("infobase", "create", duration_ms, UseCaseError::from_app_error(e));
                },
                Ok(()) => {},
            }
            if !marker_exists_after {
                return runtime_failure("infobase", "create", duration_ms,
                    String::from_str("infobase creation did not produce marker file '").concat(marker).concat("'"));
            }
            StepOutcome::ok("infobase", "create", duration_ms, String::from_str("infobase created: ").concat(marker))
        },
    }
}

/// The EDT workspace of a project: `edt-workspace` below the work path.
pub fn edt_workspace_path(work_path: &str) -> (r: String)
    ensures
        r@ == join_seq(work_path@, "edt-workspace"@),
{
    join(work_path, "edt-workspace")
}

/// The first checks of the EDT workspace step: nothing to do for a Designer
/// project or a workspace initialized before; a file in the workspace's place
/// fails the step. `None` means: go on and import.
pub fn edt_workspace_start(format: SourceFormat, workspace: &str, exists: bool, is_dir: bool, marker_exists: bool, duration_ms: u64) -> (r: Option<StepOutcome>)
    ensures
        format != SourceFormat::Edt ==> (r matches Some(o) && ended_with(o, "edt_workspace"@, "import"@, InitStepStatus::Skipped,
            "EDT workspace initialization is not applicable for format=DESIGNER"@, duration_ms)),
        format == SourceFormat::Edt && exists && !is_dir ==> (r matches Some(o) && failed_with(o, "edt_workspace"@, "import"@,
            UseCaseErrorKind::Runtime, "EDT workspace path exists but is not a directory: "@ + workspace@, duration_ms)),
        format == SourceFormat::Edt && exists && is_dir && marker_exists ==> (r matches Some(o) && ended_with(o, "edt_workspace"@,
            "import"@, InitStepStatus::Skipped, "workspace already initialized: "@ + workspace@, duration_ms)),
        format == SourceFormat::Edt && !(exists && !is_dir) && !(exists && marker_exists) ==> r is None,
{
    if format != SourceFormat::Edt {
        return Some(StepOutcome::skipped("edt_workspace", "import", duration_ms,
            String::from_str("EDT workspace initialization is not applicable for format=DESIGNER")));
    }
    if exists && !is_dir {
        return Some(runtime_failure("edt_workspace", "import", duration_ms,
            String::from_str("EDT workspace path exists but is not a directory: ").concat(workspace)));
    }
    if exists && marker_exists {
        return Some(StepOutcome::skipped("edt_workspace", "import", duration_ms,
            String::from_str("workspace already initialized: ").concat(workspace)));
    }
    None
}

/// A source-set to import into the EDT workspace: its name and resolved path.
#[derive(Debug, Clone, PartialEq, Eq)]
pub struct ImportTarget {
    pub name: String,
    pub path: String,
}

/// The source-sets to import into the EDT workspace, in import order, with
/// their paths resolved against the base path.
pub fn edt_import_targets(config: &AppConfig) -> (r: Vec<ImportTarget>)
    ensures
        r.len() == import_order(config.source_sets@).len(),
        forall|i: int| 0 <= i < r.len() ==> {
            &&& (#[trigger] r@[i]).name@ == import_order(config.source_sets@)[i].name@
            &&& r@[i].path@ == resolved_source_set_path(config.base_path@, import_order(config.source_sets@)[i].path@)
        },
{
    let ordered = ordered_source_sets(config);
    let ghost order = import_order(config.source_sets@);
    let mut r: Vec<ImportTarget> = Vec::new();
    let mut i: usize = 0;
    while i < ordered.len()
        invariant
            i <= ordered.len(),
            derefs(ordered@) == order,
            r.len() == i,
            forall|k: int| 0 <= k < i ==> {
                &&& (#[trigger] r@[k]).name@ == order[k].name@
                &&& r@[k].path@ == resolved_source_set_path(config.base_path@, order[k].path@)
            },
        decreases ordered.len() - i,
    {
        let ss: &SourceSetConfig = ordered[i];
        proof { assert(derefs(ordered@)[i as int] == *ordered@[i as int]); }
        r.push(ImportTarget { name: ss.name.clone(), path: resolve_source_set_path(config, ss) });
        i = i + 1;
    }
    r
}

/// Why the EDT workspace step failed after its first checks.
#[derive(Debug, Clone)]
pub enum EdtWorkspaceFailure {
    /// The workspace directory could not be created; the I/O error's text.
    CreateDir(String),
    /// EDT could not be located, started or asked to import; its error's text.
    Tool(String),
    /// EDT ran the import of a source-set and reported a failure.
    Import { source_set: String, result: PlatformCommandResult },
    /// The marker could not be written; the I/O error's text.
    PersistMarker(String),
}

/// How the EDT workspace step ends, given the first failure met while
/// creating the workspace, importing the source-sets and writing the marker.
pub fn edt_workspace_finish(workspace: &str, marker: &str, failure: Option<EdtWorkspaceFailure>, duration_ms: u64) -> (o: StepOutcome)
    requires
        failure matches Some(EdtWorkspaceFailure::Import { result, .. }) ==> result.process.exit_code != 0,
    ensures
        match failure {
            None => ended_with(o, "edt_workspace"@, "import"@, InitStepStatus::Succeeded, "workspace initialized: "@ + workspace@, duration_ms),
            Some(EdtWorkspaceFailure::CreateDir(e)) => failed_with(o, "edt_workspace"@, "import"@, UseCaseErrorKind::Runtime,
                "failed to create EDT workspace '"@ + workspace@ + "': "@ + e@, duration_ms),
            Some(EdtWorkspaceFailure::Tool(e)) => failed_with(o, "edt_workspace"@, "import"@, UseCaseErrorKind::Platform, e@, duration_ms),
            Some(EdtWorkspaceFailure::Import { source_set, result }) => failed_with(o, "edt_workspace"@, "import"@,
                UseCaseErrorKind::Platform, joined(failure_details("import EDT project"@, source_set@, result), "; "@), duration_ms),
            Some(EdtWorkspaceFailure::PersistMarker(e)) => failed_with(o, "edt_workspace"@, "import"@, UseCaseErrorKind::Runtime,
                "failed to persist EDT workspace marker '"@ + marker@ + "': "@ + e@, duration_ms),
        },
{
    match failure {
        None => StepOutcome::ok("edt_workspace", "import", duration_ms, String::from_str("workspace initialized: ").concat(workspace)),
        Some(EdtWorkspaceFailure::CreateDir(e)) => runtime_failure("edt_workspace", "import", duration_ms,
            String::from_str("failed to create EDT workspace '").concat(workspace).concat("': ").concat(e.as_str())),
        Some(EdtWorkspaceFailure::Tool(e)) => StepOutcome::failed("edt_workspace", "import", duration_ms,
            UseCaseError::new(UseCaseErrorKind::Platform, e)),
        Some(EdtWorkspaceFailure::Import { source_set, result }) => {
            match ensure_platform_success("import EDT project", source_set.as_str(), &result) {
                Err(e) => StepOutcome::failed("edt_workspace", "import", duration_ms, UseCaseError::from_app_error(e)),
                Ok(()) => {
                    proof { assert(false); }
                    StepOutcome::ok("edt_workspace", "import", duration_ms, String::new())
                },
            }
        },
        Some(EdtWorkspaceFailure::PersistMarker(e)) => runtime_failure("edt_workspace", "import", duration_ms,
            String::from_str("failed to persist EDT workspace marker '").concat(marker).concat("': ").concat(e.as_str())),
    }
}


/// Where the EDT workspace step stands after its first checks.
#[derive(Debug, Clone)]
pub enum EdtWorkspacePhase {
    CreatingDir,
    LocatingTool,
    /// Importing the target at the run's position.
    Importing,
    WritingMarker,
    /// The step is over, with its first failure if any.
    Finished(Option<EdtWorkspaceFailure>),
}

/// The state of the EDT workspace step: the targets in import order, how
/// many were imported (the position of the one being imported) and the phase.
#[derive(Debug, Clone)]
pub struct EdtWorkspaceRun {
    pub targets: Vec<ImportTarget>,
    pub next: usize,
    pub phase: EdtWorkspacePhase,
}

/// What happened to the last action of the EDT workspace step.
#[derive(Debug, Clone)]
pub enum EdtWorkspaceEvent {
    DirCreated,
    DirFailed(String),
    ToolReady,
    ToolFailed(String),
    /// EDT ran the import of the current target.
    Imported(PlatformCommandResult),
    /// EDT could not be asked to import the current target.
    ImportError(String),
    MarkerWritten,
    MarkerFailed(String),
}

/// What the caller does next in the EDT workspace step.
#[derive(Debug, Clone)]
pub enum EdtWorkspaceAction {
    CreateDir,
    LocateTool,
    Import { index: usize },
    WriteMarker,
    /// The step is over: report it with `edt_workspace_finish`, with the
    /// failure the run's phase holds.
    Finish,
}

/// A well-formed run: an import stands on a target, the marker is written
/// only once every target was imported, and a success follows the marker.
pub open spec fn edt_run_wf(r: EdtWorkspaceRun) -> bool {
    &&& r.next <= r.targets@.len() <= usize::MAX
    &&& r.phase matches EdtWorkspacePhase::Importing ==> r.next < r.targets@.len()
    &&& r.phase matches EdtWorkspacePhase::WritingMarker ==> r.next == r.targets@.len()
    &&& r.phase matches EdtWorkspacePhase::Finished(None) ==> r.next == r.targets@.len()
    &&& r.phase matches EdtWorkspacePhase::Finished(Some(EdtWorkspaceFailure::Import { result, .. })) ==> result.process.exit_code != 0
}

/// The action a run waits on.
pub open spec fn edt_pending(r: EdtWorkspaceRun) -> EdtWorkspaceAction {
    match r.phase {
        EdtWorkspacePhase::CreatingDir => EdtWorkspaceAction::CreateDir,
        EdtWorkspacePhase::LocatingTool => EdtWorkspaceAction::LocateTool,
        EdtWorkspacePhase::Importing => EdtWorkspaceAction::Import { index: r.next },
        EdtWorkspacePhase::WritingMarker => EdtWorkspaceAction::WriteMarker,
        EdtWorkspacePhase::Finished(_) => EdtWorkspaceAction::Finish,
    }
}

/// The phase and position after the imports from `next` on: the import of
/// `next` when there is one, else the marker.
pub open spec fn import_from(targets: Seq<ImportTarget>, next: int) -> (EdtWorkspacePhase, usize, EdtWorkspaceAction) {
    if next < targets.len() {
        (EdtWorkspacePhase::Importing, next as usize, EdtWorkspaceAction::Import { index: next as usize })
    } else {
        (EdtWorkspacePhase::WritingMarker, next as usize, EdtWorkspaceAction::WriteMarker)
    }
}

/// The workspace is created, EDT located, the targets imported one after
/// another in order, then the marker written; the first failure ends the
/// step with that failure, and the step succeeds only after the marker.
pub open spec fn edt_workspace_step(r: EdtWorkspaceRun, e: EdtWorkspaceEvent) -> (EdtWorkspacePhase, usize, EdtWorkspaceAction) {
    let fail = |f: EdtWorkspaceFailure| (EdtWorkspacePhase::Finished(Some(f)), r.next, EdtWorkspaceAction::Finish);
    match (r.phase, e) {
        (EdtWorkspacePhase::CreatingDir, EdtWorkspaceEvent::DirCreated) =>
            (EdtWorkspacePhase::LocatingTool, r.next, EdtWorkspaceAction::LocateTool),
        (EdtWorkspacePhase::CreatingDir, EdtWorkspaceEvent::DirFailed(m)) => fail(EdtWorkspaceFailure::CreateDir(m)),
        (EdtWorkspacePhase::LocatingTool, EdtWorkspaceEvent::ToolReady) => import_from(r.targets@, 0),
        (EdtWorkspacePhase::LocatingTool, EdtWorkspaceEvent::ToolFailed(m)) => fail(EdtWorkspaceFailure::Tool(m)),
        (EdtWorkspacePhase::Importing, EdtWorkspaceEvent::Imported(result)) =>
            if result.process.exit_code == 0 {
                import_from(r.targets@, r.next + 1)
            } else {
                fail(EdtWorkspaceFailure::Import { source_set: r.targets@[r.next as int].name, result })
            },
        (EdtWorkspacePhase::Importing, EdtWorkspaceEvent::ImportError(m)) => fail(EdtWorkspaceFailure::Tool(m)),
        (EdtWorkspacePhase::WritingMarker, EdtWorkspaceEvent::MarkerWritten) =>
            (EdtWorkspacePhase::Finished(None), r.next, EdtWorkspaceAction::Finish),
        (EdtWorkspacePhase::WritingMarker, EdtWorkspaceEvent::MarkerFailed(m)) => fail(EdtWorkspaceFailure::PersistMarker(m)),
        _ => (r.phase, r.next, edt_pending(r)),
    }
}

/// Starts the EDT workspace step, after `edt_workspace_start` found nothing
/// in the way, over the targets of `edt_import_targets`: create the workspace.
pub fn edt_workspace_begin(targets: Vec<ImportTarget>) -> (r: (EdtWorkspaceRun, EdtWorkspaceAction))
    ensures
        edt_run_wf(r.0),
        r.0.targets@ == targets@,
        r.0.next == 0,
        r.0.phase matches EdtWorkspacePhase::CreatingDir,
        r.1 matches EdtWorkspaceAction::CreateDir,
{
    let count: usize = targets.len();
    assert(targets@.len() == count);
    (EdtWorkspaceRun { targets, next: 0, phase: EdtWorkspacePhase::CreatingDir }, EdtWorkspaceAction::CreateDir)
}

/// Decides what follows `event` in the EDT workspace step, as
/// `edt_workspace_step` states.
pub fn edt_workspace_next(run: EdtWorkspaceRun, event: EdtWorkspaceEvent) -> (r: (EdtWorkspaceRun, EdtWorkspaceAction))
    requires
        edt_run_wf(run),
    ensures
        edt_run_wf(r.0),
        r.0.targets@ == run.targets@,
        ({
            let (phase, next, action) = edt_workspace_step(run, event);
            r.0.phase == phase && r.0.next == next && r.1 == action
        }),
{
    let EdtWorkspaceRun { targets, next, phase } = run;
    let count: usize = targets.len();
    match (phase, event) {
        (EdtWorkspacePhase::CreatingDir, EdtWorkspaceEvent::DirCreated) =>
            (EdtWorkspaceRun { targets, next, phase: EdtWorkspacePhase::LocatingTool }, EdtWorkspaceAction::LocateTool),
        (EdtWorkspacePhase::CreatingDir, EdtWorkspaceEvent::DirFailed(m)) => {
            let f = EdtWorkspaceFailure::CreateDir(m);
            (EdtWorkspaceRun { targets, next, phase: EdtWorkspacePhase::Finished(Some(f)) }, EdtWorkspaceAction::Finish)
        },
        (EdtWorkspacePhase::LocatingTool, EdtWorkspaceEvent::ToolReady) => {
            if count > 0 {
                (EdtWorkspaceRun { targets, next: 0, phase: EdtWorkspacePhase::Importing }, EdtWorkspaceAction::Import { index: 0 })
            } else {
                (EdtWorkspaceRun { targets, next: 0, phase: EdtWorkspacePhase::WritingMarker }, EdtWorkspaceAction::WriteMarker)
            }
        },
        (EdtWorkspacePhase::LocatingTool, EdtWorkspaceEvent::ToolFailed(m)) => {
            let f = EdtWorkspaceFailure::Tool(m);
            (EdtWorkspaceRun { targets, next, phase: EdtWorkspacePhase::Finished(Some(f)) }, EdtWorkspaceAction::Finish)
        },
        (EdtWorkspacePhase::Importing, EdtWorkspaceEvent::Imported(result)) => {
            if result.process.exit_code == 0 {
                if next + 1 < count {
                    (EdtWorkspaceRun { targets, next: next + 1, phase: EdtWorkspacePhase::Importing }, EdtWorkspaceAction::Import { index: next + 1 })
                } else {
                    (EdtWorkspaceRun { targets, next: next + 1, phase: EdtWorkspacePhase::WritingMarker }, EdtWorkspaceAction::WriteMarker)
                }
            } else {
                let f = EdtWorkspaceFailure::Import { source_set: targets[next].name.clone(), result };
                (EdtWorkspaceRun { targets, next, phase: EdtWorkspacePhase::Finished(Some(f)) }, EdtWorkspaceAction::Finish)
            }
        },
        (EdtWorkspacePhase::Importing, EdtWorkspaceEvent::ImportError(m)) => {
            let f = EdtWorkspaceFailure::Tool(m);
            (EdtWorkspaceRun { targets, next, phase: EdtWorkspacePhase::Finished(Some(f)) }, EdtWorkspaceAction::Finish)
        },
        (EdtWorkspacePhase::WritingMarker, EdtWorkspaceEvent::MarkerWritten) =>
            (EdtWorkspaceRun { targets, next, phase: EdtWorkspacePhase::Finished(None) }, EdtWorkspaceAction::Finish),
        (EdtWorkspacePhase::WritingMarker, EdtWorkspaceEvent::MarkerFailed(m)) => {
            let f = EdtWorkspaceFailure::PersistMarker(m);
            (EdtWorkspaceRun { targets, next, phase: EdtWorkspacePhase::Finished(Some(f)) }, EdtWorkspaceAction::Finish)
        },
        (p, _) => {
            let action = match &p {
                EdtWorkspacePhase::CreatingDir => EdtWorkspaceAction::CreateDir,
                EdtWorkspacePhase::LocatingTool => EdtWorkspaceAction::LocateTool,
                EdtWorkspacePhase::Importing => EdtWorkspaceAction::Import { index: next },
                EdtWorkspacePhase::WritingMarker => EdtWorkspaceAction::WriteMarker,
                EdtWorkspacePhase::Finished(_) => EdtWorkspaceAction::Finish,
            };
            (EdtWorkspaceRun { targets, next, phase: p }, action)
        },
    }
}

/// The EDT workspace step succeeds only when every target was imported and
/// the marker written: a successful finish follows the marker, and the
/// marker is asked for only once the last import succeeded.
pub proof fn lemma_edt_success_needs_every_import(r: EdtWorkspaceRun, e: EdtWorkspaceEvent)
    requires
        edt_run_wf(r),
    ensures
        edt_workspace_step(r, e).0 matches EdtWorkspacePhase::Finished(None) ==>
            (r.phase matches EdtWorkspacePhase::WritingMarker && e matches EdtWorkspaceEvent::MarkerWritten
                && r.next == r.targets@.len())
            || r.phase matches EdtWorkspacePhase::Finished(None),
        edt_workspace_step(r, e).2 matches EdtWorkspaceAction::WriteMarker ==> edt_workspace_step(r, e).1 == r.targets@.len(),
        edt_workspace_step(r, e).2 matches EdtWorkspaceAction::Import { index } ==>
            index < r.targets@.len() && (index == 0 || index == r.next + 1 || index == r.next),
{
}

} // verus!
