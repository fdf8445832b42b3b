//! Text rendering of command results for the terminal.
//!
//! Each renderer returns the lines to print, in order; the presenter prints
//! success lines and informational lines in their own styles.

use vstd::prelude::*;
use crate::domain::build_outcome::{BuildMode, BuildResult, BuildStep};
use crate::domain::dump::{DumpMode, DumpResult};
use crate::domain::issue::{Issue, IssueSeverity};
use crate::domain::syntax::{SyntaxCheckResult, SyntaxCheckStatus};
use crate::domain::test::TestStatus;
use crate::text::{decimal, i32_to_decimal, signed_decimal, trim, trim_seq, u64_to_decimal};

verus! {

/// One line of terminal output.
#[derive(Debug, Clone, PartialEq, Eq)]
pub enum OutputLine {
    /// A line reporting success.
    Success(String),
    /// An informational line.
    Info(String),
}

/// A line as (whether it reports success, its text).
pub open spec fn line_view(l: OutputLine) -> (bool, Seq<char>) {
    match l {
        OutputLine::Success(s) => (true, s@),
        OutputLine::Info(s) => (false, s@),
    }
}

/// Lines as (whether each reports success, its text).
pub open spec fn lines_view(v: Seq<OutputLine>) -> Seq<(bool, Seq<char>)> {
    v.map_values(|l: OutputLine| line_view(l))
}

/// The label of a severity.
pub open spec fn severity_label(s: IssueSeverity) -> Seq<char> {
    match s {
        IssueSeverity::Error => "ERROR"@,
        IssueSeverity::Warning => "WARNING"@,
        IssueSeverity::Info => "INFO"@,
    }
}

/// Returns the label of a severity.
pub fn render_severity(severity: &IssueSeverity) -> (s: &'static str)
    ensures
        s@ == severity_label(*severity),
{
    match severity {
        IssueSeverity::Error => "ERROR",
        IssueSeverity::Warning => "WARNING",
        IssueSeverity::Info => "INFO",
    }
}

/// The label of a test status.
pub open spec fn test_status_label(s: TestStatus) -> Seq<char> {
    match s {
        TestStatus::Passed => "PASSED"@,
        TestStatus::Failed => "FAILED"@,
        TestStatus::Skipped => "SKIPPED"@,
        TestStatus::Error => "ERROR"@,
    }
}

/// Returns the label of a test status.
pub fn status_label(status: &TestStatus) -> (s: &'static str)
    ensures
        s@ == test_status_label(*status),
{
    match status {
        TestStatus::Passed => "PASSED",
        TestStatus::Failed => "FAILED",
        TestStatus::Skipped => "SKIPPED",
        TestStatus::Error => "ERROR",
    }
}

/// Where an issue is: `path:line:column`, `path:line`, or the path alone.
pub open spec fn location_text(path: Seq<char>, line: Option<u32>, column: Option<u32>) -> Seq<char> {
    match (line, column) {
        (Some(l), Some(c)) => path + ":"@ + decimal(l as nat) + ":"@ + decimal(c as nat),
        (Some(l), None) => path + ":"@ + decimal(l as nat),
        _ => path,
    }
}

/// The text of an issue: its severity, location (or object) and message.
pub open spec fn issue_text(issue: Issue) -> Seq<char> {
    match issue {
        Issue::Module(i) => severity_label(i.severity) + " "@ + location_text(i.path@, i.line, i.column) + " "@ + i.message@,
        Issue::Object(i) => severity_label(i.severity) + " "@ + i.object@ + " "@ + i.message@,
        Issue::Edt(i) => severity_label(i.severity) + " "@ + location_text(i.path@, i.line, i.column) + " "@ + i.message@,
    }
}

fn render_location(path: &str, line: Option<u32>, column: Option<u32>) -> (s: String)
    ensures
        s@ == location_text(path@, line, column),
{
    match (line, column) {
        (Some(l), Some(c)) => String::from_str(path).concat(":").concat(u64_to_decimal(l as u64).as_str())
            .concat(":").concat(u64_to_decimal(c as u64).as_str()),
        (Some(l), None) => String::from_str(path).concat(":").concat(u64_to_decimal(l as u64).as_str()),
        _ => String::from_str(path),
    }
}

/// Renders an issue as one line.
pub fn render_issue(issue: &Issue) -> (s: String)
    ensures
        s@ == issue_text(*issue),
{
    match issue {
        Issue::Module(i) => String::from_str(render_severity(&i.severity)).concat(" ")
            .concat(render_location(i.path.as_str(), i.line, i.column).as_str()).concat(" ").concat(i.message.as_str()),
        Issue::Object(i) => String::from_str(render_severity(&i.severity)).concat(" ")
            .concat(i.object.as_str()).concat(" ").concat(i.message.as_str()),
        Issue::Edt(i) => String::from_str(render_severity(&i.severity)).concat(" ")
            .concat(render_location(i.path.as_str(), i.line, i.column).as_str()).concat(" ").concat(i.message.as_str()),
    }
}

/// A step's message, or `ok` when it has none.
pub open spec fn message_or_ok(m: Option<String>) -> Seq<char> {
    match m {
        Some(s) => s@,
        None => "ok"@,
    }
}

/// The line of one build step.
pub open spec fn build_step_text(step: BuildStep) -> Seq<char> {
    match step.mode {
        BuildMode::Partial { file_count } => step.source_set@ + ": partial ("@ + decimal(file_count as nat) + " files) - "@
            + message_or_ok(step.message),
        BuildMode::EdtExport => step.source_set@ + ": edt_export - "@ + message_or_ok(step.message),
        BuildMode::Full => step.source_set@ + ": full - "@ + message_or_ok(step.message),
        BuildMode::Skipped => step.source_set@ + ": skipped - "@ + message_or_ok(step.message),
    }
}

/// Every step was skipped successfully.
pub open spec fn nothing_changed(steps: Seq<BuildStep>) -> bool {
    forall|i: int| 0 <= i < steps.len() ==> (#[trigger] steps[i]).mode == BuildMode::Skipped && steps[i].ok
}

/// The lines of a build: one per step, then the verdict.
pub open spec fn build_lines(result: BuildResult, succeeded: bool) -> Seq<(bool, Seq<char>)> {
    result.steps@.map_values(|s: BuildStep| (false, build_step_text(s))).push(
        if !succeeded {
            (false, "Build failed"@)
        } else if nothing_changed(result.steps@) {
            (true, "Build completed: no changes"@)
        } else {
            (true, "Build completed successfully"@)
        })
}

fn build_step_line(step: &BuildStep) -> (s: String)
    ensures
        s@ == build_step_text(*step),
{
    let message = match &step.message {
        Some(m) => m.clone(),
        None => String::from_str("ok"),
    };
    match step.mode {
        BuildMode::Partial { file_count } => step.source_set.clone().concat(": partial (")
            .concat(u64_to_decimal(file_count as u64).as_str()).concat(" files) - ").concat(message.as_str()),
        BuildMode::EdtExport => step.source_set.clone().concat(": edt_export - ").concat(message.as_str()),
        BuildMode::Full => step.source_set.clone().concat(": full - ").concat(message.as_str()),
        BuildMode::Skipped => step.source_set.clone().concat(": skipped - ").concat(message.as_str()),
    }
}

/// Renders a build result.
pub fn render_build_text(result: &BuildResult, succeeded: bool) -> (lines: Vec<OutputLine>)
    ensures
        lines_view(lines@) == build_lines(*result, succeeded),
{
    let mut lines: Vec<OutputLine> = Vec::new();
    let mut all_skipped = true;
    let mut i: usize = 0;
    while i < result.steps.len()
        invariant
            i <= result.steps.len(),
            lines_view(lines@) == result.steps@.take(i as int).map_values(|s: BuildStep| (false, build_step_text(s))),
            all_skipped == nothing_changed(result.steps@.take(i as int)),
        decreases result.steps.len() - i,
    {
        let step = &result.steps[i];
        let ghost before = lines@;
        lines.push(OutputLine::Info(build_step_line(step)));
        let skipped_ok = step.ok && match step.mode {
            BuildMode::Skipped => true,
            _ => false,
        };
        proof {
            let t = result.steps@.take(i as int + 1);
            assert(t =~= result.steps@.take(i as int).push(*step));
            assert(lines_view(lines@) =~= lines_view(before).push((false, build_step_text(*step))));
            assert(t.map_values(|s: BuildStep| (false, build_step_text(s)))
                =~= result.steps@.take(i as int).map_values(|s: BuildStep| (false, build_step_text(s))).push((false, build_step_text(*step))));
            if all_skipped && skipped_ok {
                assert forall|k: int| 0 <= k < t.len() implies (#[trigger] t[k]).mode == BuildMode::Skipped && t[k].ok by {
                    if k < i {
                        assert(t[k] == result.steps@.take(i as int)[k]);
                    }
                }
            }
            if !skipped_ok {
                assert(!(t[i as int].mode == BuildMode::Skipped && t[i as int].ok));
            }
            if !all_skipped {
                let k = choose|k: int| 0 <= k < i && !((#[trigger] result.steps@.take(i as int)[k]).mode == BuildMode::Skipped
                    && result.steps@.take(i as int)[k].ok);
                assert(t[k] == result.steps@.take(i as int)[k]);
            }
        }
        all_skipped = all_skipped && skipped_ok;
        i = i + 1;
    }
    proof { assert(result.steps@.take(result.steps.len() as int) =~= result.steps@); }
    let ghost before = lines@;
    if !succeeded {
        lines.push(OutputLine::Info(String::from_str("Build failed")));
    } else if all_skipped {
        lines.push(OutputLine::Success(String::from_str("Build completed: no changes")));
    } else {
        lines.push(OutputLine::Success(String::from_str("Build completed successfully")));
    }
    proof { assert(lines_view(lines@) =~= lines_view(before).push(lines_view(lines@).last())); }
    lines
}

/// The name of a dump mode.
pub open spec fn dump_mode_label(m: DumpMode) -> Seq<char> {
    match m {
        DumpMode::Full => "full"@,
        DumpMode::Incremental => "incremental"@,
        DumpMode::Partial => "partial"@,
    }
}

/// The lines of a dump: where it went, its message if any, then the verdict.
pub open spec fn dump_lines(result: DumpResult, succeeded: bool) -> Seq<(bool, Seq<char>)> {
    let head = (false, (match result.source_set {
        Some(s) => s@,
        None => "<unresolved>"@,
    }) + ": "@ + dump_mode_label(result.mode) + " -> "@ + result.target_path@);
    let message = match result.message {
        Some(m) => seq![(false, m@)],
        None => Seq::empty(),
    };
    seq![head] + message + seq![if succeeded { (true, "Dump completed successfully"@) } else { (false, "Dump failed"@) }]
}

/// Renders a dump result.
pub fn render_dump_text(result: &DumpResult, succeeded: bool) -> (lines: Vec<OutputLine>)
    ensures
        lines_view(lines@) == dump_lines(*result, succeeded),
{
    let mode = match result.mode {
        DumpMode::Full => "full",
        DumpMode::Incremental => "incremental",
        DumpMode::Partial => "partial",
    };
    let source_set = match &result.source_set {
        Some(s) => s.clone(),
        None => String::from_str("<unresolved>"),
    };
    let mut lines: Vec<OutputLine> = Vec::new();
    lines.push(OutputLine::Info(source_set.concat(": ").concat(mode).concat(" -> ").concat(result.target_path.as_str())));
    match &result.message {
        Some(m) => {
            lines.push(OutputLine::Info(m.clone()));
        },
        None => {},
    }
    if succeeded {
        lines.push(OutputLine::Success(String::from_str("Dump completed successfully")));
    } else {
        lines.push(OutputLine::Info(String::from_str("Dump failed")));
    }
    proof { assert(lines_view(lines@) =~= dump_lines(*result, succeeded)); }
    lines
}

/// The name of a syntax-check status, as debug formatting prints it.
pub open spec fn syntax_status_name(s: SyntaxCheckStatus) -> Seq<char> {
    match s {
        SyntaxCheckStatus::Clean => "Clean"@,
        SyntaxCheckStatus::IssuesFound => "IssuesFound"@,
        SyntaxCheckStatus::ToolFailed => "ToolFailed"@,
    }
}

/// The summary line of a syntax check.
pub open spec fn syntax_summary(r: SyntaxCheckResult) -> Seq<char> {
    r.check_name@ + ": "@ + syntax_status_name(r.status) + " (exit "@ + signed_decimal(r.exit_code as int)
        + ", errors "@ + decimal(r.summary.errors as nat) + ", warnings "@ + decimal(r.summary.warnings as nat)
        + ", info "@ + decimal(r.summary.info as nat) + ", duration "@ + decimal(r.duration_ms as nat) + " ms)"@
}

/// The lines of a syntax check: the summary (a success line when clean),
/// one line per issue, the log warning, and for a failed tool its trimmed
/// standard error.
pub open spec fn syntax_lines(r: SyntaxCheckResult) -> Seq<(bool, Seq<char>)> {
    let summary = seq![(r.status == SyntaxCheckStatus::Clean, syntax_summary(r))];
    let issues = r.issues@.map_values(|i: Issue| (false, issue_text(i)));
    let warning = match r.log_read_warning {
        Some(w) => seq![(false, "log warning: "@ + w@)],
        None => Seq::empty(),
    };
    let stderr = if r.status == SyntaxCheckStatus::ToolFailed {
        match r.stderr {
            Some(e) => seq![(false, "stderr: "@ + trim_seq(e@))],
            None => Seq::empty(),
        }
    } else {
        Seq::empty()
    };
    summary + issues + warning + stderr
}

/// Renders a syntax-check result.
pub fn render_syntax_text(result: &SyntaxCheckResult) -> (lines: Vec<OutputLine>)
    ensures
        lines_view(lines@) == syntax_lines(*result),
{
    let status = match result.status {
        SyntaxCheckStatus::Clean => "Clean",
        SyntaxCheckStatus::IssuesFound => "IssuesFound",
        SyntaxCheckStatus::ToolFailed => "ToolFailed",
    };
    let summary = result.check_name.clone().concat(": ").concat(status)
        .concat(" (exit ").concat(i32_to_decimal(result.exit_code).as_str())
        .concat(", errors ").concat(u64_to_decimal(result.summary.errors as u64).as_str())
        .concat(", warnings ").concat(u64_to_decimal(result.summary.warnings as u64).as_str())
        .concat(", info ").concat(u64_to_decimal(result.summary.info as u64).as_str())
        .concat(", duration ").concat(u64_to_decimal(result.duration_ms).as_str())
        .concat(" ms)");
    let mut lines: Vec<OutputLine> = Vec::new();
    match result.status {
        SyntaxCheckStatus::Clean => lines.push(OutputLine::Success(summary)),
        _ => lines.push(OutputLine::Info(summary)),
    }
    let ghost head = lines_view(lines@);
    let mut i: usize = 0;
    while i < result.issues.len()
        invariant
            i <= result.issues.len(),
            lines_view(lines@) == head + result.issues@.take(i as int).map_values(|x: Issue| (false, issue_text(x))),
        decreases result.issues.len() - i,
    {
        let ghost before = lines@;
        lines.push(OutputLine::Info(render_issue(&result.issues[i])));
        proof {
            assert(result.issues@.take(i as int + 1) =~= result.issues@.take(i as int).push(result.issues@[i as int]));
            assert(lines_view(lines@) =~= lines_view(before).push((false, issue_text(result.issues@[i as int]))));
            assert(result.issues@.take(i as int + 1).map_values(|x: Issue| (false, issue_text(x)))
                =~= result.issues@.take(i as int).map_values(|x: Issue| (false, issue_text(x))).push((false, issue_text(result.issues@[i as int]))));
        }
        i = i + 1;
    }
    proof { assert(result.issues@.take(result.issues.len() as int) =~= result.issues@); }
    let ghost mid = lines_view(lines@);
    match &result.log_read_warning {
        Some(w) => {
            lines.push(OutputLine::Info(String::from_str("log warning: ").concat(w.as_str())));
        },
        None => {},
    }
    let ghost mid2 = lines_view(lines@);
    let failed = match result.status {
        SyntaxCheckStatus::ToolFailed => true,
        _ => false,
    };
    if failed {
        match &result.stderr {
            Some(e) => {
                lines.push(OutputLine::Info(String::from_str("stderr: ").concat(trim(e.as_str()).as_str())));
            },
            None => {},
        }
    }
    proof {
        let r = *result;
        let issues = r.issues@.map_values(|i: Issue| (false, issue_text(i)));
        let warning = match r.log_read_warning {
            Some(w) => seq![(false, "log warning: "@ + w@)],
            None => Seq::<(bool, Seq<char>)>::empty(),
        };
        let stderr = if r.status == SyntaxCheckStatus::ToolFailed {
            match r.stderr {
                Some(e) => seq![(false, "stderr: "@ + trim_seq(e@))],
                None => Seq::<(bool, Seq<char>)>::empty(),
            }
        } else {
            Seq::<(bool, Seq<char>)>::empty()
        };
        assert(head =~= seq![(r.status == SyntaxCheckStatus::Clean, syntax_summary(r))]);
        assert(mid == head + issues);
        assert(mid2 =~= mid + warning);
        assert(lines_view(lines@) =~= mid2 + stderr);
        assert(lines_view(lines@) =~= syntax_lines(*result));
    }
    lines
}

} // verus!
