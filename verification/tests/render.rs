use v8_runner::cli::output::{cli_envelope_error, failure_envelope, pre_dispatch_error_envelope, with_cli_error};
use v8_runner::cli::render::{
    render_build_text, render_dump_text, render_issue, render_severity, render_syntax_text, status_label, OutputLine,
};
use v8_runner::command_envelope::{Envelope, EnvelopeError};
use v8_runner::domain::build_outcome::{BuildMode, BuildResult, BuildStep};
use v8_runner::domain::dump::{DumpMode, DumpResult};
use v8_runner::domain::issue::{EdtIssue, Issue, IssueSeverity, ModuleIssue, ObjectIssue};
use v8_runner::domain::syntax::{SyntaxCheckResult, SyntaxCheckStatus, SyntaxIssueSummary};
use v8_runner::domain::test::TestStatus;
use v8_runner::use_cases::result::{UseCaseError, UseCaseErrorKind};

fn step(name: &str, mode: BuildMode, ok: bool, message: Option<&str>) -> BuildStep {
    BuildStep { source_set: name.to_owned(), mode, ok, message: message.map(str::to_owned), duration_ms: 1 }
}

#[test]
fn issues_render_with_severity_and_location() {
    let module = Issue::Module(ModuleIssue {
        path: "CommonModules/A.bsl".to_owned(),
        line: Some(12),
        column: Some(3),
        message: "bad".to_owned(),
        severity: IssueSeverity::Error,
    });
    assert_eq!(render_issue(&module), "ERROR CommonModules/A.bsl:12:3 bad");
    let edt = Issue::Edt(EdtIssue {
        path: "p".to_owned(),
        line: Some(4),
        column: None,
        message: "m".to_owned(),
        severity: IssueSeverity::Warning,
        check: None,
    });
    assert_eq!(render_issue(&edt), "WARNING p:4 m");
    let object = Issue::Object(ObjectIssue { object: "Catalog.Items".to_owned(), message: "x".to_owned(), severity: IssueSeverity::Info });
    assert_eq!(render_issue(&object), "INFO Catalog.Items x");
    assert_eq!(render_severity(&IssueSeverity::Info), "INFO");
    assert_eq!(status_label(&TestStatus::Skipped), "SKIPPED");
}

#[test]
fn build_text_lists_steps_then_the_verdict() {
    let result = BuildResult {
        ok: true,
        steps: vec![
            step("main", BuildMode::Partial { file_count: 3 }, true, Some("partial load of 3 files")),
            step("ext", BuildMode::Full, true, None),
        ],
        duration_ms: 5,
    };
    assert_eq!(
        render_build_text(&result, true),
        vec![
            OutputLine::Info("main: partial (3 files) - partial load of 3 files".to_owned()),
            OutputLine::Info("ext: full - ok".to_owned()),
            OutputLine::Success("Build completed successfully".to_owned()),
        ]
    );
    let unchanged = BuildResult { ok: true, steps: vec![step("main", BuildMode::Skipped, true, Some("no changes"))], duration_ms: 0 };
    assert_eq!(render_build_text(&unchanged, true).last(), Some(&OutputLine::Success("Build completed: no changes".to_owned())));
    assert_eq!(render_build_text(&unchanged, false).last(), Some(&OutputLine::Info("Build failed".to_owned())));
}

#[test]
fn dump_text_names_target_and_outcome() {
    let result = DumpResult {
        ok: true,
        source_set: None,
        extension: None,
        mode: DumpMode::Incremental,
        target_path: "/src".to_owned(),
        platform_log_path: None,
        duration_ms: 1,
        message: Some("dump completed successfully".to_owned()),
    };
    assert_eq!(
        render_dump_text(&result, true),
        vec![
            OutputLine::Info("<unresolved>: incremental -> /src".to_owned()),
            OutputLine::Info("dump completed successfully".to_owned()),
            OutputLine::Success("Dump completed successfully".to_owned()),
        ]
    );
}

#[test]
fn syntax_text_has_summary_issues_and_stderr() {
    let result = SyntaxCheckResult {
        status: SyntaxCheckStatus::ToolFailed,
        exit_code: -1,
        check_name: "designer-modules".to_owned(),
        issues: vec![Issue::Object(ObjectIssue { object: "O".to_owned(), message: "m".to_owned(), severity: IssueSeverity::Error })],
        summary: SyntaxIssueSummary { errors: 1, warnings: 0, info: 2 },
        duration_ms: 40,
        platform_log_path: None,
        stderr: Some("  crashed \n".to_owned()),
        log_read_warning: Some("truncated".to_owned()),
    };
    assert_eq!(
        render_syntax_text(&result),
        vec![
            OutputLine::Info("designer-modules: ToolFailed (exit -1, errors 1, warnings 0, info 2, duration 40 ms)".to_owned()),
            OutputLine::Info("ERROR O m".to_owned()),
            OutputLine::Info("log warning: truncated".to_owned()),
            OutputLine::Info("stderr: crashed".to_owned()),
        ]
    );
}

#[test]
fn failure_envelopes_carry_the_error() {
    let error = UseCaseError::new(UseCaseErrorKind::Validation, "bad input".to_owned());
    let e = cli_envelope_error(&error);
    assert_eq!(e, EnvelopeError { code: "invalid_argument".to_owned(), kind: "validation".to_owned(), message: "bad input".to_owned() });

    let envelope = failure_envelope("build", 7, 1u8, &UseCaseError::new(UseCaseErrorKind::Platform, "no 1cv8".to_owned()));
    assert!(!envelope.ok);
    assert_eq!(envelope.command, "build");
    let err = envelope.error.expect("error");
    assert_eq!((err.code.as_str(), err.kind.as_str()), ("platform_failure", "platform"));

    let ok = with_cli_error(Envelope::ok("dump", 1, ()), &UseCaseError::new(UseCaseErrorKind::Runtime, "r".to_owned()));
    assert!(ok.ok);
    assert_eq!(ok.error.expect("error").code, "runtime_failure");
}

#[test]
fn pre_dispatch_errors_have_zero_duration_and_the_message_as_data() {
    let error = UseCaseError::new(UseCaseErrorKind::Validation, "config file not found: v8.toml".to_owned());
    let envelope = pre_dispatch_error_envelope("build", &error);
    assert!(!envelope.ok);
    assert_eq!(envelope.command, "build");
    assert_eq!(envelope.duration_ms, 0);
    assert_eq!(envelope.data.message, "config file not found: v8.toml");
    assert!(envelope.warnings.is_empty());
    assert!(envelope.steps.is_empty());
    let err = envelope.error.expect("error");
    assert_eq!(
        (err.code.as_str(), err.kind.as_str(), err.message.as_str()),
        ("invalid_argument", "validation", "config file not found: v8.toml")
    );
}
