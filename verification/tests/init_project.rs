use v8_runner::config::model::{
    AppConfig, BuildConfig, BuilderBackend, CredentialsConfig, McpConfig, McpExecutionConfig, McpHttpConfig,
    SourceFormat, SourceSetConfig, SourceSetPurpose, TestsConfig, ToolsConfig,
};
use v8_runner::domain::init::InitStepStatus;
use v8_runner::platform::result::{PlatformCommandResult, ProcessOutput};
use v8_runner::support::error::AppError;
use v8_runner::use_cases::init_project::{
    edt_import_targets, edt_workspace_finish, edt_workspace_marker_path, edt_workspace_path, edt_workspace_start,
    ensure_platform_success, finish_init, infobase_created, infobase_marker_path, infobase_parent_failed,
    infobase_start, ordered_source_sets, record_step, EdtWorkspaceFailure, InfobaseStart, StepOutcome,
};
use v8_runner::use_cases::result::{UseCaseError, UseCaseErrorKind};

fn source_set(name: &str, purpose: SourceSetPurpose, path: &str) -> SourceSetConfig {
    SourceSetConfig { name: name.to_owned(), purpose, path: path.to_owned() }
}

fn config_with(source_sets: Vec<SourceSetConfig>) -> AppConfig {
    AppConfig {
        base_path: "/tmp/base".to_owned(),
        work_path: "/tmp/work".to_owned(),
        format: SourceFormat::Edt,
        builder: BuilderBackend::Designer,
        connection: "File=/tmp/ib".to_owned(),
        credentials: CredentialsConfig::default(),
        source_sets,
        build: BuildConfig::default(),
        tools: ToolsConfig::default(),
        mcp: McpConfig {
            http: McpHttpConfig::default(),
            execution: McpExecutionConfig { max_concurrent_calls: 1, shutdown_grace_period_secs: 1 },
        },
        tests: TestsConfig::default(),
    }
}

fn sample_config() -> AppConfig {
    config_with(vec![
        source_set("ext", SourceSetPurpose::Extension, "ext"),
        source_set("main", SourceSetPurpose::Configuration, "main"),
    ])
}

fn process_result(exit_code: i32, stdout: &str, stderr: &str) -> PlatformCommandResult {
    PlatformCommandResult {
        process: ProcessOutput { exit_code, stdout: stdout.to_owned(), stderr: stderr.to_owned() },
        platform_log: None,
        platform_log_path: None,
        platform_log_read_error: None,
    }
}

#[test]
fn infobase_marker_uses_1cv8_1cd_file() {
    assert_eq!(infobase_marker_path("/tmp/ib"), "/tmp/ib/1Cv8.1CD");
}

#[test]
fn edt_workspace_marker_uses_internal_file_name() {
    assert_eq!(edt_workspace_marker_path("/tmp/ws"), "/tmp/ws/.v8tr-initialized");
}

#[test]
fn ordered_source_sets_puts_configuration_before_extensions() {
    let config = sample_config();
    let ordered = ordered_source_sets(&config);
    assert_eq!(ordered[0].name, "main");
    assert_eq!(ordered[1].name, "ext");
}

#[test]
fn ordered_source_sets_groups_by_purpose_and_keeps_configured_order() {
    let config = config_with(vec![
        source_set("report", SourceSetPurpose::ExternalReports, "r"),
        source_set("ext-b", SourceSetPurpose::Extension, "b"),
        source_set("proc", SourceSetPurpose::ExternalDataProcessors, "p"),
        source_set("main", SourceSetPurpose::Configuration, "m"),
        source_set("ext-a", SourceSetPurpose::Extension, "a"),
    ]);
    let names: Vec<&str> = ordered_source_sets(&config).iter().map(|s| s.name.as_str()).collect();
    assert_eq!(names, vec!["main", "ext-b", "ext-a", "proc", "report"]);
}

#[test]
fn import_targets_resolve_paths_against_base() {
    let config = config_with(vec![
        source_set("ext", SourceSetPurpose::Extension, "/abs/ext"),
        source_set("main", SourceSetPurpose::Configuration, "main"),
    ]);
    let targets = edt_import_targets(&config);
    assert_eq!(targets.len(), 2);
    assert_eq!((targets[0].name.as_str(), targets[0].path.as_str()), ("main", "/tmp/base/main"));
    assert_eq!((targets[1].name.as_str(), targets[1].path.as_str()), ("ext", "/abs/ext"));
}

#[test]
fn platform_failure_lists_exit_code_output_and_log() {
    let mut result = process_result(3, "  out  ", "\n");
    result.platform_log = Some(" log text ".to_owned());
    result.platform_log_path = Some("/tmp/log.txt".to_owned());

    let err = ensure_platform_success("create infobase", "infobase", &result).expect_err("failure");

    match err {
        AppError::Platform(message) => assert_eq!(
            message,
            "create infobase failed for 'infobase' with exit code 3; stdout: out; platform log: log text; platform log path: /tmp/log.txt"
        ),
        other => panic!("unexpected error {other:?}"),
    }
    assert!(ensure_platform_success("a", "b", &process_result(0, "", "")).is_ok());
}

#[test]
fn negative_exit_codes_are_reported_with_their_sign() {
    let err = ensure_platform_success("import EDT project", "main", &process_result(-9, "", "killed")).expect_err("failure");
    assert!(matches!(err, AppError::Platform(ref m) if m == "import EDT project failed for 'main' with exit code -9; stderr: killed"));
}

#[test]
fn record_step_keeps_the_first_error() {
    let mut steps = Vec::new();
    let mut first_error = None;

    record_step(&mut steps, &mut first_error, StepOutcome::skipped("a", "x", 1, "nothing".to_owned()));
    assert!(first_error.is_none());
    record_step(
        &mut steps,
        &mut first_error,
        StepOutcome::failed("b", "y", 2, UseCaseError::new(UseCaseErrorKind::Runtime, "first".to_owned())),
    );
    record_step(
        &mut steps,
        &mut first_error,
        StepOutcome::failed("c", "z", 3, UseCaseError::new(UseCaseErrorKind::Platform, "second".to_owned())),
    );

    assert_eq!(steps.len(), 3);
    assert_eq!(first_error.expect("error").message(), "first");
    assert_eq!(steps[1].status, InitStepStatus::Failed);
    assert_eq!(steps[1].message.as_deref(), Some("first"));
}

#[test]
fn finish_init_succeeds_only_without_failures() {
    let ok = finish_init(
        vec![
            StepOutcome::ok("infobase", "create", 5, "infobase created: /tmp/ib/1Cv8.1CD".to_owned()),
            StepOutcome::skipped("edt_workspace", "import", 0, "skip".to_owned()),
        ],
        9,
    )
    .expect("success");
    assert!(ok.ok);
    assert_eq!(ok.steps.len(), 2);
    assert_eq!(ok.duration_ms, 9);

    let failure = finish_init(
        vec![
            StepOutcome::failed("infobase", "create", 1, UseCaseError::new(UseCaseErrorKind::Runtime, "boom".to_owned())),
            StepOutcome::ok("edt_workspace", "import", 2, "fine".to_owned()),
        ],
        4,
    )
    .expect_err("failure");
    assert_eq!(failure.error.message(), "boom");
    let payload = failure.payload.expect("payload");
    assert!(!payload.ok);
    assert_eq!(payload.steps.len(), 2);
}

#[test]
fn infobase_start_decides_from_connection_and_marker() {
    match infobase_start(None, false, 1) {
        InfobaseStart::Finished(o) => {
            assert_eq!(o.step.status, InitStepStatus::Failed);
            assert_eq!(o.step.message.as_deref(), Some("init currently supports only file-based infobase connections"));
        }
        other => panic!("unexpected {other:?}"),
    }
    match infobase_start(Some("/tmp/ib".to_owned()), true, 1) {
        InfobaseStart::Finished(o) => {
            assert_eq!(o.step.status, InitStepStatus::Skipped);
            assert_eq!(o.step.message.as_deref(), Some("infobase already exists: /tmp/ib/1Cv8.1CD"));
        }
        other => panic!("unexpected {other:?}"),
    }
    match infobase_start(Some("/tmp/ib".to_owned()), false, 1) {
        InfobaseStart::Create { marker, parent } => {
            assert_eq!(marker, "/tmp/ib/1Cv8.1CD");
            assert_eq!(parent, "/tmp");
        }
        other => panic!("unexpected {other:?}"),
    }
    match infobase_start(Some("/".to_owned()), false, 1) {
        InfobaseStart::Finished(o) => {
            assert_eq!(o.step.message.as_deref(), Some("infobase path '/' has no parent directory"))
        }
        other => panic!("unexpected {other:?}"),
    }
}

#[test]
fn infobase_creation_outcomes() {
    let parent = infobase_parent_failed("/tmp", "denied", 2);
    assert_eq!(parent.step.message.as_deref(), Some("failed to prepare infobase parent '/tmp': denied"));

    let ok = infobase_created("/tmp/ib/1Cv8.1CD", Ok(process_result(0, "", "")), true, 3);
    assert_eq!(ok.step.status, InitStepStatus::Succeeded);
    assert_eq!(ok.step.message.as_deref(), Some("infobase created: /tmp/ib/1Cv8.1CD"));

    let no_marker = infobase_created("/tmp/ib/1Cv8.1CD", Ok(process_result(0, "", "")), false, 3);
    assert_eq!(no_marker.step.message.as_deref(), Some("infobase creation did not produce marker file '/tmp/ib/1Cv8.1CD'"));

    let failed = infobase_created("/tmp/ib/1Cv8.1CD", Ok(process_result(1, "", "")), true, 3);
    assert_eq!(failed.error.expect("error").kind(), UseCaseErrorKind::Platform);

    let not_run = infobase_created("/m", Err(AppError::Platform("no 1cv8".to_owned())), false, 3);
    assert_eq!(not_run.step.message.as_deref(), Some("no 1cv8"));
}

#[test]
fn edt_workspace_start_and_finish() {
    let workspace = edt_workspace_path("/tmp/work");
    assert_eq!(workspace, "/tmp/work/edt-workspace");

    let designer = edt_workspace_start(SourceFormat::Designer, &workspace, false, false, false, 0).expect("skipped");
    assert_eq!(designer.step.message.as_deref(), Some("EDT workspace initialization is not applicable for format=DESIGNER"));
    let file = edt_workspace_start(SourceFormat::Edt, &workspace, true, false, false, 0).expect("failed");
    assert_eq!(file.step.status, InitStepStatus::Failed);
    let done = edt_workspace_start(SourceFormat::Edt, &workspace, true, true, true, 0).expect("skipped");
    assert_eq!(done.step.message.as_deref(), Some("workspace already initialized: /tmp/work/edt-workspace"));
    assert!(edt_workspace_start(SourceFormat::Edt, &workspace, false, false, false, 0).is_none());

    let marker = edt_workspace_marker_path(&workspace);
    let ok = edt_workspace_finish(&workspace, &marker, None, 7);
    assert_eq!(ok.step.message.as_deref(), Some("workspace initialized: /tmp/work/edt-workspace"));
    let import = edt_workspace_finish(
        &workspace,
        &marker,
        Some(EdtWorkspaceFailure::Import { source_set: "main".to_owned(), result: process_result(2, "", "") }),
        7,
    );
    assert_eq!(import.step.message.as_deref(), Some("import EDT project failed for 'main' with exit code 2"));
    let persist = edt_workspace_finish(&workspace, &marker, Some(EdtWorkspaceFailure::PersistMarker("ro".to_owned())), 7);
    assert_eq!(
        persist.step.message.as_deref(),
        Some("failed to persist EDT workspace marker '/tmp/work/edt-workspace/.v8tr-initialized': ro")
    );
}
