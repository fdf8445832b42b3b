use v8_runner::config::model::{
    AppConfig, BuildConfig, BuilderBackend, CredentialsConfig, McpConfig, McpExecutionConfig, McpHttpConfig,
    SourceFormat, SourceSetConfig, SourceSetPurpose, TestsConfig, ToolsConfig,
};
use v8_runner::domain::convert::ConvertDirection;
use v8_runner::platform::result::{PlatformCommandResult, ProcessOutput};
use v8_runner::support::error::AppError;
use v8_runner::use_cases::convert_sources::{
    convert_staging_dir, convert_target_parent, converted_result, deferred_interruption_warning, empty_result,
    ensure_conversion_success, map_direction, merge_optional_messages, normalize_input_path, normalize_optional_value,
    preflight_validate, resolve_request, ConvertFacts, ExecutionInterruption,
};
use v8_runner::use_cases::request::{ConvertDirectionRequest, ConvertRequest};

fn config() -> AppConfig {
    AppConfig {
        base_path: "/tmp/base".to_owned(),
        work_path: "/tmp/work".to_owned(),
        format: SourceFormat::Designer,
        builder: BuilderBackend::Designer,
        connection: "File=/tmp/ib".to_owned(),
        credentials: CredentialsConfig::default(),
        source_sets: vec![SourceSetConfig { name: "main".to_owned(), purpose: SourceSetPurpose::Configuration, path: "main".to_owned() }],
        build: BuildConfig::default(),
        tools: ToolsConfig::default(),
        mcp: McpConfig {
            http: McpHttpConfig::default(),
            execution: McpExecutionConfig { max_concurrent_calls: 1, shutdown_grace_period_secs: 1 },
        },
        tests: TestsConfig::default(),
    }
}

fn request(direction: ConvertDirectionRequest, source: &str, target: &str) -> ConvertRequest {
    ConvertRequest {
        direction,
        source_path: source.to_owned(),
        target_path: target.to_owned(),
        version: Some(" 8.3.24 ".to_owned()),
        base_project_name: None,
        build: true,
    }
}

fn good_facts() -> ConvertFacts {
    ConvertFacts {
        source_canonical: Ok("/src".to_owned()),
        target_canonical: Ok("/dst".to_owned()),
        source_exists: true,
        source_is_dir: true,
        target_exists: false,
        target_is_dir: false,
        source_has_project: true,
        source_has_configuration_xml: false,
        source_has_top_level_xml: Ok(false),
    }
}

fn message(e: AppError) -> String {
    match e {
        AppError::Validation(m) | AppError::Runtime(m) | AppError::Platform(m) => m,
        AppError::Config(c) => c.message(),
    }
}

#[test]
fn a_valid_edt_request_is_resolved() {
    let resolved = resolve_request(
        &config(),
        &request(ConvertDirectionRequest::EdtToDesigner, " /src ", "/dst"),
        ConvertDirection::EdtToDesigner,
        &good_facts(),
    )
    .expect("resolved");
    assert_eq!(resolved.source_path, "/src");
    assert_eq!(resolved.target_path, "/dst");
    assert_eq!(resolved.workspace_path, "/tmp/work/convert/edt-workspace");
    assert_eq!(resolved.version.as_deref(), Some("8.3.24"));
    assert!(resolved.build);
}

#[test]
fn requests_are_checked_in_order() {
    let c = config();
    let blank = resolve_request(&c, &request(ConvertDirectionRequest::EdtToDesigner, "  ", "/dst"), ConvertDirection::EdtToDesigner, &good_facts());
    assert_eq!(message(blank.expect_err("blank")), "convert source path must not be blank");

    let mut same = good_facts();
    same.target_canonical = Ok("/src".to_owned());
    let err = resolve_request(&c, &request(ConvertDirectionRequest::EdtToDesigner, "/src", "/src2"), ConvertDirection::EdtToDesigner, &same);
    assert_eq!(message(err.expect_err("same")), "convert source and target paths must be different");

    let mut no_project = good_facts();
    no_project.source_has_project = false;
    let err = resolve_request(&c, &request(ConvertDirectionRequest::EdtToDesigner, "/src", "/dst"), ConvertDirection::EdtToDesigner, &no_project);
    assert_eq!(message(err.expect_err("project")), "EDT source path must contain '.project': /src");

    let err = preflight_validate(&c, &request(ConvertDirectionRequest::DesignerToEdt, "/src", "/dst"), &good_facts());
    assert_eq!(
        message(err.expect_err("designer layout")),
        "Designer source path must contain 'Configuration.xml' or a top-level XML descriptor: /src"
    );

    let mut unreadable = good_facts();
    unreadable.source_has_top_level_xml = Err("denied".to_owned());
    let err = preflight_validate(&c, &request(ConvertDirectionRequest::DesignerToEdt, "/src", "/dst"), &unreadable).expect_err("io");
    assert!(matches!(err, AppError::Runtime(ref m) if m == "failed to inspect Designer source '/src': denied"));

    let mut file_target = good_facts();
    file_target.target_exists = true;
    let err = preflight_validate(&c, &request(ConvertDirectionRequest::EdtToDesigner, "/src", "/dst"), &file_target);
    assert_eq!(message(err.expect_err("file")), "convert target path is not a directory: /dst");
}

#[test]
fn arguments_are_trimmed_and_screened() {
    assert_eq!(normalize_input_path(" a ", "source").expect("ok"), "a");
    assert_eq!(message(normalize_input_path("a\u{7}b", "target").expect_err("control")), "convert target path must not contain control characters");
    assert_eq!(normalize_optional_value(&None, "version").expect("none"), None);
    assert_eq!(message(normalize_optional_value(&Some(" ".to_owned()), "version").expect_err("blank")), "convert version must not be blank");
}

#[test]
fn conversion_failures_and_results() {
    let result = PlatformCommandResult {
        process: ProcessOutput { exit_code: 1, stdout: "o".to_owned(), stderr: String::new() },
        platform_log: None,
        platform_log_path: Some("/l".to_owned()),
        platform_log_read_error: None,
    };
    let err = ensure_conversion_success(ConvertDirection::DesignerToEdt, &result).expect_err("failure");
    assert_eq!(message(err), "convert designer-to-edt failed with exit code 1; stdout: o; platform log path: /l");

    assert_eq!(map_direction(ConvertDirectionRequest::DesignerToEdt), ConvertDirection::DesignerToEdt);
    assert_eq!(convert_target_parent("/a/b").expect("parent"), "/a");
    assert_eq!(convert_staging_dir("/a", "1-f"), "/a/.convert-stage-1-f");
    assert_eq!(merge_optional_messages(Some("a".to_owned()), Some("b".to_owned())).as_deref(), Some("a; b"));
    assert_eq!(merge_optional_messages(None, Some("b".to_owned())).as_deref(), Some("b"));
    assert_eq!(
        deferred_interruption_warning(Some(ExecutionInterruption::TimedOut)).as_deref(),
        Some("convert publication completed successfully after timeout during critical phase; unsafe interruption was not performed")
    );

    let empty = empty_result(ConvertDirection::EdtToDesigner, 2, None, Some("/t".to_owned()), "/ws".to_owned(), None);
    assert!(!empty.ok);
    assert_eq!((empty.source_path.as_str(), empty.target_path.as_str()), ("", "/t"));

    let resolved = resolve_request(&config(), &request(ConvertDirectionRequest::EdtToDesigner, "/src", "/dst"), ConvertDirection::EdtToDesigner, &good_facts())
        .expect("resolved");
    let done = converted_result(resolved, 9, None, Some(ExecutionInterruption::Cancelled));
    assert!(done.ok);
    assert!(done.message.expect("warning").contains("cancellation request"));
}
