use v8_runner::config::model::{
    AppConfig, BuildConfig, BuilderBackend, CredentialsConfig, McpConfig, McpExecutionConfig, McpHttpConfig,
    PlatformToolConfig, SourceFormat, SourceSetConfig, SourceSetPurpose, TestsConfig, ToolsConfig,
};
use v8_runner::domain::artifact::{ArtifactKind, ArtifactRef, ArtifactSet};
use v8_runner::domain::artifacts::ArtifactBuildMode;
use v8_runner::domain::execution::ExecutionStatus;
use v8_runner::platform::result::{PlatformCommandResult, ProcessOutput};
use v8_runner::support::error::AppError;
use v8_runner::use_cases::artifacts::{
    empty_result, ensure_export_success, export_failed_result, export_log_file_name, extract_xml_tag_text, hash_path,
    is_stale_temp, is_temp_candidate, lock_path_for, make_run_id, map_mode, project_file_path, published_result,
    resolve_artifacts_source_set, resolve_extension_name, resolve_single_configuration_source_set,
    staging_file_name, validate_output_path, validate_publish_target, validate_supported_matrix, PublishFacts,
};
use v8_runner::use_cases::request::{ArtifactsModeRequest, ArtifactsRequest, RunnerKind};

fn sample_config(format: SourceFormat) -> AppConfig {
    AppConfig {
        base_path: "/tmp/base".to_owned(),
        work_path: "/tmp/work".to_owned(),
        format,
        builder: BuilderBackend::Designer,
        connection: "File=/tmp/ib".to_owned(),
        credentials: CredentialsConfig::default(),
        source_sets: vec![
            SourceSetConfig {
                name: "configuration".to_owned(),
                purpose: SourceSetPurpose::Configuration,
                path: "configuration".to_owned(),
            },
            SourceSetConfig {
                name: "ext-sales".to_owned(),
                purpose: SourceSetPurpose::Extension,
                path: "extensions/ext-sales".to_owned(),
            },
        ],
        build: BuildConfig::default(),
        tools: ToolsConfig {
            platform: PlatformToolConfig { path: Some("/tmp/1cv8".to_owned()), version: None },
            ..ToolsConfig::default()
        },
        mcp: McpConfig {
            http: McpHttpConfig::default(),
            execution: McpExecutionConfig { max_concurrent_calls: 1, shutdown_grace_period_secs: 1 },
        },
        tests: TestsConfig::default(),
    }
}

fn request(mode: ArtifactsModeRequest, output: &str, source_set: Option<&str>, extension: Option<&str>) -> ArtifactsRequest {
    ArtifactsRequest {
        profile: ArtifactsRequest::default_profile(mode),
        mode,
        output_path: output.to_owned(),
        source_set: source_set.map(str::to_owned),
        extension: extension.map(str::to_owned),
    }
}

fn extension_names(config: &AppConfig, projects: &[Option<&str>]) -> Vec<String> {
    config
        .source_sets
        .iter()
        .zip(projects)
        .map(|(ss, p)| resolve_extension_name(config, ss, p.map(str::to_owned)))
        .collect()
}

fn validation_message(e: AppError) -> String {
    match e {
        AppError::Validation(m) => m,
        other => panic!("expected a validation error, got {other:?}"),
    }
}

#[test]
fn validate_supported_matrix_rejects_non_designer_profile() {
    let mut request = request(ArtifactsModeRequest::ConfigurationCf, "release.cf", None, None);
    request.profile.backend_hint = Some("ibcmd".to_owned());
    let config = sample_config(SourceFormat::Designer);

    let error = validate_supported_matrix(&config, &request).expect("error");

    assert!(validation_message(error).contains("builder=DESIGNER"));
}

#[test]
fn supported_matrix_accepts_the_default_profile_and_checks_the_kind() {
    let config = sample_config(SourceFormat::Designer);
    assert!(validate_supported_matrix(&config, &request(ArtifactsModeRequest::ExtensionCfe, "a.cfe", None, None)).is_none());
    let mut wrong_kind = request(ArtifactsModeRequest::ExtensionCfe, "a.cfe", None, None);
    wrong_kind.profile.kind = RunnerKind::Cf;
    assert!(validate_supported_matrix(&config, &wrong_kind).is_some());
}

#[test]
fn resolve_target_uses_edt_project_name_for_extension_matching() {
    let config = sample_config(SourceFormat::Edt);
    assert_eq!(project_file_path(&config, &config.source_sets[1]), "/tmp/base/extensions/ext-sales/.project");
    let names = extension_names(&config, &[None, Some("<projectDescription><name>SalesAddon</name></projectDescription>")]);
    let request = request(ArtifactsModeRequest::ExtensionCfe, "dist/sales.cfe", None, Some("SalesAddon"));

    let (source_set, extension) = resolve_artifacts_source_set(&config, &request, &names).expect("resolved");

    assert_eq!(source_set, "ext-sales");
    assert_eq!(extension.as_deref(), Some("SalesAddon"));
    assert_eq!(map_mode(request.mode), ArtifactBuildMode::ExtensionCfe);
}

#[test]
fn resolve_target_rejects_blank_extension_for_cfe_mode() {
    let config = sample_config(SourceFormat::Designer);
    let names = extension_names(&config, &[None, None]);
    let request = request(ArtifactsModeRequest::ExtensionCfe, "dist/sales.cfe", Some("ext-sales"), Some("   "));

    let error = resolve_artifacts_source_set(&config, &request, &names).expect_err("blank extension should fail");

    assert!(validation_message(error).contains("non-empty --extension"));
}

#[test]
fn configuration_artifacts_need_exactly_one_configuration() {
    let mut config = sample_config(SourceFormat::Designer);
    assert_eq!(resolve_single_configuration_source_set(&config).expect("one").name, "configuration");
    config.source_sets.push(SourceSetConfig {
        name: "second".to_owned(),
        purpose: SourceSetPurpose::Configuration,
        path: "second".to_owned(),
    });
    let names = extension_names(&config, &[None, None, None]);
    let error = resolve_artifacts_source_set(&config, &request(ArtifactsModeRequest::ConfigurationCf, "a.cf", None, None), &names)
        .expect_err("two configurations");
    assert_eq!(
        validation_message(error),
        "artifacts cf export requires exactly one configuration source-set when --source-set is omitted; found [configuration, second]"
    );
}

#[test]
fn named_source_sets_must_exist_and_fit_the_mode() {
    let config = sample_config(SourceFormat::Designer);
    let names = extension_names(&config, &[None, None]);
    let unknown = resolve_artifacts_source_set(&config, &request(ArtifactsModeRequest::ConfigurationCf, "a.cf", Some("nope"), None), &names);
    assert_eq!(validation_message(unknown.expect_err("unknown")), "unknown source-set 'nope'");
    let wrong = resolve_artifacts_source_set(&config, &request(ArtifactsModeRequest::ConfigurationCf, "a.cf", Some("ext-sales"), None), &names);
    assert_eq!(validation_message(wrong.expect_err("wrong")), "source-set 'ext-sales' is not a configuration source-set");
    let mismatch = resolve_artifacts_source_set(
        &config,
        &request(ArtifactsModeRequest::ExtensionCfe, "a.cfe", Some("ext-sales"), Some("Other")),
        &names,
    );
    assert_eq!(
        validation_message(mismatch.expect_err("mismatch")),
        "source-set 'ext-sales' resolves to extension 'ext-sales', expected 'Other'"
    );
    let none = resolve_artifacts_source_set(&config, &request(ArtifactsModeRequest::ExtensionCfe, "a.cfe", None, Some("Other")), &names);
    assert_eq!(
        validation_message(none.expect_err("none")),
        "no extension source-set resolves to 'Other'; candidates [ext-sales=>ext-sales]"
    );
}

#[test]
fn output_path_must_be_a_file_with_the_mode_extension() {
    let ok = validate_output_path(&request(ArtifactsModeRequest::ConfigurationCf, "  dist/release.cf ", None, None), false);
    assert_eq!(ok.expect("ok"), "dist/release.cf");
    let blank = validate_output_path(&request(ArtifactsModeRequest::ConfigurationCf, "  ", None, None), false);
    assert_eq!(validation_message(blank.expect_err("blank")), "artifacts requires non-empty --output");
    let ext = validate_output_path(&request(ArtifactsModeRequest::ExtensionCfe, "dist/release.cf", None, None), false);
    assert_eq!(validation_message(ext.expect_err("extension")), "artifacts output must end with .cfe");
    let dir = validate_output_path(&request(ArtifactsModeRequest::ConfigurationCf, "dist/x.cf", None, None), true);
    assert_eq!(validation_message(dir.expect_err("dir")), "artifacts output must be a file, got directory 'dist/x.cf'");
}

#[test]
fn xml_tag_text_is_trimmed_and_needs_both_tags() {
    assert_eq!(extract_xml_tag_text("<a><name> Sales </name></a>", "name").as_deref(), Some("Sales"));
    assert_eq!(extract_xml_tag_text("<name>open only", "name"), None);
    assert_eq!(extract_xml_tag_text("nothing", "name"), None);
    let config = sample_config(SourceFormat::Edt);
    assert_eq!(resolve_extension_name(&config, &config.source_sets[1], Some("<name>  </name>".to_owned())), "ext-sales");
}

#[test]
fn publish_target_refusals() {
    let facts = |canonical: &str, again: Result<&str, &str>, dir: bool| PublishFacts {
        output_path: "dist/a.cf".to_owned(),
        canonical_output: canonical.to_owned(),
        recanonicalized_output: again.map(str::to_owned).map_err(str::to_owned),
        canonical_base: "/base".to_owned(),
        canonical_work: "/work".to_owned(),
        output_is_existing_dir: dir,
    };
    assert!(validate_publish_target(&facts("/x/dist/a.cf", Ok("/x/dist/a.cf"), false)).is_ok());
    let moved = validate_publish_target(&facts("/x/a.cf", Ok("/y/a.cf"), false)).expect_err("moved");
    assert_eq!(validation_message(moved), "output path changed during artifacts resolution: dist/a.cf");
    let base = validate_publish_target(&facts("/base", Ok("/base"), false)).expect_err("base");
    assert_eq!(validation_message(base), "artifacts output must not equal basePath");
    let root = validate_publish_target(&facts("/", Ok("/"), false)).expect_err("root");
    assert_eq!(validation_message(root), "artifacts output must not equal filesystem root");
    let io = validate_publish_target(&facts("/x", Err("gone"), false)).expect_err("io");
    assert!(matches!(io, AppError::Runtime(ref m) if m == "failed to re-canonicalize output path: gone"));
}

#[test]
fn target_identity_is_a_truncated_sha256() {
    assert_eq!(hash_path("abc"), "ba7816bf8f01cfea414140de5dae2223");
    assert_eq!(hash_path("").len(), 32);
    assert_eq!(lock_path_for("/dist/a.cf", "ff").expect("lock"), "/dist/.artifacts-ff.lock");
    assert!(lock_path_for("/", "ff").is_err());
}

#[test]
fn temporary_file_names() {
    assert_eq!(make_run_id(42, 255), "42-ff");
    assert_eq!(make_run_id(1, -1), "1-ffffffffffffffff");
    assert_eq!(staging_file_name("42-ff", ArtifactBuildMode::ConfigurationCf), ".artifacts-stage-42-ff.cf");
    assert_eq!(export_log_file_name("main", ArtifactBuildMode::ExtensionCfe), "artifacts-main-cfe.log");
    assert!(is_temp_candidate(".artifacts-stage-1-a.cf"));
    assert!(is_temp_candidate("release.backup-3.cf"));
    assert!(!is_temp_candidate("release.cf"));
    assert!(is_stale_temp("v8-test-runner", "id", "id", Some(86400)));
    assert!(!is_stale_temp("v8-test-runner", "id", "id", Some(86399)));
    assert!(!is_stale_temp("other", "id", "id", Some(100000)));
    assert!(!is_stale_temp("v8-test-runner", "id", "id", None));
}

#[test]
fn export_failure_reports_log_or_its_path() {
    let mut result = PlatformCommandResult {
        process: ProcessOutput { exit_code: 12, stdout: String::new(), stderr: " bad ".to_owned() },
        platform_log: Some("   ".to_owned()),
        platform_log_path: Some("/logs/a.log".to_owned()),
        platform_log_read_error: Some("log unreadable".to_owned()),
    };
    let err = ensure_export_success("main", &result).expect_err("failure");
    assert!(matches!(err, AppError::Platform(ref m)
        if m == "designer artifact export failed for source-set 'main' with exit code 12; stderr: bad; platform log path: /logs/a.log; log unreadable"));
    result.platform_log = Some("text".to_owned());
    result.platform_log_read_error = None;
    let err = ensure_export_success("main", &result).expect_err("failure");
    assert!(matches!(err, AppError::Platform(ref m) if m.ends_with("; platform log: text")));
}

#[test]
fn results_record_the_outcome() {
    let empty = empty_result(ArtifactBuildMode::ConfigurationCf, 3, None, None, "/dist/a.cf", Some("why".to_owned()));
    assert_eq!(empty.execution.status, ExecutionStatus::Failed);
    let meta = empty.execution.payload.as_ref().expect("payload");
    assert_eq!(meta.file_names, vec!["a.cf".to_owned()]);
    assert!(!meta.published);
    assert_eq!(empty.execution.diagnostics, vec!["why".to_owned()]);

    let artifacts = ArtifactSet { root_dir: None, items: vec![ArtifactRef { kind: ArtifactKind::Config, path: "/dist/a.cf".to_owned() }] };
    assert!(!artifacts.is_empty());
    let published = published_result(ArtifactBuildMode::ConfigurationCf, 4, "main".to_owned(), None, "/dist/a.cf", artifacts.clone(), None);
    assert!(published.execution.is_ok());
    assert!(published.execution.payload.expect("payload").published);

    let failed = export_failed_result(
        ArtifactBuildMode::ConfigurationCf,
        5,
        "main".to_owned(),
        None,
        "/dist/a.cf",
        "exit code 12".to_owned(),
        ArtifactSet::empty(),
        None,
    );
    assert!(!failed.execution.is_ok());
    assert_eq!(failed.execution.errors[0].code, "designer_export_failed");
    assert!(failed.execution.errors[0].message.contains("exit code 12"));
    assert!(ArtifactSet::empty().is_empty());
}
