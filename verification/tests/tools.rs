use v8_runner::change_detection::source_sets::SourceSetsService;
use v8_runner::config::model::{
    edt_path_hint, AppConfig, BuildConfig, BuilderBackend, CredentialsConfig, EdtCliConfig, McpConfig,
    McpExecutionConfig, McpHttpConfig, PlatformToolConfig, SourceFormat, SourceSetConfig, SourceSetPurpose,
    TestsConfig, ToolsConfig,
};
use v8_runner::domain::dump::DumpMode;
use v8_runner::domain::launch::LaunchMode;
use v8_runner::domain::source_set::SourceSetContext;
use v8_runner::platform::download::{
    curl_args, download_next, download_preflight, DownloadAction, DownloadError, DownloadPoll,
};
use v8_runner::platform::utility::UtilityType;
use v8_runner::support::error::AppError;
use v8_runner::use_cases::dump_config::{
    dump_failed_result, dump_utility, dumped_result, map_dump_mode, select_dump_route, DumpModeRequest, DumpRoute,
};
use v8_runner::use_cases::launch_app::{failure_result, launch_plan, launch_process_args, launched_result};

fn config(format: SourceFormat) -> AppConfig {
    AppConfig {
        base_path: "/base".to_owned(),
        work_path: "/work".to_owned(),
        format,
        builder: BuilderBackend::Designer,
        connection: "File=/tmp/ib".to_owned(),
        credentials: CredentialsConfig::default(),
        source_sets: vec![
            SourceSetConfig { name: "main".to_owned(), purpose: SourceSetPurpose::Configuration, path: "main".to_owned() },
            SourceSetConfig { name: "ext".to_owned(), purpose: SourceSetPurpose::Extension, path: "/abs/ext".to_owned() },
        ],
        build: BuildConfig::default(),
        tools: ToolsConfig { platform: PlatformToolConfig::default(), edt_cli: EdtCliConfig::default() },
        mcp: McpConfig {
            http: McpHttpConfig::default(),
            execution: McpExecutionConfig { max_concurrent_calls: 1, shutdown_grace_period_secs: 1 },
        },
        tests: TestsConfig::default(),
    }
}

#[test]
fn designer_projects_scan_sources_where_they_are() {
    let config = config(SourceFormat::Designer);
    let service = SourceSetsService::new(&config);
    let contexts = service.designer_contexts();
    assert_eq!(contexts[0], SourceSetContext::new("main", "/base/main".to_owned(), "designer-main".to_owned()));
    assert_eq!(contexts[1].path, "/abs/ext");
    assert!(service.edt_contexts().is_empty());
    assert_eq!(service.storage_dir(), "/work/hash-storages");
    assert_eq!(contexts[0].storage_path("/work"), "/work/hash-storages/designer-main.redb");
}

#[test]
fn edt_projects_scan_sources_and_generated_copies() {
    let config = config(SourceFormat::Edt);
    let service = SourceSetsService::new(&config);
    let designer = service.designer_contexts();
    assert_eq!(designer[0].path, "/work/main");
    assert_eq!(designer[1].storage_key, "designer-ext");
    let edt = service.edt_contexts();
    assert_eq!(edt[0].path, "/base/main");
    assert_eq!(edt[1].storage_key, "edt-ext");
}

#[test]
fn edt_path_hint_keeps_paths_and_drops_version_names() {
    let mut config = config(SourceFormat::Edt);
    config.tools.edt_cli.path = Some("2024.1".to_owned());
    config.tools.edt_cli.version = Some("2024.1".to_owned());
    assert_eq!(edt_path_hint(&config, false), None);
    assert_eq!(edt_path_hint(&config, true).as_deref(), Some("2024.1"));
    config.tools.edt_cli.path = Some("/opt/edt/1cedtcli".to_owned());
    assert_eq!(edt_path_hint(&config, false).as_deref(), Some("/opt/edt/1cedtcli"));
    config.tools.edt_cli.path = Some("edt".to_owned());
    config.tools.edt_cli.version = None;
    assert_eq!(edt_path_hint(&config, false).as_deref(), Some("edt"));
}

#[test]
fn dump_routes_follow_format_mode_and_builder() {
    assert_eq!(map_dump_mode(DumpModeRequest::Partial), DumpMode::Partial);
    assert_eq!(dump_utility(BuilderBackend::Ibcmd), UtilityType::Ibcmd);
    assert_eq!(
        select_dump_route(SourceFormat::Designer, DumpMode::Incremental, BuilderBackend::Ibcmd, false, false).expect("route"),
        DumpRoute::IncrementalIbcmd
    );
    assert_eq!(
        select_dump_route(SourceFormat::Edt, DumpMode::Partial, BuilderBackend::Designer, true, true).expect("route"),
        DumpRoute::PartialEdtDesigner
    );
    let err = select_dump_route(SourceFormat::Edt, DumpMode::Partial, BuilderBackend::Designer, false, false).expect_err("objects");
    assert!(matches!(err, AppError::Runtime(ref m) if m == "partial dump objects were not validated before execution"));
    let err = select_dump_route(SourceFormat::Edt, DumpMode::Full, BuilderBackend::Designer, false, false).expect_err("binary");
    assert!(matches!(err, AppError::Runtime(ref m) if m == "EDT binary must be resolved before executing format=EDT dump"));
}

#[test]
fn dump_results_report_the_outcome() {
    let done = dumped_result("main".to_owned(), None, DumpMode::Full, "/src".to_owned(), None, 4, None);
    assert_eq!(done.message.as_deref(), Some("dump completed successfully"));
    let cleaned = dumped_result("main".to_owned(), None, DumpMode::Full, "/src".to_owned(), None, 4, Some("left a backup".to_owned()));
    assert_eq!(cleaned.message.as_deref(), Some("left a backup"));
    let failed = dump_failed_result("main".to_owned(), None, DumpMode::Partial, "/src".to_owned(), 4, "boom".to_owned());
    assert!(!failed.ok);
}

#[test]
fn launch_modes_choose_the_application() {
    let thin = launch_plan("thin").expect("thin");
    assert_eq!((thin.mode, thin.utility, thin.command_mode), (LaunchMode::Thin, UtilityType::V8C, "ENTERPRISE"));
    let designer = launch_plan("designer").expect("designer");
    assert_eq!((designer.utility, designer.command_mode), (UtilityType::V8, "DESIGNER"));
    let err = launch_plan("web").expect_err("unsupported");
    assert!(matches!(err, AppError::Validation(ref m) if m == "unsupported launch mode: web"));

    let args = launch_process_args(&thin, vec!["/F".to_owned(), "/tmp/ib".to_owned()]);
    assert_eq!(args, vec!["ENTERPRISE".to_owned(), "/F".to_owned(), "/tmp/ib".to_owned()]);

    let launched = launched_result("thin", &thin, "/opt/1cv8c".to_owned(), 4242, 3);
    assert_eq!(launched.message.as_deref(), Some("Launched thin via /opt/1cv8c (pid 4242)"));
    assert_eq!(failure_result("thick", None, None, 1).mode, LaunchMode::Thick);
    assert_eq!(failure_result("web", Some("/b".to_owned()), None, 1).mode, LaunchMode::Designer);
}

#[test]
fn ordinary_launch_mode_starts_the_thick_client_as_an_ordinary_application() {
    let ordinary = launch_plan("ordinary").expect("ordinary is a supported launch mode");
    assert_eq!(
        (ordinary.mode, ordinary.utility, ordinary.command_mode, ordinary.run_mode_switch),
        (LaunchMode::Ordinary, UtilityType::V8, "ENTERPRISE", Some("/RunModeOrdinaryApplication"))
    );
    let args = launch_process_args(&ordinary, vec!["/F".to_owned(), "/tmp/ib".to_owned()]);
    assert_eq!(
        args,
        vec!["ENTERPRISE".to_owned(), "/RunModeOrdinaryApplication".to_owned(), "/F".to_owned(), "/tmp/ib".to_owned()]
    );
    for mode in ["designer", "thin", "thick", "ordinary"] {
        assert!(launch_plan(mode).is_ok(), "{mode} must be accepted");
    }
    let launched = launched_result("ordinary", &ordinary, "/opt/1cv8".to_owned(), 7, 2);
    assert!(launched.ok);
    assert_eq!(launched.mode, LaunchMode::Ordinary);
    assert_eq!(launched.message.as_deref(), Some("Launched ordinary via /opt/1cv8 (pid 7)"));
    assert_eq!(failure_result("ordinary", None, None, 1).mode, LaunchMode::Ordinary);
}

#[test]
fn download_polling_decisions() {
    assert_eq!(curl_args("https://x")[0], "-fsSL");
    assert_eq!(curl_args("https://x")[5], "https://x");
    assert_eq!(download_preflight(Some(0)), Some(DownloadError::TimedOut { timeout_ms: 0 }));
    assert_eq!(download_preflight(Some(5)), None);
    assert_eq!(download_next(None, DownloadPoll::Exited { success: true, code: Some(0) }), DownloadAction::ReadOutput);
    assert_eq!(download_next(None, DownloadPoll::Exited { success: false, code: None }), DownloadAction::Fail { code: -1 });
    assert_eq!(download_next(Some(100), DownloadPoll::Running { cancelled: true, elapsed_ms: 0 }), DownloadAction::Cancel);
    assert_eq!(download_next(Some(100), DownloadPoll::Running { cancelled: false, elapsed_ms: 100 }), DownloadAction::TimeOut { timeout_ms: 100 });
    assert_eq!(download_next(Some(100), DownloadPoll::Running { cancelled: false, elapsed_ms: 90 }), DownloadAction::Sleep { ms: 10 });
    assert_eq!(download_next(None, DownloadPoll::Running { cancelled: false, elapsed_ms: 90 }), DownloadAction::Sleep { ms: 25 });
    assert_eq!(DownloadError::Failed { code: 22, stderr: "404".to_owned() }.message(), "curl exited with 22; stderr: 404");
    assert_eq!(DownloadError::TimedOut { timeout_ms: 7 }.message(), "curl timed out after 7ms");
}
