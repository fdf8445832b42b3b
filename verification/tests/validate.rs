use v8_runner::config::model::{
    AppConfig, BuildConfig, BuilderBackend, CredentialsConfig, McpConfig, McpExecutionConfig, McpHttpConfig,
    PlatformToolConfig, SourceFormat, SourceSetConfig, SourceSetPurpose, TestsConfig, ToolsConfig,
};
use v8_runner::config::validate::{source_set_paths, validate, ConfigValidationError, ValidationFacts};
use v8_runner::probe::PathFacts;

fn config(name: &str, tools: ToolsConfig) -> AppConfig {
    AppConfig {
        base_path: "/tmp/base".to_owned(),
        work_path: "/tmp/work".to_owned(),
        format: SourceFormat::Designer,
        builder: BuilderBackend::Designer,
        connection: "File=/tmp/ib".to_owned(),
        credentials: CredentialsConfig::default(),
        source_sets: vec![SourceSetConfig {
            name: name.to_owned(),
            purpose: SourceSetPurpose::Configuration,
            path: "src".to_owned(),
        }],
        build: BuildConfig::default(),
        tools,
        mcp: McpConfig {
            http: McpHttpConfig::default(),
            execution: McpExecutionConfig { max_concurrent_calls: 1, shutdown_grace_period_secs: 1 },
        },
        tests: TestsConfig::default(),
    }
}

/// The base directory exists, the work directory could be created, and each
/// source-set directory exists as itself.
fn existing_layout(config: &AppConfig) -> ValidationFacts {
    let paths = source_set_paths(config)
        .into_iter()
        .map(|p| PathFacts { path: p.clone(), exists: true, canonical: Some(p) })
        .collect();
    ValidationFacts { base_path_is_dir: true, work_path_error: None, paths }
}

#[test]
fn rejects_platform_versions_without_four_parts() {
    let config = config(
        "main",
        ToolsConfig {
            platform: PlatformToolConfig { path: None, version: Some("8.3.25".to_owned()) },
            ..ToolsConfig::default()
        },
    );

    let err = validate(&config, &existing_layout(&config)).expect_err("expected invalid version");
    assert!(matches!(err, ConfigValidationError::InvalidPlatformVersion(_)));
}

#[test]
fn rejects_source_set_name_with_parent_traversal() {
    let config = config("../outside", ToolsConfig::default());

    let err = validate(&config, &existing_layout(&config)).expect_err("expected invalid source-set name");
    assert!(matches!(err, ConfigValidationError::InvalidSourceSetName(name) if name == "../outside"));
}

#[test]
fn rejects_source_set_name_with_path_separator() {
    let config = config("bad/name", ToolsConfig::default());

    let err = validate(&config, &existing_layout(&config)).expect_err("expected invalid source-set name");
    assert!(matches!(err, ConfigValidationError::InvalidSourceSetName(name) if name == "bad/name"));
}

#[test]
fn accepts_safe_source_set_name() {
    let config = config("main-config_01", ToolsConfig::default());

    validate(&config, &existing_layout(&config)).expect("safe source-set name should pass");
}

#[test]
fn accepts_an_exact_platform_version() {
    let config = config(
        "main",
        ToolsConfig {
            platform: PlatformToolConfig { path: None, version: Some("8.3.25.1257".to_owned()) },
            ..ToolsConfig::default()
        },
    );

    assert!(validate(&config, &existing_layout(&config)).is_ok());
}

#[test]
fn reports_a_missing_base_path_first() {
    let config = config("../outside", ToolsConfig::default());
    let mut facts = existing_layout(&config);
    facts.base_path_is_dir = false;

    let err = validate(&config, &facts).expect_err("base path");
    assert!(matches!(err, ConfigValidationError::BasePathInvalid(ref p) if p == "/tmp/base"));
    assert_eq!(err.message(), "basePath does not exist or is not a directory: /tmp/base");
}

#[test]
fn reports_a_missing_source_set_directory() {
    let config = config("main", ToolsConfig::default());
    let facts = ValidationFacts {
        base_path_is_dir: true,
        work_path_error: None,
        paths: vec![PathFacts { path: "/tmp/base/src".to_owned(), exists: false, canonical: None }],
    };

    let err = validate(&config, &facts).expect_err("missing source");
    assert!(matches!(err, ConfigValidationError::SourceSetPathInvalid { ref name, ref path } if name == "main" && path == "/tmp/base/src"));
}

#[test]
fn ibcmd_requires_a_file_connection() {
    let mut config = config("main", ToolsConfig::default());
    config.builder = BuilderBackend::Ibcmd;
    config.connection = "Srvr=host;Ref=ib".to_owned();

    let err = validate(&config, &existing_layout(&config)).expect_err("connection");
    assert!(matches!(err, ConfigValidationError::IbcmdRequiresFileConnection));
}
