//! The configuration model (`v8project.yaml`), with paths held as strings.

use vstd::prelude::*;
use crate::path::{is_absolute, join, is_absolute_seq, join_seq, component_count, component_count_seq};

verus! {

/// Layout of the source tree.
#[derive(Debug, Clone, Copy, PartialEq, Eq, Structural)]
pub enum SourceFormat {
    Designer,
    Edt,
}

/// Backend used to load sources into the infobase.
#[derive(Debug, Clone, Copy, PartialEq, Eq, Structural)]
pub enum BuilderBackend {
    Designer,
    Ibcmd,
}

/// Role of a source-set.
#[derive(Debug, Clone, Copy, PartialEq, Eq, Structural)]
pub enum SourceSetPurpose {
    Configuration,
    Extension,
    ExternalDataProcessors,
    ExternalReports,
}

impl SourceSetPurpose {
    /// Whether the source-set holds external data processors or reports.
    pub open spec fn spec_is_external(self) -> bool {
        self == SourceSetPurpose::ExternalDataProcessors || self == SourceSetPurpose::ExternalReports
    }

    /// Whether the source-set holds external data processors or reports.
    pub fn is_external(self) -> (b: bool)
        ensures
            b == self.spec_is_external(),
    {
        match self {
            SourceSetPurpose::ExternalDataProcessors => true,
            SourceSetPurpose::ExternalReports => true,
            _ => false,
        }
    }
}

/// One logical source-set of the project.
#[derive(Debug, Clone)]
pub struct SourceSetConfig {
    pub name: String,
    pub purpose: SourceSetPurpose,
    /// Absolute, or relative to `basePath`.
    pub path: String,
}

/// Credentials for the infobase.
#[derive(Debug, Clone)]
pub struct CredentialsConfig {
    pub user: Option<String>,
    pub password: Option<String>,
}

impl Default for CredentialsConfig {
    fn default() -> (r: Self)
        ensures
            r.user is None,
            r.password is None,
    {
        CredentialsConfig { user: None, password: None }
    }
}

/// Build settings.
#[derive(Debug, Clone)]
pub struct BuildConfig {
    /// Largest number of files loaded partially before a full load is forced.
    pub partial_load_threshold: usize,
}

impl Default for BuildConfig {
    fn default() -> (r: Self)
        ensures
            r.partial_load_threshold == 20,
    {
        BuildConfig { partial_load_threshold: crate::change_detection::partial_load::DEFAULT_PARTIAL_LOAD_THRESHOLD }
    }
}

/// Location of the 1C platform.
#[derive(Debug, Clone)]
pub struct PlatformToolConfig {
    pub path: Option<String>,
    pub version: Option<String>,
}

impl Default for PlatformToolConfig {
    fn default() -> (r: Self)
        ensures
            r.path is None,
            r.version is None,
    {
        PlatformToolConfig { path: None, version: None }
    }
}

/// Location and mode of the EDT command-line tool.
#[derive(Debug, Clone)]
pub struct EdtCliConfig {
    pub path: Option<String>,
    pub version: Option<String>,
    pub interactive_mode: bool,
    pub startup_timeout_ms: u64,
    pub command_timeout_ms: u64,
}

impl Default for EdtCliConfig {
    fn default() -> (r: Self)
        ensures
            r.path is None,
            r.version is None,
            !r.interactive_mode,
            r.startup_timeout_ms == 0,
            r.command_timeout_ms == 0,
    {
        EdtCliConfig {
            path: None,
            version: None,
            interactive_mode: false,
            startup_timeout_ms: 0,
            command_timeout_ms: 0,
        }
    }
}

/// External tools.
#[derive(Debug, Clone)]
pub struct ToolsConfig {
    pub platform: PlatformToolConfig,
    pub edt_cli: EdtCliConfig,
}

impl Default for ToolsConfig {
    fn default() -> (r: Self)
        ensures
            r.platform.path is None,
            r.platform.version is None,
            r.edt_cli.path is None,
            r.edt_cli.version is None,
            !r.edt_cli.interactive_mode,
    {
        ToolsConfig { platform: PlatformToolConfig::default(), edt_cli: EdtCliConfig::default() }
    }
}

/// MCP HTTP transport settings.
#[derive(Debug, Clone)]
pub struct McpHttpConfig {
    pub host: Option<String>,
    pub port: Option<u16>,
}

impl Default for McpHttpConfig {
    fn default() -> (r: Self)
        ensures
            r.host is None,
            r.port is None,
    {
        McpHttpConfig { host: None, port: None }
    }
}

/// MCP execution limits.
#[derive(Debug, Clone)]
pub struct McpExecutionConfig {
    pub max_concurrent_calls: usize,
    pub shutdown_grace_period_secs: u64,
}

/// MCP settings.
#[derive(Debug, Clone)]
pub struct McpConfig {
    pub http: McpHttpConfig,
    pub execution: McpExecutionConfig,
}

/// Test-run settings.
#[derive(Debug, Clone)]
pub struct TestsConfig {
    pub module: Option<String>,
}

impl Default for TestsConfig {
    fn default() -> (r: Self)
        ensures
            r.module is None,
    {
        TestsConfig { module: None }
    }
}

/// The whole application configuration.
#[derive(Debug, Clone)]
pub struct AppConfig {
    pub base_path: String,
    pub work_path: String,
    pub format: SourceFormat,
    pub builder: BuilderBackend,
    pub connection: String,
    pub credentials: CredentialsConfig,
    pub source_sets: Vec<SourceSetConfig>,
    pub build: BuildConfig,
    pub tools: ToolsConfig,
    pub mcp: McpConfig,
    pub tests: TestsConfig,
}

/// Where a source-set lives: its path if absolute, else below `basePath`.
pub open spec fn resolved_source_set_path(base_path: Seq<char>, path: Seq<char>) -> Seq<char> {
    if is_absolute_seq(path) {
        path
    } else {
        join_seq(base_path, path)
    }
}

/// Where a source-set lives: its path if absolute, else below `basePath`.
pub fn resolve_source_set_path(config: &AppConfig, source_set: &SourceSetConfig) -> (r: String)
    ensures
        r@ == resolved_source_set_path(config.base_path@, source_set.path@),
{
    if is_absolute(source_set.path.as_str()) {
        source_set.path.clone()
    } else {
        join(config.base_path.as_str(), source_set.path.as_str())
    }
}

/// The EDT path hint handed to the utility locator: the configured path when
/// it is absolute, has more than one component, exists, or no EDT version is
/// configured; otherwise the path is taken as a version name and no hint is
/// given. `path_exists` tells whether the configured path exists.
pub fn edt_path_hint(config: &AppConfig, path_exists: bool) -> (r: Option<String>)
    ensures
        match config.tools.edt_cli.path {
            None => r is None,
            Some(p) => if is_absolute_seq(p@) || component_count_seq(p@) > 1 || path_exists
                || config.tools.edt_cli.version is None {
                r == Some(p)
            } else {
                r is None
            },
        },
{
    match &config.tools.edt_cli.path {
        None => None,
        Some(p) => {
            if is_absolute(p.as_str()) || component_count(p.as_str()) > 1 || path_exists
                || config.tools.edt_cli.version.is_none() {
                Some(p.clone())
            } else {
                None
            }
        },
    }
}

} // verus!
