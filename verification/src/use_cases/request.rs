//! Transport-neutral requests consumed by the use cases.

use vstd::prelude::*;

verus! {

/// Transport-neutral request for the `build` use case.
#[derive(Debug, Clone, PartialEq, Eq)]
pub struct BuildRequest {
    pub full_rebuild: bool,
}

/// Transport-neutral request for the `test` use case.
#[derive(Debug, Clone, PartialEq, Eq)]
pub struct TestRequest {
    pub full: bool,
    pub scope: TestScopeRequest,
}

/// Transport-neutral test scope.
#[derive(Debug, Clone, PartialEq, Eq)]
pub enum TestScopeRequest {
    All,
    Module { name: String },
}

/// Transport-neutral request for the `dump` use case.
#[derive(Debug, Clone, PartialEq, Eq)]
pub struct DumpRequest {
    pub mode: String,
    pub source_set: Option<String>,
    pub extension: Option<String>,
    pub objects: Vec<String>,
}

/// Transport-neutral request for the `syntax` use case.
#[derive(Debug, Clone, PartialEq, Eq)]
pub struct SyntaxRequest {
    pub target: SyntaxTargetRequest,
}

/// Transport-neutral syntax target.
#[derive(Debug, Clone, PartialEq, Eq)]
pub enum SyntaxTargetRequest {
    DesignerConfig(DesignerConfigSyntaxRequest),
    DesignerModules(DesignerModulesSyntaxRequest),
    Edt { projects: Vec<String> },
}

/// Transport-neutral request for Designer configuration checks.
#[derive(Debug, Clone, PartialEq, Eq)]
pub struct DesignerConfigSyntaxRequest {
    pub config_log_integrity: bool,
    pub incorrect_references: bool,
    pub thin_client: bool,
    pub web_client: bool,
    pub mobile_client: bool,
    pub server: bool,
    pub external_connection: bool,
    pub external_connection_server: bool,
    pub mobile_app_client: bool,
    pub mobile_app_server: bool,
    pub thick_client_managed_application: bool,
    pub thick_client_server_managed_application: bool,
    pub thick_client_ordinary_application: bool,
    pub thick_client_server_ordinary_application: bool,
    pub mobile_client_digi_sign: bool,
    pub distributive_modules: bool,
    pub unreference_procedures: bool,
    pub handlers_existence: bool,
    pub empty_handlers: bool,
    pub extended_modules_check: bool,
    pub check_use_synchronous_calls: bool,
    pub check_use_modality: bool,
    pub unsupported_functional: bool,
    pub extension: Option<String>,
    pub all_extensions: bool,
}

/// Transport-neutral request for Designer module checks.
#[derive(Debug, Clone, PartialEq, Eq)]
pub struct DesignerModulesSyntaxRequest {
    pub thin_client: bool,
    pub web_client: bool,
    pub server: bool,
    pub external_connection: bool,
    pub thick_client_ordinary_application: bool,
    pub mobile_app_client: bool,
    pub mobile_app_server: bool,
    pub mobile_client: bool,
    pub extended_modules_check: bool,
    pub extension: Option<String>,
    pub all_extensions: bool,
}

/// Transport-neutral request for the `launch` use case.
#[derive(Debug, Clone, PartialEq, Eq)]
pub struct LaunchRequest {
    pub mode: String,
}

/// Direction of a source conversion.
#[derive(Debug, Clone, Copy, PartialEq, Eq, Structural)]
pub enum ConvertDirectionRequest {
    EdtToDesigner,
    DesignerToEdt,
}

/// Transport-neutral request for the `convert` use case.
#[derive(Debug, Clone, PartialEq, Eq)]
pub struct ConvertRequest {
    pub direction: ConvertDirectionRequest,
    pub source_path: String,
    pub target_path: String,
    pub version: Option<String>,
    pub base_project_name: Option<String>,
    pub build: bool,
}

/// Transport-neutral request for the `init` use case.
#[derive(Debug, Clone, PartialEq, Eq)]
pub struct InitRequest {}

/// Which artifact to build.
#[derive(Debug, Clone, Copy, PartialEq, Eq, Structural)]
pub enum ArtifactsModeRequest {
    ConfigurationCf,
    ExtensionCfe,
}

/// Which packaging runner an execution profile selects.
#[derive(Debug, Clone, Copy, PartialEq, Eq, Structural)]
pub enum RunnerKind {
    Cf,
    Cfe,
    Epf,
    Erf,
}

/// The execution profile of an artifacts request: the backend it asks for
/// and the runner kind.
#[derive(Debug, Clone, PartialEq, Eq)]
pub struct ArtifactsExecutionProfile {
    pub backend_hint: Option<String>,
    pub kind: RunnerKind,
}

/// Transport-neutral request for the `artifacts` use case.
#[derive(Debug, Clone, PartialEq, Eq)]
pub struct ArtifactsRequest {
    pub profile: ArtifactsExecutionProfile,
    pub mode: ArtifactsModeRequest,
    pub output_path: String,
    pub source_set: Option<String>,
    pub extension: Option<String>,
}

impl ArtifactsRequest {
    /// The default profile of a mode: the Designer backend and the runner of
    /// that artifact kind.
    pub fn default_profile(mode: ArtifactsModeRequest) -> (p: ArtifactsExecutionProfile)
        ensures
            p.backend_hint matches Some(h) && h@ == "designer"@,
            p.kind == (match mode {
                ArtifactsModeRequest::ConfigurationCf => RunnerKind::Cf,
                ArtifactsModeRequest::ExtensionCfe => RunnerKind::Cfe,
            }),
    {
        let kind = match mode {
            ArtifactsModeRequest::ConfigurationCf => RunnerKind::Cf,
            ArtifactsModeRequest::ExtensionCfe => RunnerKind::Cfe,
        };
        ArtifactsExecutionProfile { backend_hint: Some(String::from_str("designer")), kind }
    }
}

} // verus!
