//! Parsed command-line arguments of the commands that run use cases.

use vstd::prelude::*;

verus! {

/// `build` arguments.
#[derive(Debug, Clone, PartialEq, Eq)]
pub struct BuildArgs {
    pub full_rebuild: bool,
}

/// Which tests to run.
#[derive(Debug, Clone, PartialEq, Eq)]
pub enum TestScope {
    All,
    Module { name: String },
}

/// `test` arguments.
#[derive(Debug, Clone, PartialEq, Eq)]
pub struct TestArgs {
    pub full: bool,
    pub scope: TestScope,
}

/// `dump` arguments.
#[derive(Debug, Clone, PartialEq, Eq)]
pub struct DumpArgs {
    pub mode: String,
    pub source_set: Option<String>,
    pub extension: Option<String>,
    pub objects: Vec<String>,
}

/// `syntax designer-config` arguments.
#[derive(Debug, Clone, PartialEq, Eq)]
pub struct DesignerConfigSyntaxArgs {
    pub config_log_integrity: bool,
    pub incorrect_references: bool,
    pub thin_client: bool,
    pub web_client: bool,
    pub mobile_client: bool,
    pub server: bool,
    pub external_connection: bool,
    pub external_connection_server: bool,
    pub mobile_app_client: bool,
    pub mobile_app_server: bool,
    pub thick_client_managed_application: bool,
    pub thick_client_server_managed_application: bool,
    pub thick_client_ordinary_application: bool,
    pub thick_client_server_ordinary_application: bool,
    pub mobile_client_digi_sign: bool,
    pub distributive_modules: bool,
    pub unreference_procedures: bool,
    pub handlers_existence: bool,
    pub empty_handlers: bool,
    pub extended_modules_check: bool,
    pub check_use_synchronous_calls: bool,
    pub check_use_modality: bool,
    pub unsupported_functional: bool,
    pub extension: Option<String>,
    pub all_extensions: bool,
}

/// `syntax designer-modules` arguments.
#[derive(Debug, Clone, PartialEq, Eq)]
pub struct DesignerModulesSyntaxArgs {
    pub thin_client: bool,
    pub web_client: bool,
    pub server: bool,
    pub external_connection: bool,
    pub thick_client_ordinary_application: bool,
    pub mobile_app_client: bool,
    pub mobile_app_server: bool,
    pub mobile_client: bool,
    pub extended_modules_check: bool,
    pub extension: Option<String>,
    pub all_extensions: bool,
}

/// What a `syntax` command checks.
#[derive(Debug, Clone, PartialEq, Eq)]
pub enum SyntaxTarget {
    DesignerConfig(DesignerConfigSyntaxArgs),
    DesignerModules(DesignerModulesSyntaxArgs),
    Edt { projects: Vec<String> },
}

/// `syntax` arguments.
#[derive(Debug, Clone, PartialEq, Eq)]
pub struct SyntaxArgs {
    pub target: SyntaxTarget,
}

/// `launch` arguments.
#[derive(Debug, Clone, PartialEq, Eq)]
pub struct LaunchArgs {
    pub mode: String,
}

/// The commands that run a use case.
#[derive(Debug, Clone, PartialEq, Eq)]
pub enum Command {
    Build(BuildArgs),
    Test(TestArgs),
    Dump(DumpArgs),
    Syntax(SyntaxArgs),
    Launch(LaunchArgs),
}

} // verus!
