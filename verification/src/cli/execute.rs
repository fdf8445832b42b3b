//! Mapping of parsed commands into transport-neutral requests.

use vstd::prelude::*;
use crate::cli::args::{
    BuildArgs, Command, DesignerConfigSyntaxArgs, DesignerModulesSyntaxArgs, DumpArgs, LaunchArgs,
    SyntaxArgs, SyntaxTarget, TestArgs, TestScope,
};
use crate::use_cases::context::CommandName;
use crate::use_cases::request::{
    BuildRequest, DesignerConfigSyntaxRequest, DesignerModulesSyntaxRequest, DumpRequest,
    LaunchRequest, SyntaxRequest, SyntaxTargetRequest, TestRequest, TestScopeRequest,
};
use crate::support::clone::{clone_opt_string, clone_strings};

verus! {

/// The command identifier of each parsed command.
pub open spec fn command_of(command: Command) -> CommandName {
    match command {
        Command::Build(_) => CommandName::Build,
        Command::Test(_) => CommandName::Test,
        Command::Dump(_) => CommandName::Dump,
        Command::Syntax(_) => CommandName::Syntax,
        Command::Launch(_) => CommandName::Launch,
    }
}

/// Returns the canonical command identifier for a parsed CLI command.
pub fn command_name(command: &Command) -> (c: CommandName)
    ensures
        c == command_of(*command),
{
    match command {
        Command::Build(_) => CommandName::Build,
        Command::Test(_) => CommandName::Test,
        Command::Dump(_) => CommandName::Dump,
        Command::Syntax(_) => CommandName::Syntax,
        Command::Launch(_) => CommandName::Launch,
    }
}

/// `build` arguments as a request.
pub fn map_build_request(args: &BuildArgs) -> (r: BuildRequest)
    ensures
        r.full_rebuild == args.full_rebuild,
{
    BuildRequest { full_rebuild: args.full_rebuild }
}

/// `test` arguments as a request: same report flag, same scope.
pub fn map_test_request(args: &TestArgs) -> (r: TestRequest)
    ensures
        r.full == args.full,
        match args.scope {
            TestScope::All => r.scope == TestScopeRequest::All,
            TestScope::Module { name } => r.scope == (TestScopeRequest::Module { name }),
        },
{
    TestRequest {
        full: args.full,
        scope: match &args.scope {
            TestScope::All => TestScopeRequest::All,
            TestScope::Module { name } => TestScopeRequest::Module { name: name.clone() },
        },
    }
}

/// `dump` arguments as a request, field for field.
pub fn map_dump_request(args: &DumpArgs) -> (r: DumpRequest)
    ensures
        r.mode == args.mode,
        r.source_set == args.source_set,
        r.extension == args.extension,
        r.objects@ == args.objects@,
{
    DumpRequest {
        mode: args.mode.clone(),
        source_set: clone_opt_string(&args.source_set),
        extension: clone_opt_string(&args.extension),
        objects: clone_strings(&args.objects),
    }
}

/// Whether a configuration-check request carries the same switches as the arguments.
pub open spec fn same_config_check(r: DesignerConfigSyntaxRequest, a: DesignerConfigSyntaxArgs) -> bool {
    &&& r.config_log_integrity == a.config_log_integrity
    &&& r.incorrect_references == a.incorrect_references
    &&& r.thin_client == a.thin_client
    &&& r.web_client == a.web_client
    &&& r.mobile_client == a.mobile_client
    &&& r.server == a.server
    &&& r.external_connection == a.external_connection
    &&& r.external_connection_server == a.external_connection_server
    &&& r.mobile_app_client == a.mobile_app_client
    &&& r.mobile_app_server == a.mobile_app_server
    &&& r.thick_client_managed_application == a.thick_client_managed_application
    &&& r.thick_client_server_managed_application == a.thick_client_server_managed_application
    &&& r.thick_client_ordinary_application == a.thick_client_ordinary_application
    &&& r.thick_client_server_ordinary_application == a.thick_client_server_ordinary_application
    &&& r.mobile_client_digi_sign == a.mobile_client_digi_sign
    &&& r.distributive_modules == a.distributive_modules
    &&& r.unreference_procedures == a.unreference_procedures
    &&& r.handlers_existence == a.handlers_existence
    &&& r.empty_handlers == a.empty_handlers
    &&& r.extended_modules_check == a.extended_modules_check
    &&& r.check_use_synchronous_calls == a.check_use_synchronous_calls
    &&& r.check_use_modality == a.check_use_modality
    &&& r.unsupported_functional == a.unsupported_functional
    &&& r.extension == a.extension
    &&& r.all_extensions == a.all_extensions
}

/// Whether a module-check request carries the same switches as the arguments.
pub open spec fn same_modules_check(r: DesignerModulesSyntaxRequest, a: DesignerModulesSyntaxArgs) -> bool {
    &&& r.thin_client == a.thin_client
    &&& r.web_client == a.web_client
    &&& r.server == a.server
    &&& r.external_connection == a.external_connection
    &&& r.thick_client_ordinary_application == a.thick_client_ordinary_application
    &&& r.mobile_app_client == a.mobile_app_client
    &&& r.mobile_app_server == a.mobile_app_server
    &&& r.mobile_client == a.mobile_client
    &&& r.extended_modules_check == a.extended_modules_check
    &&& r.extension == a.extension
    &&& r.all_extensions == a.all_extensions
}

/// `syntax designer-config` arguments as a request, switch for switch.
pub fn map_designer_config_request(args: &DesignerConfigSyntaxArgs) -> (r: DesignerConfigSyntaxRequest)
    ensures
        same_config_check(r, *args),
{
    DesignerConfigSyntaxRequest {
        config_log_integrity: args.config_log_integrity,
        incorrect_references: args.incorrect_references,
        thin_client: args.thin_client,
        web_client: args.web_client,
        mobile_client: args.mobile_client,
        server: args.server,
        external_connection: args.external_connection,
        external_connection_server: args.external_connection_server,
        mobile_app_client: args.mobile_app_client,
        mobile_app_server: args.mobile_app_server,
        thick_client_managed_application: args.thick_client_managed_application,
        thick_client_server_managed_application: args.thick_client_server_managed_application,
        thick_client_ordinary_application: args.thick_client_ordinary_application,
        thick_client_server_ordinary_application: args.thick_client_server_ordinary_application,
        mobile_client_digi_sign: args.mobile_client_digi_sign,
        distributive_modules: args.distributive_modules,
        unreference_procedures: args.unreference_procedures,
        handlers_existence: args.handlers_existence,
        empty_handlers: args.empty_handlers,
        extended_modules_check: args.extended_modules_check,
        check_use_synchronous_calls: args.check_use_synchronous_calls,
        check_use_modality: args.check_use_modality,
        unsupported_functional: args.unsupported_functional,
        extension: clone_opt_string(&args.extension),
        all_extensions: args.all_extensions,
    }
}

/// `syntax designer-modules` arguments as a request, switch for switch.
pub fn map_designer_modules_request(args: &DesignerModulesSyntaxArgs) -> (r: DesignerModulesSyntaxRequest)
    ensures
        same_modules_check(r, *args),
{
    DesignerModulesSyntaxRequest {
        thin_client: args.thin_client,
        web_client: args.web_client,
        server: args.server,
        external_connection: args.external_connection,
        thick_client_ordinary_application: args.thick_client_ordinary_application,
        mobile_app_client: args.mobile_app_client,
        mobile_app_server: args.mobile_app_server,
        mobile_client: args.mobile_client,
        extended_modules_check: args.extended_modules_check,
        extension: clone_opt_string(&args.extension),
        all_extensions: args.all_extensions,
    }
}

/// `syntax` arguments as a request, for the same target.
pub fn map_syntax_request(args: &SyntaxArgs) -> (r: SyntaxRequest)
    ensures
        match args.target {
            SyntaxTarget::DesignerConfig(c) => r.target matches SyntaxTargetRequest::DesignerConfig(rc) && same_config_check(rc, c),
            SyntaxTarget::DesignerModules(m) => r.target matches SyntaxTargetRequest::DesignerModules(rm) && same_modules_check(rm, m),
            SyntaxTarget::Edt { projects } => r.target matches SyntaxTargetRequest::Edt { projects: rp } && rp@ == projects@,
        },
{
    SyntaxRequest {
        target: match &args.target {
            SyntaxTarget::DesignerConfig(config) => SyntaxTargetRequest::DesignerConfig(map_designer_config_request(config)),
            SyntaxTarget::DesignerModules(modules) => SyntaxTargetRequest::DesignerModules(map_designer_modules_request(modules)),
            SyntaxTarget::Edt { projects } => SyntaxTargetRequest::Edt { projects: clone_strings(projects) },
        },
    }
}

/// `launch` arguments as a request.
pub fn map_launch_request(args: &LaunchArgs) -> (r: LaunchRequest)
    ensures
        r.mode == args.mode,
{
    LaunchRequest { mode: args.mode.clone() }
}

} // verus!
