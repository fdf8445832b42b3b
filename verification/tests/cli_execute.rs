use v8_runner::cli::args::{
    BuildArgs, Command, DesignerConfigSyntaxArgs, DesignerModulesSyntaxArgs, DumpArgs, LaunchArgs, SyntaxArgs,
    SyntaxTarget, TestArgs, TestScope,
};
use v8_runner::cli::execute::{
    command_name, map_build_request, map_designer_config_request, map_dump_request, map_launch_request,
    map_syntax_request, map_test_request,
};
use v8_runner::use_cases::context::CommandName;
use v8_runner::use_cases::request::{SyntaxTargetRequest, TestScopeRequest};

#[test]
fn maps_test_module_request() {
    let request = map_test_request(&TestArgs { full: true, scope: TestScope::Module { name: "ModuleA".to_owned() } });

    assert!(request.full);
    assert_eq!(request.scope, TestScopeRequest::Module { name: "ModuleA".to_owned() });
}

#[test]
fn maps_syntax_request() {
    let request = map_syntax_request(&SyntaxArgs {
        target: SyntaxTarget::DesignerModules(DesignerModulesSyntaxArgs {
            thin_client: true,
            web_client: false,
            server: true,
            external_connection: false,
            thick_client_ordinary_application: false,
            mobile_app_client: false,
            mobile_app_server: false,
            mobile_client: false,
            extended_modules_check: true,
            extension: Some("Ext".to_owned()),
            all_extensions: false,
        }),
    });

    assert!(matches!(
        request.target,
        SyntaxTargetRequest::DesignerModules(ref modules)
            if modules.thin_client && modules.server && modules.extension.as_deref() == Some("Ext")
    ));
}

#[test]
fn maps_build_dump_and_launch_requests() {
    assert!(map_build_request(&BuildArgs { full_rebuild: true }).full_rebuild);
    assert_eq!(
        map_dump_request(&DumpArgs {
            mode: "incremental".to_owned(),
            source_set: Some("main".to_owned()),
            extension: Some("Ext".to_owned()),
            objects: vec!["Catalog.Item".to_owned()],
        })
        .source_set
        .as_deref(),
        Some("main")
    );
    assert_eq!(map_launch_request(&LaunchArgs { mode: "thin".to_owned() }).mode, "thin");
}

#[test]
fn maps_designer_config_request() {
    let request = map_designer_config_request(&DesignerConfigSyntaxArgs {
        config_log_integrity: true,
        incorrect_references: false,
        thin_client: true,
        web_client: false,
        mobile_client: false,
        server: true,
        external_connection: false,
        external_connection_server: false,
        mobile_app_client: false,
        mobile_app_server: false,
        thick_client_managed_application: false,
        thick_client_server_managed_application: false,
        thick_client_ordinary_application: false,
        thick_client_server_ordinary_application: false,
        mobile_client_digi_sign: false,
        distributive_modules: false,
        unreference_procedures: false,
        handlers_existence: false,
        empty_handlers: false,
        extended_modules_check: true,
        check_use_synchronous_calls: true,
        check_use_modality: false,
        unsupported_functional: false,
        extension: Some("Ext".to_owned()),
        all_extensions: false,
    });

    assert!(request.config_log_integrity);
    assert!(request.thin_client);
    assert!(request.server);
    assert!(request.extended_modules_check);
    assert!(request.check_use_synchronous_calls);
}

#[test]
fn resolves_command_name() {
    assert_eq!(command_name(&Command::Build(BuildArgs { full_rebuild: false })), CommandName::Build);
}

#[test]
fn resolves_every_command_name() {
    assert_eq!(command_name(&Command::Launch(LaunchArgs { mode: "thin".to_owned() })), CommandName::Launch);
    assert_eq!(
        command_name(&Command::Test(TestArgs { full: false, scope: TestScope::All })),
        CommandName::Test
    );
    assert_eq!(CommandName::Dump.as_str(), "dump");
}
