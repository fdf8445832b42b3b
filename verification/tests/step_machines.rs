use v8_runner::domain::build_outcome::{BuildMode, BuildStep};
use v8_runner::domain::convert::ConvertDirection;
use v8_runner::platform::result::{PlatformCommandResult, ProcessOutput};
use v8_runner::support::error::AppError;
use v8_runner::use_cases::artifacts::{artifacts_begin, artifacts_next, ArtifactsAction, ArtifactsEvent, ArtifactsPhase};
use v8_runner::use_cases::build_loop::{
    build_next, build_result, build_start, BuildAction, BuildEvent, BuildPhase, StepDecision,
};
use v8_runner::use_cases::convert_sources::{
    convert_begin, convert_next, ConvertAction, ConvertEvent, ConvertPhase, ExecutionInterruption,
};
use v8_runner::use_cases::dump_config::{dump_begin, dump_next, DumpAction, DumpEvent, DumpPhase};
use v8_runner::use_cases::init_project::{
    edt_workspace_begin, edt_workspace_next, EdtWorkspaceAction, EdtWorkspaceEvent, EdtWorkspaceFailure, EdtWorkspacePhase,
    ImportTarget,
};

fn names(list: &[&str]) -> Vec<String> {
    list.iter().map(|s| (*s).to_owned()).collect()
}

fn result(exit_code: i32, stderr: &str) -> PlatformCommandResult {
    PlatformCommandResult {
        process: ProcessOutput { exit_code, stdout: String::new(), stderr: stderr.to_owned() },
        platform_log: None,
        platform_log_path: None,
        platform_log_read_error: None,
    }
}

#[test]
fn build_runs_source_sets_in_order_and_commits_after_each_load() {
    let (run, action) = build_start(names(&["main", "ext"]));
    assert_eq!(action, BuildAction::Plan { index: 0 });
    let (run, action) = build_next(run, BuildEvent::Planned(StepDecision::Execute { mode: BuildMode::Full, message: "forced full rebuild".to_owned() }));
    assert_eq!(action, BuildAction::Load { index: 0, mode: BuildMode::Full });
    let (run, action) = build_next(run, BuildEvent::Loaded { duration_ms: 12 });
    assert_eq!(action, BuildAction::Commit { index: 0 });
    let (run, action) = build_next(run, BuildEvent::Committed);
    assert_eq!(action, BuildAction::Plan { index: 1 });
    let (run, action) = build_next(run, BuildEvent::Planned(StepDecision::Skip { message: "no changes".to_owned(), ok: true }));
    assert_eq!(action, BuildAction::Finish { ok: true });
    assert_eq!(run.phase, BuildPhase::Finished);
    let done = build_result(run, 40);
    assert!(done.ok);
    assert_eq!(
        done.steps,
        vec![
            BuildStep { source_set: "main".to_owned(), mode: BuildMode::Full, ok: true, message: Some("forced full rebuild".to_owned()), duration_ms: 12 },
            BuildStep { source_set: "ext".to_owned(), mode: BuildMode::Skipped, ok: true, message: Some("no changes".to_owned()), duration_ms: 0 },
        ]
    );
}

#[test]
fn a_failed_load_ends_the_build_and_reports_the_rest_as_not_run() {
    let (run, _) = build_start(names(&["a", "b", "c"]));
    let (run, _) = build_next(run, BuildEvent::Planned(StepDecision::Execute { mode: BuildMode::Partial { file_count: 2 }, message: "partial load of 2 files".to_owned() }));
    let (run, action) = build_next(run, BuildEvent::LoadFailed { message: "designer exit 1".to_owned() });
    assert_eq!(action, BuildAction::Finish { ok: false });
    assert_eq!(run.steps.len(), 3);
    assert_eq!(run.steps[0].mode, BuildMode::Partial { file_count: 2 });
    assert!(!run.steps[0].ok);
    assert_eq!(run.steps[0].message.as_deref(), Some("designer exit 1"));
    assert_eq!((run.steps[1].source_set.as_str(), run.steps[1].mode, run.steps[1].ok), ("b", BuildMode::Skipped, false));
    assert_eq!(run.steps[2].source_set, "c");
    assert!(!build_result(run, 1).ok);
}

#[test]
fn a_failed_commit_fails_the_step_and_a_finished_build_stays_finished() {
    let (run, _) = build_start(names(&["a"]));
    let (run, _) = build_next(run, BuildEvent::Planned(StepDecision::Execute { mode: BuildMode::EdtExport, message: "m".to_owned() }));
    let (run, action) = build_next(run, BuildEvent::Committed);
    assert_eq!(action, BuildAction::Load { index: 0, mode: BuildMode::EdtExport });
    let (run, _) = build_next(run, BuildEvent::Loaded { duration_ms: 1 });
    let (run, action) = build_next(run, BuildEvent::CommitFailed { message: "storage".to_owned() });
    assert_eq!(action, BuildAction::Finish { ok: false });
    let (run, action) = build_next(run, BuildEvent::Committed);
    assert_eq!(action, BuildAction::Finish { ok: false });
    assert_eq!(run.steps.len(), 1);
    let (_, empty) = build_start(Vec::new());
    assert_eq!(empty, BuildAction::Finish { ok: true });
}

fn targets() -> Vec<ImportTarget> {
    vec![
        ImportTarget { name: "main".to_owned(), path: "/p/main".to_owned() },
        ImportTarget { name: "ext".to_owned(), path: "/p/ext".to_owned() },
    ]
}

#[test]
fn edt_workspace_imports_every_target_before_writing_the_marker() {
    let (run, action) = edt_workspace_begin(targets());
    assert!(matches!(action, EdtWorkspaceAction::CreateDir));
    let (run, action) = edt_workspace_next(run, EdtWorkspaceEvent::DirCreated);
    assert!(matches!(action, EdtWorkspaceAction::LocateTool));
    let (run, action) = edt_workspace_next(run, EdtWorkspaceEvent::ToolReady);
    assert!(matches!(action, EdtWorkspaceAction::Import { index: 0 }));
    let (run, action) = edt_workspace_next(run, EdtWorkspaceEvent::MarkerWritten);
    assert!(matches!(action, EdtWorkspaceAction::Import { index: 0 }));
    let (run, action) = edt_workspace_next(run, EdtWorkspaceEvent::Imported(result(0, "")));
    assert!(matches!(action, EdtWorkspaceAction::Import { index: 1 }));
    let (run, action) = edt_workspace_next(run, EdtWorkspaceEvent::Imported(result(0, "")));
    assert!(matches!(action, EdtWorkspaceAction::WriteMarker));
    let (run, action) = edt_workspace_next(run, EdtWorkspaceEvent::MarkerWritten);
    assert!(matches!(action, EdtWorkspaceAction::Finish));
    assert!(matches!(run.phase, EdtWorkspacePhase::Finished(None)));
    assert_eq!(run.next, 2);
}

#[test]
fn edt_workspace_stops_at_the_first_failed_import() {
    let (run, _) = edt_workspace_begin(targets());
    let (run, _) = edt_workspace_next(run, EdtWorkspaceEvent::DirCreated);
    let (run, _) = edt_workspace_next(run, EdtWorkspaceEvent::ToolReady);
    let (run, action) = edt_workspace_next(run, EdtWorkspaceEvent::Imported(result(3, "boom")));
    assert!(matches!(action, EdtWorkspaceAction::Finish));
    match run.phase {
        EdtWorkspacePhase::Finished(Some(EdtWorkspaceFailure::Import { source_set, result })) => {
            assert_eq!(source_set, "main");
            assert_eq!(result.process.exit_code, 3);
        },
        other => panic!("unexpected phase {other:?}"),
    }
    let (run, _) = edt_workspace_begin(Vec::new());
    let (run, _) = edt_workspace_next(run, EdtWorkspaceEvent::DirCreated);
    let (_, action) = edt_workspace_next(run, EdtWorkspaceEvent::ToolReady);
    assert!(matches!(action, EdtWorkspaceAction::WriteMarker));
}

#[test]
fn convert_publishes_only_after_a_successful_uninterrupted_conversion() {
    let (run, action) = convert_begin(ConvertDirection::EdtToDesigner, "/out".to_owned(), "/out/.convert-stage-1".to_owned());
    assert!(matches!(action, ConvertAction::EnsureParent));
    let mut run = run;
    for (event, expected) in [
        (ConvertEvent::ParentReady, ConvertPhase::LocatingTool),
        (ConvertEvent::ToolReady, ConvertPhase::CreatingStaging),
        (ConvertEvent::StagingReady, ConvertPhase::WritingMetadata),
        (ConvertEvent::MetadataWritten, ConvertPhase::Converting),
        (ConvertEvent::Converted(result(0, "")), ConvertPhase::CheckingInterruption),
        (ConvertEvent::NotInterrupted, ConvertPhase::Publishing),
    ] {
        let (next, _) = convert_next(run, event);
        assert_eq!(next.phase, expected);
        run = next;
    }
    let (_, action) = convert_next(run, ConvertEvent::Published {
        cleanup_warning: Some("backup left".to_owned()),
        deferred: Some(ExecutionInterruption::Cancelled),
    });
    match action {
        ConvertAction::Finish { message } => assert!(message.expect("message").starts_with("backup left; ")),
        other => panic!("unexpected action {other:?}"),
    }
}

#[test]
fn convert_failures_remove_the_staging_directory_once_it_exists() {
    let (run, _) = convert_begin(ConvertDirection::DesignerToEdt, "/out".to_owned(), "/out/.s".to_owned());
    let (_, action) = convert_next(run.clone(), ConvertEvent::ParentFailed("denied".to_owned()));
    match action {
        ConvertAction::Fail { error: AppError::Runtime(m), remove_staging } => {
            assert_eq!(m, "failed to create convert target parent '/out': denied");
            assert!(!remove_staging);
        },
        other => panic!("unexpected action {other:?}"),
    }
    let mut at_conversion = run;
    for event in [ConvertEvent::ParentReady, ConvertEvent::ToolReady, ConvertEvent::StagingReady, ConvertEvent::MetadataWritten] {
        at_conversion = convert_next(at_conversion, event).0;
    }
    let (_, action) = convert_next(at_conversion.clone(), ConvertEvent::Converted(result(2, "bad")));
    match action {
        ConvertAction::Fail { error: AppError::Platform(m), remove_staging } => {
            assert_eq!(m, "convert designer-to-edt failed with exit code 2; stderr: bad");
            assert!(remove_staging);
        },
        other => panic!("unexpected action {other:?}"),
    }
    let checking = convert_next(at_conversion, ConvertEvent::Converted(result(0, ""))).0;
    let (_, action) = convert_next(checking, ConvertEvent::Interrupted("operation cancelled".to_owned()));
    match action {
        ConvertAction::Fail { error: AppError::Runtime(m), remove_staging } => {
            assert_eq!(m, "operation cancelled for command 'convert' before entering convert publication safe point");
            assert!(remove_staging);
        },
        other => panic!("unexpected action {other:?}"),
    }
}

#[test]
fn artifacts_release_the_lock_on_every_path_and_publish_only_a_staged_export() {
    let (run, action) = artifacts_begin("main".to_owned(), "/out/.lock".to_owned(), "/out/.artifacts-stage-1.cf".to_owned());
    assert_eq!(action, ArtifactsAction::LocateTool);
    let (run, _) = artifacts_next(run, ArtifactsEvent::ToolReady);
    let (run, action) = artifacts_next(run, ArtifactsEvent::LockAcquired);
    assert_eq!(action, ArtifactsAction::CleanOrphans);
    let (run, _) = artifacts_next(run, ArtifactsEvent::OrphansCleaned);
    let (run, _) = artifacts_next(run, ArtifactsEvent::ParentReady);
    let (run, action) = artifacts_next(run, ArtifactsEvent::MetadataWritten);
    assert_eq!(action, ArtifactsAction::Export);
    let (run, action) = artifacts_next(run, ArtifactsEvent::Exported { result: result(0, ""), staged: false });
    assert_eq!(action, ArtifactsAction::ReleaseLock);
    match &run.phase {
        ArtifactsPhase::Releasing(Err(AppError::Platform(m))) =>
            assert_eq!(m, "designer did not produce artifact file '/out/.artifacts-stage-1.cf'"),
        other => panic!("unexpected phase {other:?}"),
    }
    let (run, action) = artifacts_next(run, ArtifactsEvent::LockReleased);
    assert_eq!(action, ArtifactsAction::Finish);
    assert!(matches!(run.phase, ArtifactsPhase::Finished(Err(_))));

    let (run, _) = artifacts_begin("main".to_owned(), "/out/.lock".to_owned(), "/s".to_owned());
    let mut run = run;
    for event in [ArtifactsEvent::ToolReady, ArtifactsEvent::LockAcquired, ArtifactsEvent::OrphansCleaned, ArtifactsEvent::ParentReady, ArtifactsEvent::MetadataWritten] {
        run = artifacts_next(run, event).0;
    }
    let (run, action) = artifacts_next(run, ArtifactsEvent::Exported { result: result(0, ""), staged: true });
    assert_eq!(action, ArtifactsAction::Publish);
    let (run, action) = artifacts_next(run, ArtifactsEvent::Published { cleanup_warning: None });
    assert_eq!(action, ArtifactsAction::ReleaseLock);
    let (run, _) = artifacts_next(run, ArtifactsEvent::LockReleased);
    assert!(matches!(run.phase, ArtifactsPhase::Finished(Ok(None))));

    let (run, _) = artifacts_begin("main".to_owned(), "/out/.lock".to_owned(), "/s".to_owned());
    let (run, _) = artifacts_next(run, ArtifactsEvent::ToolReady);
    let (run, action) = artifacts_next(run, ArtifactsEvent::LockFailed("busy".to_owned()));
    assert_eq!(action, ArtifactsAction::Finish);
    match run.phase {
        ArtifactsPhase::Finished(Err(AppError::Runtime(m))) => assert_eq!(m, "failed to acquire artifacts lock '/out/.lock': busy"),
        other => panic!("unexpected phase {other:?}"),
    }
}

#[test]
fn dump_checks_targets_before_running_and_releases_the_lock() {
    let (run, action) = dump_begin("/t/.dump.lock".to_owned(), true, true);
    assert_eq!(action, DumpAction::LocateTool);
    let mut run = run;
    for (event, expected) in [
        (DumpEvent::ToolReady, DumpAction::LocateEdt),
        (DumpEvent::EdtReady, DumpAction::AcquireLock),
        (DumpEvent::LockAcquired, DumpAction::CleanOrphans),
        (DumpEvent::OrphansCleaned, DumpAction::CleanPlatformOrphans),
        (DumpEvent::PlatformOrphansCleaned, DumpAction::CheckTarget),
        (DumpEvent::TargetChecked(None), DumpAction::CheckPlatformTarget),
        (DumpEvent::PlatformTargetChecked(None), DumpAction::RunDump),
        (DumpEvent::Dumped { platform_log_path: None, cleanup_message: None }, DumpAction::ReleaseLock),
        (DumpEvent::LockReleased, DumpAction::Finish),
    ] {
        let (next, action) = dump_next(run, event);
        assert_eq!(action, expected);
        run = next;
    }
    assert!(matches!(run.phase, DumpPhase::Finished(Ok((None, None)))));

    let (run, _) = dump_begin("/t/.dump.lock".to_owned(), false, false);
    let (run, _) = dump_next(run, DumpEvent::ToolReady);
    let (run, _) = dump_next(run, DumpEvent::LockAcquired);
    let (run, action) = dump_next(run, DumpEvent::CleanupFailed("busy".to_owned()));
    assert_eq!(action, DumpAction::ReleaseLock);
    match &run.phase {
        DumpPhase::Releasing(Err(AppError::Runtime(m))) => assert_eq!(m, "failed to cleanup stale dump temp dirs: busy"),
        other => panic!("unexpected phase {other:?}"),
    }
    let (run, action) = dump_next(run, DumpEvent::LockReleased);
    assert_eq!(action, DumpAction::Finish);
    assert!(matches!(run.phase, DumpPhase::Finished(Err(_))));
}
