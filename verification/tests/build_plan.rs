use v8_runner::change_detection::analyzer::{AnalysisOutcome, ChangeKind, FileChange};
use v8_runner::domain::build_outcome::BuildMode;
use v8_runner::probe::PathFacts;
use v8_runner::use_cases::build_project::{
    external_export_message, external_packaging_message, plan_edt_export_stage, plan_generated_designer_stage,
    plan_source_set_step, StepCommit, StepPlan,
};

fn disk(existing: &[&str]) -> Vec<PathFacts> {
    existing.iter().map(|p| PathFacts { path: (*p).to_owned(), exists: true, canonical: Some((*p).to_owned()) }).collect()
}

fn changed(path: &str) -> AnalysisOutcome<u32> {
    AnalysisOutcome::Changes {
        changes: vec![FileChange { path: path.to_owned(), kind: ChangeKind::Modified, new_hash: Some("h".to_owned()) }],
        prepared: 7,
    }
}

#[test]
fn forced_rebuild_loads_in_full_and_recovers_storage() {
    let plan = plan_source_set_step::<u32>(true, None, "/src", 20, &vec![]).expect("plan");
    assert_eq!(
        plan,
        StepPlan::Execute {
            mode: BuildMode::Full,
            message: "forced full rebuild".to_owned(),
            partial_paths: None,
            commit: StepCommit::RescanFull { recover_storage: true },
        }
    );
}

#[test]
fn unchanged_source_sets_are_skipped() {
    let plan = plan_source_set_step::<u32>(false, Some(Ok(AnalysisOutcome::NoChanges)), "/src", 20, &vec![]).expect("plan");
    assert_eq!(plan, StepPlan::Skip { message: "no changes".to_owned(), ok: true });
}

#[test]
fn unusable_storage_falls_back_to_a_full_load() {
    let plan = plan_source_set_step::<u32>(false, Some(Ok(AnalysisOutcome::Fallback)), "/src", 20, &vec![]).expect("plan");
    assert_eq!(
        plan,
        StepPlan::Execute {
            mode: BuildMode::Full,
            message: "fallback to full load after recoverable change-detection issue".to_owned(),
            partial_paths: None,
            commit: StepCommit::RescanFull { recover_storage: false },
        }
    );
}

#[test]
fn changed_modules_are_loaded_partially() {
    let module = "/src/CommonModules/Tools.bsl";
    let facts = disk(&["/src", module, "/src/CommonModules"]);
    let plan = plan_source_set_step(false, Some(Ok(changed(module))), "/src", 20, &facts).expect("plan");
    assert_eq!(
        plan,
        StepPlan::Execute {
            mode: BuildMode::Partial { file_count: 2 },
            message: "partial load of 2 files".to_owned(),
            partial_paths: Some(vec!["/src/CommonModules".to_owned(), module.to_owned()]),
            commit: StepCommit::Prepared(7),
        }
    );
}

#[test]
fn analysis_errors_fail_the_step() {
    let err = plan_source_set_step::<u32>(false, Some(Err("broken storage".to_owned())), "/src", 20, &vec![]);
    assert_eq!(err, Err("broken storage".to_owned()));
}

#[test]
fn edt_export_stage_follows_the_analysis() {
    assert_eq!(
        plan_edt_export_stage::<u32>(true, None).expect("plan"),
        StepPlan::Execute {
            mode: BuildMode::EdtExport,
            message: "forced EDT export (--full-rebuild)".to_owned(),
            partial_paths: None,
            commit: StepCommit::RescanFull { recover_storage: true },
        }
    );
    assert_eq!(
        plan_edt_export_stage(false, Some(Ok(changed("/edt/a.bsl")))).expect("plan"),
        StepPlan::Execute {
            mode: BuildMode::EdtExport,
            message: "EDT export after change detection".to_owned(),
            partial_paths: None,
            commit: StepCommit::Prepared(7),
        }
    );
}

#[test]
fn generated_designer_stage_rules() {
    assert_eq!(
        plan_generated_designer_stage::<u32>(true, false, false, false, None, "/gen", 20, &vec![]).expect("plan"),
        StepPlan::Skip { message: "no changes".to_owned(), ok: true }
    );
    assert_eq!(
        plan_generated_designer_stage::<u32>(false, true, true, false, None, "/gen", 20, &vec![]).expect("plan"),
        StepPlan::Execute {
            mode: BuildMode::Full,
            message: "full load from EDT export (--full-rebuild)".to_owned(),
            partial_paths: None,
            commit: StepCommit::RescanFull { recover_storage: true },
        }
    );
    assert_eq!(
        plan_generated_designer_stage(false, true, false, true, Some(Ok(changed("/gen/a.bsl"))), "/gen", 20, &vec![])
            .expect("plan"),
        StepPlan::Execute {
            mode: BuildMode::Full,
            message: "full load required for EDT extension source-set".to_owned(),
            partial_paths: None,
            commit: StepCommit::Prepared(7),
        }
    );
}

#[test]
fn external_artifact_messages_count_artifacts() {
    assert_eq!(external_packaging_message(3), "prepared 3 external artifact(s) for packaging");
    assert_eq!(external_export_message(0), "exported 0 external artifact(s) to designer runtime");
}
