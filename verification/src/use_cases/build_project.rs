//! Step planning of the `build` use case: for each source-set, whether it is
//! skipped, loaded in full, loaded partially or exported from EDT first, and
//! how the hash storage is committed afterwards.
//!
//! The caller runs the change analysis and the platform commands; these
//! functions decide from the analysis outcome.

use vstd::prelude::*;
use crate::change_detection::analyzer::AnalysisOutcome;
use crate::change_detection::partial_load::{decide, decision_holds, LoadDecision};
use crate::path_order::views;
use crate::probe::PathFacts;
use crate::text::{decimal, u64_to_decimal};
use crate::domain::build_outcome::BuildMode;

verus! {

/// How the hash storage is updated after a successful step.
#[derive(Debug, Clone, PartialEq, Eq)]
pub enum StepCommit<P> {
    /// Commit the storage update prepared by the change analysis.
    Prepared(P),
    /// Rescan the whole source-set; with `recover_storage`, a corrupt storage
    /// file is replaced.
    RescanFull { recover_storage: bool },
}

/// The plan for one source-set.
#[derive(Debug, Clone, PartialEq, Eq)]
pub enum StepPlan<P> {
    Skip { message: String, ok: bool },
    Execute { mode: BuildMode, message: String, partial_paths: Option<Vec<String>>, commit: StepCommit<P> },
}

/// The characters of an optional list of paths.
pub open spec fn opt_views(p: Option<Vec<String>>) -> Option<Seq<Seq<char>>> {
    match p {
        Some(v) => Some(views(v@)),
        None => None,
    }
}

/// The plan skips the source-set, successfully, because nothing changed.
pub open spec fn skips_unchanged<P>(p: StepPlan<P>) -> bool {
    p matches StepPlan::Skip { message, ok } && message@ == "no changes"@ && ok
}

/// The plan runs a step of `mode` with this message, partial list and commit.
pub open spec fn executes<P>(p: StepPlan<P>, mode: BuildMode, message: Seq<char>, paths: Option<Seq<Seq<char>>>, commit: StepCommit<P>) -> bool {
    p matches StepPlan::Execute { mode: m, message: msg, partial_paths: pp, commit: c }
        && m == mode && msg@ == message && opt_views(pp) == paths && c == commit
}

/// The plan that loads what a partial-load decision chose, committing the
/// prepared storage update; `full_message` explains a full load.
pub open spec fn loads_as_decided<P>(p: StepPlan<P>, d: LoadDecision, prepared: P, full_message: Seq<char>) -> bool {
    match d {
        LoadDecision::Partial(v) => executes(p, BuildMode::Partial { file_count: v.len() },
            "partial load of "@ + decimal(v.len() as nat) + " files"@, Some(views(v@)), StepCommit::Prepared(prepared)),
        LoadDecision::Full => executes(p, BuildMode::Full, full_message, None, StepCommit::Prepared(prepared)),
    }
}

fn execute_plan<P>(mode: BuildMode, message: &str, partial_paths: Option<Vec<String>>, commit: StepCommit<P>) -> (p: StepPlan<P>)
    ensures
        executes(p, mode, message@, opt_views(partial_paths), commit),
{
    StepPlan::Execute { mode, message: String::from_str(message), partial_paths, commit }
}

fn skip_unchanged<P>() -> (p: StepPlan<P>)
    ensures
        skips_unchanged(p),
{
    StepPlan::Skip { message: String::from_str("no changes"), ok: true }
}

fn plan_load<P>(d: LoadDecision, prepared: P, full_message: &str) -> (p: StepPlan<P>)
    ensures
        loads_as_decided(p, d, prepared, full_message@),
{
    match d {
        LoadDecision::Partial(paths) => {
            let n = paths.len();
            let message = String::from_str("partial load of ").concat(u64_to_decimal(n as u64).as_str()).concat(" files");
            StepPlan::Execute {
                mode: BuildMode::Partial { file_count: n },
                message,
                partial_paths: Some(paths),
                commit: StepCommit::Prepared(prepared),
            }
        },
        LoadDecision::Full => execute_plan(BuildMode::Full, full_message, None, StepCommit::Prepared(prepared)),
    }
}

/// Plans a Designer or ibcmd load of one source-set. A forced rebuild loads
/// it in full and rescans the storage, replacing it if corrupt; otherwise
/// the change analysis decides: nothing changed skips the step, an unusable
/// storage falls back to a full load, and changed files are loaded as the
/// partial-load rules decide. An analysis error fails the step.
pub fn plan_source_set_step<P>(
    full_rebuild: bool,
    analysis: Option<Result<AnalysisOutcome<P>, String>>,
    source_root: &str,
    threshold: usize,
    facts: &Vec<PathFacts>,
) -> (r: Result<StepPlan<P>, String>)
    requires
        !full_rebuild ==> analysis is Some,
    ensures
        full_rebuild ==> (r matches Ok(p) && executes(p, BuildMode::Full, "forced full rebuild"@, None,
            StepCommit::RescanFull { recover_storage: true })),
        !full_rebuild ==> match analysis.unwrap() {
            Err(e) => r == Err::<StepPlan<P>, String>(e),
            Ok(AnalysisOutcome::NoChanges) => r matches Ok(p) && skips_unchanged(p),
            Ok(AnalysisOutcome::Fallback) => r matches Ok(p) && executes(p, BuildMode::Full,
                "fallback to full load after recoverable change-detection issue"@, None,
                StepCommit::RescanFull { recover_storage: false }),
            Ok(AnalysisOutcome::Changes { changes, prepared }) => r matches Ok(p) && exists|d: LoadDecision|
                #[trigger] decision_holds(d, changes@, source_root@, threshold, facts@)
                && loads_as_decided(p, d, prepared, "full load selected by partial-load rules"@),
        },
{
    if full_rebuild {
        return Ok(execute_plan(BuildMode::Full, "forced full rebuild", None, StepCommit::RescanFull { recover_storage: true }));
    }
    match analysis.unwrap() {
        Err(e) => Err(e),
        Ok(AnalysisOutcome::NoChanges) => Ok(skip_unchanged()),
        Ok(AnalysisOutcome::Fallback) => Ok(execute_plan(BuildMode::Full,
            "fallback to full load after recoverable change-detection issue", None,
            StepCommit::RescanFull { recover_storage: false })),
        Ok(AnalysisOutcome::Changes { changes, prepared }) => {
            let d = decide(changes.as_slice(), source_root, threshold, facts);
            Ok(plan_load(d, prepared, "full load selected by partial-load rules"))
        },
    }
}

/// Plans the EDT export of one source-set: skipped when nothing changed,
/// otherwise an export whose storage commit follows the analysis.
pub fn plan_edt_export_stage<P>(full_rebuild: bool, analysis: Option<Result<AnalysisOutcome<P>, String>>) -> (r: Result<StepPlan<P>, String>)
    requires
        !full_rebuild ==> analysis is Some,
    ensures
        full_rebuild ==> (r matches Ok(p) && executes(p, BuildMode::EdtExport, "forced EDT export (--full-rebuild)"@, None,
            StepCommit::RescanFull { recover_storage: true })),
        !full_rebuild ==> match analysis.unwrap() {
            Err(e) => r == Err::<StepPlan<P>, String>(e),
            Ok(AnalysisOutcome::NoChanges) => r matches Ok(p) && skips_unchanged(p),
            Ok(AnalysisOutcome::Fallback) => r matches Ok(p) && executes(p, BuildMode::EdtExport,
                "fallback to EDT export after recoverable change-detection issue"@, None,
                StepCommit::RescanFull { recover_storage: false }),
            Ok(AnalysisOutcome::Changes { changes, prepared }) => r matches Ok(p) && executes(p, BuildMode::EdtExport,
                "EDT export after change detection"@, None, StepCommit::Prepared(prepared)),
        },
{
    if full_rebuild {
        return Ok(execute_plan(BuildMode::EdtExport, "forced EDT export (--full-rebuild)", None,
            StepCommit::RescanFull { recover_storage: true }));
    }
    match analysis.unwrap() {
        Err(e) => Err(e),
        Ok(AnalysisOutcome::NoChanges) => Ok(skip_unchanged()),
        Ok(AnalysisOutcome::Fallback) => Ok(execute_plan(BuildMode::EdtExport,
            "fallback to EDT export after recoverable change-detection issue", None,
            StepCommit::RescanFull { recover_storage: false })),
        Ok(AnalysisOutcome::Changes { changes, prepared }) => Ok(execute_plan(BuildMode::EdtExport,
            "EDT export after change detection", None, StepCommit::Prepared(prepared))),
    }
}

/// Plans the load of the Designer copy generated from an EDT source-set.
/// When the export was skipped and no copy exists there is nothing to load;
/// a forced rebuild loads the copy in full; otherwise its own change analysis
/// decides as for a Designer project, except that an extension is always
/// loaded in full.
pub fn plan_generated_designer_stage<P>(
    edt_stage_skipped: bool,
    designer_root_exists: bool,
    full_rebuild: bool,
    is_extension: bool,
    analysis: Option<Result<AnalysisOutcome<P>, String>>,
    designer_root: &str,
    threshold: usize,
    facts: &Vec<PathFacts>,
) -> (r: Result<StepPlan<P>, String>)
    requires
        !(edt_stage_skipped && !designer_root_exists) && !full_rebuild ==> analysis is Some,
    ensures
        edt_stage_skipped && !designer_root_exists ==> (r matches Ok(p) && skips_unchanged(p)),
        !(edt_stage_skipped && !designer_root_exists) && full_rebuild ==> (r matches Ok(p) && executes(p, BuildMode::Full,
            "full load from EDT export (--full-rebuild)"@, None, StepCommit::RescanFull { recover_storage: true })),
        !(edt_stage_skipped && !designer_root_exists) && !full_rebuild ==> match analysis.unwrap() {
            Err(e) => r == Err::<StepPlan<P>, String>(e),
            Ok(AnalysisOutcome::NoChanges) => r matches Ok(p) && skips_unchanged(p),
            Ok(AnalysisOutcome::Fallback) => r matches Ok(p) && executes(p, BuildMode::Full,
                "fallback to full load after recoverable change-detection issue"@, None,
                StepCommit::RescanFull { recover_storage: false }),
            Ok(AnalysisOutcome::Changes { changes, prepared }) => if is_extension {
                r matches Ok(p) && executes(p, BuildMode::Full, "full load required for EDT extension source-set"@, None,
                    StepCommit::Prepared(prepared))
            } else {
                r matches Ok(p) && exists|d: LoadDecision|
                    #[trigger] decision_holds(d, changes@, designer_root@, threshold, facts@)
                    && loads_as_decided(p, d, prepared, "full load selected by partial-load rules"@)
            },
        },
{
    if edt_stage_skipped && !designer_root_exists {
        return Ok(skip_unchanged());
    }
    if full_rebuild {
        return Ok(execute_plan(BuildMode::Full, "full load from EDT export (--full-rebuild)", None,
            StepCommit::RescanFull { recover_storage: true }));
    }
    match analysis.unwrap() {
        Err(e) => Err(e),
        Ok(AnalysisOutcome::NoChanges) => Ok(skip_unchanged()),
        Ok(AnalysisOutcome::Fallback) => Ok(execute_plan(BuildMode::Full,
            "fallback to full load after recoverable change-detection issue", None,
            StepCommit::RescanFull { recover_storage: false })),
        Ok(AnalysisOutcome::Changes { changes, prepared }) => {
            if is_extension {
                Ok(execute_plan(BuildMode::Full, "full load required for EDT extension source-set", None,
                    StepCommit::Prepared(prepared)))
            } else {
                let d = decide(changes.as_slice(), designer_root, threshold, facts);
                Ok(plan_load(d, prepared, "full load selected by partial-load rules"))
            }
        },
    }
}

/// The message of a step that prepared external artifacts for packaging.
pub fn external_packaging_message(count: usize) -> (s: String)
    ensures
        s@ == "prepared "@ + decimal(count as nat) + " external artifact(s) for packaging"@,
{
    String::from_str("prepared ").concat(u64_to_decimal(count as u64).as_str()).concat(" external artifact(s) for packaging")
}

/// The message of a step that exported external artifacts from EDT.
pub fn external_export_message(count: usize) -> (s: String)
    ensures
        s@ == "exported "@ + decimal(count as nat) + " external artifact(s) to designer runtime"@,
{
    String::from_str("exported ").concat(u64_to_decimal(count as u64).as_str()).concat(" external artifact(s) to designer runtime")
}

} // verus!
