//! The sequencing of a build, as a state machine.
//!
//! The same loop drives the Designer, ibcmd and EDT backends. The caller
//! performs each action (plan a source-set with the planners of
//! `build_project`, load it with the platform tool, commit its hash storage)
//! and hands back what happened; `build_next` decides what comes next.
//! Source-sets run in the order `ordered_source_sets` gives; the first
//! failure ends the run and reports every later source-set as not run; a
//! source-set's storage is committed only after it loaded; and the run is
//! successful exactly when every step is.

use vstd::prelude::*;
use crate::domain::build_outcome::{BuildMode, BuildResult, BuildStep};

verus! {

/// Where the run stands on the current source-set.
#[derive(Debug, Clone, PartialEq, Eq)]
pub enum BuildPhase {
    /// The current source-set is being planned.
    Planning,
    /// The current source-set is being loaded.
    Loading { mode: BuildMode, message: String },
    /// The current source-set loaded; its hash storage is being committed.
    Committing { mode: BuildMode, message: String, duration_ms: u64 },
    /// The run is over.
    Finished,
}

/// The state of a build run: the ordered source-sets, the current one, its
/// phase and the steps reported so far.
#[derive(Debug, Clone, PartialEq, Eq)]
pub struct BuildRun {
    pub source_sets: Vec<String>,
    pub index: usize,
    pub phase: BuildPhase,
    pub steps: Vec<BuildStep>,
}

/// What planning a source-set decided.
#[derive(Debug, Clone, PartialEq, Eq)]
pub enum StepDecision {
    /// Nothing to load: the step is reported with this message.
    Skip { message: String, ok: bool },
    /// Load the source-set in this mode.
    Execute { mode: BuildMode, message: String },
    /// Planning failed (the change analysis or the external artifacts).
    Fail { mode: BuildMode, message: String },
}

/// What happened to the last action.
#[derive(Debug, Clone, PartialEq, Eq)]
pub enum BuildEvent {
    Planned(StepDecision),
    Loaded { duration_ms: u64 },
    LoadFailed { message: String },
    Committed,
    CommitFailed { message: String },
}

/// What the caller does next.
#[derive(Debug, Clone, PartialEq, Eq)]
pub enum BuildAction {
    /// Plan the source-set at this position.
    Plan { index: usize },
    /// Load the source-set at this position in this mode.
    Load { index: usize, mode: BuildMode },
    /// Commit the hash storage of the source-set at this position.
    Commit { index: usize },
    /// The run is over, successful or not.
    Finish { ok: bool },
}

/// A run is well formed when a run still going stands on a source-set.
pub open spec fn run_wf(r: BuildRun) -> bool {
    r.phase != BuildPhase::Finished ==> r.index < r.source_sets@.len()
}

/// Every reported step succeeded.
pub open spec fn all_ok(steps: Seq<BuildStep>) -> bool {
    forall|k: int| 0 <= k < steps.len() ==> (#[trigger] steps[k]).ok
}

/// The steps of the source-sets from `from` on, none of them run.
pub open spec fn not_run(names: Seq<String>, from: int) -> Seq<BuildStep> {
    Seq::new((names.len() - from) as nat, |k: int| BuildStep {
        source_set: names[from + k],
        mode: BuildMode::Skipped,
        ok: false,
        message: None,
        duration_ms: 0,
    })
}

/// The action a run waits on.
pub open spec fn pending_action(r: BuildRun) -> BuildAction {
    match r.phase {
        BuildPhase::Planning => BuildAction::Plan { index: r.index },
        BuildPhase::Loading { mode, .. } => BuildAction::Load { index: r.index, mode },
        BuildPhase::Committing { .. } => BuildAction::Commit { index: r.index },
        BuildPhase::Finished => BuildAction::Finish { ok: all_ok(r.steps@) },
    }
}

/// The steps of a run that failed on its current source-set: the steps so
/// far, the failed step, then every later source-set as not run.
pub open spec fn failed_steps(r: BuildRun, mode: BuildMode, message: String) -> Seq<BuildStep> {
    r.steps@.push(BuildStep { source_set: r.source_sets@[r.index as int], mode, ok: false, message: Some(message), duration_ms: 0 })
        + not_run(r.source_sets@, r.index + 1)
}

/// What follows `event` in run `r`, as the new state's phase and index, the
/// steps it reports and the next action.
pub open spec fn build_step(r: BuildRun, event: BuildEvent) -> (BuildPhase, usize, Seq<BuildStep>, BuildAction) {
    let name = r.source_sets@[r.index as int];
    let next = r.index + 1 < r.source_sets@.len();
    let moved = |steps: Seq<BuildStep>| if next {
        (BuildPhase::Planning, (r.index + 1) as usize, steps, BuildAction::Plan { index: (r.index + 1) as usize })
    } else {
        (BuildPhase::Finished, r.index, steps, BuildAction::Finish { ok: all_ok(steps) })
    };
    let failed = |mode: BuildMode, message: String|
        (BuildPhase::Finished, r.index, failed_steps(r, mode, message), BuildAction::Finish { ok: false });
    match (r.phase, event) {
        (BuildPhase::Planning, BuildEvent::Planned(StepDecision::Skip { message, ok })) =>
            moved(r.steps@.push(BuildStep { source_set: name, mode: BuildMode::Skipped, ok, message: Some(message), duration_ms: 0 })),
        (BuildPhase::Planning, BuildEvent::Planned(StepDecision::Execute { mode, message })) =>
            (BuildPhase::Loading { mode, message }, r.index, r.steps@, BuildAction::Load { index: r.index, mode }),
        (BuildPhase::Planning, BuildEvent::Planned(StepDecision::Fail { mode, message })) => failed(mode, message),
        (BuildPhase::Loading { mode, message }, BuildEvent::Loaded { duration_ms }) =>
            (BuildPhase::Committing { mode, message, duration_ms }, r.index, r.steps@, BuildAction::Commit { index: r.index }),
        (BuildPhase::Loading { mode, .. }, BuildEvent::LoadFailed { message }) => failed(mode, message),
        (BuildPhase::Committing { mode, message, duration_ms }, BuildEvent::Committed) =>
            moved(r.steps@.push(BuildStep { source_set: name, mode, ok: true, message: Some(message), duration_ms })),
        (BuildPhase::Committing { mode, .. }, BuildEvent::CommitFailed { message }) => failed(mode, message),
        _ => (r.phase, r.index, r.steps@, pending_action(r)),
    }
}

fn all_steps_ok(steps: &Vec<BuildStep>) -> (b: bool)
    ensures
        b == all_ok(steps@),
{
    let mut i: usize = 0;
    while i < steps.len()
        invariant
            i <= steps.len(),
            all_ok(steps@.take(i as int)),
        decreases steps.len() - i,
    {
        if !steps[i].ok {
            proof { assert(!steps@[i as int].ok); }
            return false;
        }
        proof {
            assert forall|k: int| 0 <= k < i + 1 implies (#[trigger] steps@.take(i + 1)[k]).ok by {
                if k < i { assert(steps@.take(i as int)[k] == steps@[k]); }
            }
        }
        i = i + 1;
    }
    proof { assert(steps@.take(i as int) =~= steps@); }
    true
}

/// Starts a run over the ordered source-sets: plan the first, or finish at
/// once, successfully, when there is none.
pub fn build_start(source_sets: Vec<String>) -> (r: (BuildRun, BuildAction))
    ensures
        run_wf(r.0),
        r.0.source_sets@ == source_sets@,
        r.0.steps@.len() == 0,
        r.0.index == 0,
        source_sets@.len() == 0 ==> r.0.phase == BuildPhase::Finished && r.1 == (BuildAction::Finish { ok: true }),
        source_sets@.len() > 0 ==> r.0.phase == BuildPhase::Planning && r.1 == (BuildAction::Plan { index: 0 }),
{
    if source_sets.len() == 0 {
        (BuildRun { source_sets, index: 0, phase: BuildPhase::Finished, steps: Vec::new() }, BuildAction::Finish { ok: true })
    } else {
        (BuildRun { source_sets, index: 0, phase: BuildPhase::Planning, steps: Vec::new() }, BuildAction::Plan { index: 0 })
    }
}

fn push_not_run(steps: &mut Vec<BuildStep>, names: &Vec<String>, from: usize)
    requires
        from <= names@.len(),
    ensures
        final(steps)@ == old(steps)@ + not_run(names@, from as int),
{
    let ghost start = old(steps)@;
    let mut j: usize = from;
    while j < names.len()
        invariant
            from <= j <= names@.len(),
            steps@ == start + not_run(names@, from as int).take(j - from),
        decreases names.len() - j,
    {
        steps.push(BuildStep { source_set: names[j].clone(), mode: BuildMode::Skipped, ok: false, message: None, duration_ms: 0 });
        proof {
            assert(not_run(names@, from as int).take(j + 1 - from)
                =~= not_run(names@, from as int).take(j - from).push(not_run(names@, from as int)[j - from]));
        }
        j = j + 1;
    }
    proof { assert(not_run(names@, from as int).take(names@.len() - from) =~= not_run(names@, from as int)); }
}

/// Decides what follows `event`: the new state and the next action, as
/// `build_step` states.
pub fn build_next(run: BuildRun, event: BuildEvent) -> (r: (BuildRun, BuildAction))
    requires
        run_wf(run),
    ensures
        run_wf(r.0),
        r.0.source_sets == run.source_sets,
        run.phase == BuildPhase::Finished ==> r == (run, pending_action(run)),
        run.phase != BuildPhase::Finished ==> ({
            let (phase, index, steps, action) = build_step(run, event);
            r.0.phase == phase && r.0.index == index && r.0.steps@ == steps && r.1 == action
        }),
{
    let BuildRun { source_sets, index, phase, mut steps } = run;
    if let BuildPhase::Finished = phase {
        let ok = all_steps_ok(&steps);
        return (BuildRun { source_sets, index, phase, steps }, BuildAction::Finish { ok });
    }
    let count: usize = source_sets.len();
    assert(index < count);
    // The step that ends the current source-set, if this event ends it.
    let finished_step: Option<BuildStep>;
    let failure: Option<(BuildMode, String)>;
    let mut stay: Option<BuildPhase> = None;
    match (phase, event) {
        (BuildPhase::Planning, BuildEvent::Planned(StepDecision::Skip { message, ok })) => {
            finished_step = Some(BuildStep { source_set: source_sets[index].clone(), mode: BuildMode::Skipped, ok, message: Some(message), duration_ms: 0 });
            failure = None;
        },
        (BuildPhase::Planning, BuildEvent::Planned(StepDecision::Execute { mode, message })) => {
            return (BuildRun { source_sets, index, phase: BuildPhase::Loading { mode, message }, steps }, BuildAction::Load { index, mode });
        },
        (BuildPhase::Planning, BuildEvent::Planned(StepDecision::Fail { mode, message })) => {
            finished_step = None;
            failure = Some((mode, message));
        },
        (BuildPhase::Loading { mode, message }, BuildEvent::Loaded { duration_ms }) => {
            return (BuildRun { source_sets, index, phase: BuildPhase::Committing { mode, message, duration_ms }, steps }, BuildAction::Commit { index });
        },
        (BuildPhase::Loading { mode, .. }, BuildEvent::LoadFailed { message }) => {
            finished_step = None;
            failure = Some((mode, message));
        },
        (BuildPhase::Committing { mode, message, duration_ms }, BuildEvent::Committed) => {
            finished_step = Some(BuildStep { source_set: source_sets[index].clone(), mode, ok: true, message: Some(message), duration_ms });
            failure = None;
        },
        (BuildPhase::Committing { mode, .. }, BuildEvent::CommitFailed { message }) => {
            finished_step = None;
            failure = Some((mode, message));
        },
        (p, _) => {
            finished_step = None;
            failure = None;
            stay = Some(p);
        },
    }
    match stay {
        Some(p) => {
            let action = match &p {
                BuildPhase::Planning => BuildAction::Plan { index },
                BuildPhase::Loading { mode, .. } => BuildAction::Load { index, mode: *mode },
                BuildPhase::Committing { .. } => BuildAction::Commit { index },
                BuildPhase::Finished => BuildAction::Finish { ok: all_steps_ok(&steps) },
            };
            return (BuildRun { source_sets, index, phase: p, steps }, action);
        },
        None => {},
    }
    match failure {
        Some((mode, message)) => {
            steps.push(BuildStep { source_set: source_sets[index].clone(), mode, ok: false, message: Some(message), duration_ms: 0 });
            push_not_run(&mut steps, &source_sets, index + 1);
            return (BuildRun { source_sets, index, phase: BuildPhase::Finished, steps }, BuildAction::Finish { ok: false });
        },
        None => {},
    }
    match finished_step {
        Some(step) => {
            steps.push(step);
            if index + 1 < count {
                (BuildRun { source_sets, index: index + 1, phase: BuildPhase::Planning, steps }, BuildAction::Plan { index: index + 1 })
            } else {
                let ok = all_steps_ok(&steps);
                (BuildRun { source_sets, index, phase: BuildPhase::Finished, steps }, BuildAction::Finish { ok })
            }
        },
        None => {
            (BuildRun { source_sets, index, phase: BuildPhase::Finished, steps }, BuildAction::Finish { ok: false })
        },
    }
}

/// The result of a finished run: successful exactly when every step is.
pub fn build_result(run: BuildRun, duration_ms: u64) -> (r: BuildResult)
    ensures
        r.ok == all_ok(run.steps@),
        r.steps@ == run.steps@,
        r.duration_ms == duration_ms,
{
    let ok = all_steps_ok(&run.steps);
    BuildResult { ok, steps: run.steps, duration_ms }
}

/// A successful run reported a step for every source-set, in order, each
/// successful; so the storage of each loaded source-set was committed.
pub proof fn lemma_finish_ok_means_every_step_ok(r: BuildRun, event: BuildEvent)
    requires
        run_wf(r),
        r.phase != BuildPhase::Finished,
        build_step(r, event).3 == (BuildAction::Finish { ok: true }),
    ensures
        all_ok(build_step(r, event).2),
        build_step(r, event).2.len() == r.steps@.len() + 1,
        build_step(r, event).2.last().source_set == r.source_sets@[r.index as int],
{
}

/// A failed step ends the run: the result is unsuccessful and every later
/// source-set is reported as not run.
pub proof fn lemma_failure_ends_the_run(r: BuildRun, mode: BuildMode, message: String)
    requires
        run_wf(r),
        r.phase != BuildPhase::Finished,
    ensures
        failed_steps(r, mode, message).len() == r.source_sets@.len() - r.index + r.steps@.len(),
        !all_ok(failed_steps(r, mode, message)),
        forall|k: int| r.index < k < r.source_sets@.len() ==>
            #[trigger] failed_steps(r, mode, message)[r.steps@.len() + k - r.index].source_set == r.source_sets@[k]
            && !failed_steps(r, mode, message)[r.steps@.len() + k - r.index].ok,
{
    let f = failed_steps(r, mode, message);
    assert(!f[r.steps@.len() as int].ok);
}

/// A commit is asked for only right after the current source-set loaded.
pub proof fn lemma_commit_only_after_load(r: BuildRun, event: BuildEvent)
    requires
        run_wf(r),
        r.phase != BuildPhase::Finished,
        build_step(r, event).3 matches BuildAction::Commit { .. },
    ensures
        (r.phase matches BuildPhase::Loading { .. } && event matches BuildEvent::Loaded { .. })
            || r.phase matches BuildPhase::Committing { .. },
{
}

} // verus!
