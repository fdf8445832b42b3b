//! Decisions of the `launch` use case: which application a mode starts, and
//! what a launch reports.

use vstd::prelude::*;
use crate::domain::launch::{LaunchMode, LaunchResult};
use crate::platform::utility::UtilityType;
use crate::support::error::AppError;
use crate::text::{decimal, u64_to_decimal};

verus! {

/// How long a launched process must survive to count as started, in milliseconds.
pub const LAUNCH_STARTUP_PROBE_MS: u64 = 250;

/// The command-line switch that starts the thick client as an ordinary application.
pub const ORDINARY_RUN_MODE_SWITCH: &'static str = "/RunModeOrdinaryApplication";

/// What a launch mode starts: the application, the utility that runs it, its
/// command-line mode and, where the mode needs one, a run-mode switch.
#[derive(Debug, Clone, Copy, PartialEq, Eq)]
pub struct LaunchPlan {
    pub mode: LaunchMode,
    pub utility: UtilityType,
    pub command_mode: &'static str,
    pub run_mode_switch: Option<&'static str>,
}

/// The plan of each supported mode name: application, utility, command-line
/// mode and run-mode switch.
pub open spec fn plan_of(mode: Seq<char>) -> Option<(LaunchMode, UtilityType, Seq<char>, Option<Seq<char>>)> {
    if mode == "designer"@ {
        Some((LaunchMode::Designer, UtilityType::V8, "DESIGNER"@, None))
    } else if mode == "thin"@ {
        Some((LaunchMode::Thin, UtilityType::V8C, "ENTERPRISE"@, None))
    } else if mode == "thick"@ {
        Some((LaunchMode::Thick, UtilityType::V8, "ENTERPRISE"@, None))
    } else if mode == "ordinary"@ {
        Some((LaunchMode::Ordinary, UtilityType::V8, "ENTERPRISE"@, Some(ORDINARY_RUN_MODE_SWITCH@)))
    } else {
        None
    }
}

/// Each launch mode starts its own application: only the thin client runs
/// the thin-client utility (designer, thick and ordinary run the full
/// platform binary), the application reported is the one named, only the
/// ordinary mode adds a run-mode switch, and exactly the four documented
/// modes are accepted.
pub proof fn lemma_launch_modes(mode: Seq<char>)
    ensures
        plan_of(mode) is Some <==> (mode == "designer"@ || mode == "thin"@ || mode == "thick"@ || mode == "ordinary"@),
        plan_of(mode) matches Some((m, u, c, w)) ==> {
            &&& (u == UtilityType::V8C <==> mode == "thin"@)
            &&& (u == UtilityType::V8 <==> mode != "thin"@)
            &&& (m == LaunchMode::Designer <==> mode == "designer"@)
            &&& (m == LaunchMode::Thin <==> mode == "thin"@)
            &&& (m == LaunchMode::Thick <==> mode == "thick"@)
            &&& (m == LaunchMode::Ordinary <==> mode == "ordinary"@)
            &&& (w is Some <==> mode == "ordinary"@)
            &&& (w == Some(ORDINARY_RUN_MODE_SWITCH@) <==> mode == "ordinary"@)
            &&& (c == "DESIGNER"@ <==> mode == "designer"@)
            &&& (c == "ENTERPRISE"@ <==> mode != "designer"@)
        },
{
    reveal_strlit("DESIGNER");
    reveal_strlit("ENTERPRISE");
    assert("DESIGNER"@.len() == 8 && "ENTERPRISE"@.len() == 10);
    assert("DESIGNER"@ != "ENTERPRISE"@);
    reveal_strlit("designer");
    reveal_strlit("thin");
    reveal_strlit("thick");
    reveal_strlit("ordinary");
    assert("designer"@.len() == 8 && "ordinary"@.len() == 8 && "thin"@.len() == 4 && "thick"@.len() == 5);
    assert("designer"@[0] != "ordinary"@[0]);
    assert("designer"@ != "ordinary"@);
    assert("thin"@ != "thick"@);
    assert("thin"@ != "designer"@ && "thin"@ != "ordinary"@);
    assert("thick"@ != "designer"@ && "thick"@ != "ordinary"@);
}

/// The view of an optional static switch.
pub open spec fn switch_view(s: Option<&'static str>) -> Option<Seq<char>> {
    match s {
        Some(x) => Some(x@),
        None => None,
    }
}

/// Plans a launch: `designer` starts Designer, `thin` the thin client,
/// `thick` the thick client and `ordinary` the thick client in
/// ordinary-application mode; any other mode is refused.
pub fn launch_plan(mode: &str) -> (r: Result<LaunchPlan, AppError>)
    ensures
        match plan_of(mode@) {
            Some((m, u, c, w)) => r matches Ok(p) && p.mode == m && p.utility == u && p.command_mode@ == c
                && switch_view(p.run_mode_switch) == w,
            None => r matches Err(AppError::Validation(s)) && s@ == "unsupported launch mode: "@ + mode@,
        },
        r matches Ok(p) ==> (p.utility == UtilityType::V8C <==> mode@ == "thin"@) && (p.utility == UtilityType::V8 <==> mode@ != "thin"@),
{
    proof { lemma_launch_modes(mode@); }
    if crate::text::str_eq(mode, "designer") {
        Ok(LaunchPlan { mode: LaunchMode::Designer, utility: UtilityType::V8, command_mode: "DESIGNER", run_mode_switch: None })
    } else if crate::text::str_eq(mode, "thin") {
        Ok(LaunchPlan { mode: LaunchMode::Thin, utility: UtilityType::V8C, command_mode: "ENTERPRISE", run_mode_switch: None })
    } else if crate::text::str_eq(mode, "thick") {
        Ok(LaunchPlan { mode: LaunchMode::Thick, utility: UtilityType::V8, command_mode: "ENTERPRISE", run_mode_switch: None })
    } else if crate::text::str_eq(mode, "ordinary") {
        Ok(LaunchPlan {
            mode: LaunchMode::Ordinary,
            utility: UtilityType::V8,
            command_mode: "ENTERPRISE",
            run_mode_switch: Some(ORDINARY_RUN_MODE_SWITCH),
        })
    } else {
        Err(AppError::Validation(String::from_str("unsupported launch mode: ").concat(mode)))
    }
}

/// The leading arguments of a plan: its command-line mode, then its run-mode
/// switch when it has one.
pub open spec fn plan_head(plan: LaunchPlan) -> Seq<Seq<char>> {
    match plan.run_mode_switch {
        Some(w) => seq![plan.command_mode@, w@],
        None => seq![plan.command_mode@],
    }
}

/// The arguments of a launch: the command-line mode and run-mode switch, then
/// the connection's.
pub fn launch_process_args(plan: &LaunchPlan, connection_args: Vec<String>) -> (r: Vec<String>)
    ensures
        r@.map_values(|s: String| s@) == plan_head(*plan) + connection_args@.map_values(|s: String| s@),
{
    let mut r: Vec<String> = Vec::new();
    r.push(String::from_str(plan.command_mode));
    match plan.run_mode_switch {
        Some(w) => r.push(String::from_str(w)),
        None => {},
    }
    let ghost head = r@;
    let mut rest = connection_args;
    r.append(&mut rest);
    proof {
        assert(head.map_values(|s: String| s@) =~= plan_head(*plan));
        assert(r@.map_values(|s: String| s@) =~= head.map_values(|s: String| s@) + connection_args@.map_values(|s: String| s@));
    }
    r
}

/// The result of a started application.
pub fn launched_result(mode_name: &str, plan: &LaunchPlan, binary: String, pid: u32, duration_ms: u64) -> (r: LaunchResult)
    ensures
        r.ok,
        r.mode == plan.mode,
        r.pid == Some(pid),
        r.binary == binary,
        r.message matches Some(m) && m@ == "Launched "@ + mode_name@ + " via "@ + binary@ + " (pid "@ + decimal(pid as nat) + ")"@,
        r.duration_ms == duration_ms,
{
    let message = String::from_str("Launched ").concat(mode_name).concat(" via ").concat(binary.as_str())
        .concat(" (pid ").concat(u64_to_decimal(pid as u64).as_str()).concat(")");
    LaunchResult { ok: true, mode: plan.mode, pid: Some(pid), binary, message: Some(message), duration_ms }
}

/// The application a failed launch reports: thin, thick or ordinary when
/// named, else Designer.
pub open spec fn reported_mode(mode: Seq<char>) -> LaunchMode {
    if mode == "thin"@ {
        LaunchMode::Thin
    } else if mode == "thick"@ {
        LaunchMode::Thick
    } else if mode == "ordinary"@ {
        LaunchMode::Ordinary
    } else {
        LaunchMode::Designer
    }
}

/// The result of a launch that did not start anything.
pub fn failure_result(mode: &str, binary: Option<String>, message: Option<String>, duration_ms: u64) -> (r: LaunchResult)
    ensures
        !r.ok,
        r.mode == reported_mode(mode@),
        r.pid is None,
        r.binary@ == (match binary { Some(b) => b@, None => Seq::<char>::empty() }),
        r.message == message,
        r.duration_ms == duration_ms,
{
    let reported = if crate::text::str_eq(mode, "thin") {
        LaunchMode::Thin
    } else if crate::text::str_eq(mode, "thick") {
        LaunchMode::Thick
    } else if crate::text::str_eq(mode, "ordinary") {
        LaunchMode::Ordinary
    } else {
        LaunchMode::Designer
    };
    let binary = match binary {
        Some(b) => b,
        None => String::new(),
    };
    LaunchResult { ok: false, mode: reported, pid: None, binary, message, duration_ms }
}

} // verus!
