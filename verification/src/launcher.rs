//! The launcher: turns one application descriptor into a concrete launch
//! plan, and turns the outcome of the spawn attempt back into a
//! [`LaunchResult`].
//!
//! The launcher itself never fails: a spawn error is reported as data in the
//! outcome, not raised. The caller that owns the operating-system spawn
//! primitive executes a plan in order — first the wait, then the spawn — and
//! hands the spawn outcome to [`finish_launch`].

use vstd::prelude::*;
use crate::LaunchResult;
use crate::WorkspaceApp;
use crate::args::split_args;
use crate::args::split_ws;

verus! {

/// Everything the process-spawn collaborator needs for one launch: how many
/// seconds to wait first, the executable path, and the argument tokens. The
/// wait always precedes the spawn.
pub struct LaunchPlan {
    pub wait_seconds: u64,
    pub path: String,
    pub args: Vec<String>,
}

/// The seconds a descriptor asks to wait before its spawn: its delay, or
/// none at all.
pub open spec fn plan_wait(app: WorkspaceApp) -> u64 {
    match app.delay {
        Some(d) => d,
        None => 0,
    }
}

/// The argument tokens a descriptor's argument string yields: its
/// whitespace-delimited tokens, or no tokens when there is no argument
/// string.
pub open spec fn plan_args(app: WorkspaceApp) -> Seq<Seq<char>> {
    match app.args {
        Some(a) => split_ws(a@),
        None => Seq::empty(),
    }
}

/// Builds the launch plan for one descriptor: wait `delay` seconds (if any),
/// then spawn `path` with the whitespace-delimited tokens of `args` as
/// separate arguments.
pub fn launch_plan(app: &WorkspaceApp) -> (p: LaunchPlan)
    ensures
        p.wait_seconds == plan_wait(*app),
        p.path@ == app.path@,
        p.args@.map_values(|t: String| t@) == plan_args(*app),
{
    let wait_seconds = match app.delay {
        Some(d) => d,
        None => 0,
    };
    let args = match &app.args {
        Some(a) => split_args(a.as_str()),
        None => Vec::new(),
    };
    proof {
        if app.args is None {
            assert(Seq::<String>::empty().map_values(|t: String| t@) =~= Seq::<
                Seq<char>,
            >::empty());
        }
    }
    LaunchPlan { wait_seconds, path: app.path.clone(), args }
}

/// One step of executing a launch plan.
#[derive(Debug, Clone, Copy, PartialEq, Eq, Structural)]
pub enum LaunchStep {
    /// Block the executing context for this many seconds.
    Wait { seconds: u64 },
    /// Spawn the process, detached, without waiting for it to exit.
    Spawn,
}

/// The steps that execute plan `p`, in order. A plan with a positive wait
/// puts its wait strictly before its spawn: the spawn attempt begins only
/// after the delay has elapsed.
pub fn launch_steps(p: &LaunchPlan) -> (s: Vec<LaunchStep>)
    ensures
        p.wait_seconds > 0 ==> s@ =~= seq![
            (LaunchStep::Wait { seconds: p.wait_seconds }),
            LaunchStep::Spawn,
        ],
        p.wait_seconds == 0 ==> s@ =~= seq![LaunchStep::Spawn],
{
    let mut s: Vec<LaunchStep> = Vec::new();
    if p.wait_seconds > 0 {
        s.push(LaunchStep::Wait { seconds: p.wait_seconds });
    }
    s.push(LaunchStep::Spawn);
    s
}

/// Whether outcome `r` reports the spawn outcome `err` for the application
/// with identifier `id`: success exactly when there was no error, and the
/// error message carried through verbatim otherwise.
pub open spec fn outcome_reports(r: LaunchResult, id: Seq<char>, err: Option<String>) -> bool {
    &&& r.success == (err is None)
    &&& r.app_id@ == id
    &&& match (r.error, err) {
        (Some(got), Some(expected)) => got@ == expected@,
        (None, None) => true,
        _ => false,
    }
}

/// Wraps the outcome of a spawn attempt into the launch outcome for `app`:
/// success when `spawn_error` is absent, failure carrying the message when
/// it is present. This is the launcher's only error channel.
pub fn finish_launch(app: &WorkspaceApp, spawn_error: Option<String>) -> (r: LaunchResult)
    ensures
        outcome_reports(r, app.id@, spawn_error),
        crate::result_well_formed(r),
{
    match spawn_error {
        None => LaunchResult { success: true, app_id: app.id.clone(), error: None },
        Some(e) => LaunchResult { success: false, app_id: app.id.clone(), error: Some(e) },
    }
}

} // verus!
