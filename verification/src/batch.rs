//! The batch orchestrator: runs a list of application descriptors in order,
//! one at a time, emitting a progress event before each launch attempt and a
//! single completion event after the last.
//!
//! A batch is a small state machine, [`BatchRun`]: `next_progress` and
//! `next_plan` describe the pending item, and `record` files its outcome and
//! advances. The host drives it against the real spawn primitive; event
//! emission is best-effort observability and can never change the recorded
//! outcomes. A failed launch is recorded and the batch moves on: there is no
//! short-circuit and no failed terminal state.

use vstd::prelude::*;
use crate::LaunchResult;
use crate::WorkspaceApp;
use crate::result_well_formed;
use crate::launcher::LaunchPlan;
use crate::launcher::launch_plan;
use crate::launcher::finish_launch;
use crate::launcher::outcome_reports;
use crate::launcher::plan_wait;
use crate::launcher::plan_args;

verus! {

/// The notification emitted immediately before one launch attempt: the
/// 0-based index of the item, the batch size, and the item's name and
/// identifier.
pub struct ProgressEvent {
    pub current: usize,
    pub total: usize,
    pub app_name: String,
    pub app_id: String,
}

/// The notification emitted once, after the whole batch: every outcome, in
/// input order.
pub struct CompletionEvent {
    pub results: Vec<LaunchResult>,
}

/// Whether `e` is the progress event for item `i` of the batch `apps`.
pub open spec fn progress_reports(e: ProgressEvent, apps: Seq<WorkspaceApp>, i: int) -> bool {
    &&& e.current == i
    &&& e.total == apps.len()
    &&& e.app_name@ == apps[i].name@
    &&& e.app_id@ == apps[i].id@
}

/// One batch in flight: the descriptors submitted, and the outcomes of the
/// items processed so far. The batch is complete when every descriptor has
/// an outcome.
pub struct BatchRun {
    pub apps: Vec<WorkspaceApp>,
    pub results: Vec<LaunchResult>,
}

impl BatchRun {
    /// Outcomes never outnumber descriptors, and each recorded outcome is
    /// well formed and names the descriptor at its own index.
    pub open spec fn wf(self) -> bool {
        &&& self.results@.len() <= self.apps@.len()
        &&& forall|k: int|
            0 <= k < self.results@.len() ==> self.results@[k].app_id@ == self.apps@[k].id@
                && result_well_formed(self.results@[k])
    }

    /// Whether every item has been processed.
    pub open spec fn is_done(self) -> bool {
        self.results@.len() == self.apps@.len()
    }

    /// Starts a batch over `apps`, with no item processed yet.
    pub fn new(apps: Vec<WorkspaceApp>) -> (b: BatchRun)
        ensures
            b.apps == apps,
            b.results@.len() == 0,
            b.wf(),
    {
        BatchRun { apps, results: Vec::new() }
    }

    /// Whether the batch still has an item to launch.
    pub fn has_next(&self) -> (r: bool)
        requires
            self.wf(),
        ensures
            r == !self.is_done(),
    {
        self.results.len() < self.apps.len()
    }

    /// The progress event for the pending item, to be emitted before its
    /// launch attempt. Emission is best-effort: the orchestration never
    /// depends on whether a sink accepted it.
    pub fn next_progress(&self) -> (e: ProgressEvent)
        requires
            self.wf(),
            !self.is_done(),
        ensures
            progress_reports(e, self.apps@, self.results@.len() as int),
    {
        let i = self.results.len();
        let app = &self.apps[i];
        ProgressEvent {
            current: i,
            total: self.apps.len(),
            app_name: app.name.clone(),
            app_id: app.id.clone(),
        }
    }

    /// The launch plan for the pending item: wait, then spawn.
    pub fn next_plan(&self) -> (p: LaunchPlan)
        requires
            self.wf(),
            !self.is_done(),
        ensures
            p.wait_seconds == plan_wait(self.apps@[self.results@.len() as int]),
            p.path@ == self.apps@[self.results@.len() as int].path@,
            p.args@.map_values(|t: String| t@) == plan_args(
                self.apps@[self.results@.len() as int],
            ),
    {
        let i = self.results.len();
        launch_plan(&self.apps[i])
    }

    /// Files the spawn outcome of the pending item and moves to the next
    /// one. A spawn failure is recorded like a success: it never aborts the
    /// batch.
    pub fn record(&mut self, spawn_error: Option<String>)
        requires
            old(self).wf(),
            !old(self).is_done(),
        ensures
            final(self).wf(),
            final(self).apps == old(self).apps,
            final(self).results@.len() == old(self).results@.len() + 1,
            forall|k: int|
                0 <= k < old(self).results@.len() ==> final(self).results@[k] == old(
                    self,
                ).results@[k],
            outcome_reports(
                final(self).results@.last(),
                old(self).apps@[old(self).results@.len() as int].id@,
                spawn_error,
            ),
            result_well_formed(final(self).results@.last()),
    {
        let i = self.results.len();
        let r = finish_launch(&self.apps[i], spawn_error);
        self.results.push(r);
    }

    /// Ends a completed batch with its single completion event, carrying
    /// every outcome in input order.
    pub fn into_completion(self) -> (e: CompletionEvent)
        requires
            self.is_done(),
        ensures
            e.results == self.results,
    {
        CompletionEvent { results: self.results }
    }
}

/// Whether `a` and `b` carry the same spawn outcome: both absent, or both
/// the same message.
pub open spec fn same_spawn_error(a: Option<String>, b: Option<String>) -> bool {
    match (a, b) {
        (Some(x), Some(y)) => x@ == y@,
        (None, None) => true,
        _ => false,
    }
}

/// Copies a spawn outcome, message and all.
fn clone_spawn_error(e: &Option<String>) -> (r: Option<String>)
    ensures
        same_spawn_error(r, *e),
{
    match e {
        None => None,
        Some(s) => Some(s.clone()),
    }
}

/// Everything one batch run emits: its progress events, in order, and its
/// single completion event.
pub struct BatchReport {
    pub progress: Vec<ProgressEvent>,
    pub completion: CompletionEvent,
}

/// Runs a whole batch, given the spawn outcome of each item: what a run
/// over the real spawn primitive produces once every spawn has resolved the
/// way `spawn_errors` says. For a batch of size `n` it emits exactly `n`
/// progress events, indices `0` to `n - 1` in order, exactly one completion
/// event, and one outcome per descriptor, in input order — whether or not
/// any individual launch failed.
pub fn run_batch(apps: Vec<WorkspaceApp>, spawn_errors: &Vec<Option<String>>) -> (rep: BatchReport)
    requires
        spawn_errors@.len() == apps@.len(),
    ensures
        rep.progress@.len() == apps@.len(),
        forall|i: int|
            0 <= i < apps@.len() ==> progress_reports(rep.progress@[i], apps@, i),
        rep.completion.results@.len() == apps@.len(),
        forall|i: int|
            0 <= i < apps@.len() ==> outcome_reports(
                rep.completion.results@[i],
                apps@[i].id@,
                spawn_errors@[i],
            ) && result_well_formed(rep.completion.results@[i]),
{
    let n = apps.len();
    let mut run = BatchRun::new(apps);
    let mut progress: Vec<ProgressEvent> = Vec::new();
    let mut i: usize = 0;
    while i < n
        invariant
            n == run.apps@.len(),
            n == spawn_errors@.len(),
            run.apps@ == apps@,
            run.wf(),
            i == run.results@.len(),
            i <= n,
            progress@.len() == i,
            forall|k: int| 0 <= k < i ==> progress_reports(progress@[k], apps@, k),
            forall|k: int|
                0 <= k < i ==> outcome_reports(run.results@[k], apps@[k].id@, spawn_errors@[k])
                    && result_well_formed(run.results@[k]),
        decreases n - i,
    {
        progress.push(run.next_progress());
        let err = clone_spawn_error(&spawn_errors[i]);
        run.record(err);
        i = i + 1;
    }
    BatchReport { progress, completion: run.into_completion() }
}

} // verus!
