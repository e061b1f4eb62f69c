//! Task builder and the runnable unit an executor processes.

use vstd::prelude::*;

use crate::cell::{finish_cell, run_start_cell, PollOutcome, RunReport, TaskCell};
use crate::current::CurrentContext;
use crate::kernel::{JoinKarx, Kernel};
use crate::state::RunStart;

verus! {

/// Configures a task before spawning it. In the running system the wrapped
/// future also gets the guaranteed locals-clear on exit; the kernel's run
/// protocol performs that clear here.
#[derive(Debug, Default)]
pub struct Builder {
    pub name: Option<String>,
}

impl Builder {
    /// A builder for an unnamed task.
    pub fn new() -> (b: Builder)
        ensures
            b.name is None,
    {
        Builder { name: None }
    }

    /// Configures the name of the task.
    pub fn name(self, name: String) -> (b: Builder)
        ensures
            b.name == Some(name),
    {
        Builder { name: Some(name) }
    }

    /// Spawns a task with the configured settings onto `k` and returns its
    /// join handle. The running system reports a failure to start its
    /// executor thread as fatal rather than as a soft error, so nothing is
    /// returned but the handle.
    pub fn spawn<T>(self, k: &mut Kernel<T>) -> (j: JoinKarx)
        requires
            old(k).wf(),
            self.name is Some ==> !old(k).registry.ids.exhausted(),
        ensures
            final(k).wf(),
            j.tid == old(k).tasks.len(),
            final(k).tasks@ == old(k).tasks@.push(
                TaskCell::spawned(final(k).tasks[j.tid as int].karx),
            ),
            final(k).queue@ == old(k).queue@.push(j.tid),
            final(k).registry.extends(old(k).registry),
            final(k).registry.preserves_blocks(old(k).registry),
            ({
                let kx = final(k).tasks[j.tid as int].karx;
                &&& kx.wf(final(k).registry)
                &&& self.name is None ==> !kx.forced() && final(k).registry == old(k).registry
                &&& self.name is Some ==> {
                    &&& kx.forced()
                    &&& final(k).registry.blocks[kx.index()].name == self.name
                    &&& final(k).registry.blocks[kx.index()].id.0 == old(k).registry.ids.next
                }
            }),
    {
        k.spawn_task(self.name)
    }
}

/// A scheduled task as the executor holds it between taking it off the
/// queue and finishing its poll.
pub struct Runnable {
    pub tid: usize,
}

impl Runnable {
    /// Runs the task once: sets its karx as the thread's current task for
    /// exactly the extent of the poll, applies the poll's outcome, and
    /// restores the previous current task whatever the poll did. A task
    /// that was closed in the meantime is torn down; a duplicate run is a
    /// no-op.
    ///
    /// The poll itself — the future's own code — happens outside the
    /// model; `outcome` is what it did. A poll that reads or writes
    /// task-locals is driven through the kernel's `run_start` and
    /// `run_finish` directly, with the context operations in between.
    pub fn run<T>(self, k: &mut Kernel<T>, ctx: &mut CurrentContext, outcome: PollOutcome<T>) -> (r:
        RunReport)
        requires
            old(k).wf(),
            self.tid < old(k).tasks.len(),
            !old(k).queued(self.tid),
        ensures
            final(k).wf(),
            *final(ctx) == *old(ctx),
            final(k).tasks.len() == old(k).tasks.len(),
            forall|i: int|
                0 <= i < old(k).tasks.len() && i != self.tid ==> #[trigger] final(k).tasks[i]
                    == old(k).tasks[i],
            ({
                let cell0 = old(k).tasks[self.tid as int];
                let (cell1, start) = run_start_cell(cell0);
                &&& start != RunStart::Poll ==> final(k).tasks[self.tid as int] == cell1
                    && final(k).queue == old(k).queue && r == (RunReport {
                    requeued: false,
                    woke_awaiter: false,
                })
                &&& start == RunStart::Poll ==> {
                    let (cell2, report) = finish_cell(cell1, outcome);
                    &&& final(k).tasks[self.tid as int] == cell2
                    &&& r == report
                    &&& r.requeued ==> final(k).queue@ == old(k).queue@.push(self.tid)
                    &&& !r.requeued ==> final(k).queue@ == old(k).queue@
                }
            }),
    {
        let tid = self.tid;
        let karx = k.tasks[tid].karx;
        let saved = ctx.enter(karx);
        let start = k.run_start(tid);
        let r = match start {
            RunStart::Poll => {
                let karx_back = ctx.exit(saved);
                k.run_finish(tid, outcome, karx_back)
            },
            _ => {
                let _ = ctx.exit(saved);
                RunReport { requeued: false, woke_awaiter: false }
            },
        };
        r
    }
}

} // verus!
