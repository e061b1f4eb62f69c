//! The task cell: one spawned unit of work and what may be observed of it.
//!
//! A cell owns either its future or, once finished, its output — never
//! both — together with the lifecycle flags of [`crate::state`] and the
//! task's karx tag. The future itself stays outside the model: what a poll
//! did is handed to the kernel as a [`PollOutcome`], and the kernel's
//! contracts say exactly what each outcome does to the cell.

use vstd::prelude::*;

use crate::karx::{Karx, KarxRegistry};
use crate::state::{
    spec_on_handle_drop, spec_on_join_pending, spec_on_join_take, spec_on_poll_complete,
    spec_on_poll_pending, spec_on_run_start, spec_on_wake, RunStart, TaskState,
};

verus! {

/// What one poll of the task's future did. This is the executor's input:
/// the future's behaviour is outside the model, but every possible
/// behaviour is one of these three.
pub enum PollOutcome<T> {
    /// The future suspended. `self_woken` says whether the task's own
    /// waker fired during the poll (as `yield_now` does), which obliges
    /// the runner to requeue the cell once.
    Pending { self_woken: bool },
    /// The future finished with a value.
    Ready { value: T },
    /// The future panicked; the panic was caught at the task boundary.
    Panicked,
}

/// What a join handle observes when it polls.
pub enum JoinWait<T> {
    /// The task has not finished; the handle is parked as the awaiter.
    Pending,
    /// The task finished and this is its output.
    Ready { value: T },
    /// The task panicked: awaiting it fails rather than yielding a value
    /// or hanging. The running system re-raises the panic here.
    Failed,
}

/// What one run of a cell did, as the executor needs to know it.
#[derive(Clone, Copy, PartialEq, Eq, Structural, Debug)]
pub struct RunReport {
    /// The cell was put back at the tail of the queue (a wake arrived
    /// during the poll).
    pub requeued: bool,
    /// A parked join handle was woken because the task completed.
    pub woke_awaiter: bool,
}

/// One spawned task: its tag, its lifecycle flags, and — once completed
/// with a live handle — its output.
pub struct TaskCell<T> {
    pub karx: Karx,
    pub state: TaskState,
    pub output: Option<T>,
    pub panicked: bool,
}

impl<T> TaskCell<T> {
    /// What always holds of a cell the kernel manages.
    ///
    /// The output exists exactly while someone can still take it: the task
    /// completed without panicking and a handle is live. A panic is only
    /// recorded on a completed task. And once the task is terminal —
    /// completed, or closed and already torn down — its task-locals are
    /// cleared, never to be read again.
    pub open spec fn wf(self, reg: KarxRegistry) -> bool {
        &&& self.state.wf()
        &&& self.karx.wf(reg)
        &&& (self.output is Some) <==> (self.state.completed && self.state.handle
            && !self.panicked)
        &&& self.panicked ==> self.state.completed
        &&& self.state.completed && self.karx.forced()
            ==> reg.blocks[self.karx.index()].locals.cleared
        &&& self.state.closed && !self.state.scheduled && self.karx.forced()
            ==> reg.blocks[self.karx.index()].locals.cleared
    }

    /// A freshly spawned cell carrying `karx`: enqueued once, handle live,
    /// no output yet.
    pub open spec fn spawned(karx: Karx) -> TaskCell<T> {
        TaskCell { karx, state: TaskState::spawned(), output: None, panicked: false }
    }
}

/// The cell-level effect of an executor picking the cell out of its queue:
/// the state transition of `spec_on_run_start`, nothing else of the cell.
pub open spec fn run_start_cell<T>(cell: TaskCell<T>) -> (TaskCell<T>, RunStart) {
    let (s, r) = spec_on_run_start(cell.state);
    (TaskCell { state: s, ..cell }, r)
}

/// The cell-level effect of one finished poll. A pending poll releases the
/// run right, owing a requeue exactly when the task's waker fired during
/// the poll. A finishing poll completes the cell; the output is kept for a
/// live handle and discarded for a detached one; a panic is recorded as a
/// panic and leaves no output.
pub open spec fn finish_cell<T>(cell: TaskCell<T>, outcome: PollOutcome<T>) -> (
    TaskCell<T>,
    RunReport,
) {
    match outcome {
        PollOutcome::Pending { self_woken } => {
            let s1 = if self_woken {
                spec_on_wake(cell.state).0
            } else {
                cell.state
            };
            let (s2, requeue) = spec_on_poll_pending(s1);
            (
                TaskCell { state: s2, ..cell },
                RunReport { requeued: requeue, woke_awaiter: false },
            )
        },
        PollOutcome::Ready { value } => {
            let (s2, woke) = spec_on_poll_complete(cell.state);
            (
                TaskCell {
                    state: s2,
                    output: if cell.state.handle {
                        Some(value)
                    } else {
                        None
                    },
                    ..cell
                },
                RunReport { requeued: false, woke_awaiter: woke },
            )
        },
        PollOutcome::Panicked => {
            let (s2, woke) = spec_on_poll_complete(cell.state);
            (
                TaskCell { state: s2, output: None, panicked: true, ..cell },
                RunReport { requeued: false, woke_awaiter: woke },
            )
        },
    }
}

/// The cell-level effect of one poll of the join handle: park as awaiter
/// before completion, fail on a panicked task, take the output — exactly
/// once — from a completed one.
pub open spec fn join_cell<T>(cell: TaskCell<T>) -> (TaskCell<T>, JoinWait<T>) {
    if !cell.state.completed {
        (TaskCell { state: spec_on_join_pending(cell.state), ..cell }, JoinWait::Pending)
    } else if cell.panicked {
        (cell, JoinWait::Failed)
    } else {
        (
            TaskCell { state: spec_on_join_take(cell.state), output: None, ..cell },
            JoinWait::Ready { value: cell.output.unwrap() },
        )
    }
}

/// The cell-level effect of dropping the join handle: detachment. Any
/// output that existed is discarded; the second component says whether the
/// cell must be enqueued once for teardown.
pub open spec fn detach_cell<T>(cell: TaskCell<T>) -> (TaskCell<T>, bool) {
    let (s, enqueue) = spec_on_handle_drop(cell.state);
    (TaskCell { state: s, output: None, ..cell }, enqueue)
}

} // verus!
