//! The atomic lifecycle flags of a task cell and their transitions.
//!
//! A task cell moves through its life under a small set of flags. In the
//! running system the flags live in one machine word and are changed by
//! compare-and-swap; here each change is a pure transition function, so the
//! whole protocol can be stated and checked exactly. The executors apply
//! these transitions to the cells they own.

use vstd::prelude::*;

verus! {

/// The lifecycle flags of one task cell.
///
/// * `scheduled` — a wake has been registered; the cell is (or is about to
///   be) in its executor's queue, or the runner must requeue it after the
///   poll in flight.
/// * `running` — one executor holds the exclusive right to poll the cell.
/// * `completed` — the future has finished (with a value or by panicking).
/// * `closed` — the handle was dropped while the task was suspended; the
///   next run tears the future down instead of polling it.
/// * `handle` — a live join handle still observes this cell.
/// * `awaiter` — the join handle is parked, waiting for completion.
#[derive(Clone, Copy, PartialEq, Eq, Structural, Debug)]
pub struct TaskState {
    pub scheduled: bool,
    pub running: bool,
    pub completed: bool,
    pub closed: bool,
    pub handle: bool,
    pub awaiter: bool,
}

impl TaskState {
    /// Flag combinations that the protocol can actually reach.
    pub open spec fn wf(self) -> bool {
        &&& !(self.completed && self.closed)
        &&& self.completed ==> !self.running && !self.scheduled && !self.awaiter
        &&& self.closed ==> !self.running && !self.handle && !self.awaiter
        &&& self.awaiter ==> self.handle
    }

    /// The state of a freshly spawned task: enqueued once, with a live handle.
    pub open spec fn spawned() -> TaskState {
        TaskState {
            scheduled: true,
            running: false,
            completed: false,
            closed: false,
            handle: true,
            awaiter: false,
        }
    }

    /// Suspended: not queued, not being polled, not finished.
    pub open spec fn idle(self) -> bool {
        !self.scheduled && !self.running && !self.completed && !self.closed
    }
}

/// What the executor finds when it picks a cell out of its queue.
#[derive(Clone, Copy, PartialEq, Eq, Structural, Debug)]
pub enum RunStart {
    /// The run right was acquired; poll the future.
    Poll,
    /// The handle is gone and the task was closed: drop the future and its
    /// task-locals instead of polling.
    Teardown,
    /// A duplicate wake raced an in-flight run; do nothing.
    Busy,
}

/// A wake arrives. Returns the new state and whether the cell must be
/// enqueued now. A wake on a task that is already scheduled, already
/// finished, or closed is a no-op; a wake during a poll only marks the cell
/// so the runner requeues it once the poll returns.
pub open spec fn spec_on_wake(s: TaskState) -> (TaskState, bool) {
    if s.completed || s.closed || s.scheduled {
        (s, false)
    } else if s.running {
        (TaskState { scheduled: true, ..s }, false)
    } else {
        (TaskState { scheduled: true, ..s }, true)
    }
}

/// The executor dequeued the cell and tries to acquire the run right.
pub open spec fn spec_on_run_start(s: TaskState) -> (TaskState, RunStart) {
    if s.closed {
        (TaskState { scheduled: false, ..s }, RunStart::Teardown)
    } else if s.running || s.completed {
        (s, RunStart::Busy)
    } else {
        (TaskState { scheduled: false, running: true, ..s }, RunStart::Poll)
    }
}

/// The poll returned pending. Releases the run right; the second component
/// says whether the runner must requeue the cell because a wake arrived
/// during the poll.
pub open spec fn spec_on_poll_pending(s: TaskState) -> (TaskState, bool) {
    (TaskState { running: false, ..s }, s.scheduled)
}

/// The poll finished the future (by value or by panic). The second
/// component says whether a parked join handle must be woken.
pub open spec fn spec_on_poll_complete(s: TaskState) -> (TaskState, bool) {
    (
        TaskState { scheduled: false, running: false, completed: true, awaiter: false, ..s },
        s.awaiter,
    )
}

/// The join handle is dropped. Detaches the cell: a task that is enqueued
/// or mid-poll keeps going to natural completion; only a suspended task is
/// closed, and then enqueued once so the executor tears it down (the second
/// component).
pub open spec fn spec_on_handle_drop(s: TaskState) -> (TaskState, bool) {
    if s.completed || s.closed || s.scheduled || s.running {
        (TaskState { handle: false, awaiter: false, ..s }, false)
    } else {
        (TaskState { scheduled: true, closed: true, handle: false, awaiter: false, ..s }, true)
    }
}

/// The join handle polled before completion and parked itself.
pub open spec fn spec_on_join_pending(s: TaskState) -> TaskState {
    TaskState { awaiter: true, ..s }
}

/// The join handle took the task's output; the cell no longer has an
/// observer.
pub open spec fn spec_on_join_take(s: TaskState) -> TaskState {
    TaskState { handle: false, awaiter: false, ..s }
}

/// Exec mirror of [`spec_on_wake`].
pub fn on_wake(s: TaskState) -> (r: (TaskState, bool))
    ensures
        r == spec_on_wake(s),
        s.wf() ==> r.0.wf(),
{
    if s.completed || s.closed || s.scheduled {
        (s, false)
    } else if s.running {
        (TaskState { scheduled: true, ..s }, false)
    } else {
        (TaskState { scheduled: true, ..s }, true)
    }
}

/// Exec mirror of [`spec_on_run_start`].
pub fn on_run_start(s: TaskState) -> (r: (TaskState, RunStart))
    ensures
        r == spec_on_run_start(s),
        s.wf() ==> r.0.wf(),
{
    if s.closed {
        (TaskState { scheduled: false, ..s }, RunStart::Teardown)
    } else if s.running || s.completed {
        (s, RunStart::Busy)
    } else {
        (TaskState { scheduled: false, running: true, ..s }, RunStart::Poll)
    }
}

/// Exec mirror of [`spec_on_poll_pending`].
pub fn on_poll_pending(s: TaskState) -> (r: (TaskState, bool))
    ensures
        r == spec_on_poll_pending(s),
        s.wf() ==> r.0.wf(),
{
    (TaskState { running: false, ..s }, s.scheduled)
}

/// Exec mirror of [`spec_on_poll_complete`].
pub fn on_poll_complete(s: TaskState) -> (r: (TaskState, bool))
    requires
        !s.closed,
    ensures
        r == spec_on_poll_complete(s),
        s.wf() ==> r.0.wf(),
{
    (
        TaskState { scheduled: false, running: false, completed: true, awaiter: false, ..s },
        s.awaiter,
    )
}

/// Exec mirror of [`spec_on_handle_drop`].
pub fn on_handle_drop(s: TaskState) -> (r: (TaskState, bool))
    ensures
        r == spec_on_handle_drop(s),
        s.wf() ==> r.0.wf(),
{
    if s.completed || s.closed || s.scheduled || s.running {
        (TaskState { handle: false, awaiter: false, ..s }, false)
    } else {
        (TaskState { scheduled: true, closed: true, handle: false, awaiter: false, ..s }, true)
    }
}

/// Redundant wakes coalesce: waking a task twice leaves the same state as
/// waking it once, and the second wake never enqueues the cell a second
/// time. At most one re-run follows one completed poll.
pub proof fn lemma_wake_coalesces(s: TaskState)
    ensures
        spec_on_wake(spec_on_wake(s).0).0 == spec_on_wake(s).0,
        !spec_on_wake(spec_on_wake(s).0).1,
{
}

} // verus!
