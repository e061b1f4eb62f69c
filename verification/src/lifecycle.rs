//! Lifecycle theorems: what the run protocol guarantees end to end.
//!
//! These are statements about the cell transitions of [`crate::cell`],
//! which the kernel's operations are proved to follow step by step; each
//! theorem composes the transitions the way an executor does.

use vstd::prelude::*;

use crate::cell::{detach_cell, finish_cell, join_cell, run_start_cell, JoinWait, PollOutcome, TaskCell};
use crate::karx::Karx;
use crate::state::{spec_on_handle_drop, RunStart, TaskState};

verus! {

/// Awaiting a spawned task yields exactly the value its body produced:
/// for any task body whose poll finishes with `value`, the fresh cell is
/// polled (not torn down), completes holding `value` for its live handle,
/// and the join handle's poll takes exactly `value` out.
pub proof fn lemma_spawn_await_yields_value<T>(karx: Karx, value: T)
    ensures
        ({
            let c0 = TaskCell::<T>::spawned(karx);
            let (c1, start) = run_start_cell(c0);
            let (c2, _) = finish_cell(c1, PollOutcome::Ready { value });
            let (c3, wait) = join_cell(c2);
            &&& start == RunStart::Poll
            &&& c2.state.completed && !c2.panicked
            &&& c2.output == Some(value)
            &&& wait == (JoinWait::Ready { value })
            &&& c3.output is None
        }),
{
}

/// Dropping a join handle before completion never stops the underlying
/// work: detaching a freshly spawned (still enqueued) cell does not close
/// it, the executor still polls it, and the completing poll still runs —
/// only its output is discarded for want of an observer.
pub proof fn lemma_detach_never_stops_spawned_work<T>(karx: Karx, value: T)
    ensures
        ({
            let c0 = TaskCell::<T>::spawned(karx);
            let (c1, enqueue_teardown) = detach_cell(c0);
            let (c2, start) = run_start_cell(c1);
            let (c3, _) = finish_cell(c2, PollOutcome::Ready { value });
            &&& !enqueue_teardown
            &&& !c1.state.closed
            &&& start == RunStart::Poll
            &&& c3.state.completed
            &&& c3.output is None
        }),
{
}

/// Detachment in general: as long as a task is enqueued or mid-poll,
/// dropping its handle leaves it exactly as runnable as it was — not
/// closed, its scheduling untouched. Only a suspended task is closed.
pub proof fn lemma_detach_preserves_scheduled_work(s: TaskState)
    requires
        s.wf(),
        !s.completed,
        !s.closed,
    ensures
        s.scheduled || s.running ==> {
            &&& !spec_on_handle_drop(s).0.closed
            &&& spec_on_handle_drop(s).0.scheduled == s.scheduled
            &&& spec_on_handle_drop(s).0.running == s.running
            &&& !spec_on_handle_drop(s).1
        },
        !s.scheduled && !s.running ==> spec_on_handle_drop(s).0.closed && spec_on_handle_drop(
            s,
        ).1,
{
}

/// A task that panics and whose handle is awaited fails observably: the
/// completing poll records the panic, stores no output, and every poll of
/// the join handle answers `Failed` — never a value, never a hang.
pub proof fn lemma_panicked_task_fails_await<T>(karx: Karx)
    ensures
        ({
            let c0 = TaskCell::<T>::spawned(karx);
            let (c1, start) = run_start_cell(c0);
            let (c2, _) = finish_cell(c1, PollOutcome::<T>::Panicked);
            let (c3, wait) = join_cell(c2);
            &&& start == RunStart::Poll
            &&& c2.state.completed && c2.panicked
            &&& c2.output is None
            &&& wait is Failed
            &&& c3 == c2
        }),
{
}

/// Every completed-and-panicked cell, however it got there, fails its
/// await — the failure cannot be raced away by extra polls, which leave
/// the cell as it is.
pub proof fn lemma_join_on_panicked_always_fails<T>(c: TaskCell<T>)
    requires
        c.state.completed,
        c.panicked,
    ensures
        join_cell(c).1 is Failed,
        join_cell(c).0 == c,
{
}

} // verus!
