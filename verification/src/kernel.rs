//! The scheduling kernel: cells, the FIFO queue, and the run protocol.
//!
//! One kernel instance is one executor's state — the global run-loop for
//! non-blocking work, or the blocking pool's queue. It owns the task
//! cells, the FIFO queue of scheduled cells, and the registry of karx
//! blocks. The executor drives it in steps: dequeue a cell, start the run
//! (acquiring the exclusive run right), poll the future outside the
//! model, and finish the run with the poll's outcome. Every step's effect
//! on the cells and the queue is stated exactly.

use vstd::prelude::*;

use crate::cell::{
    detach_cell, finish_cell, join_cell, run_start_cell, JoinWait, PollOutcome, RunReport,
    TaskCell,
};
use crate::karx::{Karx, KarxRegistry};
use crate::state::{
    on_poll_complete, on_poll_pending, on_run_start, on_wake, spec_on_handle_drop,
    spec_on_join_pending, spec_on_join_take, spec_on_poll_complete, spec_on_poll_pending,
    spec_on_run_start, spec_on_wake, RunStart,
};

verus! {

/// A future that resolves to a spawned task's output; dropping it
/// detaches the task instead of stopping it. The handle remembers which
/// cell it observes; the task's karx tag lives in that cell and is shared
/// through it.
pub struct JoinKarx {
    pub tid: usize,
}

impl JoinKarx {
    /// Wraps a cell index as a join handle.
    pub(crate) fn new(tid: usize) -> (j: JoinKarx)
        ensures
            j.tid == tid,
    {
        JoinKarx { tid }
    }

    /// A handle to the underlying karx: the one tag object the task
    /// carries, shared with whatever the task itself forced or wrote.
    pub fn task<'a, T>(&self, k: &'a Kernel<T>) -> (r: &'a Karx)
        requires
            self.tid < k.tasks.len(),
        ensures
            r == &k.tasks[self.tid as int].karx,
    {
        &k.tasks[self.tid].karx
    }
}

/// One executor's scheduling state.
pub struct Kernel<T> {
    pub tasks: Vec<TaskCell<T>>,
    pub queue: Vec<usize>,
    pub registry: KarxRegistry,
}

impl<T> Kernel<T> {
    /// What always holds of a kernel between steps: every cell is
    /// well-formed against the registry; the queue points at real cells,
    /// holds no cell twice, and holds only cells that are scheduled and
    /// not mid-poll.
    pub open spec fn wf(self) -> bool {
        &&& self.registry.wf()
        &&& forall|i: int| 0 <= i < self.tasks.len() ==> (#[trigger] self.tasks[i]).wf(self.registry)
        &&& forall|i: int| 0 <= i < self.queue.len() ==> (#[trigger] self.queue[i]) < self.tasks.len()
        &&& forall|i: int, j: int|
            0 <= i < j < self.queue.len() ==> self.queue[i] != self.queue[j]
        &&& forall|i: int|
            0 <= i < self.queue.len() ==> self.tasks[#[trigger] self.queue[i] as int].state.scheduled
                && !self.tasks[self.queue[i] as int].state.running
    }

    /// The queue holds `tid`.
    pub open spec fn queued(self, tid: usize) -> bool {
        self.queue@.contains(tid)
    }

    /// An empty executor.
    pub fn new() -> (k: Kernel<T>)
        ensures
            k.wf(),
            k.tasks@.len() == 0,
            k.queue@.len() == 0,
            k.registry.blocks@.len() == 0,
            k.registry.ids.next == 1,
    {
        Kernel { tasks: Vec::new(), queue: Vec::new(), registry: KarxRegistry::new() }
    }

    /// Spawns a task: builds its karx tag, appends a fresh cell, and
    /// enqueues it exactly once. Returns the join handle, which shares the
    /// tag.
    pub fn spawn_task(&mut self, name: Option<String>) -> (j: JoinKarx)
        requires
            old(self).wf(),
            name is Some ==> !old(self).registry.ids.exhausted(),
        ensures
            final(self).wf(),
            j.tid == old(self).tasks.len(),
            final(self).tasks@ == old(self).tasks@.push(
                TaskCell::spawned(final(self).tasks[j.tid as int].karx),
            ),
            final(self).queue@ == old(self).queue@.push(j.tid),
            final(self).registry.extends(old(self).registry),
            final(self).registry.preserves_blocks(old(self).registry),
            ({
                let kx = final(self).tasks[j.tid as int].karx;
                &&& kx.wf(final(self).registry)
                &&& name is None ==> !kx.forced() && final(self).registry == old(self).registry
                &&& name is Some ==> {
                    &&& kx.forced()
                    &&& kx.index() == old(self).registry.blocks.len()
                    &&& final(self).registry.blocks[kx.index()].name == name
                    &&& final(self).registry.blocks[kx.index()].id.0 == old(self).registry.ids.next
                    &&& !final(self).registry.blocks[kx.index()].locals.cleared
                }
            }),
    {
        let karx = Karx::new(name, &mut self.registry);
        let tid = self.tasks.len();
        self.tasks.push(
            TaskCell {
                karx,
                state: crate::state::TaskState {
                    scheduled: true,
                    running: false,
                    completed: false,
                    closed: false,
                    handle: true,
                    awaiter: false,
                },
                output: None,
                panicked: false,
            },
        );
        self.queue.push(tid);
        let j = JoinKarx::new(tid);
        proof {
            assert forall|i: int| 0 <= i < self.tasks.len() implies (#[trigger] self.tasks[i]).wf(
                self.registry,
            ) by {
                if i < old(self).tasks.len() {
                    assert(old(self).tasks[i].wf(old(self).registry));
                    assert(self.tasks[i] == old(self).tasks[i]);
                }
            }
            assert forall|i: int|
                0 <= i < self.queue.len() implies self.tasks[#[trigger] self.queue[i] as int].state.scheduled
                && !self.tasks[self.queue[i] as int].state.running by {
                if i < old(self).queue.len() {
                    assert(self.queue[i] == old(self).queue[i]);
                }
            }
        }
        j
    }

    /// A wake arrives for `tid` — from a waker stored during an earlier
    /// poll, on whatever thread. The cell is enqueued exactly once if it
    /// was suspended; a wake during a poll only marks the cell for one
    /// requeue; any other wake is a no-op.
    pub fn wake(&mut self, tid: usize) -> (enqueued: bool)
        requires
            old(self).wf(),
            tid < old(self).tasks.len(),
        ensures
            final(self).wf(),
            final(self).tasks[tid as int].state == spec_on_wake(
                old(self).tasks[tid as int].state,
            ).0,
            enqueued == spec_on_wake(old(self).tasks[tid as int].state).1,
            enqueued ==> final(self).queue@ == old(self).queue@.push(tid),
            !enqueued ==> final(self).queue@ == old(self).queue@,
            final(self).tasks.len() == old(self).tasks.len(),
            forall|i: int|
                0 <= i < old(self).tasks.len() && i != tid ==> #[trigger] final(self).tasks[i]
                    == old(self).tasks[i],
            final(self).tasks[tid as int].karx == old(self).tasks[tid as int].karx,
            final(self).tasks[tid as int].output == old(self).tasks[tid as int].output,
            final(self).tasks[tid as int].panicked == old(self).tasks[tid as int].panicked,
            final(self).registry == old(self).registry,
    {
        let s = self.tasks[tid].state;
        let (s2, enqueue) = on_wake(s);
        self.tasks[tid].state = s2;
        if enqueue {
            self.queue.push(tid);
        }
        proof {
            assert forall|i: int| 0 <= i < self.tasks.len() implies (#[trigger] self.tasks[i]).wf(
                self.registry,
            ) by {
                assert(old(self).tasks[i].wf(old(self).registry));
            }
            if enqueue {
                assert forall|i: int, j: int|
                    0 <= i < j < self.queue.len() implies self.queue[i] != self.queue[j] by {
                    if j == self.queue.len() - 1 {
                        assert(self.queue[i] == old(self).queue[i]);
                        assert(old(self).wf());
                        assert(old(self).tasks[old(self).queue[i] as int].state.scheduled);
                    }
                }
            }
            assert forall|i: int|
                0 <= i < self.queue.len() implies self.tasks[#[trigger] self.queue[i] as int].state.scheduled
                && !self.tasks[self.queue[i] as int].state.running by {
                if i < old(self).queue.len() {
                    assert(old(self).tasks[old(self).queue[i] as int].state.scheduled);
                }
            }
        }
        enqueue
    }

    /// Takes the next scheduled cell, in strict FIFO order: the cell that
    /// was enqueued first comes out first.
    pub fn dequeue(&mut self) -> (r: Option<usize>)
        requires
            old(self).wf(),
        ensures
            final(self).wf(),
            old(self).queue@.len() == 0 ==> r is None && *final(self) == *old(self),
            old(self).queue@.len() > 0 ==> {
                &&& r == Some(old(self).queue@[0])
                &&& final(self).queue@ == old(self).queue@.drop_first()
                &&& !final(self).queued(old(self).queue@[0])
                &&& old(self).queue@[0] < old(self).tasks.len()
                &&& final(self).tasks[old(self).queue@[0] as int].state.scheduled
                &&& !final(self).tasks[old(self).queue@[0] as int].state.running
            },
            final(self).tasks == old(self).tasks,
            final(self).registry == old(self).registry,
    {
        if self.queue.len() == 0 {
            None
        } else {
            let tid = self.queue.remove(0);
            proof {
                assert(self.queue@ =~= old(self).queue@.drop_first());
                assert forall|i: int|
                    0 <= i < self.queue.len() implies #[trigger] self.queue@[i] != tid by {
                    assert(self.queue@[i] == old(self).queue@[i + 1]);
                    assert(old(self).queue@[0] != old(self).queue@[i + 1]);
                }
                assert(!self.queue@.contains(tid));
            }
            Some(tid)
        }
    }

    /// The executor holds a dequeued cell and tries to start a run. If the
    /// task was closed in the meantime, the future and the task-locals are
    /// torn down instead of polling; a duplicate wake racing an in-flight
    /// run does nothing. Only a [`RunStart::Poll`] answer acquires the
    /// exclusive run right.
    pub fn run_start(&mut self, tid: usize) -> (r: RunStart)
        requires
            old(self).wf(),
            tid < old(self).tasks.len(),
            !old(self).queued(tid),
        ensures
            final(self).wf(),
            r == spec_on_run_start(old(self).tasks[tid as int].state).1,
            final(self).tasks[tid as int].state == spec_on_run_start(
                old(self).tasks[tid as int].state,
            ).0,
            final(self).tasks[tid as int] == run_start_cell(old(self).tasks[tid as int]).0,
            r == run_start_cell(old(self).tasks[tid as int]).1,
            final(self).tasks.len() == old(self).tasks.len(),
            final(self).queue == old(self).queue,
            forall|i: int|
                0 <= i < old(self).tasks.len() && i != tid ==> #[trigger] final(self).tasks[i]
                    == old(self).tasks[i],
            final(self).tasks[tid as int].karx == old(self).tasks[tid as int].karx,
            final(self).tasks[tid as int].output == old(self).tasks[tid as int].output,
            final(self).tasks[tid as int].panicked == old(self).tasks[tid as int].panicked,
            final(self).registry.extends(old(self).registry),
            final(self).registry.blocks.len() == old(self).registry.blocks.len(),
            final(self).registry.ids == old(self).registry.ids,
            r != RunStart::Teardown ==> final(self).registry == old(self).registry,
            r == RunStart::Teardown ==> {
                let k = old(self).tasks[tid as int].karx;
                &&& k.forced() ==> final(self).registry.blocks[k.index()].locals.cleared
                &&& forall|i: int|
                    0 <= i < old(self).registry.blocks.len() && (!k.forced() || i != k.index())
                        ==> #[trigger] final(self).registry.blocks[i] == old(self).registry.blocks[i]
            },
    {
        let s = self.tasks[tid].state;
        let (s2, r) = on_run_start(s);
        self.tasks[tid].state = s2;
        if matches!(r, RunStart::Teardown) {
            let karx = self.tasks[tid].karx;
            karx.drop_locals(&mut self.registry);
        }
        proof {
            assert forall|i: int| 0 <= i < self.tasks.len() implies (#[trigger] self.tasks[i]).wf(
                self.registry,
            ) by {
                assert(old(self).tasks[i].wf(old(self).registry));
            }
            assert forall|i: int|
                0 <= i < self.queue.len() implies self.tasks[#[trigger] self.queue[i] as int].state.scheduled
                && !self.tasks[self.queue[i] as int].state.running by {
                assert(old(self).tasks[old(self).queue[i] as int].state.scheduled);
                assert(self.queue[i] != tid);
            }
        }
        r
    }

    /// The poll came back: apply its outcome. `karx` is the task's tag as
    /// it stands after the poll — the poll may have forced its allocation
    /// through the current-task context — and is stored back into the
    /// cell.
    ///
    /// A pending poll releases the run right and requeues the cell exactly
    /// when a wake arrived during the poll. A completed poll stores the
    /// output while a handle is live to take it — or discards it if the
    /// task was detached — records a panic as a panic, clears the
    /// task-locals exactly once, and reports whether a parked join handle
    /// must be woken.
    pub fn run_finish(&mut self, tid: usize, outcome: PollOutcome<T>, karx: Karx) -> (r: RunReport)
        requires
            old(self).wf(),
            tid < old(self).tasks.len(),
            old(self).tasks[tid as int].state.running,
            karx.wf(old(self).registry),
            old(self).tasks[tid as int].karx.forced() ==> karx == old(self).tasks[tid as int].karx,
        ensures
            final(self).wf(),
            final(self).tasks.len() == old(self).tasks.len(),
            forall|i: int|
                0 <= i < old(self).tasks.len() && i != tid ==> #[trigger] final(self).tasks[i]
                    == old(self).tasks[i],
            final(self).tasks[tid as int].karx == karx,
            final(self).tasks[tid as int] == (TaskCell {
                karx,
                ..finish_cell(old(self).tasks[tid as int], outcome).0
            }),
            r == finish_cell(old(self).tasks[tid as int], outcome).1,
            final(self).registry.extends(old(self).registry),
            final(self).registry.blocks.len() == old(self).registry.blocks.len(),
            final(self).registry.ids == old(self).registry.ids,
            outcome matches PollOutcome::Pending { self_woken } ==> {
                let s1 = if self_woken {
                    spec_on_wake(old(self).tasks[tid as int].state).0
                } else {
                    old(self).tasks[tid as int].state
                };
                &&& final(self).tasks[tid as int].state == spec_on_poll_pending(s1).0
                &&& r.requeued == spec_on_poll_pending(s1).1
                &&& r.requeued == (self_woken || old(self).tasks[tid as int].state.scheduled)
                &&& !r.woke_awaiter
                &&& r.requeued ==> final(self).queue@ == old(self).queue@.push(tid)
                &&& !r.requeued ==> final(self).queue@ == old(self).queue@
                &&& final(self).tasks[tid as int].output == old(self).tasks[tid as int].output
                &&& final(self).tasks[tid as int].panicked == old(self).tasks[tid as int].panicked
                &&& final(self).registry == old(self).registry
            },
            outcome matches PollOutcome::Ready { value } ==> {
                &&& final(self).tasks[tid as int].state == spec_on_poll_complete(
                    old(self).tasks[tid as int].state,
                ).0
                &&& final(self).tasks[tid as int].state.completed
                &&& old(self).tasks[tid as int].state.handle ==> final(self).tasks[tid as int].output == Some(value)
                &&& !old(self).tasks[tid as int].state.handle ==> final(self).tasks[tid as int].output is None
                &&& !final(self).tasks[tid as int].panicked
                &&& !r.requeued
                &&& r.woke_awaiter == old(self).tasks[tid as int].state.awaiter
                &&& final(self).queue@ == old(self).queue@
                &&& karx.forced() ==> final(self).registry.blocks[karx.index()].locals.cleared
            },
            outcome matches PollOutcome::Panicked ==> {
                &&& final(self).tasks[tid as int].state == spec_on_poll_complete(
                    old(self).tasks[tid as int].state,
                ).0
                &&& final(self).tasks[tid as int].state.completed
                &&& final(self).tasks[tid as int].output is None
                &&& final(self).tasks[tid as int].panicked
                &&& !r.requeued
                &&& r.woke_awaiter == old(self).tasks[tid as int].state.awaiter
                &&& final(self).queue@ == old(self).queue@
                &&& karx.forced() ==> final(self).registry.blocks[karx.index()].locals.cleared
            },
            forall|i: int|
                0 <= i < old(self).registry.blocks.len() && (!karx.forced() || i != karx.index())
                    ==> #[trigger] final(self).registry.blocks[i] == old(self).registry.blocks[i],
    {
        let ghost pre = *old(self);
        self.tasks[tid].karx = karx;
        let s = self.tasks[tid].state;
        match outcome {
            PollOutcome::Pending { self_woken } => {
                let s1 = if self_woken {
                    on_wake(s).0
                } else {
                    s
                };
                let (s2, requeue) = on_poll_pending(s1);
                self.tasks[tid].state = s2;
                if requeue {
                    self.queue.push(tid);
                }
                proof {
                    assert forall|i: int|
                        0 <= i < self.tasks.len() implies (#[trigger] self.tasks[i]).wf(
                        self.registry,
                    ) by {
                        assert(pre.tasks[i].wf(pre.registry));
                    }
                    if requeue {
                        assert forall|i: int, j: int|
                            0 <= i < j < self.queue.len() implies self.queue[i]
                            != self.queue[j] by {
                            if j == self.queue.len() - 1 {
                                assert(self.queue[i] == pre.queue[i]);
                                assert(!pre.tasks[pre.queue[i] as int].state.running);
                            }
                        }
                    }
                    assert forall|i: int|
                        0 <= i < self.queue.len() implies self.tasks[#[trigger] self.queue[i] as int].state.scheduled
                        && !self.tasks[self.queue[i] as int].state.running by {
                        if i < pre.queue.len() {
                            assert(pre.tasks[pre.queue[i] as int].state.scheduled);
                            assert(!pre.tasks[pre.queue[i] as int].state.running);
                        }
                    }
                }
                RunReport { requeued: requeue, woke_awaiter: false }
            },
            PollOutcome::Ready { value } => {
                let (s2, woke) = on_poll_complete(s);
                self.tasks[tid].state = s2;
                if self.tasks[tid].state.handle {
                    self.tasks[tid].output = Some(value);
                }
                karx.drop_locals(&mut self.registry);
                proof {
                    assert forall|i: int|
                        0 <= i < self.tasks.len() implies (#[trigger] self.tasks[i]).wf(
                        self.registry,
                    ) by {
                        assert(pre.tasks[i].wf(pre.registry));
                    }
                    assert forall|i: int|
                        0 <= i < self.queue.len() implies self.tasks[#[trigger] self.queue[i] as int].state.scheduled
                        && !self.tasks[self.queue[i] as int].state.running by {
                        assert(pre.tasks[pre.queue[i] as int].state.scheduled);
                        assert(!pre.tasks[pre.queue[i] as int].state.running);
                        assert(self.queue[i] != tid);
                    }
                }
                RunReport { requeued: false, woke_awaiter: woke }
            },
            PollOutcome::Panicked => {
                let (s2, woke) = on_poll_complete(s);
                self.tasks[tid].state = s2;
                self.tasks[tid].panicked = true;
                karx.drop_locals(&mut self.registry);
                proof {
                    assert forall|i: int|
                        0 <= i < self.tasks.len() implies (#[trigger] self.tasks[i]).wf(
                        self.registry,
                    ) by {
                        assert(pre.tasks[i].wf(pre.registry));
                    }
                    assert forall|i: int|
                        0 <= i < self.queue.len() implies self.tasks[#[trigger] self.queue[i] as int].state.scheduled
                        && !self.tasks[self.queue[i] as int].state.running by {
                        assert(pre.tasks[pre.queue[i] as int].state.scheduled);
                        assert(!pre.tasks[pre.queue[i] as int].state.running);
                        assert(self.queue[i] != tid);
                    }
                }
                RunReport { requeued: false, woke_awaiter: woke }
            },
        }
    }

    /// One poll of the join handle. Before completion it parks the caller
    /// as the awaiter and reports pending; a panicked task fails the
    /// await; a completed task yields its output exactly once, after which
    /// the cell has no observer left.
    pub fn join_poll(&mut self, j: &JoinKarx) -> (r: JoinWait<T>)
        requires
            old(self).wf(),
            j.tid < old(self).tasks.len(),
            old(self).tasks[j.tid as int].state.handle,
        ensures
            final(self).wf(),
            final(self).tasks.len() == old(self).tasks.len(),
            final(self).queue == old(self).queue,
            final(self).registry == old(self).registry,
            forall|i: int|
                0 <= i < old(self).tasks.len() && i != j.tid ==> #[trigger] final(self).tasks[i]
                    == old(self).tasks[i],
            final(self).tasks[j.tid as int].karx == old(self).tasks[j.tid as int].karx,
            final(self).tasks[j.tid as int].panicked == old(self).tasks[j.tid as int].panicked,
            final(self).tasks[j.tid as int] == join_cell(old(self).tasks[j.tid as int]).0,
            r == join_cell(old(self).tasks[j.tid as int]).1,
            !old(self).tasks[j.tid as int].state.completed ==> {
                &&& r is Pending
                &&& final(self).tasks[j.tid as int].state == spec_on_join_pending(
                    old(self).tasks[j.tid as int].state,
                )
                &&& final(self).tasks[j.tid as int].output == old(self).tasks[j.tid as int].output
            },
            old(self).tasks[j.tid as int].state.completed && old(self).tasks[j.tid as int].panicked
                ==> r is Failed && final(self).tasks[j.tid as int] == old(self).tasks[j.tid as int],
            old(self).tasks[j.tid as int].state.completed && !old(self).tasks[j.tid as int].panicked ==> {
                &&& r == (JoinWait::Ready { value: old(self).tasks[j.tid as int].output.unwrap() })
                &&& final(self).tasks[j.tid as int].state == spec_on_join_take(
                    old(self).tasks[j.tid as int].state,
                )
                &&& final(self).tasks[j.tid as int].output is None
            },
    {
        let ghost pre = *old(self);
        let tid = j.tid;
        let completed = self.tasks[tid].state.completed;
        let r = if !completed {
            let s = self.tasks[tid].state;
            self.tasks[tid].state = crate::state::TaskState { awaiter: true, ..s };
            JoinWait::Pending
        } else if self.tasks[tid].panicked {
            JoinWait::Failed
        } else {
            let s = self.tasks[tid].state;
            self.tasks[tid].state = crate::state::TaskState { handle: false, awaiter: false, ..s };
            let out = self.tasks[tid].output.take();
            JoinWait::Ready { value: out.unwrap() }
        };
        proof {
            assert forall|i: int| 0 <= i < self.tasks.len() implies (#[trigger] self.tasks[i]).wf(
                self.registry,
            ) by {
                assert(pre.tasks[i].wf(pre.registry));
            }
            assert forall|i: int|
                0 <= i < self.queue.len() implies self.tasks[#[trigger] self.queue[i] as int].state.scheduled
                && !self.tasks[self.queue[i] as int].state.running by {
                assert(pre.tasks[pre.queue[i] as int].state.scheduled);
                assert(!pre.tasks[pre.queue[i] as int].state.running);
            }
        }
        r
    }

    /// Drops the join handle: the task is detached, never stopped. A cell
    /// that is enqueued or mid-poll keeps going and completes naturally —
    /// its output, once produced, is simply discarded; only a suspended
    /// cell is closed, and enqueued once so the executor tears it down.
    /// Whatever output already existed is discarded now.
    pub fn detach(&mut self, j: JoinKarx) -> (enqueued: bool)
        requires
            old(self).wf(),
            j.tid < old(self).tasks.len(),
        ensures
            final(self).wf(),
            final(self).tasks.len() == old(self).tasks.len(),
            final(self).registry == old(self).registry,
            forall|i: int|
                0 <= i < old(self).tasks.len() && i != j.tid ==> #[trigger] final(self).tasks[i]
                    == old(self).tasks[i],
            final(self).tasks[j.tid as int].state == spec_on_handle_drop(
                old(self).tasks[j.tid as int].state,
            ).0,
            enqueued == spec_on_handle_drop(old(self).tasks[j.tid as int].state).1,
            final(self).tasks[j.tid as int] == detach_cell(old(self).tasks[j.tid as int]).0,
            enqueued == detach_cell(old(self).tasks[j.tid as int]).1,
            enqueued ==> final(self).queue@ == old(self).queue@.push(j.tid),
            !enqueued ==> final(self).queue@ == old(self).queue@,
            final(self).tasks[j.tid as int].output is None,
            final(self).tasks[j.tid as int].karx == old(self).tasks[j.tid as int].karx,
            final(self).tasks[j.tid as int].panicked == old(self).tasks[j.tid as int].panicked,
            !old(self).tasks[j.tid as int].state.closed ==> final(self).tasks[j.tid as int].state.closed == old(self).tasks[j.tid as int].state.idle(),
    {
        let ghost pre = *old(self);
        let tid = j.tid;
        let s = self.tasks[tid].state;
        let (s2, enqueue) = crate::state::on_handle_drop(s);
        self.tasks[tid].state = s2;
        self.tasks[tid].output = None;
        if enqueue {
            self.queue.push(tid);
        }
        proof {
            assert forall|i: int| 0 <= i < self.tasks.len() implies (#[trigger] self.tasks[i]).wf(
                self.registry,
            ) by {
                assert(pre.tasks[i].wf(pre.registry));
            }
            if enqueue {
                assert forall|i: int, j2: int|
                    0 <= i < j2 < self.queue.len() implies self.queue[i] != self.queue[j2] by {
                    if j2 == self.queue.len() - 1 {
                        assert(self.queue[i] == pre.queue[i]);
                        assert(pre.tasks[pre.queue[i] as int].state.scheduled);
                    }
                }
            }
            assert forall|i: int|
                0 <= i < self.queue.len() implies self.tasks[#[trigger] self.queue[i] as int].state.scheduled
                && !self.tasks[self.queue[i] as int].state.running by {
                if i < pre.queue.len() {
                    assert(pre.tasks[pre.queue[i] as int].state.scheduled);
                    assert(!pre.tasks[pre.queue[i] as int].state.running);
                }
            }
        }
        enqueue
    }
}

} // verus!
