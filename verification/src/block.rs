//! The blocking pool: submission and the worker sizing policy.
//!
//! Synchronous, possibly long-running work is offloaded to a dedicated
//! pool of worker threads so it never blocks the cooperative run-loop.
//! The pool breathes: one sleeping worker is always pre-started; a worker
//! that takes the last sleeper's place starts a replacement; a worker
//! whose wait times out exits unless it is the last sleeper; a worker
//! that finishes a batch exits if someone else already sleeps. The counts
//! those decisions read and write are modelled here exactly; the threads
//! and the channel that carry them run outside the library.

use vstd::prelude::*;

use crate::cell::TaskCell;
use crate::kernel::{JoinKarx, Kernel};

verus! {

/// What a worker does next.
#[derive(Clone, Copy, PartialEq, Eq, Structural, Debug)]
pub enum WorkerStep {
    /// Go (back) to waiting for work.
    KeepWaiting,
    /// Stop this worker thread.
    Exit,
}

/// An event in a worker's loop, as the sleeper count sees it.
#[derive(Clone, Copy, PartialEq, Eq, Structural, Debug)]
pub enum PoolEvent {
    /// A worker's wait for work timed out.
    Timeout,
    /// A worker dequeued a task and stops sleeping.
    Dequeue,
    /// A worker drained its batch and decides whether to sleep again.
    AfterBatch,
}

/// The count of sleeping workers after a wait timed out: the last sleeper
/// flips the count back up and keeps waiting, so the pool never loses its
/// standby; any other sleeper exits.
pub open spec fn spec_on_timeout(n: int) -> (int, WorkerStep) {
    if n <= 1 {
        (1, WorkerStep::KeepWaiting)
    } else {
        (n - 1, WorkerStep::Exit)
    }
}

/// The count after a worker dequeues work: the worker stops sleeping, and
/// if it was the last sleeper a fresh one is started so a standby is
/// always ready while work keeps arriving.
pub open spec fn spec_on_dequeue(n: int) -> (int, bool) {
    if n <= 1 {
        (1, true)
    } else {
        (n - 1, false)
    }
}

/// The count after a worker drains its batch: if another worker already
/// sleeps, this one exits rather than oversupplying idle threads;
/// otherwise it becomes the sleeper.
pub open spec fn spec_after_batch(n: int) -> (int, WorkerStep) {
    if n > 0 {
        (n, WorkerStep::Exit)
    } else {
        (1, WorkerStep::KeepWaiting)
    }
}

/// The sleeper count after one event.
pub open spec fn apply_pool_event(n: int, e: PoolEvent) -> int {
    match e {
        PoolEvent::Timeout => spec_on_timeout(n).0,
        PoolEvent::Dequeue => spec_on_dequeue(n).0,
        PoolEvent::AfterBatch => spec_after_batch(n).0,
    }
}

/// The sleeper count after a whole sequence of events.
pub open spec fn pool_run(n: int, evs: Seq<PoolEvent>) -> int
    decreases evs.len(),
{
    if evs.len() == 0 {
        n
    } else {
        pool_run(apply_pool_event(n, evs[0]), evs.drop_first())
    }
}

/// Under any sequence of worker events the sleeping-thread count never
/// reaches zero and stays: every decision that takes the last sleeper
/// away puts one back, so a submission always finds a standby within one
/// wait period.
pub proof fn lemma_pool_always_has_sleeper(n: int, evs: Seq<PoolEvent>)
    requires
        n >= 1,
    ensures
        pool_run(n, evs) >= 1,
    decreases evs.len(),
{
    if evs.len() > 0 {
        lemma_pool_always_has_sleeper(apply_pool_event(n, evs[0]), evs.drop_first());
    }
}

/// The sleeping-worker count of the blocking pool.
pub struct PoolState {
    pub sleeping: u64,
}

impl PoolState {
    /// A pool starts with one worker pre-started and waiting, so the
    /// first submission is picked up with no spawn latency.
    pub fn start() -> (p: PoolState)
        ensures
            p.sleeping == 1,
    {
        PoolState { sleeping: 1 }
    }

    /// A worker's wait timed out. In the running system the worker
    /// decrements the count and, if it was the last sleeper, flips it from
    /// zero back to one and keeps running.
    pub fn on_timeout(&mut self) -> (step: WorkerStep)
        requires
            old(self).sleeping >= 1,
        ensures
            final(self).sleeping as int == spec_on_timeout(old(self).sleeping as int).0,
            step == spec_on_timeout(old(self).sleeping as int).1,
            final(self).sleeping >= 1,
            step == WorkerStep::Exit <==> old(self).sleeping > 1,
    {
        if self.sleeping == 1 {
            WorkerStep::KeepWaiting
        } else {
            self.sleeping = self.sleeping - 1;
            WorkerStep::Exit
        }
    }

    /// A worker dequeued a task. It stops sleeping; `started` says whether
    /// it was the last sleeper and must start a replacement worker before
    /// it proceeds — this is how the pool grows while submissions arrive
    /// faster than completions.
    pub fn on_dequeue(&mut self) -> (started: bool)
        requires
            old(self).sleeping >= 1,
        ensures
            final(self).sleeping as int == spec_on_dequeue(old(self).sleeping as int).0,
            started == spec_on_dequeue(old(self).sleeping as int).1,
            started <==> old(self).sleeping == 1,
            final(self).sleeping >= 1,
    {
        if self.sleeping == 1 {
            true
        } else {
            self.sleeping = self.sleeping - 1;
            false
        }
    }

    /// A worker drained its batch of immediately available work and
    /// decides whether to sleep again or exit.
    pub fn after_batch(&mut self) -> (step: WorkerStep)
        ensures
            final(self).sleeping as int == spec_after_batch(old(self).sleeping as int).0,
            step == spec_after_batch(old(self).sleeping as int).1,
            final(self).sleeping >= 1,
    {
        if self.sleeping > 0 {
            WorkerStep::Exit
        } else {
            self.sleeping = 1;
            WorkerStep::KeepWaiting
        }
    }
}

/// Submits blocking work to the pool's queue: exactly an unnamed spawn
/// onto the pool's kernel, returning a join handle like any other task.
/// The closure itself runs to completion on a worker thread outside the
/// model; a panic inside it is contained at the task boundary like any
/// poll.
pub fn block<T>(pool: &mut Kernel<T>) -> (j: JoinKarx)
    requires
        old(pool).wf(),
    ensures
        final(pool).wf(),
        j.tid == old(pool).tasks.len(),
        !final(pool).tasks[j.tid as int].karx.forced(),
        final(pool).tasks@ == old(pool).tasks@.push(
            TaskCell::spawned(final(pool).tasks[j.tid as int].karx),
        ),
        final(pool).queue@ == old(pool).queue@.push(j.tid),
        final(pool).registry == old(pool).registry,
{
    crate::spawn::spawn(pool)
}

} // verus!
