//! Cooperative yielding: give the rest of the queue one turn.

use vstd::prelude::*;

use crate::cell::PollOutcome;

verus! {

/// The future behind `yield_now`. Its first poll wakes its own task
/// immediately — placing the cell back at the tail of the executor's FIFO
/// queue — and reports pending; its second poll is ready. Exactly one
/// requeue, so every other scheduled task gets one turn in between.
pub struct YieldNow {
    pub yielded: bool,
}

impl YieldNow {
    /// One poll of the yield future.
    pub fn poll(&mut self) -> (r: PollOutcome<()>)
        ensures
            final(self).yielded,
            !old(self).yielded ==> r == (PollOutcome::Pending::<()> { self_woken: true }),
            old(self).yielded ==> r == (PollOutcome::Ready::<()> { value: () }),
    {
        if !self.yielded {
            self.yielded = true;
            PollOutcome::Pending { self_woken: true }
        } else {
            PollOutcome::Ready { value: () }
        }
    }
}

/// Cooperatively gives up a timeslice: the returned future requeues its
/// task once and completes on the next poll.
pub fn yield_now() -> (y: YieldNow)
    ensures
        !y.yielded,
{
    YieldNow { yielded: false }
}

} // verus!
