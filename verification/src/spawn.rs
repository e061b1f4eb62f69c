//! Spawning with the default settings.

use vstd::prelude::*;

use crate::builder::Builder;
use crate::cell::TaskCell;
use crate::kernel::{JoinKarx, Kernel};

verus! {

/// Spawns an unnamed task onto `k`: appends a fresh cell, enqueues it
/// exactly once, and returns immediately with its join handle. The
/// variant of the running system that confines the future to the calling
/// thread differs only in what it demands of the future, which stays
/// outside the model.
pub fn spawn<T>(k: &mut Kernel<T>) -> (j: JoinKarx)
    requires
        old(k).wf(),
    ensures
        final(k).wf(),
        j.tid == old(k).tasks.len(),
        !final(k).tasks[j.tid as int].karx.forced(),
        final(k).tasks@ == old(k).tasks@.push(
            TaskCell::spawned(final(k).tasks[j.tid as int].karx),
        ),
        final(k).queue@ == old(k).queue@.push(j.tid),
        final(k).registry == old(k).registry,
{
    Builder::new().spawn(k)
}

} // verus!
