//! The current-task context: who is executing on this thread right now.
//!
//! In the running system this is a thread-local pointer to the karx of the
//! task being polled, set for exactly the dynamic extent of one poll and
//! restored afterwards, whatever happens inside. Here the slot is an
//! explicit value that the executor threads through `enter`/`exit` pairs
//! around each poll; the contracts state the scoped discipline that the
//! pointer-swap-and-defer achieves.

use vstd::prelude::*;

use crate::karx::{Karx, KarxRegistry};
use crate::local::{AccessError, LocalKey};

verus! {

/// One thread's "who is executing now" slot.
pub struct CurrentContext {
    pub current: Option<Karx>,
}

impl CurrentContext {
    /// A thread that is not executing any task.
    pub fn new() -> (ctx: CurrentContext)
        ensures
            ctx.current is None,
    {
        CurrentContext { current: None }
    }

    /// Installs `karx` as the current task and hands back whatever was
    /// installed before, to be restored by the matching [`exit`]. The
    /// executor must pair the two around every poll — also on the panic
    /// path, which the running system covers with a deferred restore.
    ///
    /// [`exit`]: CurrentContext::exit
    pub fn enter(&mut self, karx: Karx) -> (saved: Option<Karx>)
        ensures
            final(self).current == Some(karx),
            saved == old(self).current,
    {
        let saved = self.current;
        self.current = Some(karx);
        saved
    }

    /// Restores the slot saved by the matching [`enter`] and returns the
    /// karx that was current — possibly forced in the meantime — so the
    /// executor can store it back into the task cell.
    ///
    /// [`enter`]: CurrentContext::enter
    pub fn exit(&mut self, saved: Option<Karx>) -> (karx: Karx)
        requires
            old(self).current is Some,
        ensures
            karx == old(self).current.unwrap(),
            final(self).current == saved,
    {
        let karx = self.current.unwrap();
        self.current = saved;
        karx
    }

    /// Every karx the context may hold points inside the registry.
    pub open spec fn wf(self, reg: KarxRegistry) -> bool {
        self.current matches Some(k) ==> k.wf(reg)
    }
}

/// A handle to the task executing on this context, or `None` when no task
/// is. The handle shares the current task's block, so allocation is forced
/// first.
pub fn try_current(ctx: &mut CurrentContext, reg: &mut KarxRegistry) -> (r: Option<Karx>)
    requires
        old(ctx).wf(*old(reg)),
        old(reg).wf(),
        (old(ctx).current matches Some(k) && !k.forced()) ==> !old(reg).ids.exhausted(),
    ensures
        final(reg).wf(),
        final(reg).extends(*old(reg)),
        final(ctx).wf(*final(reg)),
        old(ctx).current is None ==> r is None && *final(ctx) == *old(ctx) && *final(reg) == *old(
            reg,
        ),
        old(ctx).current is Some ==> {
            &&& r == final(ctx).current
            &&& final(ctx).current is Some
            &&& final(ctx).current.unwrap().forced()
            &&& old(ctx).current.unwrap().forced() ==> *final(ctx) == *old(ctx) && *final(reg)
                == *old(reg)
        },
{
    match &mut ctx.current {
        None => None,
        Some(k) => {
            let dup = k.duplicate(reg);
            Some(dup)
        },
    }
}

/// A handle to the task executing on this context. Calling it from a
/// thread that is not running any task is a programmer error: the running
/// system panics there, so that case is excluded here — [`try_current`]
/// is the total variant.
pub fn current(ctx: &mut CurrentContext, reg: &mut KarxRegistry) -> (k: Karx)
    requires
        old(ctx).current is Some,
        old(ctx).wf(*old(reg)),
        old(reg).wf(),
        !old(ctx).current.unwrap().forced() ==> !old(reg).ids.exhausted(),
    ensures
        final(reg).wf(),
        final(reg).extends(*old(reg)),
        final(ctx).wf(*final(reg)),
        final(ctx).current is Some,
        k == final(ctx).current.unwrap(),
        k.forced(),
        k.wf(*final(reg)),
        old(ctx).current.unwrap().forced() ==> *final(ctx) == *old(ctx) && *final(reg) == *old(
            reg,
        ) && k == old(ctx).current.unwrap(),
{
    let r = try_current(ctx, reg);
    r.unwrap()
}

/// Reads the task-local slot `key` of the task currently executing on
/// `ctx`. Exactly one of three things happens: no task is current and the
/// access fails as outside any context; the current task's locals were
/// already cleared and the access fails as cleared; otherwise the value is
/// returned if the task ever wrote that slot, and the access fails as not
/// set if it did not. A task that never touched its locals has no block or
/// an empty map — both read as not set.
pub fn task_local_get(ctx: &CurrentContext, reg: &KarxRegistry, key: LocalKey) -> (r: Result<
    u64,
    AccessError,
>)
    requires
        ctx.wf(*reg),
    ensures
        ctx.current is None ==> r == Err::<u64, AccessError>(AccessError::OutsideContext),
        ctx.current matches Some(k) ==> {
            &&& !k.forced() ==> r == Err::<u64, AccessError>(AccessError::NotSet)
            &&& k.forced() && reg.blocks[k.index()].locals.cleared ==> r == Err::<
                u64,
                AccessError,
            >(AccessError::Cleared)
            &&& k.forced() && !reg.blocks[k.index()].locals.cleared ==> {
                let looked = crate::local::lookup(reg.blocks[k.index()].locals.entries@, key.key);
                &&& looked is None ==> r == Err::<u64, AccessError>(AccessError::NotSet)
                &&& looked is Some ==> r == Ok::<u64, AccessError>(looked.unwrap())
            }
        },
{
    match &ctx.current {
        None => Err(AccessError::OutsideContext),
        Some(k) => match k.slot {
            None => Err(AccessError::NotSet),
            Some(_) => {
                let locals = k.locals(reg);
                locals.get(key.key)
            },
        },
    }
}

/// Writes `value` into the task-local slot `key` of the task currently
/// executing on `ctx`, forcing the task's block to exist first. Fails
/// outside any task context, and after the owning task's locals were
/// cleared; on success every other slot keeps its value.
pub fn task_local_set(ctx: &mut CurrentContext, reg: &mut KarxRegistry, key: LocalKey, value: u64) -> (r: Result<(), AccessError>)
    requires
        old(ctx).wf(*old(reg)),
        old(reg).wf(),
        (old(ctx).current matches Some(k) && !k.forced()) ==> !old(reg).ids.exhausted(),
    ensures
        final(reg).wf(),
        final(reg).extends(*old(reg)),
        final(ctx).wf(*final(reg)),
        old(ctx).current is None ==> r == Err::<(), AccessError>(AccessError::OutsideContext)
            && *final(ctx) == *old(ctx) && *final(reg) == *old(reg),
        old(ctx).current is Some ==> {
            let k0 = old(ctx).current.unwrap();
            let k = final(ctx).current.unwrap();
            let was_cleared = k0.forced() && old(reg).blocks[k0.index()].locals.cleared;
            &&& final(ctx).current is Some
            &&& k.forced()
            &&& k.wf(*final(reg))
            &&& k0.forced() ==> k == k0 && final(reg).blocks.len() == old(reg).blocks.len()
                && final(reg).ids == old(reg).ids
            &&& was_cleared ==> r == Err::<(), AccessError>(AccessError::Cleared)
                && final(reg).blocks[k.index()] == old(reg).blocks[k.index()]
            &&& !was_cleared ==> {
                &&& r == Ok::<(), AccessError>(())
                &&& !final(reg).blocks[k.index()].locals.cleared
                &&& crate::local::lookup(final(reg).blocks[k.index()].locals.entries@, key.key)
                    == Some(value)
                &&& forall|k2: u64|
                    k2 != key.key ==> #[trigger] crate::local::lookup(
                        final(reg).blocks[k.index()].locals.entries@,
                        k2,
                    ) == if k0.forced() {
                        crate::local::lookup(old(reg).blocks[k.index()].locals.entries@, k2)
                    } else {
                        None::<u64>
                    }
            }
            &&& forall|i: int|
                0 <= i < old(reg).blocks.len() && i != k.index()
                    ==> #[trigger] final(reg).blocks[i] == old(reg).blocks[i]
        },
{
    match &mut ctx.current {
        None => Err(AccessError::OutsideContext),
        Some(k) => {
            k.force(reg);
            let ghost mid = *reg;
            let slot = k.slot.unwrap();
            let block = &mut reg.blocks[slot];
            let r = block.locals.set(key.key, value);
            proof {
                assert forall|i: int|
                    0 <= i < old(reg).blocks.len() && i != slot implies #[trigger] reg.blocks[i]
                    == old(reg).blocks[i] by {
                    assert(reg.blocks@[i] == mid.blocks@[i]);
                    assert(mid.blocks@[i] == old(reg).blocks@[i]);
                }
                assert(reg.wf());
                assert(reg.extends(*old(reg)));
            }
            r
        },
    }
}

} // verus!
