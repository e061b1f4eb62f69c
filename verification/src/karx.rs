//! The task handle: identity, optional name, and task-local storage.
//!
//! A `Karx` is the per-task tag that travels with a task cell. Its shared
//! inner block — id, name, locals — is allocated lazily: an unnamed handle
//! allocates nothing until the first access that needs the block. In the
//! running system the block sits behind an atomically published pointer
//! with a reference count; here the blocks live in a registry and a handle
//! holds the index of its block, so sharing and lazy publication are stated
//! as plain facts about the registry.

use vstd::prelude::*;

use crate::local::LocalsMap;

verus! {

/// No id above this is ever issued: the generator treats crossing the
/// halfway line of the id space as exhaustion and the process aborts
/// rather than reusing a wrapped-around id.
pub const MAX_KARX_ID: u64 = u64::MAX / 2;

/// A unique identifier for a karx, issued in increasing order from 1.
#[derive(Eq, PartialEq, Structural, Clone, Copy, Hash, Debug)]
pub struct KarxId(pub u64);

/// The process-wide id source. Every issued id is the counter's value at
/// the moment of issue, and the counter only grows — so ids are pairwise
/// distinct and strictly increasing in issuance order.
#[derive(Clone, Copy, PartialEq, Eq, Structural, Debug)]
pub struct IdCounter {
    pub next: u64,
}

impl IdCounter {
    /// Ids start at 1.
    pub fn new() -> (c: IdCounter)
        ensures
            c.next == 1,
    {
        IdCounter { next: 1 }
    }

    /// The counter has crossed the halfway line; issuing again would risk
    /// wraparound reuse, which the running system answers by aborting.
    pub open spec fn exhausted(self) -> bool {
        self.next > MAX_KARX_ID
    }
}

impl KarxId {
    /// Issues the next id. Exhaustion is excluded here because the running
    /// system aborts the process on it instead of returning.
    pub fn generate(c: &mut IdCounter) -> (id: KarxId)
        requires
            !old(c).exhausted(),
        ensures
            id.0 == old(c).next,
            id.0 <= MAX_KARX_ID,
            final(c).next == old(c).next + 1,
    {
        let id = KarxId(c.next);
        c.next = c.next + 1;
        id
    }

    /// Issues the next id, or reports exhaustion for the caller to abort on.
    pub fn try_generate(c: &mut IdCounter) -> (r: Option<KarxId>)
        ensures
            old(c).exhausted() ==> r is None && *final(c) == *old(c),
            !old(c).exhausted() ==> r == Some(KarxId(old(c).next)) && final(c).next == old(c).next
                + 1,
    {
        if c.next > MAX_KARX_ID {
            None
        } else {
            Some(KarxId::generate(c))
        }
    }

    /// The raw numeric value of the id.
    pub fn value(&self) -> (v: u64)
        ensures
            v == self.0,
    {
        self.0
    }
}

/// The ids a counter hands out over `n` successive issues.
pub open spec fn issued_ids(c: IdCounter, n: nat) -> Seq<u64> {
    Seq::new(n, |i: int| (c.next + i) as u64)
}

/// Ids issued one after another from one counter are strictly increasing
/// and therefore pairwise distinct — however many callers share the
/// counter, each issue observes and bumps it in one step, so no two
/// issues ever see the same value.
pub proof fn lemma_issued_ids_distinct(c: IdCounter, n: nat)
    requires
        c.next + n <= MAX_KARX_ID + 1,
    ensures
        forall|i: int, j: int|
            0 <= i < j < n ==> #[trigger] issued_ids(c, n)[i] < #[trigger] issued_ids(c, n)[j],
        forall|i: int, j: int|
            0 <= i < j < n ==> #[trigger] issued_ids(c, n)[i] != #[trigger] issued_ids(c, n)[j],
{
}

/// The shared inner block of one karx: its identity and its locals.
pub struct Inner {
    pub id: KarxId,
    pub name: Option<String>,
    pub locals: LocalsMap,
}

impl Inner {
    /// A fresh block under a newly issued id, with empty locals.
    pub fn new(c: &mut IdCounter, name: Option<String>) -> (inner: Inner)
        requires
            !old(c).exhausted(),
        ensures
            inner.id.0 == old(c).next,
            inner.name == name,
            inner.locals.entries@.len() == 0,
            !inner.locals.cleared,
            final(c).next == old(c).next + 1,
    {
        Inner { id: KarxId::generate(c), name, locals: LocalsMap::new() }
    }
}

/// Holds every allocated inner block. A block, once allocated, stays at
/// its index: handles that share a block keep seeing one another's writes.
pub struct KarxRegistry {
    pub blocks: Vec<Inner>,
    pub ids: IdCounter,
}

impl KarxRegistry {
    /// All block ids were issued by the counter and no two blocks share one.
    pub open spec fn wf(self) -> bool {
        &&& 1 <= self.ids.next
        &&& forall|i: int| 0 <= i < self.blocks.len() ==> #[trigger] self.blocks[i].id.0 < self.ids.next
        &&& forall|i: int, j: int|
            0 <= i < j < self.blocks.len() ==> #[trigger] self.blocks[i].id != #[trigger] self.blocks[j].id
    }

    /// Growth is monotone: old blocks keep their index, id and name (their
    /// locals may change), and the id counter never goes back.
    pub open spec fn extends(self, prev: KarxRegistry) -> bool {
        &&& prev.blocks.len() <= self.blocks.len()
        &&& forall|i: int|
            0 <= i < prev.blocks.len() ==> #[trigger] self.blocks[i].id == prev.blocks[i].id
                && self.blocks[i].name == prev.blocks[i].name
        &&& prev.ids.next <= self.ids.next
    }

    /// Every block that existed before is wholly untouched — id, name and
    /// locals alike. Holds after operations that only allocate.
    pub open spec fn preserves_blocks(self, prev: KarxRegistry) -> bool {
        forall|i: int| 0 <= i < prev.blocks.len() ==> #[trigger] self.blocks[i] == prev.blocks[i]
    }

    /// An empty registry with a fresh id counter.
    pub fn new() -> (reg: KarxRegistry)
        ensures
            reg.wf(),
            reg.blocks@.len() == 0,
            reg.ids.next == 1,
    {
        KarxRegistry { blocks: Vec::new(), ids: IdCounter::new() }
    }

    /// Allocates a fresh block and returns its index.
    pub fn allocate(&mut self, name: Option<String>) -> (slot: usize)
        requires
            old(self).wf(),
            !old(self).ids.exhausted(),
        ensures
            final(self).wf(),
            final(self).extends(*old(self)),
            final(self).preserves_blocks(*old(self)),
            slot == old(self).blocks.len(),
            final(self).blocks.len() == old(self).blocks.len() + 1,
            final(self).blocks[slot as int].id.0 == old(self).ids.next,
            final(self).blocks[slot as int].name == name,
            final(self).blocks[slot as int].locals.entries@.len() == 0,
            !final(self).blocks[slot as int].locals.cleared,
            final(self).ids.next == old(self).ids.next + 1,
    {
        let slot = self.blocks.len();
        let inner = Inner::new(&mut self.ids, name);
        self.blocks.push(inner);
        slot
    }
}

/// A handle to a karx. Copying the handle value models cloning: both
/// copies point at the same registry block once one is allocated. An
/// unnamed handle starts without a block (`slot` is `None`) and allocates
/// on first forced access.
#[derive(Clone, Copy, PartialEq, Eq, Structural, Debug)]
pub struct Karx {
    pub slot: Option<usize>,
}

impl Karx {
    /// The handle already points at a block.
    pub open spec fn forced(self) -> bool {
        self.slot is Some
    }

    /// The handle's block index, once forced.
    pub open spec fn index(self) -> int {
        self.slot.unwrap() as int
    }

    /// A forced handle points inside the registry.
    pub open spec fn wf(self, reg: KarxRegistry) -> bool {
        self.forced() ==> self.index() < reg.blocks.len()
    }

    /// Creates a handle. A named karx allocates its block eagerly — the
    /// name has to live somewhere; an unnamed one defers allocation.
    pub fn new(name: Option<String>, reg: &mut KarxRegistry) -> (k: Karx)
        requires
            old(reg).wf(),
            name is Some ==> !old(reg).ids.exhausted(),
        ensures
            final(reg).wf(),
            final(reg).extends(*old(reg)),
            final(reg).preserves_blocks(*old(reg)),
            k.wf(*final(reg)),
            name is None ==> k.slot is None && *final(reg) == *old(reg),
            name is Some ==> {
                &&& k.slot == Some(old(reg).blocks.len())
                &&& final(reg).blocks.len() == old(reg).blocks.len() + 1
                &&& final(reg).blocks[k.index()].id.0 == old(reg).ids.next
                &&& final(reg).blocks[k.index()].name == name
                &&& final(reg).blocks[k.index()].locals.entries@.len() == 0
                &&& !final(reg).blocks[k.index()].locals.cleared
            },
    {
        match name {
            None => Karx { slot: None },
            Some(n) => {
                let slot = reg.allocate(Some(n));
                Karx { slot: Some(slot) }
            },
        }
    }

    /// Forces the block to exist: allocates an unnamed block on first use.
    /// In the running system a racing second allocation is discarded in
    /// favour of the published one; with the registry the publication is a
    /// single step.
    pub fn force(&mut self, reg: &mut KarxRegistry)
        requires
            old(self).wf(*old(reg)),
            old(reg).wf(),
            !old(self).forced() ==> !old(reg).ids.exhausted(),
        ensures
            final(self).forced(),
            final(self).wf(*final(reg)),
            final(reg).wf(),
            final(reg).extends(*old(reg)),
            final(reg).preserves_blocks(*old(reg)),
            old(self).forced() ==> *final(self) == *old(self) && *final(reg) == *old(reg),
            !old(self).forced() ==> {
                &&& final(self).slot == Some(old(reg).blocks.len())
                &&& final(reg).blocks.len() == old(reg).blocks.len() + 1
                &&& final(reg).blocks[final(self).index()].id.0 == old(reg).ids.next
                &&& final(reg).blocks[final(self).index()].name is None
                &&& final(reg).blocks[final(self).index()].locals.entries@.len() == 0
                &&& !final(reg).blocks[final(self).index()].locals.cleared
            },
    {
        if self.slot.is_none() {
            let slot = reg.allocate(None);
            self.slot = Some(slot);
        }
    }

    /// The karx's unique identifier; forces allocation on first use.
    pub fn id(&mut self, reg: &mut KarxRegistry) -> (id: KarxId)
        requires
            old(self).wf(*old(reg)),
            old(reg).wf(),
            !old(self).forced() ==> !old(reg).ids.exhausted(),
        ensures
            final(self).forced(),
            final(self).wf(*final(reg)),
            final(reg).wf(),
            final(reg).extends(*old(reg)),
            final(reg).preserves_blocks(*old(reg)),
            id == final(reg).blocks[final(self).index()].id,
            old(self).forced() ==> *final(self) == *old(self) && *final(reg) == *old(reg),
            !old(self).forced() ==> final(self).slot == Some(old(reg).blocks.len())
                && final(reg).blocks.len() == old(reg).blocks.len() + 1,
    {
        self.force(reg);
        let slot = self.slot.unwrap();
        reg.blocks[slot].id
    }

    /// The karx's configured name, if any; forces allocation on first use.
    pub fn name(&mut self, reg: &mut KarxRegistry) -> (name: Option<String>)
        requires
            old(self).wf(*old(reg)),
            old(reg).wf(),
            !old(self).forced() ==> !old(reg).ids.exhausted(),
    ensures
            final(self).forced(),
            final(self).wf(*final(reg)),
            final(reg).wf(),
            final(reg).extends(*old(reg)),
            final(reg).preserves_blocks(*old(reg)),
            name == final(reg).blocks[final(self).index()].name,
            old(self).forced() ==> *final(self) == *old(self) && *final(reg) == *old(reg),
    {
        self.force(reg);
        let slot = self.slot.unwrap();
        match &reg.blocks[slot].name {
            None => None,
            Some(n) => Some(n.clone()),
        }
    }

    /// A second handle to the same karx. Forces allocation first, so both
    /// handles are guaranteed to share one block — this mirrors the clone
    /// discipline of the running system, where cloning before forcing
    /// would otherwise let the two handles allocate separate blocks.
    pub fn duplicate(&mut self, reg: &mut KarxRegistry) -> (k: Karx)
        requires
            old(self).wf(*old(reg)),
            old(reg).wf(),
            !old(self).forced() ==> !old(reg).ids.exhausted(),
        ensures
            final(self).forced(),
            final(self).wf(*final(reg)),
            final(reg).wf(),
            final(reg).extends(*old(reg)),
            final(reg).preserves_blocks(*old(reg)),
            k == *final(self),
            old(self).forced() ==> *final(self) == *old(self) && *final(reg) == *old(reg),
    {
        self.force(reg);
        Karx { slot: self.slot }
    }

    /// Read-only access to the karx's locals; the block must exist.
    pub(crate) fn locals<'a>(&self, reg: &'a KarxRegistry) -> (l: &'a LocalsMap)
        requires
            self.forced(),
            self.wf(*reg),
        ensures
            *l == reg.blocks[self.index()].locals,
    {
        let slot = self.slot.unwrap();
        &reg.blocks[slot].locals
    }

    /// Drops all karx-local values: the one-shot clear at the end of the
    /// task. A handle that never forced allocation has no locals and
    /// nothing happens. In the running system a panic while clearing
    /// aborts the process; the clear here is total and cannot fail.
    pub fn drop_locals(&self, reg: &mut KarxRegistry)
        requires
            self.wf(*old(reg)),
            old(reg).wf(),
        ensures
            final(reg).wf(),
            final(reg).extends(*old(reg)),
            final(reg).blocks.len() == old(reg).blocks.len(),
            final(reg).ids == old(reg).ids,
            self.forced() ==> {
                &&& final(reg).blocks[self.index()].locals.cleared
                &&& final(reg).blocks[self.index()].locals.entries@.len() == 0
                &&& final(reg).blocks[self.index()].id == old(reg).blocks[self.index()].id
                &&& final(reg).blocks[self.index()].name == old(reg).blocks[self.index()].name
            },
            forall|i: int|
                0 <= i < old(reg).blocks.len() && (!self.forced() || i != self.index())
                    ==> #[trigger] final(reg).blocks[i] == old(reg).blocks[i],
            !self.forced() ==> *final(reg) == *old(reg),
    {
        match self.slot {
            None => (),
            Some(slot) => {
                let block = &mut reg.blocks[slot];
                block.locals.clear();
            },
        }
    }
}

} // verus!
