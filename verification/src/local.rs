//! Task-local storage: a per-task key→value store with a one-shot clear.
//!
//! Every task owns one [`LocalsMap`]. Values are written during the task's
//! own polls and the whole map is cleared exactly once, when the task's
//! future finishes — by value, by panic, or by teardown after detachment.
//! After the clear nothing can be read back: every access reports the
//! error kind instead of a stale value.

use vstd::prelude::*;

verus! {

/// Names one task-local slot.
#[derive(Clone, Copy, PartialEq, Eq, Structural, Debug)]
pub struct LocalKey {
    pub key: u64,
}

/// Why a task-local access failed.
#[derive(Clone, Copy, PartialEq, Eq, Structural, Debug)]
pub enum AccessError {
    /// No task is executing on this context.
    OutsideContext,
    /// The owning task finished and its locals were cleared.
    Cleared,
    /// The slot was never written in the owning task.
    NotSet,
}

/// The key→value store of one task. First match wins on lookup, so the
/// entries behave as a map whatever their order.
pub struct LocalsMap {
    pub entries: Vec<(u64, u64)>,
    pub cleared: bool,
}

/// The value under `k` in the entry list: the first entry with that key.
pub open spec fn lookup(s: Seq<(u64, u64)>, k: u64) -> Option<u64>
    decreases s.len(),
{
    if s.len() == 0 {
        None
    } else if s[0].0 == k {
        Some(s[0].1)
    } else {
        lookup(s.drop_first(), k)
    }
}

/// Replacing the first entry that holds `key` keeps every other key's value
/// and makes `key` map to `value`.
proof fn lemma_lookup_update(s: Seq<(u64, u64)>, i: int, key: u64, value: u64)
    requires
        0 <= i < s.len(),
        s[i].0 == key,
        forall|j: int| 0 <= j < i ==> s[j].0 != key,
    ensures
        lookup(s.update(i, (key, value)), key) == Some(value),
        forall|k2: u64| k2 != key ==> lookup(s.update(i, (key, value)), k2) == lookup(s, k2),
    decreases i,
{
    let t = s.update(i, (key, value));
    if i == 0 {
        assert(t.drop_first() =~= s.drop_first());
        assert forall|k2: u64| k2 != key implies lookup(t, k2) == lookup(s, k2) by {
            assert(lookup(t, k2) == lookup(t.drop_first(), k2));
            assert(lookup(s, k2) == lookup(s.drop_first(), k2));
        }
    } else {
        assert(t[0] == s[0]);
        assert(t.drop_first() =~= s.drop_first().update(i - 1, (key, value)));
        lemma_lookup_update(s.drop_first(), i - 1, key, value);
        assert forall|k2: u64| k2 != key implies lookup(t, k2) == lookup(s, k2) by {
            if s[0].0 != k2 {
                assert(lookup(t, k2) == lookup(t.drop_first(), k2));
                assert(lookup(s, k2) == lookup(s.drop_first(), k2));
            }
        }
    }
}

/// Appending a fresh key leaves every other key's value alone and makes the
/// fresh key map to the appended value.
proof fn lemma_lookup_push(s: Seq<(u64, u64)>, key: u64, value: u64)
    requires
        forall|j: int| 0 <= j < s.len() ==> s[j].0 != key,
    ensures
        lookup(s.push((key, value)), key) == Some(value),
        forall|k2: u64| k2 != key ==> lookup(s.push((key, value)), k2) == lookup(s, k2),
    decreases s.len(),
{
    let t = s.push((key, value));
    if s.len() == 0 {
        assert(t[0] == (key, value));
        assert(t.drop_first() =~= Seq::<(u64, u64)>::empty());
        assert forall|k2: u64| k2 != key implies lookup(t, k2) == lookup(s, k2) by {
            assert(lookup(t, k2) == lookup(t.drop_first(), k2));
        }
    } else {
        assert(t[0] == s[0]);
        assert(t.drop_first() =~= s.drop_first().push((key, value)));
        lemma_lookup_push(s.drop_first(), key, value);
        assert forall|k2: u64| k2 != key implies lookup(t, k2) == lookup(s, k2) by {
            if s[0].0 != k2 {
                assert(lookup(t, k2) == lookup(t.drop_first(), k2));
                assert(lookup(s, k2) == lookup(s.drop_first(), k2));
            }
        }
    }
}

/// A key that no entry holds looks up to nothing.
proof fn lemma_lookup_absent(s: Seq<(u64, u64)>, key: u64)
    requires
        forall|j: int| 0 <= j < s.len() ==> s[j].0 != key,
    ensures
        lookup(s, key) is None,
    decreases s.len(),
{
    if s.len() > 0 {
        lemma_lookup_absent(s.drop_first(), key);
    }
}

impl LocalsMap {
    /// A fresh, empty, uncleared store.
    pub fn new() -> (m: LocalsMap)
        ensures
            m.entries@.len() == 0,
            !m.cleared,
    {
        LocalsMap { entries: Vec::new(), cleared: false }
    }

    /// Reads the value under `key`, or says exactly why there is none.
    pub fn get(&self, key: u64) -> (r: Result<u64, AccessError>)
        ensures
            self.cleared ==> r == Err::<u64, AccessError>(AccessError::Cleared),
            !self.cleared && lookup(self.entries@, key) is None ==> r == Err::<u64, AccessError>(
                AccessError::NotSet,
            ),
            !self.cleared && lookup(self.entries@, key) is Some ==> r == Ok::<u64, AccessError>(
                lookup(self.entries@, key).unwrap(),
            ),
    {
        if self.cleared {
            return Err(AccessError::Cleared);
        }
        let n = self.entries.len();
        proof {
            assert(self.entries@.skip(0) =~= self.entries@);
        }
        for i in 0..n
            invariant
                n == self.entries.len(),
                !self.cleared,
                forall|j: int| 0 <= j < i ==> self.entries@[j].0 != key,
                lookup(self.entries@, key) == lookup(self.entries@.skip(i as int), key),
        {
            let (k, v) = self.entries[i];
            if k == key {
                assert(self.entries@.skip(i as int)[0] == self.entries@[i as int]);
                return Ok(v);
            }
            proof {
                assert(self.entries@.skip(i as int).drop_first() =~= self.entries@.skip(
                    i as int + 1,
                ));
            }
        }
        proof {
            assert(self.entries@.skip(n as int) =~= Seq::<(u64, u64)>::empty());
        }
        Err(AccessError::NotSet)
    }

    /// Writes `value` under `key`. Fails only after the one-shot clear;
    /// otherwise the store keeps every other key's value.
    pub fn set(&mut self, key: u64, value: u64) -> (r: Result<(), AccessError>)
        ensures
            old(self).cleared ==> r == Err::<(), AccessError>(AccessError::Cleared) && *final(self)
                == *old(self),
            !old(self).cleared ==> {
                &&& r == Ok::<(), AccessError>(())
                &&& !final(self).cleared
                &&& lookup(final(self).entries@, key) == Some(value)
                &&& forall|k2: u64|
                    k2 != key ==> lookup(final(self).entries@, k2) == lookup(
                        old(self).entries@,
                        k2,
                    )
            },
    {
        if self.cleared {
            return Err(AccessError::Cleared);
        }
        let n = self.entries.len();
        for i in 0..n
            invariant
                n == self.entries.len(),
                self.entries == old(self).entries,
                self.cleared == old(self).cleared,
                !self.cleared,
                forall|j: int| 0 <= j < i ==> self.entries@[j].0 != key,
        {
            let (k, _) = self.entries[i];
            if k == key {
                self.entries.set(i, (key, value));
                proof {
                    lemma_lookup_update(old(self).entries@, i as int, key, value);
                }
                return Ok(());
            }
        }
        self.entries.push((key, value));
        proof {
            lemma_lookup_push(old(self).entries@, key, value);
        }
        Ok(())
    }

    /// The one-shot clear: empties the store and marks it. Total and
    /// idempotent — clearing must never itself fail.
    pub fn clear(&mut self)
        ensures
            final(self).cleared,
            final(self).entries@.len() == 0,
    {
        self.entries.clear();
        self.cleared = true;
    }
}

} // verus!
