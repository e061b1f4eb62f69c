//! Karx identity, lazy allocation, the current-task context, and
//! task-local storage.

use karx::{
    current, task_local_get, task_local_set, try_current, AccessError, CurrentContext, IdCounter,
    Karx, KarxId, KarxRegistry, Kernel, LocalKey, LocalsMap, PollOutcome, RunStart, MAX_KARX_ID,
};

#[test]
fn ids_are_distinct_and_strictly_increasing() {
    let mut c = IdCounter::new();
    let mut issued: Vec<u64> = Vec::new();
    for _ in 0..100 {
        issued.push(KarxId::generate(&mut c).value());
    }
    for i in 0..issued.len() {
        for j in (i + 1)..issued.len() {
            assert!(issued[i] < issued[j]);
            assert_ne!(issued[i], issued[j]);
        }
    }
    assert_eq!(issued[0], 1);
}

#[test]
fn ids_from_concurrent_spawns_are_distinct() {
    // Spawns racing on the one process-wide counter: whatever the
    // interleaving of named spawns across two kernels sharing nothing but
    // the model of the counter, each issue observes and bumps it once.
    let mut k: Kernel<u64> = Kernel::new();
    let a = k.spawn_task(Some("a".to_string()));
    let b = k.spawn_task(Some("b".to_string()));
    let mut ka = *a.task(&k);
    let mut kb = *b.task(&k);
    let ida = ka.id(&mut k.registry).value();
    let idb = kb.id(&mut k.registry).value();
    assert!(ida < idb);
    assert_ne!(ida, idb);
}

#[test]
fn id_generator_refuses_exhaustion() {
    let mut c = IdCounter { next: MAX_KARX_ID };
    let id = KarxId::try_generate(&mut c).expect("last id is still issuable");
    assert_eq!(id.value(), MAX_KARX_ID);
    assert!(KarxId::try_generate(&mut c).is_none());
    assert_eq!(c.next, MAX_KARX_ID + 1);
}

#[test]
fn unnamed_karx_allocates_lazily_and_clone_shares_the_block() {
    let mut reg = KarxRegistry::new();
    let mut k = Karx::new(None, &mut reg);
    assert!(k.slot.is_none());
    assert_eq!(reg.blocks.len(), 0);
    // First forced access allocates...
    let id = k.id(&mut reg);
    assert!(k.slot.is_some());
    assert_eq!(reg.blocks.len(), 1);
    // ...and a duplicate shares the very same block.
    let mut dup = k.duplicate(&mut reg);
    assert_eq!(dup.slot, k.slot);
    assert_eq!(reg.blocks.len(), 1);
    assert_eq!(dup.id(&mut reg).value(), id.value());
    assert_eq!(k.name(&mut reg), None);
}

#[test]
fn named_karx_allocates_eagerly() {
    let mut reg = KarxRegistry::new();
    let mut k = Karx::new(Some("driver".to_string()), &mut reg);
    assert!(k.slot.is_some());
    assert_eq!(reg.blocks.len(), 1);
    assert_eq!(k.name(&mut reg), Some("driver".to_string()));
}

#[test]
fn current_outside_any_task_is_none() {
    let mut ctx = CurrentContext::new();
    let mut reg = KarxRegistry::new();
    // The panicking `current` is unreachable here by contract; the total
    // variant answers None deterministically.
    assert!(try_current(&mut ctx, &mut reg).is_none());
}

#[test]
fn current_inside_a_task_is_that_task() {
    let mut reg = KarxRegistry::new();
    let mut k = Karx::new(Some("me".to_string()), &mut reg);
    let expected = k.id(&mut reg).value();
    let mut ctx = CurrentContext::new();
    let saved = ctx.enter(k);
    let mut me = current(&mut ctx, &mut reg);
    assert_eq!(me.id(&mut reg).value(), expected);
    let restored = ctx.exit(saved);
    assert_eq!(restored.slot, k.slot);
    assert!(ctx.current.is_none());
}

#[test]
fn locals_map_set_get_overwrite() {
    let mut m = LocalsMap::new();
    assert_eq!(m.get(1), Err(AccessError::NotSet));
    assert_eq!(m.set(1, 10), Ok(()));
    assert_eq!(m.set(2, 20), Ok(()));
    assert_eq!(m.get(1), Ok(10));
    assert_eq!(m.get(2), Ok(20));
    assert_eq!(m.set(1, 11), Ok(()));
    assert_eq!(m.get(1), Ok(11));
    assert_eq!(m.get(2), Ok(20));
    assert_eq!(m.get(3), Err(AccessError::NotSet));
}

#[test]
fn locals_map_clear_is_one_shot_and_final() {
    let mut m = LocalsMap::new();
    assert_eq!(m.set(5, 50), Ok(()));
    m.clear();
    assert!(m.cleared);
    assert_eq!(m.get(5), Err(AccessError::Cleared));
    assert_eq!(m.set(5, 51), Err(AccessError::Cleared));
    // Clearing again must not fail either.
    m.clear();
    assert_eq!(m.get(5), Err(AccessError::Cleared));
}

#[test]
fn task_locals_unreadable_outside_the_owning_task() {
    let mut k: Kernel<u64> = Kernel::new();
    let handle = karx::spawn(&mut k);
    let key = LocalKey { key: 7 };

    // The task body runs with its karx as current and writes a local.
    let tid = k.dequeue().unwrap();
    assert_eq!(k.run_start(tid), RunStart::Poll);
    let mut ctx = CurrentContext::new();
    let saved = ctx.enter(k.tasks[tid].karx);
    assert_eq!(task_local_set(&mut ctx, &mut k.registry, key, 99), Ok(()));
    assert_eq!(task_local_get(&ctx, &k.registry, key), Ok(99));
    let karx_back = ctx.exit(saved);
    k.run_finish(tid, PollOutcome::Pending { self_woken: false }, karx_back);

    // Outside any task context the value is unreachable.
    let outside = CurrentContext::new();
    assert_eq!(
        task_local_get(&outside, &k.registry, key),
        Err(AccessError::OutsideContext)
    );

    // Another task never sees it either: locals are per task.
    let other = karx::spawn(&mut k);
    let tid2 = other.tid;
    let mut ctx2 = CurrentContext::new();
    let saved2 = ctx2.enter(k.tasks[tid2].karx);
    assert_eq!(task_local_get(&ctx2, &k.registry, key), Err(AccessError::NotSet));
    let _ = ctx2.exit(saved2);
    let _ = handle;
}

#[test]
fn task_locals_unreadable_after_completion_even_with_handle_retained() {
    let mut k: Kernel<u64> = Kernel::new();
    let handle = karx::spawn(&mut k);
    let key = LocalKey { key: 3 };

    let tid = k.dequeue().unwrap();
    assert_eq!(k.run_start(tid), RunStart::Poll);
    let mut ctx = CurrentContext::new();
    let saved = ctx.enter(k.tasks[tid].karx);
    assert_eq!(task_local_set(&mut ctx, &mut k.registry, key, 1), Ok(()));
    let karx_back = ctx.exit(saved);
    // The completing poll clears the locals exactly once.
    k.run_finish(tid, PollOutcome::Ready { value: 8 }, karx_back);

    // The retained handle still shares the task's block — and reads the
    // cleared state, not a stale value.
    let retained = *handle.task(&k);
    assert!(k.registry.blocks[retained.slot.unwrap()].locals.cleared);
    let mut ctx2 = CurrentContext::new();
    let saved2 = ctx2.enter(retained);
    assert_eq!(task_local_get(&ctx2, &k.registry, key), Err(AccessError::Cleared));
    let _ = ctx2.exit(saved2);
}
