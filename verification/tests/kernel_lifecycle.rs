//! The task lifecycle driven end to end through the kernel.

use karx::{
    yield_now, Builder, CurrentContext, JoinWait, Kernel, PollOutcome, RunStart, Runnable,
    YieldNow,
};

/// Drives `tid` through one dequeue-start-finish round with the given
/// outcome, panicking if the queue disagrees.
fn run_once(k: &mut Kernel<u64>, outcome: PollOutcome<u64>) -> usize {
    let tid = k.dequeue().expect("queue empty");
    let start = k.run_start(tid);
    assert_eq!(start, RunStart::Poll);
    let karx = k.tasks[tid].karx;
    k.run_finish(tid, outcome, karx);
    tid
}

#[test]
fn spawn_await_yields_value() {
    let mut k: Kernel<u64> = Kernel::new();
    let handle = karx::spawn(&mut k);
    let body_result: u64 = 1 + 2;
    let tid = run_once(&mut k, PollOutcome::Ready { value: body_result });
    assert_eq!(tid, handle.tid);
    match k.join_poll(&handle) {
        JoinWait::Ready { value } => assert_eq!(value, 3),
        _ => panic!("await did not yield the task's value"),
    }
}

#[test]
fn join_before_completion_is_pending_then_woken() {
    let mut k: Kernel<u64> = Kernel::new();
    let handle = karx::spawn(&mut k);
    assert!(matches!(k.join_poll(&handle), JoinWait::Pending));
    assert!(k.tasks[handle.tid].state.awaiter);
    let tid = k.dequeue().unwrap();
    assert_eq!(k.run_start(tid), RunStart::Poll);
    let karx = k.tasks[tid].karx;
    let report = k.run_finish(tid, PollOutcome::Ready { value: 7 }, karx);
    assert!(report.woke_awaiter);
    match k.join_poll(&handle) {
        JoinWait::Ready { value } => assert_eq!(value, 7),
        _ => panic!("completed task must yield its value"),
    }
}

#[test]
fn dropped_handle_never_stops_scheduled_work() {
    let mut k: Kernel<u64> = Kernel::new();
    let handle = karx::spawn(&mut k);
    let tid = handle.tid;
    // Drop the handle immediately, while the task is still enqueued.
    let teardown = k.detach(handle);
    assert!(!teardown);
    assert!(!k.tasks[tid].state.closed);
    // The task still runs to completion; a shared counter it increments
    // still gets incremented.
    let mut counter: u64 = 0;
    let got = k.dequeue().unwrap();
    assert_eq!(got, tid);
    assert_eq!(k.run_start(tid), RunStart::Poll);
    counter += 1; // the task body's effect happens during the poll
    let karx = k.tasks[tid].karx;
    k.run_finish(tid, PollOutcome::Ready { value: counter }, karx);
    assert_eq!(counter, 1);
    assert!(k.tasks[tid].state.completed);
    // ...but the result has no observer left.
    assert!(k.tasks[tid].output.is_none());
}

#[test]
fn detach_while_suspended_tears_down() {
    let mut k: Kernel<u64> = Kernel::new();
    let handle = karx::spawn(&mut k);
    let tid = handle.tid;
    let got = k.dequeue().unwrap();
    assert_eq!(got, tid);
    assert_eq!(k.run_start(tid), RunStart::Poll);
    let karx = k.tasks[tid].karx;
    let report = k.run_finish(tid, PollOutcome::Pending { self_woken: false }, karx);
    assert!(!report.requeued);
    // The task is now suspended; dropping the handle closes it and
    // enqueues it once for teardown.
    let teardown = k.detach(handle);
    assert!(teardown);
    assert!(k.tasks[tid].state.closed);
    let got = k.dequeue().unwrap();
    assert_eq!(got, tid);
    assert_eq!(k.run_start(tid), RunStart::Teardown);
    assert!(k.tasks[tid].state.closed);
    assert!(!k.tasks[tid].state.scheduled);
}

#[test]
fn panicked_task_fails_the_await() {
    let mut k: Kernel<u64> = Kernel::new();
    let handle = karx::spawn(&mut k);
    run_once(&mut k, PollOutcome::Panicked);
    assert!(k.tasks[handle.tid].panicked);
    assert!(matches!(k.join_poll(&handle), JoinWait::Failed));
    // Extra polls keep failing; they never hang or make up a value.
    assert!(matches!(k.join_poll(&handle), JoinWait::Failed));
}

#[test]
fn yield_round_completes_in_spawn_order() {
    let mut k: Kernel<u64> = Kernel::new();
    let mut handles = Vec::new();
    let mut yields: Vec<YieldNow> = Vec::new();
    for _ in 0..3 {
        handles.push(karx::spawn(&mut k));
        yields.push(yield_now());
    }
    assert_eq!(handles.iter().map(|h| h.tid).collect::<Vec<_>>(), vec![0, 1, 2]);
    // Drive the loop: each task's body polls its yield future once per
    // run; the first poll requeues the task, the second completes it.
    let mut completions: Vec<usize> = Vec::new();
    let mut counter: u64 = 0;
    while let Some(tid) = k.dequeue() {
        assert_eq!(k.run_start(tid), RunStart::Poll);
        let outcome = match yields[tid].poll() {
            PollOutcome::Pending { self_woken } => PollOutcome::Pending { self_woken },
            PollOutcome::Ready { value: () } => {
                counter += 1;
                PollOutcome::Ready { value: counter }
            }
            PollOutcome::Panicked => unreachable!(),
        };
        let karx = k.tasks[tid].karx;
        let report = k.run_finish(tid, outcome, karx);
        if k.tasks[tid].state.completed {
            assert!(!report.requeued);
            completions.push(tid);
        }
    }
    // FIFO fairness: completion order equals the original spawn order.
    assert_eq!(completions, vec![0, 1, 2]);
    assert_eq!(counter, 3);
}

#[test]
fn yield_now_requeues_exactly_once() {
    let mut y = yield_now();
    assert!(!y.yielded);
    match y.poll() {
        PollOutcome::Pending { self_woken } => assert!(self_woken),
        _ => panic!("first poll must be pending and self-woken"),
    }
    assert!(matches!(y.poll(), PollOutcome::Ready { value: () }));
    assert!(matches!(y.poll(), PollOutcome::Ready { value: () }));
}

#[test]
fn wake_is_coalesced_while_scheduled_and_while_running() {
    let mut k: Kernel<u64> = Kernel::new();
    let handle = karx::spawn(&mut k);
    let tid = handle.tid;
    // Already scheduled: a duplicate wake enqueues nothing.
    assert!(!k.wake(tid));
    assert_eq!(k.queue.len(), 1);
    // Mid-poll: a wake only marks the cell; the runner requeues it once.
    let got = k.dequeue().unwrap();
    assert_eq!(got, tid);
    assert_eq!(k.run_start(tid), RunStart::Poll);
    assert!(!k.wake(tid));
    assert!(!k.wake(tid));
    assert_eq!(k.queue.len(), 0);
    let karx = k.tasks[tid].karx;
    let report = k.run_finish(tid, PollOutcome::Pending { self_woken: false }, karx);
    assert!(report.requeued);
    assert_eq!(k.queue.len(), 1);
}

#[test]
fn wake_of_suspended_task_enqueues_once() {
    let mut k: Kernel<u64> = Kernel::new();
    let handle = karx::spawn(&mut k);
    let tid = handle.tid;
    run_once(&mut k, PollOutcome::Pending { self_woken: false });
    assert_eq!(k.queue.len(), 0);
    assert!(k.wake(tid));
    assert!(!k.wake(tid));
    assert_eq!(k.queue.len(), 1);
    let _ = handle;
}

#[test]
fn duplicate_run_start_is_a_silent_no_op() {
    let mut k: Kernel<u64> = Kernel::new();
    let handle = karx::spawn(&mut k);
    let tid = k.dequeue().unwrap();
    assert_eq!(k.run_start(tid), RunStart::Poll);
    assert_eq!(k.run_start(tid), RunStart::Busy);
    assert!(k.tasks[tid].state.running);
    let karx = k.tasks[tid].karx;
    k.run_finish(tid, PollOutcome::Ready { value: 5 }, karx);
    assert!(matches!(k.join_poll(&handle), JoinWait::Ready { value: 5 }));
}

#[test]
fn runnable_run_restores_the_context() {
    let mut k: Kernel<u64> = Kernel::new();
    let handle = karx::spawn(&mut k);
    let mut ctx = CurrentContext::new();
    let tid = k.dequeue().unwrap();
    let report = Runnable { tid }.run(&mut k, &mut ctx, PollOutcome::Ready { value: 9 });
    assert!(!report.requeued);
    assert!(ctx.current.is_none());
    assert!(matches!(k.join_poll(&handle), JoinWait::Ready { value: 9 }));
}

#[test]
fn builder_names_the_task() {
    let mut k: Kernel<u64> = Kernel::new();
    let b = Builder::new();
    assert!(b.name.is_none());
    let handle = Builder::new().name("worker".to_string()).spawn(&mut k);
    let mut karx = *handle.task(&k);
    let name = karx.name(&mut k.registry);
    assert_eq!(name, Some("worker".to_string()));
}

#[test]
fn block_enqueues_on_the_pool_queue_like_a_spawn() {
    let mut pool: Kernel<u64> = Kernel::new();
    let handle = karx::block(&mut pool);
    assert_eq!(pool.queue.len(), 1);
    let tid = pool.dequeue().unwrap();
    assert_eq!(tid, handle.tid);
    assert_eq!(pool.run_start(tid), RunStart::Poll);
    let karx = pool.tasks[tid].karx;
    pool.run_finish(tid, PollOutcome::Ready { value: 11 }, karx);
    assert!(matches!(pool.join_poll(&handle), JoinWait::Ready { value: 11 }));
}
