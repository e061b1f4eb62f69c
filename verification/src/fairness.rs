//! FIFO fairness of the run-loop's queue.
//!
//! The executor's queue is strict FIFO: `dequeue` takes the head, every
//! (re)enqueue appends at the tail. One step of the executor either
//! completes the head task (the queue loses its head — what `dequeue`
//! plus a completing `run_finish` do) or requeues it after a yield (the
//! head moves to the tail with one poll spent — what `dequeue` plus
//! `run_start` plus a pending, self-woken `run_finish` do). The theorems
//! here are about that step function.

use vstd::prelude::*;

verus! {

/// Every queued task still needs at least one poll; the last poll
/// completes it.
pub open spec fn wf_queue(q: Seq<(nat, nat)>) -> bool {
    forall|i: int| 0 <= i < q.len() ==> (#[trigger] q[i]).1 >= 1
}

/// How many polls the whole queue still needs.
pub open spec fn total_polls(q: Seq<(nat, nat)>) -> nat
    decreases q.len(),
{
    if q.len() == 0 {
        0
    } else {
        q[0].1 + total_polls(q.drop_first())
    }
}

/// The task ids of the queue, in queue order.
pub open spec fn task_ids(q: Seq<(nat, nat)>) -> Seq<nat> {
    q.map_values(|p: (nat, nat)| p.0)
}

/// The order in which a FIFO executor completes the queued tasks, given
/// how many polls each still needs: the head either completes now (its
/// last poll) or goes to the tail with one poll spent.
pub open spec fn completion_order(q: Seq<(nat, nat)>) -> Seq<nat>
    decreases total_polls(q),
        when wf_queue(q)
        via completion_order_decreases
{
    if q.len() == 0 {
        Seq::empty()
    } else {
        let t = q[0].0;
        let k = q[0].1;
        if k <= 1 {
            seq![t] + completion_order(q.drop_first())
        } else {
            completion_order(q.drop_first().push((t, (k - 1) as nat)))
        }
    }
}

#[via_fn]
proof fn completion_order_decreases(q: Seq<(nat, nat)>) {
    if q.len() > 0 {
        let t = q[0].0;
        let k = q[0].1;
        if k > 1 {
            lemma_total_polls_push(q.drop_first(), (t, (k - 1) as nat));
        }
    }
}

/// Appending an entry adds its polls to the total.
proof fn lemma_total_polls_push(s: Seq<(nat, nat)>, p: (nat, nat))
    ensures
        total_polls(s.push(p)) == total_polls(s) + p.1,
    decreases s.len(),
{
    if s.len() == 0 {
        assert(s.push(p)[0] == p);
        assert(total_polls(s.push(p).drop_first()) == 0);
    } else {
        assert(s.push(p)[0] == s[0]);
        assert(s.push(p).drop_first() =~= s.drop_first().push(p));
        lemma_total_polls_push(s.drop_first(), p);
    }
}

/// A queue of tasks that each need exactly one more poll completes in
/// queue order — plain FIFO.
proof fn lemma_completion_all_ones(q: Seq<(nat, nat)>)
    requires
        forall|i: int| 0 <= i < q.len() ==> (#[trigger] q[i]).1 == 1,
    ensures
        completion_order(q) == task_ids(q),
    decreases q.len(),
{
    if q.len() == 0 {
        assert(task_ids(q) =~= Seq::<nat>::empty());
    } else {
        lemma_completion_all_ones(q.drop_first());
        assert(task_ids(q.drop_first()) =~= task_ids(q).drop_first());
        assert(seq![q[0].0] + task_ids(q).drop_first() =~= task_ids(q));
    }
}

/// The two-phase picture of a round of yields: a front segment of tasks
/// that will each yield once (two polls left) ahead of a back segment of
/// already-yielded tasks (one poll left) completes back segment first,
/// then the front segment, each in its own order.
proof fn lemma_completion_two_phase(a: Seq<(nat, nat)>, c: Seq<(nat, nat)>)
    requires
        forall|i: int| 0 <= i < a.len() ==> (#[trigger] a[i]).1 == 2,
        forall|i: int| 0 <= i < c.len() ==> (#[trigger] c[i]).1 == 1,
    ensures
        completion_order(a + c) == task_ids(c) + task_ids(a),
    decreases a.len(),
{
    if a.len() == 0 {
        assert(a + c =~= c);
        lemma_completion_all_ones(c);
        assert(task_ids(c) + task_ids(a) =~= task_ids(c));
    } else {
        let t = a[0].0;
        let c2 = c.push((t, 1 as nat));
        assert((a + c)[0] == a[0]);
        assert((a + c).drop_first().push((t, 1 as nat)) =~= a.drop_first() + c2);
        assert(forall|i: int| 0 <= i < c2.len() ==> (#[trigger] c2[i]).1 == 1);
        lemma_completion_two_phase(a.drop_first(), c2);
        assert(wf_queue(a + c));
        assert(completion_order(a + c) == completion_order(a.drop_first() + c2));
        assert(task_ids(c2) =~= task_ids(c).push(t));
        assert(task_ids(a.drop_first()) =~= task_ids(a).drop_first());
        assert(task_ids(c).push(t) + task_ids(a).drop_first() =~= task_ids(c) + task_ids(a));
    }
}

/// FIFO fairness under one yield each: tasks that are scheduled in some
/// order, each yield exactly once (their first poll requeues them, their
/// second completes them), complete in exactly the order they were
/// originally scheduled.
pub proof fn lemma_yield_round_is_fifo(q: Seq<(nat, nat)>)
    requires
        forall|i: int| 0 <= i < q.len() ==> (#[trigger] q[i]).1 == 2,
    ensures
        completion_order(q) == task_ids(q),
{
    let c = Seq::<(nat, nat)>::empty();
    lemma_completion_two_phase(q, c);
    assert(q + c =~= q);
    assert(task_ids(c) + task_ids(q) =~= task_ids(q));
}

/// Plain FIFO completion for tasks that never yield: one poll each,
/// completion order is schedule order.
pub proof fn lemma_run_to_completion_is_fifo(q: Seq<(nat, nat)>)
    requires
        forall|i: int| 0 <= i < q.len() ==> (#[trigger] q[i]).1 == 1,
    ensures
        completion_order(q) == task_ids(q),
{
    lemma_completion_all_ones(q);
}

} // verus!
