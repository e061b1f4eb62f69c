//! The blocking pool's sizing policy and the timer arithmetic.

use karx::{delay, delay_for, ms, Delay, Dur, PoolState, Round, WorkerStep};

#[test]
fn pool_starts_with_one_sleeper() {
    let p = PoolState::start();
    assert_eq!(p.sleeping, 1);
}

#[test]
fn last_sleeper_survives_a_timeout() {
    let mut p = PoolState::start();
    let step = p.on_timeout();
    assert_eq!(step, WorkerStep::KeepWaiting);
    assert_eq!(p.sleeping, 1);
}

#[test]
fn extra_sleeper_exits_on_timeout() {
    let mut p = PoolState { sleeping: 3 };
    assert_eq!(p.on_timeout(), WorkerStep::Exit);
    assert_eq!(p.sleeping, 2);
    assert_eq!(p.on_timeout(), WorkerStep::Exit);
    assert_eq!(p.sleeping, 1);
    assert_eq!(p.on_timeout(), WorkerStep::KeepWaiting);
    assert_eq!(p.sleeping, 1);
}

#[test]
fn dequeue_by_last_sleeper_starts_a_replacement() {
    let mut p = PoolState::start();
    // The single sleeper takes work: it must start a replacement, and the
    // pool grows — this is how worker count rises while submissions
    // outpace completions.
    assert!(p.on_dequeue());
    assert_eq!(p.sleeping, 1);
    // With spare sleepers no replacement is started.
    let mut p2 = PoolState { sleeping: 4 };
    assert!(!p2.on_dequeue());
    assert_eq!(p2.sleeping, 3);
}

#[test]
fn sleeper_count_never_settles_at_zero() {
    // Any storm of events leaves at least one sleeper standing.
    let mut p = PoolState::start();
    for round in 0..50u32 {
        match round % 3 {
            0 => {
                p.on_dequeue();
            }
            1 => {
                p.on_timeout();
            }
            _ => {
                p.after_batch();
            }
        }
        assert!(p.sleeping >= 1);
    }
}

#[test]
fn worker_exits_after_batch_if_someone_sleeps() {
    let mut p = PoolState { sleeping: 2 };
    assert_eq!(p.after_batch(), WorkerStep::Exit);
    assert_eq!(p.sleeping, 2);
    let mut p2 = PoolState { sleeping: 0 };
    assert_eq!(p2.after_batch(), WorkerStep::KeepWaiting);
    assert_eq!(p2.sleeping, 1);
}

#[test]
fn ms_rounds_and_saturates() {
    let d = Dur { secs: 1, nanos: 500_000 };
    assert_eq!(ms(d, Round::Up), 1001);
    assert_eq!(ms(d, Round::Down), 1000);

    let whole = Dur { secs: 2, nanos: 0 };
    assert_eq!(ms(whole, Round::Up), 2000);
    assert_eq!(ms(whole, Round::Down), 2000);

    let just_under = Dur { secs: 0, nanos: 999_999_999 };
    assert_eq!(ms(just_under, Round::Up), 1000);
    assert_eq!(ms(just_under, Round::Down), 999);

    let huge = Dur { secs: u64::MAX, nanos: 999_999_999 };
    assert_eq!(ms(huge, Round::Up), u64::MAX);
    assert_eq!(ms(huge, Round::Down), u64::MAX);

    let edge = Dur { secs: u64::MAX / 1000, nanos: 0 };
    assert_eq!(ms(edge, Round::Up), (u64::MAX / 1000) * 1000);
}

#[test]
fn delay_carries_its_deadline() {
    let d = delay(12_345);
    assert_eq!(d.deadline_ms, 12_345);
    assert!(!d.elapsed(12_344));
    assert!(d.elapsed(12_345));
    assert!(d.elapsed(12_346));
}

#[test]
fn delay_for_adds_rounded_up_and_saturates() {
    let d = delay_for(1_000, Dur { secs: 1, nanos: 1 });
    assert_eq!(d.deadline_ms, 1_000 + 1_001);

    let sat: Delay = delay_for(u64::MAX - 5, Dur { secs: 1, nanos: 0 });
    assert_eq!(sat.deadline_ms, u64::MAX);
}
