//! Deadlines for timed waits, on a millisecond clock.
//!
//! The core only needs an abstract "future that completes after a
//! deadline" from the timer subsystem. Instants and durations are carried
//! as plain values — milliseconds since the timer's epoch, and a seconds
//! plus sub-second nanoseconds pair — so the arithmetic that turns a
//! duration into a wheel slot is stated and checked exactly.

use vstd::prelude::*;

verus! {

pub const NANOS_PER_MILLI: u32 = 1_000_000;

pub const MILLIS_PER_SEC: u64 = 1_000;

/// A span of time: whole seconds plus sub-second nanoseconds, as the
/// standard duration type carries it.
#[derive(Clone, Copy, PartialEq, Eq, Structural, Debug)]
pub struct Dur {
    pub secs: u64,
    pub nanos: u32,
}

impl Dur {
    /// Sub-second nanoseconds stay below one second.
    pub open spec fn wf(self) -> bool {
        self.nanos < 1_000_000_000
    }
}

/// Which way sub-millisecond remainders go.
#[derive(Clone, Copy, PartialEq, Eq, Structural, Debug)]
pub enum Round {
    Up,
    Down,
}

/// The duration in milliseconds, rounded as asked and saturating at the
/// top of the range — u64::MAX milliseconds is many million years, so
/// saturation never loses a meaningful deadline.
pub open spec fn spec_ms(d: Dur, round: Round) -> int {
    let millis = match round {
        Round::Up => (d.nanos + NANOS_PER_MILLI - 1) / NANOS_PER_MILLI as int,
        Round::Down => d.nanos as int / NANOS_PER_MILLI as int,
    };
    let total = d.secs * MILLIS_PER_SEC + millis;
    if total > u64::MAX {
        u64::MAX as int
    } else {
        total
    }
}

/// Converts a duration to milliseconds, rounding sub-millisecond
/// remainders up or down and saturating at `u64::MAX`.
pub fn ms(d: Dur, round: Round) -> (r: u64)
    requires
        d.wf(),
    ensures
        r == spec_ms(d, round),
{
    let millis: u32 = match round {
        Round::Up => (d.nanos + NANOS_PER_MILLI - 1) / NANOS_PER_MILLI,
        Round::Down => d.nanos / NANOS_PER_MILLI,
    };
    if d.secs > u64::MAX / MILLIS_PER_SEC {
        u64::MAX
    } else {
        let base = d.secs * MILLIS_PER_SEC;
        if base > u64::MAX - millis as u64 {
            u64::MAX
        } else {
            base + millis as u64
        }
    }
}

/// A future that completes at a fixed instant, measured in milliseconds
/// on the timer's clock.
#[derive(Clone, Copy, PartialEq, Eq, Structural, Debug)]
pub struct Delay {
    pub deadline_ms: u64,
}

impl Delay {
    /// Whether the deadline has passed at instant `now`.
    pub fn elapsed(&self, now: u64) -> (b: bool)
        ensures
            b == (now >= self.deadline_ms),
    {
        now >= self.deadline_ms
    }
}

/// A future that completes at `deadline` (milliseconds on the timer's
/// clock).
pub fn delay(deadline: u64) -> (d: Delay)
    ensures
        d.deadline_ms == deadline,
{
    Delay { deadline_ms: deadline }
}

/// A future that completes `duration` from `now`: the deadline is `now`
/// plus the duration in milliseconds, rounded up, saturating at the top
/// of the clock.
pub fn delay_for(now: u64, duration: Dur) -> (d: Delay)
    requires
        duration.wf(),
    ensures
        spec_ms(duration, Round::Up) + now <= u64::MAX ==> d.deadline_ms == now + spec_ms(
            duration,
            Round::Up,
        ),
        spec_ms(duration, Round::Up) + now > u64::MAX ==> d.deadline_ms == u64::MAX,
{
    let m = ms(duration, Round::Up);
    if m > u64::MAX - now {
        Delay { deadline_ms: u64::MAX }
    } else {
        Delay { deadline_ms: now + m }
    }
}

} // verus!
