//! How long the start takes.
//!
//! All marks are on one clock, which the first of them starts if nothing else
//! has.

use vstd::prelude::*;

verus! {

/// Nanoseconds in a millisecond.
pub const NANOS_PER_MILLI: u128 = 1_000_000;

/// When the program started, in nanoseconds of a clock that never goes back.
#[derive(Clone, Copy, Debug, PartialEq, Eq, Structural)]
pub struct StartupClock {
    pub started: Option<u128>,
}

/// A mark on the clock.
#[derive(Clone, Copy, Debug, PartialEq, Eq)]
pub struct Milestone {
    pub name: &'static str,
    pub elapsed_ms: u128,
}

impl StartupClock {
    /// The clock once it was read at `now`: it runs since then at the latest.
    pub open spec fn running(self, now: u128) -> StartupClock {
        StartupClock {
            started: Some(
                match self.started {
                    Some(started) => started,
                    None => now,
                },
            ),
        }
    }

    /// Whole milliseconds on the clock at `now`.
    pub open spec fn reading(self, now: u128) -> u128 {
        match self.started {
            Some(started) => if now >= started {
                ((now - started) / NANOS_PER_MILLI as int) as u128
            } else {
                0
            },
            None => 0,
        }
    }

    /// A clock that does not run yet.
    pub fn stopped() -> (clock: StartupClock)
        ensures
            clock.started is None,
    {
        StartupClock { started: None }
    }
}

/// Starts the clock, unless it runs already.
pub fn start(clock: &mut StartupClock, now: u128)
    ensures
        *final(clock) == old(clock).running(now),
{
    if clock.started.is_none() {
        clock.started = Some(now);
    }
}

/// Milliseconds since the clock was started, which it is at the latest now.
pub fn elapsed_ms(clock: &mut StartupClock, now: u128) -> (elapsed: u128)
    ensures
        *final(clock) == old(clock).running(now),
        elapsed == old(clock).reading(now),
{
    let started: u128 = match clock.started {
        Some(started) => started,
        None => now,
    };
    clock.started = Some(started);
    if now >= started {
        (now - started) / NANOS_PER_MILLI
    } else {
        0
    }
}

/// Marks a milestone.
pub fn milestone(clock: &mut StartupClock, name: &'static str, now: u128) -> (mark: Milestone)
    ensures
        *final(clock) == old(clock).running(now),
        mark == (Milestone { name, elapsed_ms: old(clock).reading(now) }),
{
    Milestone { name, elapsed_ms: elapsed_ms(clock, now) }
}

/// Marks a milestone the first time that it is reached.
pub fn milestone_once(
    clock: &mut StartupClock,
    name: &'static str,
    emitted: &mut bool,
    now: u128,
) -> (mark: Option<Milestone>)
    ensures
        *final(emitted),
        if *old(emitted) {
            mark is None && *final(clock) == *old(clock)
        } else {
            &&& *final(clock) == old(clock).running(now)
            &&& mark == Some(Milestone { name, elapsed_ms: old(clock).reading(now) })
        },
{
    if *emitted {
        return None;
    }
    *emitted = true;
    Some(milestone(clock, name, now))
}

/// A clock that runs is not started again, and its later readings are never
/// less than its earlier ones.
pub proof fn law_one_timeline(clock: StartupClock, earlier: u128, later: u128)
    requires
        earlier <= later,
    ensures
        clock.running(earlier).running(later) == clock.running(earlier),
        clock.running(earlier).reading(earlier) <= clock.running(earlier).reading(later),
        clock.reading(earlier) == clock.running(earlier).reading(earlier),
{
    if clock.started is Some && clock.started->0 <= earlier {
        let started = clock.started->0;
        assert((earlier - started) / NANOS_PER_MILLI as int <= (later - started)
            / NANOS_PER_MILLI as int) by (nonlinear_arith)
            requires
                0 <= earlier - started <= later - started,
                NANOS_PER_MILLI > 0,
        ;
    }
}

/// A clock that was started at one time and read so many milliseconds later, and less
/// than one more, reads just so many; read before it was started, it reads nothing.
pub proof fn law_clocks_tell_milliseconds(clock: StartupClock, start: u128, now: u128)
    requires
        clock.started is None,
    ensures
        ({
            let reading = clock.running(start).reading(now);
            &&& now >= start ==> reading * 1_000_000 <= now - start < (reading + 1) * 1_000_000
            &&& now < start ==> reading == 0
            &&& clock.reading(now) == 0
            &&& clock.running(start).started == Some(start)
        }),
{
    if now >= start {
        let gap = (now - start) as int;
        let count = gap / NANOS_PER_MILLI as int;
        assert(0 <= count <= gap) by (nonlinear_arith)
            requires
                gap >= 0,
                count == gap / 1_000_000,
        ;
    }
}

} // verus!
