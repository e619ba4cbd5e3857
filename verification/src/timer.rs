//! Timers, held as plain nanosecond counts and advanced by `bevy`'s `Timer`.
//!
//! A timer of this module is the state of an unfinished `bevy::time::Timer`
//! between two ticks: how long it runs and how much of that has elapsed.
//! Advancing it is left to `bevy`; this module says what comes back.

use bevy::time::Timer;
use bevy::time::TimerMode;
use std::time::Duration;
use vstd::prelude::*;

verus! {

/// Half a second, the length of the cast cooldown and of one walk frame.
pub const HALF_SECOND_NANOS: u64 = 500_000_000;

/// What a timer does once its duration is reached.
#[derive(Clone, Copy, Debug, PartialEq, Eq, Structural)]
pub enum TimerKind {
    /// Stops at its duration.
    Once,
    /// Wraps around and goes on.
    Repeating,
}

/// Elapsed time and "just finished" flag of an unfinished timer after one
/// tick of `delta` nanoseconds.
///
/// Below its duration the timer only accumulates. A one-shot timer that
/// reaches its duration stops there and fires. A repeating timer keeps the
/// remainder and fires unless the number of whole periods that went by is a
/// multiple of 2^32 (it counts them in 32 bits); with a period of zero it
/// fires on every tick and stays at zero.
pub open spec fn ticked(kind: TimerKind, duration: u64, elapsed: u64, delta: u64) -> (u64, bool) {
    let total = elapsed as int + delta as int;
    if total < duration {
        (total as u64, false)
    } else {
        match kind {
            TimerKind::Once => (duration, true),
            TimerKind::Repeating => if duration == 0 {
                (0u64, true)
            } else {
                ((total % duration as int) as u64, (total / duration as int) % 0x1_0000_0000 != 0)
            },
        }
    }
}

/// Runs one tick of a fresh `bevy::time::Timer` of the given mode and
/// duration whose elapsed time was set to `elapsed`, and reads back
/// `Timer::elapsed` and `Timer::just_finished`.
///
/// Trusted: the contract restates `Timer::tick` for a timer that is neither
/// paused nor finished. The sum of two `u64` nanosecond counts is far below
/// what a `Duration` holds, so the addition inside `tick` cannot overflow,
/// and the elapsed time that comes back never exceeds `elapsed + delta` or
/// `duration`, so it fits `u64`.
#[verifier::external_body]
fn tick_timer(kind: TimerKind, duration: u64, elapsed: u64, delta: u64) -> (r: (u64, bool))
    ensures
        r == ticked(kind, duration, elapsed, delta),
{
    let mode = match kind {
        TimerKind::Once => TimerMode::Once,
        TimerKind::Repeating => TimerMode::Repeating,
    };
    let mut timer = Timer::new(Duration::from_nanos(duration), mode);
    timer.set_elapsed(Duration::from_nanos(elapsed));
    timer.tick(Duration::from_nanos(delta));
    (timer.elapsed().as_nanos() as u64, timer.just_finished())
}

/// A one-shot timer that has not finished.
///
/// Whoever ticks it to its end resets it before the next tick, so the
/// finished state never has to be stored.
#[derive(Clone, Copy, Debug, PartialEq, Eq, Structural)]
pub struct Cooldown {
    /// Length of the cooldown in nanoseconds.
    pub duration: u64,
    /// Nanoseconds gone by since the cooldown started.
    pub elapsed: u64,
}

impl Cooldown {
    /// Whether a tick of `delta` nanoseconds brings the cooldown to its end.
    pub open spec fn finishes_within(self, delta: u64) -> bool {
        self.elapsed + delta >= self.duration
    }

    /// The cooldown after a tick of `delta` nanoseconds, before any reset.
    pub open spec fn after_tick(self, delta: u64) -> Cooldown {
        Cooldown {
            duration: self.duration,
            elapsed: if self.finishes_within(delta) {
                self.duration
            } else {
                (self.elapsed + delta) as u64
            },
        }
    }

    /// A cooldown of the given length with nothing elapsed.
    pub fn new(duration: u64) -> (c: Cooldown)
        ensures
            c == (Cooldown { duration, elapsed: 0 }),
    {
        Cooldown { duration, elapsed: 0 }
    }

    /// Whether no time has elapsed yet.
    pub fn is_fresh(&self) -> (fresh: bool)
        ensures
            fresh == (self.elapsed == 0),
    {
        self.elapsed == 0
    }

    /// Advances the cooldown and tells whether it finished on this tick.
    pub fn tick(&mut self, delta: u64) -> (just_finished: bool)
        ensures
            just_finished == old(self).finishes_within(delta),
            *final(self) == old(self).after_tick(delta),
    {
        let (elapsed, just_finished) = tick_timer(
            TimerKind::Once,
            self.duration,
            self.elapsed,
            delta,
        );
        self.elapsed = elapsed;
        just_finished
    }

    /// Starts the cooldown over.
    pub fn reset(&mut self)
        ensures
            *final(self) == (Cooldown { duration: old(self).duration, elapsed: 0 }),
    {
        self.elapsed = 0;
    }
}

/// A repeating timer.
#[derive(Clone, Copy, Debug, PartialEq, Eq, Structural)]
pub struct FrameTimer {
    /// Length of one period in nanoseconds.
    pub period: u64,
    /// Nanoseconds gone by in the current period.
    pub elapsed: u64,
}

impl FrameTimer {
    /// Whether a tick of `delta` nanoseconds completes a period.
    pub open spec fn fires_within(self, delta: u64) -> bool {
        ticked(TimerKind::Repeating, self.period, self.elapsed, delta).1
    }

    /// The timer after a tick of `delta` nanoseconds.
    pub open spec fn after_tick(self, delta: u64) -> FrameTimer {
        FrameTimer {
            period: self.period,
            elapsed: ticked(TimerKind::Repeating, self.period, self.elapsed, delta).0,
        }
    }

    /// A timer of the given period with nothing elapsed.
    pub fn new(period: u64) -> (t: FrameTimer)
        ensures
            t == (FrameTimer { period, elapsed: 0 }),
    {
        FrameTimer { period, elapsed: 0 }
    }

    /// Advances the timer and tells whether a period completed on this tick.
    pub fn tick(&mut self, delta: u64) -> (just_finished: bool)
        ensures
            just_finished == old(self).fires_within(delta),
            *final(self) == old(self).after_tick(delta),
    {
        let (elapsed, just_finished) = tick_timer(
            TimerKind::Repeating,
            self.period,
            self.elapsed,
            delta,
        );
        self.elapsed = elapsed;
        just_finished
    }

    /// A tick that stays within 2^32 periods fires exactly when the elapsed
    /// time reaches the period, and leaves less than a period on the timer.
    pub proof fn lemma_fires_at_period(self, delta: u64)
        requires
            self.period > 0,
            self.elapsed + delta < 0x1_0000_0000 * self.period,
        ensures
            self.fires_within(delta) == (self.elapsed + delta >= self.period),
            self.after_tick(delta).elapsed < self.period,
            self.after_tick(delta).elapsed == (self.elapsed + delta) % (self.period as int),
    {
        let total = self.elapsed as int + delta as int;
        let period = self.period as int;
        vstd::arithmetic::div_mod::lemma_fundamental_div_mod(total, period);
        vstd::arithmetic::div_mod::lemma_mod_bound(total, period);
        if total < period {
            vstd::arithmetic::div_mod::lemma_small_mod(total as nat, period as nat);
        } else {
            assert(0 < total / period < 0x1_0000_0000) by (nonlinear_arith)
                requires
                    period > 0,
                    period <= total < 0x1_0000_0000 * period,
            ;
        }
    }
}

} // verus!
