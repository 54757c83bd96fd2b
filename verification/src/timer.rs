//! The countdown timers of tiles and cars.
//!
//! The timers themselves are `bevy::time::Timer` values. Verus cannot look
//! inside one, so this module describes a timer by the values its getters
//! return, and states what `Timer::new` and `Timer::tick` do to those
//! values. Nothing here is proved of the timer's own code: the contracts of
//! the functions marked `external_body` are taken from its source and are
//! believed as they stand.

use bevy::time::Timer;
use bevy::time::TimerMode;
use std::time::Duration;
use vstd::prelude::*;

verus! {

/// `bevy::time::Timer`, as a value that Verus carries without looking inside.
#[verifier::external_type_specification]
#[verifier::external_body]
pub struct ExTimer(Timer);

/// Whether a timer runs once or starts over each time it finishes.
#[derive(Clone, Copy, Debug, PartialEq, Eq, Structural)]
pub enum Mode {
    Once,
    Repeating,
}

/// The observable state of a timer.
pub struct TimerState {
    /// Length of one countdown, in nanoseconds.
    pub duration: nat,
    /// Time counted so far, in nanoseconds.
    pub elapsed: nat,
    pub repeating: bool,
    pub paused: bool,
    pub finished: bool,
    /// How often the countdown completed during the latest tick.
    pub times_finished: nat,
}

/// The state of `timer`: what its getters `duration`, `elapsed`, `mode`,
/// `paused`, `finished` and `times_finished_this_tick` return.
pub uninterp spec fn state_of(timer: Timer) -> TimerState;

impl TimerState {
    /// A timer that has not run yet.
    pub open spec fn fresh(duration: nat, mode: Mode) -> TimerState {
        TimerState {
            duration,
            elapsed: 0,
            repeating: mode == Mode::Repeating,
            paused: false,
            finished: false,
            times_finished: 0,
        }
    }

    /// True on the tick in which the countdown completed, and only then.
    pub open spec fn just_finished(self) -> bool {
        self.times_finished > 0
    }

    /// The state after a tick of `delta` nanoseconds.
    ///
    /// A paused timer does not count. A one-shot timer that has finished stays
    /// as it is. Otherwise `delta` is added; a one-shot timer stops at its
    /// duration, a repeating timer keeps the remainder and reports how many
    /// whole durations went by, cut to 32 bits.
    pub open spec fn ticked(self, delta: nat) -> TimerState {
        let total = self.elapsed + delta;
        if self.paused {
            TimerState {
                finished: self.finished && !self.repeating,
                times_finished: 0,
                ..self
            }
        } else if !self.repeating && self.finished {
            TimerState { times_finished: 0, ..self }
        } else if total < self.duration {
            TimerState { elapsed: total, finished: false, times_finished: 0, ..self }
        } else if !self.repeating {
            TimerState { elapsed: self.duration, finished: true, times_finished: 1, ..self }
        } else if self.duration == 0 {
            TimerState { elapsed: 0, finished: true, times_finished: 0xffff_ffff, ..self }
        } else {
            TimerState {
                elapsed: total % self.duration,
                finished: true,
                times_finished: (total / self.duration) % 0x1_0000_0000,
                ..self
            }
        }
    }
}

/// `Timer::new` with a duration of `duration` nanoseconds: the timer starts
/// at zero, not paused and not finished.
#[verifier::external_body]
pub(crate) fn new_timer(duration: u64, mode: Mode) -> (timer: Timer)
    ensures
        state_of(timer) == TimerState::fresh(duration as nat, mode),
{
    let mode = match mode {
        Mode::Once => TimerMode::Once,
        Mode::Repeating => TimerMode::Repeating,
    };
    Timer::new(Duration::from_nanos(duration), mode)
}

/// `Timer::tick` with a delta of `delta` nanoseconds: the timer's state
/// becomes `ticked(delta)` of what it was. With the duration and the time
/// counted so far below 2^64 nanoseconds the sum that the call forms cannot
/// overflow, and the remainder that a repeating timer keeps fits.
#[verifier::external_body]
pub(crate) fn tick_timer(timer: &mut Timer, delta: u64)
    requires
        state_of(*old(timer)).duration <= u64::MAX,
        state_of(*old(timer)).elapsed <= u64::MAX,
    ensures
        state_of(*final(timer)) == state_of(*old(timer)).ticked(delta as nat),
{
    timer.tick(Duration::from_nanos(delta));
}

/// `Timer::just_finished`: whether the latest tick completed the countdown.
#[verifier::external_body]
pub(crate) fn timer_just_finished(timer: &Timer) -> (fired: bool)
    ensures
        fired == state_of(*timer).just_finished(),
{
    timer.just_finished()
}

/// `Timer::duration`, in nanoseconds, for a duration below 2^64 of them.
#[verifier::external_body]
pub(crate) fn timer_duration(timer: &Timer) -> (nanos: u64)
    requires
        state_of(*timer).duration <= u64::MAX,
    ensures
        nanos == state_of(*timer).duration,
{
    timer.duration().as_nanos() as u64
}

/// `Timer::elapsed`, in nanoseconds, for a time below 2^64 of them.
#[verifier::external_body]
pub(crate) fn timer_elapsed(timer: &Timer) -> (nanos: u64)
    requires
        state_of(*timer).elapsed <= u64::MAX,
    ensures
        nanos == state_of(*timer).elapsed,
{
    timer.elapsed().as_nanos() as u64
}

} // verus!
