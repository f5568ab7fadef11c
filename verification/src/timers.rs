//! The countdown timer facility: two independent 8-bit counters (delay and
//! sound) that a background worker decrements once per cadence interval,
//! saturating at zero, with get/set accessors for the emulation loop.
//!
//! The worker thread and the shared atomics live in the unverified shell;
//! this module holds the verified core: the counter-stepping rule, the
//! lifecycle state machine, and the countdown laws.

use vstd::prelude::*;

use crate::lifecycle::LifecycleError;
use crate::lifecycle::teardown_outcome;

verus! {

/// Target cadence of the countdown discipline, in microseconds (~60 Hz).
pub const TIMER_INTERVAL_MICROS: u64 = 16_667;

/// Value both counters hold at construction.
pub const RUNLOOP_TIMER_DEFAULT: u8 = 8;

/// Abstract state of the timer facility: the two counters and where it
/// stands in the one-shot start/stop lifecycle.
pub struct TimersView {
    pub delay: u8,
    pub sound: u8,
    pub started: bool,
    pub terminated: bool,
}

/// One saturating decrement: a nonzero counter loses 1, a zero counter
/// stays 0 — it never wraps below zero.
pub open spec fn sat_dec(v: u8) -> u8 {
    if v == 0 {
        0
    } else {
        (v - 1) as u8
    }
}

/// Counter value after `n` cadence ticks of saturating decrement.
pub open spec fn ticked(v: u8, n: nat) -> u8
    decreases n,
{
    if n == 0 {
        v
    } else {
        sat_dec(ticked(v, (n - 1) as nat))
    }
}

/// State after one cadence tick: both counters stepped by one saturating
/// decrement.
pub open spec fn spec_tick(t: TimersView) -> TimersView {
    TimersView { delay: sat_dec(t.delay), sound: sat_dec(t.sound), ..t }
}

/// State after overwriting the delay counter.
pub open spec fn spec_set_delay(t: TimersView, value: u8) -> TimersView {
    TimersView { delay: value, ..t }
}

/// State after overwriting the sound counter.
pub open spec fn spec_set_sound(t: TimersView, value: u8) -> TimersView {
    TimersView { sound: value, ..t }
}

/// State after start: the background worker is running.
pub open spec fn spec_start(t: TimersView) -> TimersView {
    TimersView { started: true, ..t }
}

/// State after teardown: terminated for good, the worker gone; the
/// counters keep their last values.
pub open spec fn spec_teardown(t: TimersView) -> TimersView {
    TimersView { started: false, terminated: true, ..t }
}

/// Core of the countdown timer facility. The unverified shell keeps the
/// counters in shared atomics and runs the polling worker; the stepping
/// rule it applies and the lifecycle decisions are verified here, on this
/// sequential model of the same state.
pub struct Timers {
    delay: u8,
    sound: u8,
    started: bool,
    terminated: bool,
}

impl View for Timers {
    type V = TimersView;

    closed spec fn view(&self) -> TimersView {
        TimersView {
            delay: self.delay,
            sound: self.sound,
            started: self.started,
            terminated: self.terminated,
        }
    }
}

impl Timers {
    /// Constructs an idle facility with both counters at the fixed nonzero
    /// default.
    pub fn new() -> (r: Timers)
        ensures
            r@ == (TimersView {
                delay: RUNLOOP_TIMER_DEFAULT,
                sound: RUNLOOP_TIMER_DEFAULT,
                started: false,
                terminated: false,
            }),
    {
        Timers {
            delay: RUNLOOP_TIMER_DEFAULT,
            sound: RUNLOOP_TIMER_DEFAULT,
            started: false,
            terminated: false,
        }
    }

    /// Records that the background worker has been spawned. The lifecycle
    /// is one-shot: starting twice, or after teardown, is not supported,
    /// so both are ruled out here.
    pub fn start(&mut self)
        requires
            !old(self)@.started,
            !old(self)@.terminated,
        ensures
            final(self)@ == spec_start(old(self)@),
    {
        self.started = true;
    }

    /// Records teardown: the facility is terminated for good. The caller
    /// reports whether a joined worker ended abnormally; the result is a
    /// `ThreadFailure` exactly when one had been running and did.
    /// Idempotent: on a facility never started, or torn down twice, it
    /// succeeds both times.
    pub fn teardown(&mut self, worker_failed: bool) -> (r: Result<(), LifecycleError>)
        ensures
            final(self)@ == spec_teardown(old(self)@),
            r == teardown_outcome(old(self)@.started, worker_failed),
    {
        let was_started = self.started;
        self.started = false;
        self.terminated = true;
        if was_started && worker_failed {
            Err(LifecycleError::ThreadFailure)
        } else {
            Ok(())
        }
    }

    /// Reads the delay counter.
    pub fn retrieve_delay_timer(&self) -> (r: u8)
        ensures
            r == self@.delay,
    {
        self.delay
    }

    /// Overwrites the delay counter; the next cadence tick decrements from
    /// this value.
    pub fn set_delay_timer(&mut self, value: u8)
        ensures
            final(self)@ == spec_set_delay(old(self)@, value),
    {
        self.delay = value;
    }

    /// Overwrites the sound counter; the next cadence tick decrements from
    /// this value.
    pub fn set_sound_timer(&mut self, value: u8)
        ensures
            final(self)@ == spec_set_sound(old(self)@, value),
    {
        self.sound = value;
    }

    /// Applies one cadence tick: both counters step by one saturating
    /// decrement.
    pub fn tick(&mut self)
        ensures
            final(self)@ == spec_tick(old(self)@),
    {
        self.delay = next_counter_value(self.delay);
        self.sound = next_counter_value(self.sound);
    }
}

/// The stepping rule the cadence worker applies to each counter it reads
/// back from the shared state: one saturating decrement.
pub fn next_counter_value(value: u8) -> (r: u8)
    ensures
        r == sat_dec(value),
{
    if value == 0 {
        0
    } else {
        value - 1
    }
}

/// Countdown law: after `n` cadence ticks a counter set to `v` reads
/// exactly `v - n`, and exactly 0 once `n` reaches `v` — further ticks
/// keep it at 0, and it never wraps below zero.
pub proof fn lemma_countdown_value(v: u8, n: nat)
    ensures
        ticked(v, n) == if n >= v {
            0u8
        } else {
            (v - n) as u8
        },
    decreases n,
{
    if n > 0 {
        lemma_countdown_value(v, (n - 1) as nat);
    }
}

/// A set takes effect on the very next tick: the first tick after the
/// delay or sound counter is overwritten decrements from the newly written
/// value, whatever the counter held before.
pub proof fn lemma_set_then_tick(t: TimersView, value: u8)
    ensures
        spec_tick(spec_set_delay(t, value)).delay == sat_dec(value),
        spec_tick(spec_set_sound(t, value)).sound == sat_dec(value),
{
}

/// Teardown is idempotent: torn down while never started it succeeds, and
/// a second teardown succeeds whatever the first reported, since no worker
/// is running any more.
pub proof fn lemma_teardown_idempotent(t: TimersView, first_failed: bool, second_failed: bool)
    ensures
        !t.started ==> teardown_outcome(t.started, first_failed) == Ok::<(), LifecycleError>(()),
        teardown_outcome(spec_teardown(t).started, second_failed) == Ok::<(), LifecycleError>(()),
{
}

} // verus!
