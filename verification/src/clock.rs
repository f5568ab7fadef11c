//! The periodic broadcaster: registers listeners while idle, then a
//! background worker wakes at a fixed cadence and fans a tick out to every
//! one of them until teardown.
//!
//! Spawning threads and sending on channels cannot be verified, so this
//! module holds the verified core the worker consults: the lifecycle state
//! machine (when registration is allowed, what teardown reports) and the
//! cadence test that decides when a tick is due.

use vstd::prelude::*;

use crate::lifecycle::LifecycleError;
use crate::lifecycle::teardown_outcome;

verus! {

/// Abstract state of a broadcast clock: its fixed cadence interval, how
/// many listener endpoints it retains, and where it stands in the one-shot
/// start/stop lifecycle.
pub struct ClockView {
    pub interval_micros: u64,
    pub listeners: nat,
    pub started: bool,
    pub terminated: bool,
}

/// State after a successful registration: one more retained listener.
pub open spec fn spec_register(c: ClockView) -> ClockView {
    ClockView { listeners: c.listeners + 1, ..c }
}

/// State after start: the background worker is running.
pub open spec fn spec_start(c: ClockView) -> ClockView {
    ClockView { started: true, ..c }
}

/// State after teardown: terminated for good, the worker gone, every
/// retained listener endpoint dropped.
pub open spec fn spec_teardown(c: ClockView) -> ClockView {
    ClockView { started: false, terminated: true, listeners: 0, ..c }
}

/// Lifecycle core of the broadcast clock. The unverified shell owns the
/// actual thread and channel endpoints; every decision — whether a
/// registration is allowed, when a tick is due, what teardown reports —
/// is made here.
pub struct Clock {
    /// Target time between ticks, in microseconds; fixed at construction.
    pub interval_micros: u64,
    listeners: usize,
    started: bool,
    terminated: bool,
}

impl View for Clock {
    type V = ClockView;

    closed spec fn view(&self) -> ClockView {
        ClockView {
            interval_micros: self.interval_micros,
            listeners: self.listeners as nat,
            started: self.started,
            terminated: self.terminated,
        }
    }
}

impl Clock {
    /// Constructs an idle clock with the given cadence interval and no
    /// listeners.
    pub fn new(interval_micros: u64) -> (r: Clock)
        ensures
            r@ == (ClockView {
                interval_micros,
                listeners: 0,
                started: false,
                terminated: false,
            }),
    {
        Clock { interval_micros, listeners: 0, started: false, terminated: false }
    }

    /// Registers one more listener, returning its position in the broadcast
    /// order. Allowed only while the clock is idle: after start it fails
    /// with `AlreadyStarted`, after teardown with `Terminated`, and the
    /// state is then unchanged.
    pub fn become_listener(&mut self) -> (r: Result<usize, LifecycleError>)
        requires
            old(self)@.listeners < usize::MAX,
        ensures
            old(self)@.started ==> r == Err::<usize, LifecycleError>(LifecycleError::AlreadyStarted)
                && final(self)@ == old(self)@,
            !old(self)@.started && old(self)@.terminated ==> r == Err::<usize, LifecycleError>(
                LifecycleError::Terminated,
            ) && final(self)@ == old(self)@,
            !old(self)@.started && !old(self)@.terminated ==> r == Ok::<usize, LifecycleError>(
                old(self)@.listeners as usize,
            ) && final(self)@ == spec_register(old(self)@),
    {
        if self.started {
            Err(LifecycleError::AlreadyStarted)
        } else if !self.terminated {
            let index: usize = self.listeners;
            self.listeners = self.listeners + 1;
            Ok(index)
        } else {
            Err(LifecycleError::Terminated)
        }
    }

    /// Records that the background worker has been spawned. The lifecycle
    /// is one-shot: starting a clock twice, or after teardown, is not
    /// supported, so both are ruled out here.
    pub fn start(&mut self)
        requires
            !old(self)@.started,
            !old(self)@.terminated,
        ensures
            final(self)@ == spec_start(old(self)@),
    {
        self.started = true;
    }

    /// Records teardown: the clock is terminated for good and every
    /// retained listener endpoint is dropped. The caller reports whether a
    /// joined worker ended abnormally; the result is a `ThreadFailure`
    /// exactly when one had been running and did. Idempotent: on a clock
    /// never started, or torn down twice, it succeeds both times.
    pub fn teardown(&mut self, worker_failed: bool) -> (r: Result<(), LifecycleError>)
        ensures
            final(self)@ == spec_teardown(old(self)@),
            r == teardown_outcome(old(self)@.started, worker_failed),
    {
        let was_started = self.started;
        self.started = false;
        self.terminated = true;
        self.listeners = 0;
        if was_started && worker_failed {
            Err(LifecycleError::ThreadFailure)
        } else {
            Ok(())
        }
    }
}

/// Whether a full cadence interval has elapsed between the last recorded
/// tick and now, both in microseconds on one monotonic timeline.
pub open spec fn tick_due(now_micros: u64, last_tick_micros: u64, interval_micros: u64) -> bool {
    last_tick_micros <= now_micros && now_micros - last_tick_micros >= interval_micros
}

/// The cadence test the polling worker applies on every iteration; a tick
/// is broadcast, and the tick timestamp advanced, exactly when it holds.
pub fn cadence_elapsed(now_micros: u64, last_tick_micros: u64, interval_micros: u64) -> (r: bool)
    ensures
        r == tick_due(now_micros, last_tick_micros, interval_micros),
{
    now_micros >= last_tick_micros && now_micros - last_tick_micros >= interval_micros
}

/// One run of the polling worker over the times it observed, oldest first:
/// starting from the given last-tick timestamp, a poll at which the
/// cadence test holds broadcasts a tick and becomes the new timestamp.
/// Yields the final timestamp and how many ticks were broadcast.
pub open spec fn worker_run(polls: Seq<u64>, last_tick_micros: u64, interval_micros: u64) -> (
    u64,
    nat,
)
    decreases polls.len(),
{
    if polls.len() == 0 {
        (last_tick_micros, 0)
    } else if tick_due(polls.first(), last_tick_micros, interval_micros) {
        let rest = worker_run(polls.drop_first(), polls.first(), interval_micros);
        (rest.0, rest.1 + 1)
    } else {
        worker_run(polls.drop_first(), last_tick_micros, interval_micros)
    }
}

/// Ticks never bunch up: every broadcast tick advances the timestamp by at
/// least one full interval, so a run that stays within a time window of
/// length `D` broadcasts at most `D / interval` ticks — the cadence can
/// only run at or below its target rate, whatever times the worker happens
/// to observe.
pub proof fn lemma_ticks_at_most_one_per_interval(
    polls: Seq<u64>,
    last_tick_micros: u64,
    interval_micros: u64,
)
    ensures
        worker_run(polls, last_tick_micros, interval_micros).0 >= last_tick_micros
            + interval_micros * worker_run(polls, last_tick_micros, interval_micros).1,
    decreases polls.len(),
{
    if polls.len() > 0 {
        let first = polls.first();
        let rest = polls.drop_first();
        if tick_due(first, last_tick_micros, interval_micros) {
            lemma_ticks_at_most_one_per_interval(rest, first, interval_micros);
            let n = worker_run(rest, first, interval_micros).1;
            assert(interval_micros * (n + 1) == interval_micros * n + interval_micros)
                by (nonlinear_arith);
        } else {
            lemma_ticks_at_most_one_per_interval(rest, last_tick_micros, interval_micros);
        }
    }
}

/// The final tick timestamp of a run never leaves the observed window: it
/// is the initial timestamp or one of the observed times. With the lemma
/// above, a worker whose observed times stay below some end time `T`
/// broadcasts at most `(T - start) / interval` ticks.
pub proof fn lemma_run_stays_in_window(
    polls: Seq<u64>,
    last_tick_micros: u64,
    interval_micros: u64,
    end_micros: u64,
)
    requires
        last_tick_micros <= end_micros,
        forall|i: int| 0 <= i < polls.len() ==> polls[i] <= end_micros,
    ensures
        worker_run(polls, last_tick_micros, interval_micros).0 <= end_micros,
    decreases polls.len(),
{
    if polls.len() > 0 {
        let first = polls.first();
        let rest = polls.drop_first();
        assert(forall|i: int| 0 <= i < rest.len() ==> rest[i] == polls[i + 1]);
        if tick_due(first, last_tick_micros, interval_micros) {
            lemma_run_stays_in_window(rest, first, interval_micros, end_micros);
        } else {
            lemma_run_stays_in_window(rest, last_tick_micros, interval_micros, end_micros);
        }
    }
}

/// Teardown is idempotent: torn down while never started it succeeds, and
/// a second teardown succeeds whatever the first reported, since no worker
/// is running any more.
pub proof fn lemma_teardown_idempotent(c: ClockView, first_failed: bool, second_failed: bool)
    ensures
        !c.started ==> teardown_outcome(c.started, first_failed) == Ok::<(), LifecycleError>(()),
        teardown_outcome(spec_teardown(c).started, second_failed) == Ok::<(), LifecycleError>(()),
{
}

} // verus!
