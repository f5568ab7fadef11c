use vm_pulse::clock::cadence_elapsed;
use vm_pulse::clock::Clock;
use vm_pulse::lifecycle::LifecycleError;

#[test]
fn idle_clock_accepts_listeners_in_order() {
    let mut clock = Clock::new(16_667);
    assert_eq!(clock.become_listener(), Ok(0));
    assert_eq!(clock.become_listener(), Ok(1));
    assert_eq!(clock.become_listener(), Ok(2));
}

#[test]
fn register_after_start_is_refused() {
    let mut clock = Clock::new(16_667);
    assert_eq!(clock.become_listener(), Ok(0));
    clock.start();
    assert_eq!(clock.become_listener(), Err(LifecycleError::AlreadyStarted));
}

#[test]
fn register_after_teardown_is_refused() {
    let mut clock = Clock::new(16_667);
    clock.start();
    assert_eq!(clock.teardown(false), Ok(()));
    assert_eq!(clock.become_listener(), Err(LifecycleError::Terminated));
}

#[test]
fn teardown_never_started_succeeds() {
    let mut clock = Clock::new(16_667);
    assert_eq!(clock.teardown(false), Ok(()));
}

#[test]
fn teardown_twice_succeeds_both_times() {
    let mut clock = Clock::new(16_667);
    clock.start();
    assert_eq!(clock.teardown(false), Ok(()));
    assert_eq!(clock.teardown(false), Ok(()));
}

#[test]
fn teardown_surfaces_worker_failure_once() {
    let mut clock = Clock::new(16_667);
    clock.start();
    assert_eq!(clock.teardown(true), Err(LifecycleError::ThreadFailure));
    // The worker is gone after the first teardown; a second one succeeds.
    assert_eq!(clock.teardown(true), Ok(()));
}

#[test]
fn worker_failure_needs_a_started_worker() {
    let mut clock = Clock::new(16_667);
    assert_eq!(clock.teardown(true), Ok(()));
}

#[test]
fn cadence_fires_exactly_at_interval() {
    assert!(cadence_elapsed(16_667, 0, 16_667));
    assert!(!cadence_elapsed(16_666, 0, 16_667));
    assert!(cadence_elapsed(50_001, 33_334, 16_667));
    assert!(!cadence_elapsed(50_000, 33_334, 16_667));
}

#[test]
fn cadence_never_fires_backwards_in_time() {
    assert!(!cadence_elapsed(5, 10, 1));
}
