//! The one-shot lifecycle shared by the broadcast clock and the countdown
//! timer facility: a facility is constructed idle, may be started at most
//! once, and is torn down at most effectively once (teardown is idempotent).

use vstd::prelude::*;

verus! {

/// Coarse failure categories of the cadence facilities: the two
/// lifecycle-sequencing errors a registration can hit, and the failure a
/// teardown reports when the background worker ended abnormally.
#[derive(Clone, Copy, Debug, PartialEq, Eq, Structural)]
pub enum LifecycleError {
    /// The background worker was already spawned.
    AlreadyStarted,
    /// The facility was already torn down.
    Terminated,
    /// The background worker ended abnormally; the facility is no longer
    /// trustworthy.
    ThreadFailure,
}

/// The result a facility reports from teardown: a failure exactly when a
/// worker had been running and ended abnormally; success in every other
/// case, in particular when the facility was never started.
pub open spec fn teardown_outcome(was_started: bool, worker_failed: bool) -> Result<
    (),
    LifecycleError,
> {
    if was_started && worker_failed {
        Err(LifecycleError::ThreadFailure)
    } else {
        Ok(())
    }
}

} // verus!
