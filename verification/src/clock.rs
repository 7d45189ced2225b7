//! Bindings for the pausable clock the engine measures phase time with: a
//! monotonic time source whose elapsed-time accounting can be frozen and
//! resumed. Readings are clock-relative milliseconds; real time spent paused
//! does not accrue.

use vstd::prelude::*;
use pausable_clock::PausableClock;
use std::time::Duration;

verus! {

#[verifier::external_type_specification]
#[verifier::external_body]
pub struct ExPausableClock(PausableClock);

/// Relies on `pausable_clock::PausableClock::new`: a clock anchored at the
/// current real time with zero elapsed time, created in the given pause state.
#[verifier::external_body]
pub(crate) fn clock_new(paused: bool) -> PausableClock {
    PausableClock::new(Duration::ZERO, paused)
}

/// Relies on `PausableClock::now` and `PausableInstant::elapsed_millis`: the
/// clock-relative time now, in milliseconds since the clock's zero point.
/// While the clock is paused, successive readings do not advance.
#[verifier::external_body]
pub(crate) fn clock_now_millis(clock: &PausableClock) -> u64 {
    clock.now().elapsed_millis()
}

/// Relies on `PausableClock::pause`: freezes time accrual; idempotent.
#[verifier::external_body]
pub(crate) fn clock_pause(clock: &PausableClock) {
    clock.pause();
}

/// Relies on `PausableClock::resume`: resumes time accrual without counting
/// the real time spent paused; idempotent.
#[verifier::external_body]
pub(crate) fn clock_resume(clock: &PausableClock) {
    clock.resume();
}

} // verus!
