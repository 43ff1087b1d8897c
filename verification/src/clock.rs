//! The one place the library touches the system clock.

use vstd::prelude::*;

verus! {

/// Relies on `std::time::SystemTime`: `now()` returns the current wall-clock
/// time, and `duration_since(UNIX_EPOCH)` measures it against the Unix epoch
/// as a `Duration`, which `as_nanos` converts to nanoseconds. `duration_since`
/// fails only when the clock reads earlier than the epoch; such a reading is
/// reported as instant 0. Nothing is promised of the value: what the clock
/// reads is not a function of the program's state.
#[verifier::external_body]
pub(crate) fn clock_now_nanos() -> u128 {
    match std::time::SystemTime::now().duration_since(std::time::UNIX_EPOCH) {
        Ok(d) => d.as_nanos(),
        Err(_) => 0,
    }
}

} // verus!
