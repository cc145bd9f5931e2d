//! The system clock.

use vstd::prelude::*;

verus! {

/// Microseconds since the Unix epoch on the system clock
/// (`std::time::SystemTime::now`). Nothing is stated of the value: it is the
/// time, and a clock set before the epoch reads as `0`.
#[verifier::external_body]
pub(crate) fn now_micros() -> (t: u64) {
    match std::time::SystemTime::now().duration_since(std::time::UNIX_EPOCH) {
        Ok(elapsed) => elapsed.as_micros() as u64,
        Err(_) => 0,
    }
}

} // verus!
