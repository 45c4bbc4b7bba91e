//! The system clock.

use vstd::prelude::*;

verus! {

/// Seconds since the Unix epoch by the system clock
/// (`SystemTime::now().duration_since(UNIX_EPOCH)`, whole seconds; 0 when
/// the clock reads before the epoch). The clock is read, so nothing is
/// stated of the value.
#[verifier::external_body]
pub(crate) fn unix_now_secs() -> u64 {
    match std::time::SystemTime::now().duration_since(std::time::UNIX_EPOCH) {
        Ok(d) => d.as_secs(),
        Err(_) => 0,
    }
}

} // verus!
