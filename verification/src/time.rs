//! Wall-clock time, read once per reported event.

use vstd::prelude::*;

verus! {

/// Current wall-clock time as milliseconds since the Unix epoch.
///
/// Relies on `std::time::SystemTime::now`: the reading depends on the
/// machine's clock, so nothing is promised of the result. A clock set
/// before the Unix epoch reads as zero.
#[verifier::external_body]
pub fn now() -> u64 {
    match std::time::SystemTime::now().duration_since(std::time::UNIX_EPOCH) {
        Ok(d) => d.as_millis() as u64,
        Err(_) => 0,
    }
}

} // verus!
