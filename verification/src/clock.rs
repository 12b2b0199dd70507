//! The system clock.
use vstd::prelude::*;

use std::time::Duration;

verus! {

/// The time elapsed since the Unix epoch, or `None` when the clock is set
/// before the Unix epoch. Calls `std::time::SystemTime::elapsed` on
/// `std::time::UNIX_EPOCH`; nothing is claimed of the result, which depends
/// on the clock.
#[verifier::external_body]
pub(crate) fn elapsed_since_unix_epoch() -> (r: Option<Duration>) {
    match std::time::UNIX_EPOCH.elapsed() {
        Ok(d) => Some(d),
        Err(_) => None,
    }
}

/// The whole seconds of `d`. Calls `std::time::Duration::as_secs`; nothing is
/// claimed of the result, as a duration is opaque here.
#[verifier::external_body]
pub(crate) fn whole_secs(d: &Duration) -> (s: u64) {
    d.as_secs()
}

/// The whole milliseconds of `d`. Calls `std::time::Duration::as_millis`;
/// nothing is claimed of the result, as a duration is opaque here.
#[verifier::external_body]
pub(crate) fn whole_millis(d: &Duration) -> (ms: u128) {
    d.as_millis()
}

} // verus!
