//! The wall clock.

use vstd::prelude::*;

verus! {

/// The current time in whole seconds since the Unix epoch.
///
/// Trusted: `chrono::Utc::now` reads the system clock and
/// `DateTime::timestamp` gives the non-leap seconds since 1970-01-01 00:00:00
/// UTC. The value depends on when the call is made, so nothing is claimed of
/// it. `Utc::now` panics if the system clock is set before the epoch.
#[verifier::external_body]
pub(crate) fn unix_now() -> i64 {
    chrono::Utc::now().timestamp()
}

} // verus!
