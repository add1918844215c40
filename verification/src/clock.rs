//! The clock of the host.

use vstd::prelude::*;

verus! {

/// The current instant in microseconds since the Unix epoch, from
/// `chrono::Utc::now` and `chrono::DateTime::timestamp_micros`. Trusted, and
/// nothing is claimed of it: the instant is whatever the clock of the host
/// shows. `Utc::now` panics where that clock shows an instant before the
/// Unix epoch; no argument of this function can rule that out.
#[verifier::external_body]
pub(crate) fn now() -> i64 {
    chrono::Utc::now().timestamp_micros()
}

} // verus!
