//! The one reading of the wall clock the library makes.

use vstd::prelude::*;

verus! {

/// Relies on `chrono::Utc::now`: a reading of the wall clock, in
/// milliseconds since the Unix epoch. Nothing is promised of the value: it
/// depends on the clock alone.
#[verifier::external_body]
pub(crate) fn now_millis() -> i64 {
    chrono::Utc::now().timestamp_millis()
}

} // verus!
