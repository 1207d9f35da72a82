//! The one reading of the wall clock the adapter makes: the timestamp woven
//! into synthesized response identifiers.

use vstd::prelude::*;

verus! {

/// Relies on chrono::Utc::now together with chrono::DateTime::timestamp_millis:
/// the result is the wall-clock moment of the call in milliseconds since the
/// Unix epoch. The clock is ambient state, so nothing is promised of the
/// value; callers state what holds of every outcome.
#[verifier::external_body]
pub fn now_millis() -> i64 {
    chrono::Utc::now().timestamp_millis()
}

} // verus!
