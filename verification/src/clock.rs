//! The wall clock.

use vstd::prelude::*;

verus! {

/// The current time in milliseconds since the Unix epoch, read with
/// `chrono::Utc::now` and `DateTime::timestamp_millis`. Nothing is promised
/// of the value: it is whatever the machine's clock says.
#[verifier::external_body]
pub(crate) fn now_millis() -> (millis: i64) {
    chrono::Utc::now().timestamp_millis()
}

} // verus!
