use vstd::prelude::*;

verus! {

/// Relies on chrono's `Utc::now`, read as milliseconds since the Unix epoch.
/// The value depends on the moment of the call, so nothing is stated of it.
#[verifier::external_body]
pub(crate) fn now_millis() -> (r: i64) {
    chrono::Utc::now().timestamp_millis()
}

/// Whole seconds since the Unix epoch for a millisecond reading; readings
/// before the epoch count as zero.
pub fn seconds_of_millis(ms: i64) -> (r: u64)
    ensures
        ms < 0 ==> r == 0,
        ms >= 0 ==> r as int == ms as int / 1000,
{
    if ms < 0 {
        0
    } else {
        (ms / 1000) as u64
    }
}

/// The current time in whole seconds since the Unix epoch.
pub fn now_seconds() -> (r: u64) {
    seconds_of_millis(now_millis())
}

} // verus!
