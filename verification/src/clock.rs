//! The wall clock.  What it returns depends on the moment of the call, so nothing is
//! promised of it; the functions that read it say what holds for any reading.
use vstd::prelude::*;

verus! {

/// `chrono::Utc::now().timestamp()`: the current UNIX time in seconds.
#[verifier::external_body]
pub(crate) fn utc_now_secs() -> i64 {
    chrono::Utc::now().timestamp()
}

/// `chrono::Utc::now().timestamp_millis()`: the current UNIX time in milliseconds.
#[verifier::external_body]
pub(crate) fn utc_now_millis() -> i64 {
    chrono::Utc::now().timestamp_millis()
}

/// `chrono::Local::now()` formatted as "%Y-%m-%d %H:%M:%S%.3f": the local time,
/// to the millisecond.
#[verifier::external_body]
pub(crate) fn local_time_text() -> String {
    chrono::Local::now().format("%Y-%m-%d %H:%M:%S%.3f").to_string()
}

} // verus!
