//! The sinks' view of the wall clock.
//!
//! Everything time-dependent is obtained through the wrappers here; the
//! decision logic takes whatever they return as given and is verified for
//! every possible value.

use vstd::prelude::*;
use std::fmt::Write;
use std::time::SystemTime;

verus! {

#[verifier::external_type_specification]
#[verifier::external_body]
pub struct ExSystemTime(SystemTime);

/// Relies on `chrono::Local::now` and chrono's `%Y-%m-%d` formatting: the
/// local calendar date of this moment, rendered as `YYYY-MM-DD`.
#[verifier::external_body]
pub(crate) fn today_string() -> (r: String) {
    chrono::Local::now().format("%Y-%m-%d").to_string()
}

/// Relies on `chrono::Local::now` and chrono's strftime-style formatting:
/// the current local time rendered with `fmt`, or `None` when `fmt` is
/// not a format string chrono accepts.
#[verifier::external_body]
pub(crate) fn now_formatted(fmt: &str) -> (r: Option<String>) {
    let mut s = String::new();
    match write!(s, "{}", chrono::Local::now().format(fmt)) {
        Ok(()) => Some(s),
        Err(_) => None,
    }
}

/// Relies on `std::time::SystemTime::duration_since`,
/// `chrono::DateTime::from_timestamp`, `chrono::Utc::now`,
/// `DateTime::signed_duration_since` and `TimeDelta::num_days`: the span
/// from `t` to this moment in whole days (negative when `t` lies in the
/// future), or `None` when `t` lies before 1970 or outside the range
/// `from_timestamp` accepts, so that no input can make the conversion
/// fail.
#[verifier::external_body]
pub(crate) fn age_in_days(t: &SystemTime) -> (r: Option<i64>) {
    let then = match t.duration_since(std::time::UNIX_EPOCH) {
        Ok(d) => match i64::try_from(d.as_secs()) {
            Ok(s) => chrono::DateTime::from_timestamp(s, 0),
            Err(_) => None,
        },
        Err(_) => None,
    };
    match then {
        Some(then) => Some(chrono::Utc::now().signed_duration_since(then).num_days()),
        None => None,
    }
}

} // verus!
