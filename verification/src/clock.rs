//! The clocks: the wall clock, which dates messages and sessions, and the
//! monotonic clock, which the rate limiter and duplicate detection count on.

use chrono::{DateTime, Utc};
use std::time::{Duration, Instant};
use vstd::prelude::*;

use crate::model::{opt_view, Timestamp};

verus! {

/// `chrono::Utc::now`: the current instant. Nothing is promised of it.
#[verifier::external_body]
pub(crate) fn now_timestamp() -> (res: Timestamp) {
    let t = Utc::now();
    Timestamp { secs: t.timestamp(), nanos: t.timestamp_subsec_nanos() }
}

/// `std::time::Instant`, a reading of the monotonic clock.
#[verifier::external_type_specification]
#[verifier::external_body]
pub struct ExInstant(Instant);

/// `Instant::now`: a reading of the monotonic clock. Nothing is promised of it.
#[verifier::external_body]
pub(crate) fn instant_now() -> (res: Instant) {
    Instant::now()
}

/// `Instant::elapsed`: the time gone by since `origin` was read. Nothing is
/// promised of it.
#[verifier::external_body]
pub(crate) fn elapsed_since(origin: &Instant) -> (res: Duration) {
    origin.elapsed()
}

/// `Duration::as_nanos`: the whole nanoseconds in `d`. A `Duration` is
/// opaque here, so the result is left unsaid.
#[verifier::external_body]
pub(crate) fn whole_nanos(d: &Duration) -> (res: u128) {
    d.as_nanos()
}

/// Nanoseconds gone by on the monotonic clock since `origin` was read,
/// held at the largest `u64` (some five centuries). The clock is read:
/// nothing is promised of the value.
pub fn monotonic_nanos(origin: &Instant) -> (ns: u64) {
    let n = whole_nanos(&elapsed_since(origin));
    if n > u64::MAX as u128 {
        u64::MAX
    } else {
        n as u64
    }
}

/// The RFC 3339 text that chrono writes for instant `t`, or `None` when
/// chrono cannot represent `t`.
pub uninterp spec fn rfc3339_of(t: Timestamp) -> Option<Seq<char>>;

/// The instant that chrono reads from RFC 3339 text `s`, taken to UTC, or
/// `None` when `s` is not such text.
pub uninterp spec fn rfc3339_instant(s: Seq<char>) -> Option<Timestamp>;

/// `DateTime::<Utc>::from_timestamp` followed by `DateTime::to_rfc3339`:
/// the RFC 3339 text of `t`, `None` when `t` is out of chrono's range.
#[verifier::external_body]
pub(crate) fn rfc3339(t: Timestamp) -> (res: Option<String>)
    ensures
        opt_view(res) == rfc3339_of(t),
{
    DateTime::<Utc>::from_timestamp(t.secs, t.nanos).map(|d| d.to_rfc3339())
}

/// `DateTime::parse_from_rfc3339`, taken to UTC: the instant written in
/// `s`, `None` when `s` does not parse.
#[verifier::external_body]
pub(crate) fn parse_rfc3339(s: &str) -> (res: Option<Timestamp>)
    ensures
        res == rfc3339_instant(s@),
{
    match DateTime::parse_from_rfc3339(s) {
        Ok(dt) => {
            let u = dt.with_timezone(&Utc);
            Some(Timestamp { secs: u.timestamp(), nanos: u.timestamp_subsec_nanos() })
        },
        Err(_) => None,
    }
}

} // verus!
