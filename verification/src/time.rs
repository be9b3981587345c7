//! Points in time, as seconds and nanoseconds since the Unix epoch (UTC).

use std::hash::{Hash, Hasher};
use vstd::prelude::*;

verus! {

/// A UTC instant: `secs` whole seconds since the Unix epoch plus `nanos`
/// nanoseconds (above 999 999 999 only inside a leap second).
#[derive(Clone, Copy, Debug, PartialEq, Eq, Structural)]
pub struct Timestamp {
    pub secs: i64,
    pub nanos: u32,
}

/// Chronological order of two instants.
pub open spec fn ts_before(a: Timestamp, b: Timestamp) -> bool {
    a.secs < b.secs || (a.secs == b.secs && a.nanos < b.nanos)
}

impl Timestamp {
    pub fn new(secs: i64, nanos: u32) -> (r: Timestamp)
        ensures
            r.secs == secs,
            r.nanos == nanos,
    {
        Timestamp { secs, nanos }
    }

    /// `self < other` in time.
    pub fn is_before(&self, other: &Timestamp) -> (r: bool)
        ensures
            r == ts_before(*self, *other),
    {
        self.secs < other.secs || (self.secs == other.secs && self.nanos < other.nanos)
    }
}

/// What `DateTime::from_timestamp(secs, nanos)` followed by
/// `format("%Y%m%d%H%M")` yields: `None` where chrono has no such instant.
pub uninterp spec fn minute_stamp(secs: i64, nanos: u32) -> Option<Seq<char>>;

/// The instants whose year has four digits (0001-01-01 to 9999-12-31, UTC).
pub open spec fn four_digit_year(secs: i64) -> bool {
    -62135596800 <= secs <= 253402300799
}

pub open spec fn is_ascii_digit(c: char) -> bool {
    '0' <= c <= '9'
}

/// `chrono::Utc::now()`, read as seconds and sub-second nanoseconds. The result
/// depends on the clock; what holds of every outcome is that chrono's own
/// instant converts back (`DateTime::from_timestamp` accepts it) and that the
/// nanoseconds stay below two seconds.
#[verifier::external_body]
pub(crate) fn utc_now() -> (r: Timestamp)
    ensures
        r.nanos < 2_000_000_000,
        minute_stamp(r.secs, r.nanos) is Some,
{
    let now = chrono::Utc::now();
    Timestamp { secs: now.timestamp(), nanos: now.timestamp_subsec_nanos() }
}

/// `DateTime::from_timestamp(secs, nanos)` formatted with `"%Y%m%d%H%M"`. chrono
/// documents `%Y` as the year zero-padded to four digits and `%m %d %H %M` as two
/// digits each, so for a four-digit year and valid nanoseconds the text is twelve
/// ASCII digits.
#[verifier::external_body]
pub(crate) fn format_minute_stamp(t: Timestamp) -> (r: Option<String>)
    ensures
        r is Some <==> minute_stamp(t.secs, t.nanos) is Some,
        r is Some ==> r->0@ == minute_stamp(t.secs, t.nanos)->0,
        four_digit_year(t.secs) && t.nanos < 1_000_000_000 ==> {
            &&& r is Some
            &&& r->0@.len() == 12
            &&& forall|i: int| 0 <= i < 12 ==> is_ascii_digit(#[trigger] r->0@[i])
        },
{
    match chrono::DateTime::from_timestamp(t.secs, t.nanos) {
        Some(dt) => Some(dt.format("%Y%m%d%H%M").to_string()),
        None => None,
    }
}

/// A hash (`DefaultHasher`) of `SystemTime::now()`; it changes with the clock, so
/// nothing is claimed of it.
#[verifier::external_body]
pub(crate) fn system_time_hash() -> u64 {
    let mut hasher = std::collections::hash_map::DefaultHasher::new();
    std::time::SystemTime::now().hash(&mut hasher);
    hasher.finish()
}

} // verus!
