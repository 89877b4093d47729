//! UTC instants as the salon records them (RFC 3339 text), read, shifted
//! and written back through `chrono`.
use vstd::prelude::*;

verus! {

/// A UTC instant as `chrono::DateTime<Utc>` reports it: whole seconds since
/// the Unix epoch and the nanoseconds past that second (1e9 or more only
/// inside a leap second).  Instants are ordered by seconds, then nanoseconds,
/// which is the order `chrono` gives them.
#[derive(Clone, Copy, Debug, PartialEq, Eq, Structural)]
pub struct Instant {
    pub secs: i64,
    pub nanos: u32,
}

impl Instant {
    /// `self` comes strictly before `other`.
    pub open spec fn precedes(self, other: Instant) -> bool {
        self.secs < other.secs || (self.secs == other.secs && self.nanos < other.nanos)
    }

    /// Whether `self` comes strictly before `other`.
    pub fn is_before(&self, other: &Instant) -> (r: bool)
        ensures
            r == self.precedes(*other),
    {
        self.secs < other.secs || (self.secs == other.secs && self.nanos < other.nanos)
    }
}

/// What `DateTime::parse_from_rfc3339` reads from `text`, converted to UTC,
/// as (`timestamp()`, `timestamp_subsec_nanos()`); `None` where it fails.
pub uninterp spec fn rfc3339_utc(text: Seq<char>) -> Option<(i64, u32)>;

/// What `DateTime::<Utc>::from_timestamp(secs, nanos)` shifted by
/// `TimeDelta::try_seconds(delta)` with `checked_add_signed` gives, as
/// (`timestamp()`, `timestamp_subsec_nanos()`); `None` where any step fails.
pub uninterp spec fn utc_shifted(secs: i64, nanos: u32, delta: i64) -> Option<(i64, u32)>;

/// What `DateTime::<Utc>::from_timestamp(secs, nanos)` formats with
/// `to_rfc3339()`; `None` where `from_timestamp` fails.
pub uninterp spec fn utc_rfc3339_text(secs: i64, nanos: u32) -> Option<Seq<char>>;

/// Calls `chrono::DateTime::parse_from_rfc3339` and converts the result to
/// UTC; claims that the result is the named `rfc3339_utc` of the text and
/// that a parsed instant can be written back (`from_timestamp` round-trips
/// with `timestamp` and `timestamp_subsec_nanos`, as its documentation says).
#[verifier::external_body]
fn rfc3339_parts(text: &str) -> (r: Option<(i64, u32)>)
    ensures
        r == rfc3339_utc(text@),
        r matches Some(p) ==> utc_rfc3339_text(p.0, p.1) is Some,
{
    match chrono::DateTime::parse_from_rfc3339(text) {
        Ok(d) => {
            let u = d.with_timezone(&chrono::Utc);
            Some((u.timestamp(), u.timestamp_subsec_nanos()))
        },
        Err(_) => None,
    }
}

/// Where a whole number of seconds `delta` moves the instant (`secs`,
/// `nanos`), as `NaiveTime::overflowing_add_signed` computes it: the
/// seconds move by `delta` and the nanoseconds stay; an instant inside a
/// leap second (`nanos` of 1e9 or more) leaves it, counted as the second
/// after it when moving back and as the second before it otherwise, unless
/// `delta` is zero.
pub open spec fn shift_by_seconds(secs: int, nanos: int, delta: int) -> (int, int) {
    if nanos < 1_000_000_000 || delta == 0 {
        (secs + delta, nanos)
    } else if delta > 0 {
        (secs + delta, nanos - 1_000_000_000)
    } else {
        (secs + delta + 1, nanos - 1_000_000_000)
    }
}

/// The instants of years 0 to 9999 (UTC), which `to_rfc3339` writes with a
/// four-digit year.
pub open spec fn four_digit_year(secs: int) -> bool {
    -62167219200 <= secs <= 253402300799
}

/// Calls `chrono::DateTime::checked_add_signed` on the instant given by
/// `from_timestamp(secs, nanos)` and the delta `TimeDelta::try_seconds(delta)`;
/// claims that the result is the named `utc_shifted` of the arguments, that
/// where it exists it is the instant moved by `delta` seconds (the
/// arithmetic of `NaiveTime::overflowing_add_signed`, with whole days
/// carried into the date), and that it can be written back (the same round
/// trip).  It claims a result where the instant exists and both it and the
/// shifted time lie in years 0 to 9999, far inside the dates `chrono`
/// represents (a `TimeDelta` of at most about 3.2e11 seconds, and dates
/// within `NaiveDate::MIN` and `MAX`); beyond that, when the result is
/// `None` is left to the name.
#[verifier::external_body]
fn shifted_parts(secs: i64, nanos: u32, delta: i64) -> (r: Option<(i64, u32)>)
    ensures
        r == utc_shifted(secs, nanos, delta),
        r matches Some(p) ==> utc_rfc3339_text(p.0, p.1) is Some,
        r matches Some(p) ==> (p.0 as int, p.1 as int) == shift_by_seconds(
            secs as int,
            nanos as int,
            delta as int,
        ),
        utc_rfc3339_text(secs, nanos) is Some && four_digit_year(secs as int) && four_digit_year(
            secs + delta,
        ) ==> r is Some,
{
    let base = match chrono::DateTime::from_timestamp(secs, nanos) {
        Some(d) => d,
        None => return None,
    };
    let step = match chrono::TimeDelta::try_seconds(delta) {
        Some(t) => t,
        None => return None,
    };
    match base.checked_add_signed(step) {
        Some(d) => Some((d.timestamp(), d.timestamp_subsec_nanos())),
        None => None,
    }
}

/// Calls `chrono::DateTime::to_rfc3339` on `from_timestamp(secs, nanos)`;
/// claims that the text is the named `utc_rfc3339_text` of the instant and,
/// for years 0 to 9999 (written with four digits, "+00:00" and the
/// fraction of a second, ":60" inside a leap second), that
/// `parse_from_rfc3339` reads it back as the same instant.  Other years are
/// written with a sign and five or more digits, which that parser refuses.
#[verifier::external_body]
fn rfc3339_text(secs: i64, nanos: u32) -> (r: Option<String>)
    ensures
        match r {
            Some(t) => utc_rfc3339_text(secs, nanos) == Some(t@),
            None => utc_rfc3339_text(secs, nanos) is None,
        },
        four_digit_year(secs as int) ==> (r matches Some(t) ==> rfc3339_utc(t@) == Some((secs, nanos))),
{
    match chrono::DateTime::from_timestamp(secs, nanos) {
        Some(d) => Some(d.to_rfc3339()),
        None => None,
    }
}

pub open spec fn instant_of(parts: Option<(i64, u32)>) -> Option<Instant> {
    match parts {
        Some(p) => Some(Instant { secs: p.0, nanos: p.1 }),
        None => None,
    }
}

/// The UTC instant that RFC 3339 text denotes, if it is valid.
pub open spec fn parsed_instant(text: Seq<char>) -> Option<Instant> {
    instant_of(rfc3339_utc(text))
}

/// The parts of `at` moved by `delta` seconds fit an `Instant`.
pub open spec fn shift_fits(at: Instant, delta: int) -> bool {
    let p = shift_by_seconds(at.secs as int, at.nanos as int, delta);
    i64::MIN <= p.0 <= i64::MAX && 0 <= p.1 <= u32::MAX
}

/// `at` moved by `delta` seconds, where `chrono` can represent both the
/// delta and the result.
pub open spec fn seconds_later(at: Instant, delta: int) -> Option<Instant> {
    if i64::MIN <= delta <= i64::MAX && utc_shifted(at.secs, at.nanos, delta as i64) is Some
        && shift_fits(at, delta) {
        let p = shift_by_seconds(at.secs as int, at.nanos as int, delta);
        Some(Instant { secs: p.0 as i64, nanos: p.1 as u32 })
    } else {
        None
    }
}

/// Moving an instant forward by a positive number of seconds gives a later
/// instant.
pub proof fn law_moving_forward_is_later(at: Instant, delta: int)
    requires
        delta > 0,
        seconds_later(at, delta) is Some,
    ensures
        at.precedes(seconds_later(at, delta)->0),
{
}

/// `at` can be written and both it and `at` moved by `delta` seconds lie in
/// years 0 to 9999: ordinary times, where `chrono` always computes a shift.
pub open spec fn ordinary_shift(at: Instant, delta: int) -> bool {
    representable(at) && four_digit_year(at.secs as int) && four_digit_year(at.secs + delta)
}

/// An instant that `chrono` can write as RFC 3339 text.
pub open spec fn representable(at: Instant) -> bool {
    utc_rfc3339_text(at.secs, at.nanos) is Some
}

/// `at + Duration::minutes(minutes)`; `None` where that addition panics.
pub open spec fn minutes_later(at: Instant, minutes: i64) -> Option<Instant> {
    seconds_later(at, minutes * 60)
}

/// `at + Duration::days(days)`; `None` where that addition panics.
pub open spec fn days_later(at: Instant, days: i64) -> Option<Instant> {
    seconds_later(at, days * 86400)
}

fn from_parts(parts: Option<(i64, u32)>) -> (r: Option<Instant>)
    ensures
        r == instant_of(parts),
{
    match parts {
        Some(p) => Some(Instant { secs: p.0, nanos: p.1 }),
        None => None,
    }
}

/// Reads RFC 3339 text as a UTC instant.
pub fn parse_instant(text: &str) -> (r: Option<Instant>)
    ensures
        r == parsed_instant(text@),
        r matches Some(at) ==> representable(at),
{
    from_parts(rfc3339_parts(text))
}

/// `at` plus a number of minutes, or `None` where `chrono` cannot represent
/// the delta or the result.
pub fn add_minutes(at: Instant, minutes: i64) -> (r: Option<Instant>)
    ensures
        r == minutes_later(at, minutes),
        r matches Some(t) ==> representable(t),
        ordinary_shift(at, minutes * 60) ==> r is Some,
{
    match minutes.checked_mul(60) {
        Some(delta) => from_parts(shifted_parts(at.secs, at.nanos, delta)),
        None => None,
    }
}

/// `at` plus a number of days, or `None` where `chrono` cannot represent the
/// delta or the result.
pub fn add_days(at: Instant, days: i64) -> (r: Option<Instant>)
    ensures
        r == days_later(at, days),
        r matches Some(t) ==> representable(t),
        ordinary_shift(at, days * 86400) ==> r is Some,
{
    match days.checked_mul(86400) {
        Some(delta) => from_parts(shifted_parts(at.secs, at.nanos, delta)),
        None => None,
    }
}

/// The RFC 3339 text of `at` in UTC, or `None` where `at` is not an instant
/// that `chrono` can represent; in years 0 to 9999 the text reads back as
/// `at`.  See also `instant_text`.
pub fn format_instant(at: Instant) -> (r: Option<String>)
    ensures
        match r {
            Some(t) => utc_rfc3339_text(at.secs, at.nanos) == Some(t@),
            None => utc_rfc3339_text(at.secs, at.nanos) is None,
        },
        four_digit_year(at.secs as int) ==> (r matches Some(t) ==> parsed_instant(t@) == Some(at)),
{
    rfc3339_text(at.secs, at.nanos)
}

/// The RFC 3339 text of an instant known to be representable; in years 0
/// to 9999 it reads back as `at`.
pub fn instant_text(at: Instant) -> (r: String)
    requires
        representable(at),
    ensures
        utc_rfc3339_text(at.secs, at.nanos) == Some(r@),
        four_digit_year(at.secs as int) ==> parsed_instant(r@) == Some(at),
{
    match rfc3339_text(at.secs, at.nanos) {
        Some(t) => t,
        None => {
            proof {
                assert(false);
            }
            String::new()
        },
    }
}

} // verus!
