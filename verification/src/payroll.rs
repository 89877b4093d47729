//! Payroll day counting: the calendar month a salary is computed for, the
//! days an employee was on the staff, and the working and meal days that the
//! pay rules multiply.
use vstd::prelude::*;
use crate::text::{same_text, text_order, text_before, TextOrder};
use crate::time::{Instant, parse_instant, parsed_instant, add_days, days_later, ordinary_shift};

verus! {

/// What `NaiveDate::parse_from_str` reads from `text` with the format
/// "%Y-%m-%d", as (`year()`, `month()`); `None` where it fails.
pub uninterp spec fn ymd_year_month(text: Seq<char>) -> Option<(i32, u32)>;

/// Calls `chrono::NaiveDate::parse_from_str` with the format "%Y-%m-%d";
/// claims that the result is the named `ymd_year_month` of the text, that
/// the month lies in 1..=12 (as `Datelike::month` documents) and that the
/// year lies within `NaiveDate::MIN` and `NaiveDate::MAX` (262144 BCE, that
/// is year -262143, to 262142 CE).
#[verifier::external_body]
fn parse_year_month(text: &str) -> (r: Option<(i32, u32)>)
    ensures
        r == ymd_year_month(text@),
        r matches Some(p) ==> 1 <= p.1 <= 12 && -262143 <= p.0 <= 262142,
{
    match chrono::NaiveDate::parse_from_str(text, "%Y-%m-%d") {
        Ok(d) => Some((chrono::Datelike::year(&d), chrono::Datelike::month(&d))),
        Err(_) => None,
    }
}

/// The year and month of a month text YYYY-MM, read as the first day of
/// that month.
pub open spec fn month_first_day(month: Seq<char>) -> Option<(i32, u32)> {
    ymd_year_month(month + "-01"@)
}

/// Reads the first day of the month named by `month`.
fn first_day_of_month(month: &str) -> (r: Option<(i32, u32)>)
    ensures
        r == month_first_day(month@),
        r matches Some(p) ==> 1 <= p.1 <= 12 && -262143 <= p.0 <= 262142,
{
    let date = String::from_str(month).concat("-01");
    parse_year_month(date.as_str())
}

/// A leap year of the proleptic Gregorian calendar that `chrono` uses.
pub open spec fn leap_year(year: int) -> bool {
    year % 4 == 0 && (year % 100 != 0 || year % 400 == 0)
}

/// The number of days of a month.
pub open spec fn month_length(year: int, month: int) -> int {
    if month == 2 {
        if leap_year(year) {
            29
        } else {
            28
        }
    } else if month == 4 || month == 6 || month == 9 || month == 11 {
        30
    } else {
        31
    }
}

/// A calendar month of payroll and the month after it.
#[derive(Debug, PartialEq, Eq, Structural)]
pub struct MonthSpan {
    pub year: i32,
    pub month: u32,
    pub next_year: i32,
    pub next_month: u32,
    /// The number of days of the month.
    pub days: i64,
}

/// Why a month text is refused.
#[derive(Debug, PartialEq, Eq, Structural)]
pub enum MonthError {
    /// The text is not of the form YYYY-MM.
    Malformed,
    /// The month after it lies beyond the last date `chrono` represents.
    OutOfRange,
}

/// The month `month` of `year`, the month after it and its length.
pub open spec fn span_of(year: i32, month: u32) -> MonthSpan {
    MonthSpan {
        year,
        month,
        next_year: if month == 12 {
            (year + 1) as i32
        } else {
            year
        },
        next_month: if month == 12 {
            1
        } else {
            (month + 1) as u32
        },
        days: month_length(year as int, month as int) as i64,
    }
}

/// The month `month` of `year`, the month after it and its number of days;
/// refused outside the years `chrono` represents (-262143 to 262142) and for
/// the last month it represents, which has no month after it.
pub fn span_of_month(year: i32, month: u32) -> (r: Result<MonthSpan, MonthError>)
    requires
        1 <= month <= 12,
    ensures
        r == (if year < -262143 || year > 262142 || (year == 262142 && month == 12) {
            Err(MonthError::OutOfRange)
        } else {
            Ok(span_of(year, month))
        }),
{
    if year < -262143 || year > 262142 || (year == 262142 && month == 12) {
        return Err(MonthError::OutOfRange);
    }
    let (next_year, next_month) = if month == 12 {
        (year + 1, 1)
    } else {
        (year, month + 1)
    };
    // Shifting by whole 400-year cycles keeps the calendar and makes the
    // year positive, so Rust's remainder agrees with the Euclidean one.
    let shifted: i64 = year as i64 + 400 * 1000;
    let leap = shifted % 4 == 0 && (shifted % 100 != 0 || shifted % 400 == 0);
    proof {
        assert(shifted % 4 == (year as int) % 4);
        assert(shifted % 100 == (year as int) % 100);
        assert(shifted % 400 == (year as int) % 400);
    }
    let days: i64 = if month == 2 {
        if leap {
            29
        } else {
            28
        }
    } else if month == 4 || month == 6 || month == 9 || month == 11 {
        30
    } else {
        31
    };
    Ok(MonthSpan { year, month, next_year, next_month, days })
}

/// Reads a month given as YYYY-MM and gives it, the month after it and its
/// number of days.
pub fn month_span(month: &str) -> (r: Result<MonthSpan, MonthError>)
    ensures
        r == match month_first_day(month@) {
            None => Err(MonthError::Malformed),
            Some(p) => if p.0 == 262142 && p.1 == 12 {
                Err(MonthError::OutOfRange)
            } else {
                Ok(span_of(p.0, p.1))
            },
        },
{
    match first_day_of_month(month) {
        Some((year, m)) => span_of_month(year, m),
        None => Err(MonthError::Malformed),
    }
}

/// Rest days recorded for a month lie between 0 and its number of days.
pub fn rest_days_valid(rest_days: i64, days_in_month: i64) -> (r: bool)
    ensures
        r == (0 <= rest_days <= days_in_month),
{
    0 <= rest_days && rest_days <= days_in_month
}

/// The days a month expects an employee to work: all but four, at least one.
pub fn standard_work_days(days_in_month: i64) -> (r: i64)
    requires
        days_in_month >= i64::MIN + 4,
    ensures
        r == (if days_in_month - 4 > 1 {
            days_in_month - 4
        } else {
            1
        }),
{
    let d = days_in_month - 4;
    if d > 1 {
        d
    } else {
        1
    }
}

/// How many days of the month have passed: all of a past month, today's day
/// of the current month, none of a future month.  Months are compared as
/// texts, the way they are stored.
pub fn elapsed_days(month: &str, current_month: &str, today: i64, days_in_month: i64) -> (r: i64)
    ensures
        text_before(month@, current_month@) ==> r == days_in_month,
        month@ == current_month@ ==> r == today,
        text_before(current_month@, month@) ==> r == 0,
{
    match text_order(month, current_month) {
        TextOrder::Before => days_in_month,
        TextOrder::Same => today,
        TextOrder::After => 0,
    }
}

/// Whether a month lies before the current month, so that its commission
/// settings can no longer change.
pub fn month_is_past(month: &str, current_month: &str) -> (r: bool)
    ensures
        r == text_before(month@, current_month@),
{
    text_order(month, current_month) == TextOrder::Before
}

/// Days on the staff less the rest days taken, never below zero.
pub open spec fn days_less_rest(days: i64, rest_days: i64) -> int {
    if days - rest_days > 0 {
        days - rest_days
    } else {
        0
    }
}

/// The working days of the whole month and the meal days of the part that
/// has passed: each is the days on the staff less the rest days, never
/// below zero.
pub fn attendance_days(active_days: i64, elapsed_active_days: i64, rest_days: i64) -> (r: (i64, i64))
    requires
        i64::MIN <= active_days - rest_days <= i64::MAX,
        i64::MIN <= elapsed_active_days - rest_days <= i64::MAX,
    ensures
        r.0 == days_less_rest(active_days, rest_days),
        r.1 == days_less_rest(elapsed_active_days, rest_days),
        r.0 >= 0 && r.0 >= active_days - rest_days && (r.0 == 0 || r.0 == active_days - rest_days),
        r.1 >= 0 && r.1 >= elapsed_active_days - rest_days && (r.1 == 0 || r.1
            == elapsed_active_days - rest_days),
{
    let work = active_days - rest_days;
    let meal = elapsed_active_days - rest_days;
    (if work > 0 {
        work
    } else {
        0
    }, if meal > 0 {
        meal
    } else {
        0
    })
}

// ---------------------------------------------------------------------------
// Days on the staff
// ---------------------------------------------------------------------------

/// A stored change of an employee's status: "active" or "inactive", and when
/// it took effect as RFC 3339 text.
pub struct StatusEvent {
    pub status: String,
    pub effective_at: String,
}

/// A status change read: whether the employee became active, and when.
pub struct StatusChange {
    pub active: bool,
    pub at: Instant,
}

/// Every change's time can be read.
pub open spec fn events_readable(events: Seq<StatusEvent>) -> bool {
    forall|i: int| 0 <= i < events.len() ==> (parsed_instant((#[trigger] events[i]).effective_at@) is Some)
}

/// The changes as read, in their stored order.
pub open spec fn read_events(events: Seq<StatusEvent>) -> Seq<StatusChange> {
    Seq::new(
        events.len(),
        |i: int|
            StatusChange {
                active: events[i].status@ == "active"@,
                at: parsed_instant(events[i].effective_at@)->0,
            },
    )
}

/// The last of the first `n` changes (in stored order) that took effect
/// before `end`, if any.
pub open spec fn last_change_before(changes: Seq<StatusChange>, n: int, end: Instant) -> Option<int>
    decreases n,
{
    if n <= 0 {
        None
    } else if changes[n - 1].at.precedes(end) {
        Some(n - 1)
    } else {
        last_change_before(changes, n - 1, end)
    }
}

/// The employee counts as on the staff for the day ending at `end` when the
/// last change before `end` made them active.
pub open spec fn active_at(changes: Seq<StatusChange>, end: Instant) -> bool {
    match last_change_before(changes, changes.len() as int, end) {
        Some(i) => changes[i].active,
        None => false,
    }
}

/// Every day of the first `n` days from `start` has an end that `chrono`
/// can compute.
pub open spec fn day_ends_defined(start: Instant, n: int) -> bool {
    forall|k: i64| 0 <= k < n ==> (#[trigger] days_later(start, (k + 1) as i64)) is Some
}

/// The number of the first `n` days from `start` on which the employee was
/// on the staff; day `k` ends `k + 1` days after `start`.
pub open spec fn staff_days(changes: Seq<StatusChange>, start: Instant, n: int) -> int
    decreases n,
{
    if n <= 0 {
        0
    } else {
        staff_days(changes, start, n - 1) + if active_at(
            changes,
            days_later(start, n as i64)->0,
        ) {
            1int
        } else {
            0
        }
    }
}

/// Why the days on the staff cannot be counted.
#[derive(Debug, PartialEq, Eq, Structural)]
pub enum StaffDaysError {
    /// A status change's time cannot be read.
    UnreadableTime,
    /// The end of this day (counted from 0) lies beyond what `chrono`
    /// represents, where adding the days to the start panics.
    DayOutOfRange(i64),
}

/// Reads the status changes, failing on the first whose time cannot be read.
fn read_status_events(events: &Vec<StatusEvent>) -> (r: Option<Vec<StatusChange>>)
    ensures
        match r {
            Some(v) => events_readable(events@) && v@ == read_events(events@),
            None => !events_readable(events@),
        },
{
    let mut changes: Vec<StatusChange> = Vec::new();
    let mut i: usize = 0;
    while i < events.len()
        invariant
            i <= events@.len(),
            changes@.len() == i,
            forall|j: int|
                0 <= j < i ==> parsed_instant((#[trigger] events@[j]).effective_at@) is Some,
            forall|j: int| 0 <= j < i ==> #[trigger] changes@[j] == read_events(events@)[j],
        decreases events@.len() - i,
    {
        let at = match parse_instant(events[i].effective_at.as_str()) {
            Some(at) => at,
            None => return None,
        };
        let active = same_text(events[i].status.as_str(), "active");
        changes.push(StatusChange { active, at });
        i = i + 1;
    }
    proof {
        assert(changes@ =~= read_events(events@));
    }
    Some(changes)
}

/// Whether the last change before `end` made the employee active.
fn active_before(changes: &Vec<StatusChange>, end: Instant) -> (r: bool)
    ensures
        r == active_at(changes@, end),
{
    let mut n: usize = changes.len();
    while n > 0
        invariant
            n <= changes@.len(),
            last_change_before(changes@, changes@.len() as int, end) == last_change_before(
                changes@,
                n as int,
                end,
            ),
        decreases n,
    {
        if changes[n - 1].at.is_before(&end) {
            return changes[n - 1].active;
        }
        n = n - 1;
    }
    false
}

/// Counts the days, of `days` days from `start`, on which the employee was
/// on the staff, given their status changes in stored order: a day counts
/// when the last change that took effect before the day's end made them
/// active.
pub fn active_days_for_employee(events: &Vec<StatusEvent>, start: Instant, days: i64) -> (r: Result<
    i64,
    StaffDaysError,
>)
    ensures
        !events_readable(events@) ==> r == Err::<i64, StaffDaysError>(StaffDaysError::UnreadableTime),
        events_readable(events@) && day_ends_defined(start, days as int) ==> r == Ok::<
            i64,
            StaffDaysError,
        >(staff_days(read_events(events@), start, days as int) as i64),
        r matches Err(StaffDaysError::UnreadableTime) ==> !events_readable(events@),
        ordinary_shift(start, days * 86400) ==> !(r matches Err(StaffDaysError::DayOutOfRange(_))),
        r matches Err(StaffDaysError::DayOutOfRange(k)) ==> events_readable(events@) && 0 <= k
            < days && day_ends_defined(start, k as int) && days_later(start, (k + 1) as i64) is None,
        r matches Ok(n) ==> events_readable(events@) && day_ends_defined(start, days as int) && 0
            <= n <= (if days > 0 {
            days
        } else {
            0
        }),
{
    let changes = match read_status_events(events) {
        Some(c) => c,
        None => return Err(StaffDaysError::UnreadableTime),
    };
    let mut count: i64 = 0;
    let mut offset: i64 = 0;
    while offset < days
        invariant
            changes@ == read_events(events@),
            events_readable(events@),
            0 <= offset,
            offset <= days || days < 0,
            offset < days || offset == 0 || offset == days,
            day_ends_defined(start, offset as int),
            count == staff_days(changes@, start, offset as int),
            0 <= count <= offset,
        decreases days - offset,
    {
        let day_end = match add_days(start, offset + 1) {
            Some(e) => e,
            None => return Err(StaffDaysError::DayOutOfRange(offset)),
        };
        if active_before(&changes, day_end) {
            count = count + 1;
        }
        proof {
            assert forall|k: i64| 0 <= k < offset + 1 implies (#[trigger] days_later(
                start,
                (k + 1) as i64,
            )) is Some by {
                if k < offset {
                    assert(days_later(start, (k + 1) as i64) is Some);
                }
            }
        }
        offset = offset + 1;
    }
    Ok(count)
}

/// The days on the staff never exceed the days counted.
pub proof fn law_staff_days_bounded(changes: Seq<StatusChange>, start: Instant, n: int)
    ensures
        0 <= staff_days(changes, start, n) <= (if n > 0 {
            n
        } else {
            0
        }),
    decreases n,
{
    if n > 0 {
        law_staff_days_bounded(changes, start, n - 1);
    }
}

/// Every rest day counts: the days less rest are the days on the staff less
/// all the rest days, floored at zero, so one more rest day takes one day
/// off while any are left, and none off once they are used up.
pub proof fn law_each_rest_day_counts(days: i64, rest_days: i64)
    requires
        rest_days < i64::MAX,
    ensures
        days_less_rest(days, rest_days) == (if days - rest_days > 0 {
            days - rest_days
        } else {
            0
        }),
        days - rest_days > 0 ==> days_less_rest(days, (rest_days + 1) as i64) == days_less_rest(
            days,
            rest_days,
        ) - 1,
        days - rest_days <= 0 ==> days_less_rest(days, (rest_days + 1) as i64) == 0,
        days >= 0 ==> days_less_rest(days, 0) == days,
{
}

/// Working and meal days never exceed the days on the staff they come from,
/// and are never negative.
pub proof fn law_attendance_days_bounded(days: i64, rest_days: i64)
    requires
        rest_days >= 0,
        days >= 0,
    ensures
        0 <= days_less_rest(days, rest_days) <= days,
{
}

} // verus!
