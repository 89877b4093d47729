use salon_core::payroll::{
    active_days_for_employee, attendance_days, elapsed_days, month_is_past, month_span,
    rest_days_valid, span_of_month, standard_work_days, MonthError, MonthSpan, StaffDaysError, StatusEvent,
};
use salon_core::time::parse_instant;

fn event(status: &str, at: &str) -> StatusEvent {
    StatusEvent {
        status: status.to_string(),
        effective_at: at.to_string(),
    }
}

#[test]
fn month_spans_know_their_length() {
    assert_eq!(
        month_span("2026-02"),
        Ok(MonthSpan { year: 2026, month: 2, next_year: 2026, next_month: 3, days: 28 })
    );
    assert_eq!(month_span("2024-02").unwrap().days, 29);
    assert_eq!(month_span("2000-02").unwrap().days, 29);
    assert_eq!(month_span("1900-02").unwrap().days, 28);
    assert_eq!(month_span("2026-04").unwrap().days, 30);
    assert_eq!(
        month_span("2026-12"),
        Ok(MonthSpan { year: 2026, month: 12, next_year: 2027, next_month: 1, days: 31 })
    );
    assert_eq!(month_span("2026-13"), Err(MonthError::Malformed));
    assert_eq!(month_span("May"), Err(MonthError::Malformed));
}

#[test]
fn rest_and_standard_days() {
    assert!(rest_days_valid(0, 30));
    assert!(rest_days_valid(30, 30));
    assert!(!rest_days_valid(31, 30));
    assert!(!rest_days_valid(-1, 30));
    assert_eq!(standard_work_days(31), 27);
    assert_eq!(standard_work_days(4), 1);
}

#[test]
fn elapsed_days_depend_on_the_month() {
    assert_eq!(elapsed_days("2026-04", "2026-05", 12, 30), 30);
    assert_eq!(elapsed_days("2026-05", "2026-05", 12, 31), 12);
    assert_eq!(elapsed_days("2026-06", "2026-05", 12, 30), 0);
    assert!(month_is_past("2025-12", "2026-01"));
    assert!(!month_is_past("2026-01", "2026-01"));
    assert!(!month_is_past("2026-02", "2026-01"));
}

#[test]
fn attendance_days_subtract_rest() {
    assert_eq!(attendance_days(30, 12, 4), (26, 8));
    assert_eq!(attendance_days(3, 2, 4), (0, 0));
}

#[test]
fn active_days_follow_status_changes() {
    let start = parse_instant("2026-04-01T00:00:00Z").unwrap();
    let always = vec![event("active", "2026-01-01T00:00:00Z")];
    assert_eq!(active_days_for_employee(&always, start, 30), Ok(30));
    let left = vec![
        event("active", "2026-01-01T00:00:00Z"),
        event("inactive", "2026-04-10T12:00:00Z"),
    ];
    assert_eq!(active_days_for_employee(&left, start, 30), Ok(9));
    let joined = vec![event("active", "2026-04-20T09:00:00Z")];
    assert_eq!(active_days_for_employee(&joined, start, 30), Ok(11));
    assert_eq!(active_days_for_employee(&joined, start, 0), Ok(0));
    assert_eq!(active_days_for_employee(&Vec::new(), start, 30), Ok(0));
    let broken = vec![event("active", "yesterday")];
    assert_eq!(
        active_days_for_employee(&broken, start, 30),
        Err(StaffDaysError::UnreadableTime)
    );
}

#[test]
fn active_days_use_the_last_change_in_stored_order() {
    let start = parse_instant("2026-04-01T00:00:00Z").unwrap();
    let out_of_order = vec![
        event("active", "2026-04-05T00:00:00Z"),
        event("inactive", "2026-03-01T00:00:00Z"),
    ];
    assert_eq!(active_days_for_employee(&out_of_order, start, 10), Ok(0));
}

#[test]
fn spans_of_months_given_by_number() {
    let feb = span_of_month(2024, 2).unwrap();
    assert_eq!((feb.next_year, feb.next_month, feb.days), (2024, 3, 29));
    let dec = span_of_month(1900, 12).unwrap();
    assert_eq!((dec.next_year, dec.next_month, dec.days), (1901, 1, 31));
    assert_eq!(span_of_month(1900, 2).unwrap().days, 28);
    assert_eq!(span_of_month(-4, 2).unwrap().days, 29);
    assert_eq!(span_of_month(262142, 12), Err(MonthError::OutOfRange));
    assert_eq!(span_of_month(262143, 1), Err(MonthError::OutOfRange));
    assert_eq!(span_of_month(-262144, 1), Err(MonthError::OutOfRange));
}
