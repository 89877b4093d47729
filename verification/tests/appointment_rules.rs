use chrono::{Duration, TimeZone, Utc};
use salon_core::appointment::{
    appointment_editable, check_booking_time, classify_customer, classify_service,
    check_in_service, completion_route, find_conflict, overlap_when_defined, time_ranges_overlap,
    transition_allowed, BookedService, BookedSlot, BookingError, CompletionError,
    CompletionRoute, Customer, SlotCheck,
};
use salon_core::time::Instant;

fn instant(value: chrono::DateTime<Utc>) -> Instant {
    Instant {
        secs: value.timestamp(),
        nanos: value.timestamp_subsec_nanos(),
    }
}

fn slot(id: &str, name: &str, starts_at: &str, duration: i64) -> BookedSlot {
    BookedSlot {
        id: id.to_string(),
        customer_name: name.to_string(),
        starts_at: starts_at.to_string(),
        duration,
    }
}

#[test]
fn appointment_conflicts_only_when_time_ranges_overlap() {
    let start = Utc.with_ymd_and_hms(2026, 8, 20, 6, 0, 0).unwrap();
    assert!(time_ranges_overlap(
        instant(start),
        60,
        instant(start + Duration::minutes(30)),
        60
    ));
    assert!(!time_ranges_overlap(
        instant(start),
        60,
        instant(start + Duration::minutes(60)),
        60
    ));
}

#[test]
fn appointment_status_transitions_are_restricted() {
    assert!(transition_allowed("pending", "arrived"));
    assert!(transition_allowed("arrived", "in_service"));
    assert!(!transition_allowed("completed", "arrived"));
    assert!(!transition_allowed("pending", "completed"));
}

#[test]
fn every_allowed_transition_and_no_other() {
    let statuses = ["pending", "arrived", "in_service", "completed", "cancelled", "no_show"];
    let allowed = [
        ("pending", "arrived"),
        ("pending", "cancelled"),
        ("pending", "no_show"),
        ("arrived", "in_service"),
        ("arrived", "cancelled"),
    ];
    for current in statuses {
        for next in statuses {
            assert_eq!(
                transition_allowed(current, next),
                allowed.contains(&(current, next)),
                "{current} -> {next}"
            );
        }
    }
    assert!(!transition_allowed("Pending", "arrived"));
}

#[test]
fn closed_statuses_admit_no_change() {
    for closed in ["completed", "cancelled", "no_show"] {
        for next in ["pending", "arrived", "in_service", "completed", "cancelled", "no_show"] {
            assert!(!transition_allowed(closed, next));
        }
    }
}

#[test]
fn only_pending_and_arrived_bookings_are_editable() {
    assert!(appointment_editable("pending"));
    assert!(appointment_editable("arrived"));
    assert!(!appointment_editable("in_service"));
    assert!(!appointment_editable("completed"));
    assert!(!appointment_editable("cancelled"));
    assert!(!appointment_editable("no_show"));
}

#[test]
fn overlap_is_symmetric_and_back_to_back_is_free() {
    let start = Utc.with_ymd_and_hms(2026, 3, 1, 9, 0, 0).unwrap();
    let later = start + Duration::minutes(45);
    assert_eq!(
        time_ranges_overlap(instant(start), 60, instant(later), 30),
        time_ranges_overlap(instant(later), 30, instant(start), 60)
    );
    assert!(time_ranges_overlap(instant(later), 30, instant(start), 60));
    assert!(!time_ranges_overlap(instant(later), 15, instant(start), 45));
    assert!(!time_ranges_overlap(instant(start), 45, instant(later), 15));
}

#[test]
fn overlap_reports_unrepresentable_ends() {
    let start = Utc.with_ymd_and_hms(2026, 3, 1, 9, 0, 0).unwrap();
    assert_eq!(
        overlap_when_defined(instant(start), 60, instant(start), 30),
        Some(true)
    );
    assert_eq!(
        overlap_when_defined(instant(start), i64::MAX, instant(start), 30),
        None
    );
}

#[test]
fn conflict_check_skips_the_edited_booking_and_unreadable_starts() {
    let start = Utc.with_ymd_and_hms(2026, 8, 20, 6, 0, 0).unwrap();
    let slots = vec![
        slot("a", "Edited", "2026-08-20T06:00:00+00:00", 60),
        slot("b", "Broken", "not a time", 60),
        slot("c", "Early", "2026-08-20T05:00:00+00:00", 60),
        slot("d", "Clash", "2026-08-20T14:30:00+08:00", 60),
        slot("e", "Later", "2026-08-20T06:45:00+00:00", 60),
    ];
    assert_eq!(find_conflict(instant(start), 60, Some("a"), &slots), SlotCheck::Taken(3));
    assert_eq!(find_conflict(instant(start), 60, None, &slots), SlotCheck::Taken(0));
    let quiet = vec![
        slot("a", "Edited", "2026-08-20T06:00:00+00:00", 60),
        slot("b", "Broken", "not a time", 60),
        slot("c", "Early", "2026-08-20T05:00:00+00:00", 60),
    ];
    assert_eq!(find_conflict(instant(start), 60, Some("a"), &quiet), SlotCheck::Free);
    assert_eq!(find_conflict(instant(start), 60, None, &Vec::new()), SlotCheck::Free);
    let huge = vec![slot("x", "Huge", "2026-08-20T05:00:00Z", i64::MAX)];
    assert_eq!(
        find_conflict(instant(start), 60, None, &huge),
        SlotCheck::Unrepresentable(0)
    );
}

#[test]
fn booking_time_is_checked_and_normalised() {
    assert_eq!(
        check_booking_time(0, "2026-08-20T06:00:00Z").err(),
        Some(BookingError::InvalidDuration)
    );
    assert_eq!(
        check_booking_time(1441, "2026-08-20T06:00:00Z").err(),
        Some(BookingError::InvalidDuration)
    );
    assert_eq!(
        check_booking_time(60, "20 August").err(),
        Some(BookingError::InvalidStart)
    );
    let booked = check_booking_time(1440, "2026-08-20T14:00:00+08:00").ok().unwrap();
    assert_eq!(booked.starts_at_text, "2026-08-20T06:00:00+00:00");
    assert_eq!(
        booked.starts_at,
        instant(Utc.with_ymd_and_hms(2026, 8, 20, 6, 0, 0).unwrap())
    );
}

#[test]
fn customers_are_members_or_named_guests() {
    assert!(matches!(classify_customer("member", "", ""), Ok(Customer::Member)));
    match classify_customer("guest", "  Lin ", "\t138 ") {
        Ok(Customer::Guest { name, phone }) => {
            assert_eq!(name, "Lin");
            assert_eq!(phone, "138");
        }
        _ => panic!("guest expected"),
    }
    assert_eq!(
        classify_customer("guest", "  ", "138").err(),
        Some(BookingError::MissingGuestDetails)
    );
    assert_eq!(
        classify_customer("guest", "Lin", "").err(),
        Some(BookingError::MissingGuestDetails)
    );
    assert_eq!(
        classify_customer("vip", "Lin", "138").err(),
        Some(BookingError::InvalidCustomerType)
    );
}

#[test]
fn services_are_projects_or_member_packages() {
    assert_eq!(classify_service("普通手工", false), Ok(BookedService::Project));
    assert_eq!(classify_service("套盒手工", true), Ok(BookedService::Package));
    assert_eq!(
        classify_service("套盒手工", false),
        Err(BookingError::PackageNeedsMember)
    );
    assert_eq!(
        classify_service("其他", true),
        Err(BookingError::InvalidServiceType)
    );
}

#[test]
fn completion_routes_package_and_project_services() {
    match completion_route("套盒手工", Some("m1"), Some("p1"), None) {
        Ok(CompletionRoute::Package { member_id, purchase_id }) => {
            assert_eq!(member_id, "m1");
            assert_eq!(purchase_id, "p1");
        }
        _ => panic!("package route expected"),
    }
    assert_eq!(
        completion_route("套盒手工", None, Some("p1"), None).err(),
        Some(CompletionError::MissingMember)
    );
    assert_eq!(
        completion_route("套盒手工", Some("m1"), None, Some("x")).err(),
        Some(CompletionError::MissingPackage)
    );
    match completion_route("普通手工", None, None, Some("proj")) {
        Ok(CompletionRoute::Project { project_id }) => assert_eq!(project_id, "proj"),
        _ => panic!("project route expected"),
    }
    assert_eq!(
        completion_route("普通手工", Some("m1"), Some("p1"), None).err(),
        Some(CompletionError::MissingProject)
    );
}

#[test]
fn only_an_appointment_in_service_can_be_completed() {
    assert_eq!(check_in_service("in_service"), Ok(()));
    for status in ["pending", "arrived", "completed", "cancelled", "no_show", ""] {
        assert_eq!(check_in_service(status), Err(CompletionError::NotInService));
    }
}
