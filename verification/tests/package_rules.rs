use chrono::{Duration, TimeZone, Utc};
use salon_core::package::{
    check_refundable, counts_uses, package_limits, status_after_use, package_service_type, package_shape_ok, purchase_dates,
    refund_consumed_count, restore_after_cancel, time_package_is_active, use_package,
    uses_after_booked_service, PackageError,
};
use salon_core::time::Instant;

fn instant(value: chrono::DateTime<Utc>) -> Instant {
    Instant {
        secs: value.timestamp(),
        nanos: value.timestamp_subsec_nanos(),
    }
}

#[test]
fn time_package_is_only_active_before_its_expiration() {
    let now = Utc::now();
    let future = (now + Duration::days(1)).to_rfc3339();
    let past = (now - Duration::days(1)).to_rfc3339();
    assert!(time_package_is_active(Some(&future), instant(now)));
    assert!(!time_package_is_active(Some(&past), instant(now)));
    assert!(!time_package_is_active(None, instant(now)));
}

#[test]
fn expiry_at_the_same_instant_or_unreadable_is_not_active() {
    let now = Utc.with_ymd_and_hms(2026, 5, 1, 8, 0, 0).unwrap();
    assert!(!time_package_is_active(Some(&now.to_rfc3339()), instant(now)));
    assert!(!time_package_is_active(Some("tomorrow"), instant(now)));
}

#[test]
fn package_definitions_are_checked() {
    assert!(package_shape_ok("护理", "count", 10, 0, "套盒"));
    assert!(package_shape_ok("月卡", "time", 0, 30, "普通"));
    assert!(!package_shape_ok("  ", "count", 10, 0, "套盒"));
    assert!(!package_shape_ok("护理", "uses", 10, 0, "套盒"));
    assert!(!package_shape_ok("护理", "count", 0, 30, "套盒"));
    assert!(!package_shape_ok("月卡", "time", 5, 0, "普通"));
    assert!(!package_shape_ok("护理", "count", 10, 0, "其他"));
}

#[test]
fn package_limits_follow_the_limit_type() {
    assert_eq!(package_limits("count", 10, 30), (10, 0));
    assert_eq!(package_limits("time", 10, 30), (1, 30));
}

#[test]
fn package_type_selects_the_service_kind() {
    assert_eq!(package_service_type("普通"), "普通手工");
    assert_eq!(package_service_type("套盒"), "套盒手工");
}

#[test]
fn using_a_package_consumes_a_count_use() {
    let now = instant(Utc.with_ymd_and_hms(2026, 5, 1, 8, 0, 0).unwrap());
    assert_eq!(use_package("count", 3, None, now), Ok(2));
    assert_eq!(use_package("count", 0, None, now), Err(PackageError::UsedUpOrExpired));
    assert_eq!(
        use_package("time", 1, Some("2026-06-01T00:00:00Z"), now),
        Ok(1)
    );
    assert_eq!(
        use_package("time", 1, Some("2026-04-01T00:00:00Z"), now),
        Err(PackageError::UsedUpOrExpired)
    );
    assert_eq!(uses_after_booked_service(1), 0);
}

#[test]
fn cancelling_a_use_restores_the_package() {
    let now = instant(Utc.with_ymd_and_hms(2026, 5, 1, 8, 0, 0).unwrap());
    let after_use = use_package("count", 4, None, now).unwrap();
    assert_eq!(restore_after_cancel("count", after_use, 10, None, now), (4, "active"));
    assert_eq!(restore_after_cancel("count", 10, 10, None, now), (10, "active"));
    assert_eq!(
        restore_after_cancel("time", 1, 1, Some("2026-06-01T00:00:00Z"), now),
        (1, "active")
    );
    assert_eq!(
        restore_after_cancel("time", 1, 1, Some("2026-04-01T00:00:00Z"), now),
        (1, "completed")
    );
}

#[test]
fn refunds_charge_every_use() {
    assert_eq!(refund_consumed_count("count", 10, 7, 2), 3);
    assert_eq!(refund_consumed_count("count", 10, 7, 5), 5);
    assert_eq!(refund_consumed_count("count", 10, 12, 0), 0);
    assert_eq!(refund_consumed_count("time", 1, 1, 4), 4);
    let now = instant(Utc.with_ymd_and_hms(2026, 5, 1, 8, 0, 0).unwrap());
    assert_eq!(
        check_refundable(true, "count", None, now),
        Err(PackageError::AlreadyRefunded)
    );
    assert_eq!(
        check_refundable(false, "time", Some("2026-04-01T00:00:00Z"), now),
        Err(PackageError::ExpiredTimePackage)
    );
    assert_eq!(check_refundable(false, "count", None, now), Ok(()));
}

#[test]
fn purchase_dates_follow_activation_and_validity() {
    let now = instant(Utc.with_ymd_and_hms(2026, 5, 1, 8, 0, 0).unwrap());
    let dates = purchase_dates("2026-04-01T08:00:00+08:00", now, "time", 60)
        .ok()
        .unwrap();
    assert_eq!(dates.activated_at, "2026-04-01T00:00:00+00:00");
    assert_eq!(dates.expires_at.as_deref(), Some("2026-05-31T00:00:00+00:00"));
    assert_eq!(dates.status, "active");
    let expired = purchase_dates("2026-03-01T00:00:00Z", now, "time", 10).ok().unwrap();
    assert_eq!(expired.status, "completed");
    let count = purchase_dates("2026-04-01T00:00:00Z", now, "count", 0).ok().unwrap();
    assert_eq!(count.expires_at, None);
    assert_eq!(count.status, "active");
    assert_eq!(
        purchase_dates("soon", now, "count", 0).err(),
        Some(PackageError::InvalidActivation)
    );
    assert_eq!(
        purchase_dates("2026-06-01T00:00:00Z", now, "count", 0).err(),
        Some(PackageError::ActivationInFuture)
    );
    assert_eq!(
        purchase_dates("2026-04-01T00:00:00Z", now, "time", i64::MAX).err(),
        Some(PackageError::ExpiryOutOfRange)
    );
}

#[test]
fn a_count_package_completes_with_its_last_use() {
    assert!(counts_uses("count"));
    assert!(!counts_uses("time"));
    assert_eq!(status_after_use(0), "completed");
    assert_eq!(status_after_use(1), "active");
    assert_eq!(status_after_use(use_package("count", 1, None, Instant { secs: 0, nanos: 0 }).unwrap()), "completed");
}

#[test]
fn overflow_guards_apply_to_count_packages_only() {
    let now = Instant { secs: 0, nanos: 0 };
    assert_eq!(restore_after_cancel("time", i64::MAX, 1, None, now), (i64::MAX, "completed"));
    assert_eq!(refund_consumed_count("time", i64::MAX, -5, 3), 3);
}
