use salon_core::maintenance::{backups_to_remove, column_name, is_backup_from};
use salon_core::service::{
    check_project_shape, check_service_cancellable, check_service_request,
    default_service_duration, employee_lookup_name, guest_display_name, recharge_request_ok,
    service_length_valid, service_payment_method, valid_external_payment_method, ServiceError,
};
use salon_core::text::{nonblank_trimmed, same_text, text_contains, text_order, trimmed, TextOrder};
use salon_core::time::{add_days, add_minutes, format_instant, parse_instant, Instant};

#[test]
fn external_payment_methods_are_listed() {
    for method in ["微信支付", "支付宝", "现金", "银行卡"] {
        assert!(valid_external_payment_method(method));
    }
    assert!(!valid_external_payment_method("会员余额"));
    assert!(!valid_external_payment_method(""));
}

#[test]
fn service_defaults_and_lengths() {
    assert_eq!(default_service_duration(), 60);
    assert!(service_length_valid(1));
    assert!(!service_length_valid(0));
}

#[test]
fn service_payment_labels() {
    assert_eq!(
        service_payment_method(true, true, "现金").unwrap(),
        "会员余额+现金"
    );
    assert_eq!(service_payment_method(true, false, "").unwrap(), "会员余额");
    assert_eq!(service_payment_method(false, true, "支付宝").unwrap(), "支付宝");
    assert_eq!(
        service_payment_method(false, true, "赊账").err(),
        Some(ServiceError::MissingPaymentMethod)
    );
}

#[test]
fn service_requests_and_names() {
    assert_eq!(
        check_service_request(" r1 ", "p1", " ").unwrap(),
        ("r1".to_string(), false)
    );
    assert_eq!(
        check_service_request("r1", "p1", "m1").unwrap(),
        ("r1".to_string(), true)
    );
    assert_eq!(
        check_service_request(" ", "p1", "m1").err(),
        Some(ServiceError::MissingProject)
    );
    assert_eq!(
        check_service_request("r1", "", "m1").err(),
        Some(ServiceError::MissingProject)
    );
    assert_eq!(guest_display_name(" 王女士 ").unwrap(), "王女士");
    assert_eq!(guest_display_name("\u{3000}").err(), Some(ServiceError::MissingGuestName));
    assert_eq!(employee_lookup_name(" 林晓雅").unwrap(), "林晓雅");
    assert_eq!(employee_lookup_name("").err(), Some(ServiceError::MissingEmployee));
}

#[test]
fn only_settled_plain_services_cancel_this_way() {
    assert_eq!(check_service_cancellable("普通手工", Some("t1")), Ok(()));
    assert_eq!(
        check_service_cancellable("普通手工", Some("")),
        Err(ServiceError::NotCancellable)
    );
    assert_eq!(
        check_service_cancellable("普通手工", None),
        Err(ServiceError::NotCancellable)
    );
    assert_eq!(
        check_service_cancellable("套盒手工", Some("t1")),
        Err(ServiceError::NotCancellable)
    );
}

#[test]
fn recharge_and_project_checks() {
    assert!(recharge_request_ok("recharge", "现金"));
    assert!(!recharge_request_ok("recharge", "会员余额"));
    assert!(!recharge_request_ok("consume", "现金"));
    assert_eq!(check_project_shape(" 面部护理 ", 60), Some("面部护理".to_string()));
    assert_eq!(check_project_shape("面部护理", 0), None);
    assert_eq!(check_project_shape("面部护理", 1441), None);
    assert_eq!(check_project_shape(" ", 60), None);
}

#[test]
fn trimming_matches_str_trim() {
    for text in ["", "   ", " a b ", "\u{3000}名字\u{2003}", "\tx\n", "abc", "\u{85}z\u{a0}"] {
        assert_eq!(trimmed(text), text.trim());
        assert_eq!(nonblank_trimmed(text).is_none(), text.trim().is_empty());
    }
}

#[test]
fn text_helpers() {
    assert!(same_text("abc", "abc"));
    assert!(!same_text("abc", "abd"));
    assert_eq!(text_order("2026-01", "2026-02"), TextOrder::Before);
    assert_eq!(text_order("2026-02", "2026-02"), TextOrder::Same);
    assert_eq!(text_order("2026-10", "2026-9"), TextOrder::Before);
    assert_eq!(text_order("2026-02-01", "2026-02"), TextOrder::After);
    assert!(text_contains("salon-auto-20260501-101010.db", "auto-20260501"));
    assert!(!text_contains("salon-manual-20260501.db", "auto-20260501"));
    assert!(text_contains("abc", ""));
}

#[test]
fn backups_and_columns() {
    assert_eq!(backups_to_remove(0), 0);
    assert_eq!(backups_to_remove(30), 0);
    assert_eq!(backups_to_remove(34), 4);
    assert!(is_backup_from("salon-auto-20260501-101010.db", "auto-20260501"));
    assert!(!is_backup_from("salon-auto-20260430-101010.db", "auto-20260501"));
    assert_eq!(column_name("gift_balance REAL NOT NULL DEFAULT 0"), "gift_balance");
    assert_eq!(column_name("  note TEXT"), "note");
    assert_eq!(column_name("   "), "");
}

#[test]
fn time_wrappers_follow_chrono() {
    let at = parse_instant("2026-05-01T08:00:00+08:00").unwrap();
    assert_eq!(at, Instant { secs: 1777593600, nanos: 0 });
    assert_eq!(parse_instant("2026-05-01"), None);
    assert_eq!(
        add_minutes(at, 90),
        Some(Instant { secs: 1777593600 + 5400, nanos: 0 })
    );
    assert_eq!(add_days(at, 1), Some(Instant { secs: 1777593600 + 86400, nanos: 0 }));
    assert_eq!(add_minutes(at, i64::MAX), None);
    assert_eq!(add_days(at, 1_000_000_000), None);
    assert_eq!(format_instant(at).unwrap(), "2026-05-01T00:00:00+00:00");
    assert_eq!(format_instant(Instant { secs: i64::MAX, nanos: 0 }), None);
    assert!(at.is_before(&Instant { secs: 1777593600, nanos: 1 }));
    assert!(!at.is_before(&at));
}

#[test]
fn shifting_moves_whole_seconds_and_leaves_leap_seconds() {
    let plain = Instant { secs: 0, nanos: 5 };
    assert_eq!(add_minutes(plain, 2), Some(Instant { secs: 120, nanos: 5 }));
    assert_eq!(add_minutes(plain, -1), Some(Instant { secs: -60, nanos: 5 }));
    let leap = Instant { secs: 59, nanos: 1_500_000_000 };
    assert_eq!(add_minutes(leap, 1), Some(Instant { secs: 119, nanos: 500_000_000 }));
    assert_eq!(add_minutes(leap, 0), Some(leap));
    assert_eq!(add_minutes(leap, -1), Some(Instant { secs: 0, nanos: 500_000_000 }));
    assert_eq!(add_days(plain, 1), Some(Instant { secs: 86_400, nanos: 5 }));
}

#[test]
fn written_instants_read_back_in_four_digit_years() {
    for at in [
        Instant { secs: 0, nanos: 0 },
        Instant { secs: 1_700_000_000, nanos: 123_000_000 },
        Instant { secs: 1_700_000_000, nanos: 123_456_789 },
        Instant { secs: 59, nanos: 1_250_000_000 },
        Instant { secs: -62_167_219_200, nanos: 0 },
        Instant { secs: 253_402_300_799, nanos: 999_999_999 },
    ] {
        let text = format_instant(at).unwrap();
        assert_eq!(parse_instant(&text), Some(at));
    }
    let text = format_instant(Instant { secs: 253_402_300_800, nanos: 0 }).unwrap();
    assert_eq!(parse_instant(&text), None);
}

#[test]
fn ordinary_times_can_always_be_shifted() {
    let at = parse_instant("2026-08-20T06:00:00Z").unwrap();
    assert_eq!(add_minutes(at, 60), parse_instant("2026-08-20T07:00:00Z"));
    assert_eq!(add_days(at, 1), parse_instant("2026-08-21T06:00:00Z"));
}
