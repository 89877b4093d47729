//! Package rules: defining packages, when a bought package can be used,
//! what using it and undoing a use do, and what a refund counts as used.
use vstd::prelude::*;
use crate::text::{same_text, trimmed, trim_view};
use crate::time::{
    Instant, parse_instant, parsed_instant, add_days, days_later, instant_text, utc_rfc3339_text,
    four_digit_year, ordinary_shift,
};

verus! {

/// The package names its uses ("count") or a period ("time").
pub open spec fn count_limited(limit_type: Seq<char>) -> bool {
    limit_type == "count"@
}

pub open spec fn time_limited(limit_type: Seq<char>) -> bool {
    limit_type == "time"@
}

proof fn lemma_limit_types_distinct()
    ensures
        "count"@ != "time"@,
{
    reveal_strlit("count");
    reveal_strlit("time");
    assert("count"@[0] != "time"@[0]);
}

/// A package definition is sound, price aside: it has a name, a limit type
/// of count or time with a positive number of uses or days accordingly, and
/// a package type (a box package or a normal package).
pub open spec fn package_shape_valid(
    name: Seq<char>,
    limit_type: Seq<char>,
    total_uses: i64,
    validity_days: i64,
    package_type: Seq<char>,
) -> bool {
    &&& trim_view(name).len() > 0
    &&& (count_limited(limit_type) || time_limited(limit_type))
    &&& (count_limited(limit_type) ==> total_uses > 0)
    &&& (time_limited(limit_type) ==> validity_days > 0)
    &&& (package_type == "套盒"@ || package_type == "普通"@)
}

/// Whether a package definition is sound apart from its price.
pub fn package_shape_ok(
    name: &str,
    limit_type: &str,
    total_uses: i64,
    validity_days: i64,
    package_type: &str,
) -> (r: bool)
    ensures
        r == package_shape_valid(name@, limit_type@, total_uses, validity_days, package_type@),
        r == (trim_view(name@).len() > 0 && ((limit_type@ == "count"@ && total_uses > 0) || (
        limit_type@ == "time"@ && validity_days > 0)) && (package_type@ == "套盒"@
            || package_type@ == "普通"@)),
{
    proof {
        lemma_limit_types_distinct();
    }
    let n = trimmed(name);
    let is_count = same_text(limit_type, "count");
    let is_time = same_text(limit_type, "time");
    !(n.as_str().is_empty() || (!is_count && !is_time) || (is_count && total_uses <= 0) || (is_time
        && validity_days <= 0) || (!same_text(package_type, "套盒") && !same_text(
        package_type,
        "普通",
    )))
}

/// Whether a definition is sound does not depend on which of the two
/// package types it has.
pub proof fn law_package_type_is_independent_of_limit(
    name: Seq<char>,
    limit_type: Seq<char>,
    total_uses: i64,
    validity_days: i64,
)
    ensures
        package_shape_valid(name, limit_type, total_uses, validity_days, "套盒"@)
            == package_shape_valid(name, limit_type, total_uses, validity_days, "普通"@),
{
}

/// A definition with a name, positive uses for a count package or positive
/// days for a time package, and either package type is accepted; without a
/// name, or with no uses or days for its limit, it is refused.
pub proof fn law_sound_definitions_are_accepted(
    name: Seq<char>,
    limit_type: Seq<char>,
    total_uses: i64,
    validity_days: i64,
    package_type: Seq<char>,
)
    ensures
        trim_view(name).len() > 0 && (limit_type == "count"@ && total_uses > 0 || limit_type
            == "time"@ && validity_days > 0) && (package_type == "套盒"@ || package_type == "普通"@)
            ==> package_shape_valid(name, limit_type, total_uses, validity_days, package_type),
        trim_view(name).len() == 0 ==> !package_shape_valid(
            name,
            limit_type,
            total_uses,
            validity_days,
            package_type,
        ),
        limit_type == "count"@ && total_uses <= 0 ==> !package_shape_valid(
            name,
            limit_type,
            total_uses,
            validity_days,
            package_type,
        ),
{
    lemma_limit_types_distinct();
}

/// The uses and days a package is stored with: a count package keeps its
/// uses and no days, a time package keeps its days and counts as one use.
pub fn package_limits(limit_type: &str, total_uses: i64, validity_days: i64) -> (r: (i64, i64))
    ensures
        r.0 == (if count_limited(limit_type@) {
            total_uses
        } else {
            1
        }),
        r.1 == (if time_limited(limit_type@) {
            validity_days
        } else {
            0
        }),
{
    let uses = if same_text(limit_type, "count") {
        total_uses
    } else {
        1
    };
    let days = if same_text(limit_type, "time") {
        validity_days
    } else {
        0
    };
    (uses, days)
}

/// The kind of service record a package use makes: a normal package makes
/// a plain service, any other a package service.
pub fn package_service_type(package_type: &str) -> (r: &'static str)
    ensures
        package_type@ == "普通"@ ==> r@ == "普通手工"@,
        package_type@ != "普通"@ ==> r@ == "套盒手工"@,
{
    if same_text(package_type, "普通") {
        "普通手工"
    } else {
        "套盒手工"
    }
}

/// A time package is active while its expiry, read as RFC 3339, lies after
/// `now`; without a readable expiry it is not active.
pub open spec fn active_until(expires_at: Option<Seq<char>>, now: Instant) -> bool {
    match expires_at {
        Some(t) => match parsed_instant(t) {
            Some(e) => now.precedes(e),
            None => false,
        },
        None => false,
    }
}

pub open spec fn optional_view(o: Option<&str>) -> Option<Seq<char>> {
    match o {
        Some(t) => Some(t@),
        None => None,
    }
}

/// Whether a time package expiring at `expires_at` is still active at `now`.
pub fn time_package_is_active(expires_at: Option<&str>, now: Instant) -> (r: bool)
    ensures
        r == active_until(optional_view(expires_at), now),
        r == (expires_at matches Some(t) && parsed_instant(t@) matches Some(e) && now.precedes(e)),
{
    match expires_at {
        Some(t) => match parse_instant(t) {
            Some(e) => now.is_before(&e),
            None => false,
        },
        None => false,
    }
}

/// Why a package cannot be used, refunded or bought as asked.
#[derive(Debug, PartialEq, Eq, Structural)]
pub enum PackageError {
    /// A count package has no use left, or a time package has expired.
    UsedUpOrExpired,
    /// The package was refunded already.
    AlreadyRefunded,
    /// A time package that has expired cannot be refunded.
    ExpiredTimePackage,
    /// The activation time is not RFC 3339 text.
    InvalidActivation,
    /// The activation time lies after the time of purchase.
    ActivationInFuture,
    /// The expiry lies beyond what `chrono` can represent (where adding the
    /// validity to the activation time panics).
    ExpiryOutOfRange,
}

/// A package can be used unless a count package has no use left or a time
/// package is no longer active.
pub open spec fn package_usable(limit_type: Seq<char>, remaining_uses: i64, expires_at: Option<Seq<char>>, now: Instant) -> bool {
    !(count_limited(limit_type) && remaining_uses <= 0) && !(time_limited(limit_type) && !active_until(expires_at, now))
}

/// Checks that a bought package can be used at `now` and gives its
/// remaining uses afterwards: one less for a count package, unchanged
/// otherwise.
pub fn use_package(limit_type: &str, remaining_uses: i64, expires_at: Option<&str>, now: Instant) -> (r: Result<i64, PackageError>)
    ensures
        !package_usable(limit_type@, remaining_uses, optional_view(expires_at), now) ==> r == Err::<
            i64,
            PackageError,
        >(PackageError::UsedUpOrExpired),
        package_usable(limit_type@, remaining_uses, optional_view(expires_at), now) ==> r == Ok::<
            i64,
            PackageError,
        >(
            if count_limited(limit_type@) {
                (remaining_uses - 1) as i64
            } else {
                remaining_uses
            },
        ),
        r is Ok && limit_type@ == "time"@ ==> (expires_at matches Some(t) && parsed_instant(t@) matches Some(e)
            && now.precedes(e)),
        r is Ok && limit_type@ == "count"@ ==> remaining_uses > 0 && r == Ok::<i64, PackageError>(
            (remaining_uses - 1) as i64),
        limit_type@ == "time"@ && (expires_at matches Some(t) && parsed_instant(t@) matches Some(e)
            && now.precedes(e)) ==> r == Ok::<i64, PackageError>(remaining_uses),
        limit_type@ == "count"@ && remaining_uses > 0 ==> r is Ok,
{
    proof {
        lemma_limit_types_distinct();
    }
    let is_count = same_text(limit_type, "count");
    let is_time = same_text(limit_type, "time");
    if (is_count && remaining_uses <= 0) || (is_time && !time_package_is_active(expires_at, now)) {
        return Err(PackageError::UsedUpOrExpired);
    }
    if is_count {
        Ok(remaining_uses - 1)
    } else {
        Ok(remaining_uses)
    }
}

/// A time package can be used only while its expiry, read, lies strictly
/// after `now`; a count package only while it has a use left.
pub proof fn law_usable_means_active(limit_type: Seq<char>, remaining_uses: i64, expires_at: Option<Seq<char>>, now: Instant)
    requires
        package_usable(limit_type, remaining_uses, expires_at, now),
    ensures
        limit_type == "time"@ ==> (expires_at matches Some(t) && parsed_instant(t) matches Some(e)
            && now.precedes(e)),
        limit_type == "count"@ ==> remaining_uses > 0,
{
}

/// The uses left after a booked package service is completed: one less.
pub fn uses_after_booked_service(remaining_uses: i64) -> (r: i64)
    requires
        remaining_uses > 0,
    ensures
        r == remaining_uses - 1,
{
    remaining_uses - 1
}

/// Whether the package is limited by a number of uses.
pub fn counts_uses(limit_type: &str) -> (r: bool)
    ensures
        r == count_limited(limit_type@),
{
    same_text(limit_type, "count")
}

/// The status of a count package after a use leaves it `remaining_uses`:
/// completed once none is left, active otherwise.
pub fn status_after_use(remaining_uses: i64) -> (r: &'static str)
    ensures
        r@ == (if remaining_uses == 0 {
            "completed"@
        } else {
            "active"@
        }),
{
    if remaining_uses == 0 {
        "completed"
    } else {
        "active"
    }
}

/// The uses and status a package returns to when a service that used it is
/// cancelled: a count package gets its use back (never above its total)
/// and is active again; a time package keeps its uses and is active only
/// while it has not expired.
pub fn restore_after_cancel(
    limit_type: &str,
    remaining_uses: i64,
    total_uses: i64,
    expires_at: Option<&str>,
    now: Instant,
) -> (r: (i64, &'static str))
    requires
        count_limited(limit_type@) ==> remaining_uses < i64::MAX,
    ensures
        count_limited(limit_type@) ==> r.0 == (if remaining_uses + 1 <= total_uses {
            remaining_uses + 1
        } else {
            total_uses as int
        }) && r.1@ == "active"@,
        !count_limited(limit_type@) ==> r.0 == remaining_uses && r.1@ == (if active_until(
            optional_view(expires_at),
            now,
        ) {
            "active"@
        } else {
            "completed"@
        }),
        limit_type@ == "count"@ ==> r.0 <= total_uses || r.0 == remaining_uses + 1,
        limit_type@ == "count"@ && remaining_uses < total_uses ==> r.0 == remaining_uses + 1,
        limit_type@ != "count"@ ==> (r.1@ == "active"@ <==> (expires_at matches Some(t)
            && parsed_instant(t@) matches Some(e) && now.precedes(e))),
{
    proof {
        reveal_strlit("active");
        reveal_strlit("completed");
        assert("active"@[0] != "completed"@[0]);
    }
    if same_text(limit_type, "count") {
        let restored = if remaining_uses + 1 <= total_uses {
            remaining_uses + 1
        } else {
            total_uses
        };
        (restored, "active")
    } else if time_package_is_active(expires_at, now) {
        (remaining_uses, "active")
    } else {
        (remaining_uses, "completed")
    }
}

/// Cancelling a service undoes the use it made of a count package: the
/// package has its uses back and is active.
pub proof fn law_cancel_undoes_use(remaining_uses: i64, total_uses: i64, now: Instant)
    requires
        0 < remaining_uses <= total_uses,
    ensures
        package_usable("count"@, remaining_uses, None, now),
        ({
            let after_use = (remaining_uses - 1) as i64;
            let restored = if after_use + 1 <= total_uses {
                after_use + 1
            } else {
                total_uses as int
            };
            restored == remaining_uses
        }),
{
    lemma_limit_types_distinct();
}

/// Checks whether a bought package can be refunded before storage is asked
/// about its appointments: not twice, and not once a time package expired.
pub fn check_refundable(already_refunded: bool, limit_type: &str, expires_at: Option<&str>, now: Instant) -> (r: Result<(), PackageError>)
    ensures
        already_refunded ==> r == Err::<(), PackageError>(PackageError::AlreadyRefunded),
        !already_refunded && time_limited(limit_type@) && !active_until(optional_view(expires_at), now)
            ==> r == Err::<(), PackageError>(PackageError::ExpiredTimePackage),
        !already_refunded && !(time_limited(limit_type@) && !active_until(
            optional_view(expires_at),
            now,
        )) ==> r == Ok::<(), PackageError>(()),
        r is Ok ==> !already_refunded && (limit_type@ == "time"@ ==> (expires_at matches Some(t)
            && parsed_instant(t@) matches Some(e) && now.precedes(e))),
        !already_refunded && limit_type@ != "time"@ ==> r is Ok,
{
    if already_refunded {
        return Err(PackageError::AlreadyRefunded);
    }
    if same_text(limit_type, "time") && !time_package_is_active(expires_at, now) {
        return Err(PackageError::ExpiredTimePackage);
    }
    Ok(())
}

/// The number of uses a refund charges for: for a count package the larger
/// of the recorded uses and the uses missing from its total, for any other
/// package the recorded uses.
pub open spec fn charged_uses(limit_type: Seq<char>, total_uses: i64, remaining_uses: i64, active_consumptions: i64) -> int {
    if count_limited(limit_type) {
        let missing = if total_uses - remaining_uses > 0 {
            total_uses - remaining_uses
        } else {
            0
        };
        if active_consumptions > missing {
            active_consumptions as int
        } else {
            missing
        }
    } else {
        active_consumptions as int
    }
}

/// How many uses a package refund charges for.
pub fn refund_consumed_count(limit_type: &str, total_uses: i64, remaining_uses: i64, active_consumptions: i64) -> (r: i64)
    requires
        count_limited(limit_type@) ==> i64::MIN <= total_uses - remaining_uses <= i64::MAX,
    ensures
        r == charged_uses(limit_type@, total_uses, remaining_uses, active_consumptions),
        limit_type@ != "count"@ ==> r == active_consumptions,
        limit_type@ == "count"@ ==> r >= active_consumptions && r >= total_uses - remaining_uses
            && r >= 0 && (r == active_consumptions || r == total_uses - remaining_uses || r == 0),
{
    if same_text(limit_type, "count") {
        let used = total_uses - remaining_uses;
        let missing = if used > 0 {
            used
        } else {
            0
        };
        if active_consumptions > missing {
            active_consumptions
        } else {
            missing
        }
    } else {
        active_consumptions
    }
}

/// For a package that is not count-limited a refund charges exactly the
/// recorded uses; for a count package, the larger of the recorded uses and
/// the uses missing from its total (never below zero).
pub proof fn law_refund_charges_what_was_used(limit_type: Seq<char>, total_uses: i64, remaining_uses: i64, active_consumptions: i64)
    ensures
        limit_type != "count"@ ==> charged_uses(limit_type, total_uses, remaining_uses, active_consumptions)
            == active_consumptions,
        limit_type == "count"@ ==> {
            let c = charged_uses(limit_type, total_uses, remaining_uses, active_consumptions);
            &&& c >= active_consumptions
            &&& c >= total_uses - remaining_uses
            &&& c >= 0
            &&& (c == active_consumptions || c == total_uses - remaining_uses || c == 0)
        },
{
}

/// A refund never charges for fewer uses than were recorded, nor (for a
/// count package) fewer than are missing from its total.
pub proof fn law_refund_charges_every_use(limit_type: Seq<char>, total_uses: i64, remaining_uses: i64, active_consumptions: i64)
    ensures
        charged_uses(limit_type, total_uses, remaining_uses, active_consumptions) >= active_consumptions,
        count_limited(limit_type) ==> charged_uses(limit_type, total_uses, remaining_uses, active_consumptions)
            >= total_uses - remaining_uses,
        charged_uses(limit_type, total_uses, remaining_uses, active_consumptions) >= 0
            || active_consumptions < 0,
{
}

/// The dates a bought package is stored with.
pub struct PurchaseDates {
    /// The activation time as UTC RFC 3339 text.
    pub activated_at: String,
    /// For a time package, the expiry as UTC RFC 3339 text.
    pub expires_at: Option<String>,
    /// "completed" for a time package whose stored expiry is not after the
    /// purchase, else "active".
    pub status: &'static str,
}

/// Works out the dates of a purchase made at `now`: the activation time must
/// be readable and not in the future; a time package expires its validity
/// days after activation, and one whose stored expiry is not after `now` is
/// completed at once.
pub fn purchase_dates(activated_at: &str, now: Instant, limit_type: &str, validity_days: i64) -> (r: Result<PurchaseDates, PackageError>)
    ensures
        parsed_instant(activated_at@) is None ==> r == Err::<PurchaseDates, PackageError>(
            PackageError::InvalidActivation,
        ),
        parsed_instant(activated_at@) matches Some(a) && now.precedes(a) ==> r == Err::<
            PurchaseDates,
            PackageError,
        >(PackageError::ActivationInFuture),
        parsed_instant(activated_at@) matches Some(a) && !now.precedes(a) && time_limited(limit_type@)
            && days_later(a, validity_days) is None ==> r == Err::<PurchaseDates, PackageError>(
            PackageError::ExpiryOutOfRange,
        ),
        r matches Ok(d) ==> ({
            let a = parsed_instant(activated_at@)->0;
            &&& parsed_instant(activated_at@) is Some
            &&& !now.precedes(a)
            &&& utc_rfc3339_text(a.secs, a.nanos) == Some(d.activated_at@)
            &&& if time_limited(limit_type@) {
                let e = days_later(a, validity_days)->0;
                &&& days_later(a, validity_days) is Some
                &&& d.expires_at matches Some(t) && utc_rfc3339_text(e.secs, e.nanos) == Some(t@)
                &&& d.status@ == (if active_until(Some(d.expires_at->0@), now) {
                    "active"@
                } else {
                    "completed"@
                })
                &&& four_digit_year(e.secs as int) ==> (d.status@ == (if now.precedes(e) {
                    "active"@
                } else {
                    "completed"@
                }))
            } else {
                d.expires_at is None && d.status@ == "active"@
            }
        }),
        parsed_instant(activated_at@) matches Some(a) && !now.precedes(a) && !(time_limited(limit_type@)
            && days_later(a, validity_days) is None) ==> r is Ok,
        parsed_instant(activated_at@) matches Some(a) && ordinary_shift(a, validity_days * 86400)
            ==> r != Err::<PurchaseDates, PackageError>(PackageError::ExpiryOutOfRange),
{
    let activated = match parse_instant(activated_at) {
        Some(a) => a,
        None => return Err(PackageError::InvalidActivation),
    };
    if now.is_before(&activated) {
        return Err(PackageError::ActivationInFuture);
    }
    let activated_text = instant_text(activated);
    if same_text(limit_type, "time") {
        let expires = match add_days(activated, validity_days) {
            Some(e) => e,
            None => return Err(PackageError::ExpiryOutOfRange),
        };
        let expires_text = instant_text(expires);
        let status = if time_package_is_active(Some(expires_text.as_str()), now) {
            "active"
        } else {
            "completed"
        };
        Ok(PurchaseDates { activated_at: activated_text, expires_at: Some(expires_text), status })
    } else {
        Ok(PurchaseDates { activated_at: activated_text, expires_at: None, status: "active" })
    }
}

} // verus!
