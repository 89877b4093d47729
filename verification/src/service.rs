//! Rules for recording and cancelling services and for the other requests
//! that register money movements or catalogue entries.
use vstd::prelude::*;
use crate::text::{same_text, nonblank_trimmed, filled, trim_view};

verus! {

/// The ways a customer may pay what their balance does not cover: WeChat
/// Pay, Alipay, cash or bank card.
pub open spec fn external_payment_method(value: Seq<char>) -> bool {
    ||| value == "微信支付"@
    ||| value == "支付宝"@
    ||| value == "现金"@
    ||| value == "银行卡"@
}

/// Whether `value` is a way to pay outside the member balance.
pub fn valid_external_payment_method(value: &str) -> (r: bool)
    ensures
        r == external_payment_method(value@),
{
    same_text(value, "微信支付") || same_text(value, "支付宝") || same_text(value, "现金") || same_text(
        value,
        "银行卡",
    )
}

/// The length in minutes of a package service when none is given.
pub fn default_service_duration() -> (r: i64)
    ensures
        r == 60,
{
    60
}

/// A service must last a positive number of minutes.
pub fn service_length_valid(duration: i64) -> (r: bool)
    ensures
        r == (duration > 0),
{
    duration > 0
}

/// Why a service cannot be recorded or cancelled.
#[derive(Debug, PartialEq, Eq, Structural)]
pub enum ServiceError {
    /// No project (or no request id) is chosen.
    MissingProject,
    /// A guest gives no name.
    MissingGuestName,
    /// Part of the price is paid outside the balance, with no valid method.
    MissingPaymentMethod,
    /// Only a settled plain service can be cancelled this way.
    NotCancellable,
    /// No handling employee is chosen.
    MissingEmployee,
}

/// The identifiers of a service request: the request id (trimmed, it
/// becomes the service id) and the project must not be blank; the service is
/// a member's when the member id is not blank.
pub fn check_service_request(request_id: &str, project_id: &str, member_id: &str) -> (r: Result<
    (String, bool),
    ServiceError,
>)
    ensures
        filled(request_id@) is None || filled(project_id@) is None ==> r == Err::<
            (String, bool),
            ServiceError,
        >(ServiceError::MissingProject),
        filled(request_id@) is Some && filled(project_id@) is Some ==> (r matches Ok(p) && p.0@
            == trim_view(request_id@) && p.1 == (filled(member_id@) is Some)),
{
    let id = match nonblank_trimmed(request_id) {
        Some(t) => t,
        None => return Err(ServiceError::MissingProject),
    };
    if nonblank_trimmed(project_id).is_none() {
        return Err(ServiceError::MissingProject);
    }
    Ok((id, nonblank_trimmed(member_id).is_some()))
}

/// The name a guest's service is recorded under: the guest's name, trimmed,
/// which must not be blank.
pub fn guest_display_name(guest_name: &str) -> (r: Result<String, ServiceError>)
    ensures
        match filled(guest_name@) {
            Some(t) => r matches Ok(n) && n@ == t,
            None => r == Err::<String, ServiceError>(ServiceError::MissingGuestName),
        },
{
    match nonblank_trimmed(guest_name) {
        Some(t) => Ok(t),
        None => Err(ServiceError::MissingGuestName),
    }
}

/// The name of the handling employee to look up: trimmed, not blank.
pub fn employee_lookup_name(employee: &str) -> (r: Result<String, ServiceError>)
    ensures
        match filled(employee@) {
            Some(t) => r matches Ok(n) && n@ == t,
            None => r == Err::<String, ServiceError>(ServiceError::MissingEmployee),
        },
{
    match nonblank_trimmed(employee) {
        Some(t) => Ok(t),
        None => Err(ServiceError::MissingEmployee),
    }
}

/// How a settled service is labelled as paid: from the balance plus another
/// method, from the balance alone, or by the other method alone.
pub open spec fn payment_label(balance_used: bool, external_used: bool, method: Seq<char>) -> Seq<char> {
    if balance_used && external_used {
        "会员余额+"@ + method
    } else if balance_used {
        "会员余额"@
    } else {
        method
    }
}

/// Labels how a service is paid, once the amounts are split: when part of
/// the price is paid outside the balance, the method must be one of the
/// accepted ones.
pub fn service_payment_method(balance_used: bool, external_used: bool, external_method: &str) -> (r: Result<
    String,
    ServiceError,
>)
    ensures
        external_used && !external_payment_method(external_method@) ==> r == Err::<
            String,
            ServiceError,
        >(ServiceError::MissingPaymentMethod),
        !(external_used && !external_payment_method(external_method@)) ==> (r matches Ok(label)
            && label@ == payment_label(balance_used, external_used, external_method@)),
{
    if external_used && !valid_external_payment_method(external_method) {
        return Err(ServiceError::MissingPaymentMethod);
    }
    if balance_used && external_used {
        let mut label = String::from_str("会员余额+");
        label.append(external_method);
        Ok(label)
    } else if balance_used {
        Ok(String::from_str("会员余额"))
    } else {
        Ok(external_method.to_owned())
    }
}

/// A service without a package can be cancelled when it is a plain service
/// with a settlement record (an id that is not empty).
pub open spec fn normal_service_cancellable(service_type: Seq<char>, transaction_id: Option<Seq<char>>) -> bool {
    service_type == "普通手工"@ && match transaction_id {
        Some(t) => t.len() > 0,
        None => false,
    }
}

/// Checks that a service without a package can be cancelled.
pub fn check_service_cancellable(service_type: &str, transaction_id: Option<&str>) -> (r: Result<
    (),
    ServiceError,
>)
    ensures
        r == (if normal_service_cancellable(
            service_type@,
            match transaction_id {
                Some(t) => Some(t@),
                None => None,
            },
        ) {
            Ok::<(), ServiceError>(())
        } else {
            Err(ServiceError::NotCancellable)
        }),
{
    let settled = match transaction_id {
        Some(t) => !t.is_empty(),
        None => false,
    };
    if !same_text(service_type, "普通手工") || !settled {
        return Err(ServiceError::NotCancellable);
    }
    Ok(())
}

/// A member account can only be recharged here, and not from the balance
/// itself.
pub fn recharge_request_ok(kind: &str, payment_method: &str) -> (r: bool)
    ensures
        r == (kind@ == "recharge"@ && payment_method@ != "会员余额"@),
{
    same_text(kind, "recharge") && !same_text(payment_method, "会员余额")
}

/// A project in the catalogue has a name (trimmed) and lasts 1 to 1440
/// minutes; gives the name to store.
pub fn check_project_shape(name: &str, duration: i64) -> (r: Option<String>)
    ensures
        match r {
            Some(n) => filled(name@) == Some(n@) && 1 <= duration <= 1440,
            None => filled(name@) is None || !(1 <= duration <= 1440),
        },
{
    let n = match nonblank_trimmed(name) {
        Some(n) => n,
        None => return None,
    };
    if duration <= 0 || duration > 1440 {
        return None;
    }
    Some(n)
}

} // verus!
