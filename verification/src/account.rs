//! Account administration rules: sign-in, passwords, creating accounts,
//! enabling and disabling accounts and employees, and who may see payroll
//! data.
use vstd::prelude::*;
use vstd::utf8::encode_utf8;
use crate::text::{same_text, trimmed, trim_view};

verus! {

/// The length in bytes (UTF-8) of a text, as `str::len` reports it.
pub open spec fn byte_len(s: Seq<char>) -> usize {
    encode_utf8(s).len() as usize
}

/// A password is long enough with at least six bytes.
pub open spec fn password_long_enough(password: Seq<char>) -> bool {
    byte_len(password) >= 6
}

/// Whether a new password is long enough.
pub fn check_password_length(password: &str) -> (r: bool)
    ensures
        r == password_long_enough(password@),
{
    password.len() >= 6
}

/// Why signing in fails once the account has been found.
#[derive(Debug, PartialEq, Eq, Structural)]
pub enum LoginError {
    /// The account does not exist or the password is wrong.
    WrongCredentials,
    /// The account is disabled.
    AccountDisabled,
}

/// Signing in needs the right password, then an enabled account.
pub fn check_login(password_matches: bool, status: &str) -> (r: Result<(), LoginError>)
    ensures
        !password_matches ==> r == Err::<(), LoginError>(LoginError::WrongCredentials),
        password_matches && status@ != "active"@ ==> r == Err::<(), LoginError>(
            LoginError::AccountDisabled,
        ),
        password_matches && status@ == "active"@ ==> r == Ok::<(), LoginError>(()),
{
    if !password_matches {
        return Err(LoginError::WrongCredentials);
    }
    if !same_text(status, "active") {
        return Err(LoginError::AccountDisabled);
    }
    Ok(())
}

/// Why an account request is refused.
#[derive(Debug, PartialEq, Eq, Structural)]
pub enum AccountError {
    /// The user name has fewer than three bytes (once trimmed) or the
    /// password fewer than six.
    CredentialsTooShort,
    /// The role is neither manager nor employee.
    InvalidRole,
    /// A shared employee account (with no employee record) has no name.
    MissingSharedName,
    /// A manager account has no display name.
    MissingDisplayName,
    /// A new password has fewer than six bytes.
    PasswordTooShort,
    /// A manager resets their own password here instead of changing it.
    OwnAccount,
    /// The status is neither active nor inactive.
    InvalidStatus,
    /// A manager disables the account they are signed in with.
    CannotDisableSelf,
    /// Disabling this manager would leave no active manager.
    LastManager,
}

/// Checks a request for a new account: the user name (trimmed) needs three
/// bytes and the password six, then the role must be manager or employee.
/// Gives the trimmed user name.
pub fn check_account_request(username: &str, password: &str, role: &str) -> (r: Result<String, AccountError>)
    ensures
        byte_len(trim_view(username@)) < 3 || !password_long_enough(password@) ==> r == Err::<
            String,
            AccountError,
        >(AccountError::CredentialsTooShort),
        byte_len(trim_view(username@)) >= 3 && password_long_enough(password@) && role@
            != "manager"@ && role@ != "employee"@ ==> r == Err::<String, AccountError>(
            AccountError::InvalidRole,
        ),
        byte_len(trim_view(username@)) >= 3 && password_long_enough(password@) && (role@
            == "manager"@ || role@ == "employee"@) ==> (r matches Ok(name) && name@ == trim_view(
            username@,
        )),
{
    let name = trimmed(username);
    if name.as_str().len() < 3 || password.len() < 6 {
        return Err(AccountError::CredentialsTooShort);
    }
    if !same_text(role, "manager") && !same_text(role, "employee") {
        return Err(AccountError::InvalidRole);
    }
    Ok(name)
}

/// Whose account is being created.
pub enum AccountIdentity {
    /// The account of an employee record; its name is looked up in storage.
    Employee { employee_id: String },
    /// An account with its own (trimmed) display name and no employee record.
    Named { display_name: String },
}

/// An employee id is given and is not blank.
pub open spec fn linked_employee(employee_id: Option<&str>) -> bool {
    match employee_id {
        Some(e) => trim_view(e@).len() > 0,
        None => false,
    }
}

/// Decides whose account a new account is: an employee account names an
/// employee record when an id that is not blank is given, otherwise it is a
/// shared account that needs a display name; a manager account always needs
/// a display name.
pub fn account_identity(role: &str, employee_id: Option<&str>, display_name: &str) -> (r: Result<
    AccountIdentity,
    AccountError,
>)
    ensures
        role@ == "employee"@ && linked_employee(employee_id) ==> (r matches Ok(
            AccountIdentity::Employee { employee_id: id },
        ) && id@ == employee_id->0@),
        role@ == "employee"@ && !linked_employee(employee_id) ==> (
        if trim_view(display_name@).len() == 0 {
            r == Err::<AccountIdentity, AccountError>(AccountError::MissingSharedName)
        } else {
            r matches Ok(AccountIdentity::Named { display_name: n }) && n@ == trim_view(
                display_name@,
            )
        }),
        role@ != "employee"@ ==> (if trim_view(display_name@).len() == 0 {
            r == Err::<AccountIdentity, AccountError>(AccountError::MissingDisplayName)
        } else {
            r matches Ok(AccountIdentity::Named { display_name: n }) && n@ == trim_view(
                display_name@,
            )
        }),
{
    if same_text(role, "employee") {
        if let Some(e) = employee_id {
            let t = trimmed(e);
            if !t.as_str().is_empty() {
                return Ok(AccountIdentity::Employee { employee_id: e.to_owned() });
            }
        }
        let n = trimmed(display_name);
        if n.as_str().is_empty() {
            return Err(AccountError::MissingSharedName);
        }
        Ok(AccountIdentity::Named { display_name: n })
    } else {
        let n = trimmed(display_name);
        if n.as_str().is_empty() {
            return Err(AccountError::MissingDisplayName);
        }
        Ok(AccountIdentity::Named { display_name: n })
    }
}

/// A manager may reset another account's password to one of six bytes or
/// more; their own password is changed elsewhere.
pub fn check_password_reset(manager_id: &str, account_id: &str, new_password: &str) -> (r: Result<(), AccountError>)
    ensures
        !password_long_enough(new_password@) ==> r == Err::<(), AccountError>(
            AccountError::PasswordTooShort,
        ),
        password_long_enough(new_password@) && manager_id@ == account_id@ ==> r == Err::<
            (),
            AccountError,
        >(AccountError::OwnAccount),
        password_long_enough(new_password@) && manager_id@ != account_id@ ==> r == Ok::<
            (),
            AccountError,
        >(()),
{
    if new_password.len() < 6 {
        return Err(AccountError::PasswordTooShort);
    }
    if same_text(manager_id, account_id) {
        return Err(AccountError::OwnAccount);
    }
    Ok(())
}

/// A status is active or inactive.
pub open spec fn valid_status(status: Seq<char>) -> bool {
    status == "active"@ || status == "inactive"@
}

/// Whether a status is active or inactive.
pub fn status_valid(status: &str) -> (r: bool)
    ensures
        r == valid_status(status@),
{
    same_text(status, "active") || same_text(status, "inactive")
}

/// The checks on a status change that need no stored data: the status must
/// be valid, and a manager may not disable the account they use.
pub fn check_account_status_request(manager_id: &str, account_id: &str, status: &str) -> (r: Result<
    (),
    AccountError,
>)
    ensures
        !valid_status(status@) ==> r == Err::<(), AccountError>(AccountError::InvalidStatus),
        valid_status(status@) && manager_id@ == account_id@ && status@ == "inactive"@ ==> r
            == Err::<(), AccountError>(AccountError::CannotDisableSelf),
        valid_status(status@) && !(manager_id@ == account_id@ && status@ == "inactive"@) ==> r
            == Ok::<(), AccountError>(()),
{
    if !status_valid(status) {
        return Err(AccountError::InvalidStatus);
    }
    if same_text(manager_id, account_id) && same_text(status, "inactive") {
        return Err(AccountError::CannotDisableSelf);
    }
    Ok(())
}

/// The change disables a manager account.
pub open spec fn disables_manager(target_role: Seq<char>, status: Seq<char>) -> bool {
    target_role == "manager"@ && status == "inactive"@
}

/// Whether the change disables a manager account, so that the number of
/// active managers must be checked.
pub fn disabling_a_manager(target_role: &str, status: &str) -> (r: bool)
    ensures
        r == disables_manager(target_role@, status@),
{
    same_text(target_role, "manager") && same_text(status, "inactive")
}

/// A disabled account loses its open sessions.
pub fn closes_sessions(status: &str) -> (r: bool)
    ensures
        r == (status@ == "inactive"@),
{
    same_text(status, "inactive")
}

/// Disabling a manager account is refused while at most one manager is
/// active.
pub open spec fn leaves_a_manager(target_role: Seq<char>, status: Seq<char>, active_managers: i64) -> bool {
    !disables_manager(target_role, status) || active_managers > 1
}

/// Whether setting the account of role `target_role` to `status` keeps an
/// active manager, given how many managers are active now.
pub fn keeps_active_manager(target_role: &str, status: &str, active_managers: i64) -> (r: bool)
    ensures
        r == leaves_a_manager(target_role@, status@, active_managers),
        r == !(target_role@ == "manager"@ && status@ == "inactive"@ && active_managers <= 1),
{
    !disabling_a_manager(target_role, status) || active_managers > 1
}

/// The number of active managers after setting an account with role
/// `target_role` and status `current` to `status`.
pub open spec fn active_managers_after(
    target_role: Seq<char>,
    current: Seq<char>,
    status: Seq<char>,
    active_managers: int,
) -> int {
    if target_role != "manager"@ {
        active_managers
    } else if current == "active"@ && status == "inactive"@ {
        active_managers - 1
    } else if current != "active"@ && status == "active"@ {
        active_managers + 1
    } else {
        active_managers
    }
}

/// A status change that passes the checks never leaves the salon without
/// an active manager: when one is active before, one is active after.
pub proof fn law_an_active_manager_remains(
    target_role: Seq<char>,
    current: Seq<char>,
    status: Seq<char>,
    active_managers: i64,
)
    requires
        active_managers >= 1,
        valid_status(status),
        leaves_a_manager(target_role, status, active_managers),
    ensures
        active_managers_after(target_role, current, status, active_managers as int) >= 1,
{
    reveal_strlit("active");
    reveal_strlit("inactive");
    assert("active"@[0] != "inactive"@[0]);
}

/// Disabling a manager is refused exactly when no other manager is active;
/// every other change keeps an active manager.
pub proof fn law_only_the_last_manager_is_kept(target_role: Seq<char>, status: Seq<char>, active_managers: i64)
    ensures
        target_role == "manager"@ && status == "inactive"@ ==> (leaves_a_manager(
            target_role,
            status,
            active_managers,
        ) <==> active_managers >= 2),
        !(target_role == "manager"@ && status == "inactive"@) ==> leaves_a_manager(
            target_role,
            status,
            active_managers,
        ),
{
}

/// What a change of an employee's status does.
#[derive(Debug, PartialEq, Eq, Structural)]
pub enum EmployeeStatusPlan {
    /// The employee already has the status: nothing changes.
    Unchanged,
    /// The status changes; when the employee leaves, their accounts are
    /// disabled and their sessions closed.
    Change { disable_accounts: bool },
}

/// Plans setting an employee whose status is `current` to `requested`.
pub fn plan_employee_status(requested: &str, current: &str) -> (r: Result<EmployeeStatusPlan, AccountError>)
    ensures
        !valid_status(requested@) ==> r == Err::<EmployeeStatusPlan, AccountError>(
            AccountError::InvalidStatus,
        ),
        valid_status(requested@) && requested@ == current@ ==> r == Ok::<
            EmployeeStatusPlan,
            AccountError,
        >(EmployeeStatusPlan::Unchanged),
        valid_status(requested@) && requested@ != current@ ==> r == Ok::<
            EmployeeStatusPlan,
            AccountError,
        >(EmployeeStatusPlan::Change { disable_accounts: requested@ == "inactive"@ }),
{
    if !status_valid(requested) {
        return Err(AccountError::InvalidStatus);
    }
    if same_text(current, requested) {
        return Ok(EmployeeStatusPlan::Unchanged);
    }
    Ok(EmployeeStatusPlan::Change { disable_accounts: same_text(requested, "inactive") })
}

/// Only managers see pay rates, attendance, status history and commissions.
pub fn sees_payroll_data(role: &str) -> (r: bool)
    ensures
        r == (role@ == "manager"@),
{
    same_text(role, "manager")
}

} // verus!
