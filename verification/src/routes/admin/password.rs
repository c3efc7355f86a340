//! Changing the administrator's password: the form, the checks before
//! anything is hashed, and what each outcome tells the user.

use crate::authentication::AuthError;
use crate::failure::Failure;
use crate::routes::flash::{notice_lines, render_page, FlashMessage, Shown};
use crate::secrets::SecretString;
use uuid::Uuid;
use vstd::prelude::*;

verus! {

/// What the change-password form sends.
pub struct FormData {
    pub current_password: SecretString,
    pub new_password: SecretString,
    pub new_password_check: SecretString,
}

/// What a step of the password change asks for next.
pub enum Step {
    /// Go on with the change.
    Proceed,
    /// Send the user back to the form with this notice.
    Redirect(&'static str),
    /// Answer with a server error.
    Fail(Failure),
}

pub const MIN_PASSWORD_LENGTH: usize = 12;

pub const MAX_PASSWORD_LENGTH: usize = 128;

pub const FORM: &'static str = "/admin/password";

pub const LOGIN: &'static str = "/login";

pub const FIELDS_DIFFER: &'static str =
    "You entered two different new passwords - the field values must match.";

pub const POLICY_VIOLATED: &'static str = "The new password doesn't meet the OWASP requirement.";

pub const CURRENT_INCORRECT: &'static str = "The current password is incorrect!";

pub const CHANGED: &'static str = "Your password has been changed successfully.";

pub const PAGE_BEFORE: &'static str = r#"<!DOCTYPE html>
<html lang="en">
<head>
    <meta http-equiv="content-type" content="text/html; charset=utf-8">
    <title>Change Password</title>
</head>
<body>
    "#;

pub const PAGE_AFTER: &'static str = r#"
    <form action="/admin/password" method="post">
        <label>Current password
            <input
                type="password"
                placeholder="Enter current password"
                name="current_password"
            >
        </label>
        <br>
        <label>New password
            <input
                type="password"
                placeholder="Enter new password"
                name="new_password"
            >
        </label>
        <br>
        <label>Confirm new password
            <input
                type="password"
                placeholder="Type the new password again"
                name="new_password_check"
            >
        </label>
        <br>
        <button type="submit">Change password</button>
    </form>
    <p><a href="/admin/dashboard"><- Back</a></p>
</body>
</html>"#;

/// A password of 12 to 128 characters.
pub open spec fn meets_length_policy(password: Seq<char>) -> bool {
    MIN_PASSWORD_LENGTH <= password.len() <= MAX_PASSWORD_LENGTH
}

/// The step that a form asks for before anything is looked up or hashed.
pub open spec fn form_step(form: FormData) -> Step {
    if form.new_password@ != form.new_password_check@ {
        Step::Redirect(FIELDS_DIFFER)
    } else if !meets_length_policy(form.new_password@) {
        Step::Redirect(POLICY_VIOLATED)
    } else {
        Step::Proceed
    }
}

/// Whether a password is within the length policy.
pub fn has_valid_length(password: &SecretString) -> (r: bool)
    ensures
        r == meets_length_policy(password@),
{
    let length = password.expose_secret().as_str().unicode_len();
    MIN_PASSWORD_LENGTH <= length && length <= MAX_PASSWORD_LENGTH
}

/// Checks a form before anything is looked up or hashed: the new password
/// must be entered the same twice, and be within the length policy. The
/// hasher is reached only by passwords that pass both.
pub fn check_new_password(form: &FormData) -> (step: Step)
    ensures
        step == form_step(*form),
        step is Proceed <==> form.new_password@ == form.new_password_check@
            && meets_length_policy(form.new_password@),
{
    if *form.new_password.expose_secret() != *form.new_password_check.expose_secret() {
        Step::Redirect(FIELDS_DIFFER)
    } else if !has_valid_length(&form.new_password) {
        Step::Redirect(POLICY_VIOLATED)
    } else {
        Step::Proceed
    }
}

/// Decides what follows the check of the current password: the change goes
/// on where it validated, the user is told where it did not, and a fault is
/// a server error.
pub fn after_validation(validation: Result<Uuid, AuthError>) -> (step: Step)
    ensures
        match validation {
            Ok(_) => step is Proceed,
            Err(AuthError::InvalidCredentials(_)) => step == Step::Redirect(CURRENT_INCORRECT),
            Err(AuthError::UnexpectedError(fault)) => step == Step::Fail(fault),
        },
{
    match validation {
        Ok(_) => Step::Proceed,
        Err(AuthError::InvalidCredentials(_)) => Step::Redirect(CURRENT_INCORRECT),
        Err(AuthError::UnexpectedError(fault)) => Step::Fail(fault),
    }
}

/// Decides what follows the write of the new hash: the user is told of the
/// change, and a store that failed is a server error.
pub fn after_update(update: Result<(), Failure>) -> (step: Step)
    ensures
        match update {
            Ok(_) => step == Step::Redirect(CHANGED),
            Err(fault) => step == Step::Fail(fault),
        },
{
    match update {
        Ok(_) => Step::Redirect(CHANGED),
        Err(fault) => Step::Fail(fault),
    }
}

/// Lets a request through to the administrator's pages only where its
/// session names a user; anybody else is sent to the login page.
pub fn reject_anonymous_users(user_id: Option<Uuid>) -> (r: Result<Uuid, &'static str>)
    ensures
        match user_id {
            Some(id) => r == Ok::<Uuid, &'static str>(id),
            None => r matches Err(location) && location@ == LOGIN@,
        },
{
    match user_id {
        Some(id) => Ok(id),
        None => Err(LOGIN),
    }
}

/// The change-password page with every waiting notice, or `None` where
/// nobody is logged in and the login page is to be shown instead.
pub fn change_password_form(user_id: Option<Uuid>, flash_messages: &Vec<FlashMessage>) -> (html:
    Option<String>)
    ensures
        match user_id {
            Some(_) => html matches Some(page) && page@ == PAGE_BEFORE@ + notice_lines(
                flash_messages@,
                Shown::All,
            ) + PAGE_AFTER@,
            None => html is None,
        },
{
    match user_id {
        Some(_) => Some(render_page(PAGE_BEFORE, flash_messages, Shown::All, PAGE_AFTER)),
        None => None,
    }
}

} // verus!
