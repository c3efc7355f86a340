//! Logging in: the form, and what follows a checked claim.

use crate::authentication::{AuthError, Credentails};
use crate::failure::{chain_text, error_chain_fmt, failure, texts, Failure};
use crate::routes::flash::{notice_lines, render_page, FlashMessage, Shown};
use crate::secrets::SecretString;
use uuid::Uuid;
use vstd::prelude::*;

verus! {

/// What the login form sends.
pub struct FormData {
    pub username: String,
    pub password: SecretString,
}

/// Why a login did not go through.
pub enum LoginError {
    /// The claim was judged wrong.
    AuthError(Failure),
    /// The claim could not be checked.
    UnexpectedError(Failure),
}

/// Where a login leads: a page to go to, and the notice to show there
/// where the login failed.
pub struct LoginRedirect {
    pub location: &'static str,
    pub notice: Option<String>,
}

/// How a login that failed is answered.
pub enum LoginAnswer {
    /// The claim was judged wrong: back to the form, with a notice.
    Redirect(LoginRedirect),
    /// The claim could not be checked: a server error, with a text that
    /// says nothing of the cause.
    ServerError(&'static str),
}

pub const AUTHENTICATION_FAILED: &'static str = "Authentication failed";

pub const SOMETHING_WENT_WRONG: &'static str = "Something went wrong";

pub const DASHBOARD: &'static str = "/admin/dashboard";

pub const LOGIN: &'static str = "/login";

pub const PAGE_BEFORE: &'static str = r#"
        <!DOCTYPE html>
        <html lang="en">
            <head>
                <meta http-equiv="content-type" content="text/html"; charset="UTF-8">
                <title>Login</title>
            </head>
            <body>
                "#;

pub const PAGE_AFTER: &'static str = r#"
                <form action="/login" method="POST">
                    <label>Username
                        <input type="text" placeholder="Enter username" name="username" required>
                    </label>
                    
                    <label>Password
                        <input type="password" placeholder="Enter password" name="password" required>
                    </label>
                    <button type="submit">Login</button>
                </form>
            </body>
        </html>
        "#;

impl LoginError {
    /// The HTTP status that answers the error: 303 for a claim that was
    /// judged wrong, 500 for a fault.
    pub fn status_code(&self) -> (code: u16)
        ensures
            code == match self {
                LoginError::AuthError(_) => 303u16,
                LoginError::UnexpectedError(_) => 500u16,
            },
    {
        match self {
            LoginError::AuthError(_) => 303,
            LoginError::UnexpectedError(_) => 500,
        }
    }

    /// What the error shows: one fixed text for each kind, whatever the
    /// cause.
    pub open spec fn shown(self) -> Seq<char> {
        match self {
            LoginError::AuthError(_) => AUTHENTICATION_FAILED@,
            LoginError::UnexpectedError(_) => SOMETHING_WENT_WRONG@,
        }
    }

    /// The failure behind the error.
    pub open spec fn cause(self) -> Failure {
        match self {
            LoginError::AuthError(cause) => cause,
            LoginError::UnexpectedError(cause) => cause,
        }
    }

    /// The causes behind the error, nearest first.
    pub open spec fn sources(self) -> Seq<Seq<char>> {
        seq![self.cause()@.message] + self.cause()@.causes
    }

    /// The error as text.
    pub fn to_string(&self) -> (text: String)
        ensures
            text@ == self.shown(),
    {
        match self {
            LoginError::AuthError(_) => String::from_str(AUTHENTICATION_FAILED),
            LoginError::UnexpectedError(_) => String::from_str(SOMETHING_WENT_WRONG),
        }
    }

    /// The error with the chain of its causes, for the server's records.
    pub fn fmt(&self) -> (text: String)
        ensures
            text@ == chain_text(self.shown(), self.sources()),
    {
        let cause = match self {
            LoginError::AuthError(cause) => cause,
            LoginError::UnexpectedError(cause) => cause,
        };
        let mut causes = cause.causes.clone();
        causes.insert(0, cause.message.clone());
        proof {
            assert(texts(causes@) =~= self.sources());
        }
        let shown = self.to_string();
        error_chain_fmt(shown.as_str(), &causes)
    }

    /// A credential judgment is a failed authentication; a fault stays a
    /// fault. Either way the error that was is the cause of the one that
    /// is.
    pub fn from_auth_error(e: AuthError) -> (r: LoginError)
        ensures
            r is AuthError <==> e is InvalidCredentials,
            r.cause()@ == failure(e.shown(), e.sources()),
    {
        match e {
            AuthError::InvalidCredentials(_) => LoginError::AuthError(e.into_failure()),
            AuthError::UnexpectedError(_) => LoginError::UnexpectedError(e.into_failure()),
        }
    }
}

/// The claim that a login form makes.
pub fn credentials(form: FormData) -> (claim: Credentails)
    ensures
        claim.username@ == form.username@,
        claim.password@ == form.password@,
{
    Credentails { username: form.username, password: form.password }
}

/// Answers a login that failed. A claim that was judged wrong goes back to
/// the form with the one notice that every wrong claim gets. A fault is a
/// server error: it is no judgment of the claim, so it gets neither the
/// form nor that notice, and its text names nothing of what happened.
pub fn login_redirect(e: &LoginError) -> (r: LoginAnswer)
    ensures
        match e {
            LoginError::AuthError(_) => r matches LoginAnswer::Redirect(to) && to.location@
                == LOGIN@ && (to.notice matches Some(text) && text@ == AUTHENTICATION_FAILED@),
            LoginError::UnexpectedError(_) => r matches LoginAnswer::ServerError(text) && text@
                == SOMETHING_WENT_WRONG@,
        },
{
    match e {
        LoginError::AuthError(_) => LoginAnswer::Redirect(
            LoginRedirect { location: LOGIN, notice: Some(e.to_string()) },
        ),
        LoginError::UnexpectedError(_) => LoginAnswer::ServerError(SOMETHING_WENT_WRONG),
    }
}

/// Sends a successful login on to the dashboard.
pub fn dashboard_redirect() -> (r: LoginRedirect)
    ensures
        r.location@ == DASHBOARD@,
        r.notice is None,
{
    LoginRedirect { location: DASHBOARD, notice: None }
}

/// Decides what a login comes to, given what validating its claim came to:
/// the user that the claim names, or an error that tells a wrong claim from
/// a fault and keeps what happened as its cause.
pub fn login(validation: Result<Uuid, AuthError>) -> (r: Result<Uuid, LoginError>)
    ensures
        match validation {
            Ok(user_id) => r == Ok::<Uuid, LoginError>(user_id),
            Err(e) => r matches Err(refusal) && (refusal is AuthError <==> e is InvalidCredentials)
                && refusal.cause()@ == failure(e.shown(), e.sources()),
        },
{
    match validation {
        Ok(user_id) => Ok(user_id),
        Err(e) => Err(LoginError::from_auth_error(e)),
    }
}

/// The login page, with the errors and informational notices that are
/// waiting to be shown.
pub fn login_form(flash_messages: &Vec<FlashMessage>) -> (html: String)
    ensures
        html@ == PAGE_BEFORE@ + notice_lines(flash_messages@, Shown::ErrorsAndInfo) + PAGE_AFTER@,
{
    render_page(PAGE_BEFORE, flash_messages, Shown::ErrorsAndInfo, PAGE_AFTER)
}

} // verus!
