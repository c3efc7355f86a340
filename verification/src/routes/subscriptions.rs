//! Subscribing: the form, the token and the confirmation e-mail.

use crate::domain::subscriber_email::{is_valid_email, NOT_AN_EMAIL};
use crate::domain::subscriber_name::{is_valid_name, NOT_A_NAME};
use crate::domain::{NewSubscriber, SubscriberEmail, SubscriberName};
use crate::failure::{chain_text, error_chain_fmt, failure, texts, Failure};
use crate::text::push_char;
use rand::Rng;
use vstd::prelude::*;

verus! {

/// What the subscription form sends.
pub struct FormData {
    pub email: String,
    pub name: String,
}

/// Why a subscription did not go through.
pub enum SubscribeError {
    /// The form holds no valid name or address; the text says which.
    ValidationError(String),
    /// The store or the e-mail service failed.
    UnexpectedError(Failure),
}

/// The steps of a subscription that can fail for reasons of their own.
#[derive(Clone, Copy, Debug, PartialEq, Eq, Structural)]
pub enum SubscribeStep {
    AcquireConnection,
    InsertSubscriber,
    StoreToken,
    Commit,
    SendEmail,
}

/// The failure to store a subscription token, with the store's own text.
pub struct StoreTokenError(pub String);

/// The e-mail that asks a new subscriber to confirm.
pub struct ConfirmationEmail {
    pub subject: String,
    pub html_body: String,
    pub plain_body: String,
}

pub const TOKEN_LENGTH: usize = 25;

pub const STORE_TOKEN_FAILED: &'static str =
    "A database error was encountered while trying to store a subscription token.";

pub const ACQUIRE_FAILED: &'static str = "Failed to acquire a pg connection from the pg pool";

pub const INSERT_FAILED: &'static str = "Failed to insert a new subscriber into database";

pub const STORE_FAILED: &'static str = "Failed to store the confirmation token for new subscriber";

pub const COMMIT_FAILED: &'static str =
    "Failed to commit SQL transaction to store new subscriber";

pub const SEND_FAILED: &'static str = "Failed to send a confirmation email to new subscriber";

pub const CONFIRM_PATH: &'static str = "/subscriptions/confirm?subscription_token=";

pub const SUBJECT: &'static str = "Welcome";

pub const PLAIN_BEFORE: &'static str = "Welcome to our newsletter!\n\n        Visit ";

pub const PLAIN_AFTER: &'static str = " to confirm your subscription.";

pub const HTML_BEFORE: &'static str = "Welcome to our newsletter!<br />Click <a href=\"";

pub const HTML_AFTER: &'static str = "\">here</a> to confirm your subscription.";

/// An ASCII letter or digit.
pub open spec fn is_alphanumeric(byte: u8) -> bool {
    ||| 0x30 <= byte <= 0x39
    ||| 0x41 <= byte <= 0x5a
    ||| 0x61 <= byte <= 0x7a
}

/// `Rng::sample` of `rand::distributions::Alphanumeric` on
/// `rand::thread_rng()`: a random byte among the ASCII letters and digits.
#[verifier::external_body]
fn sample_alphanumeric() -> (byte: u8)
    ensures
        is_alphanumeric(byte),
{
    rand::thread_rng().sample(rand::distributions::Alphanumeric)
}

impl TryFrom<FormData> for NewSubscriber {
    type Error = String;

    /// Validates a form: first the name, then the address. The error names
    /// the first text that was refused.
    fn try_from(form: FormData) -> (r: Result<NewSubscriber, String>)
        ensures
            match r {
                Ok(subscriber) => is_valid_name(form.name@) && is_valid_email(form.email@)
                    && subscriber.name@ == form.name@ && subscriber.email@ == form.email@,
                Err(message) => if !is_valid_name(form.name@) {
                    message@ == form.name@ + NOT_A_NAME@
                } else {
                    !is_valid_email(form.email@) && message@ == form.email@ + NOT_AN_EMAIL@
                },
            },
    {
        let name = match SubscriberName::parse(form.name) {
            Ok(name) => name,
            Err(message) => return Err(message),
        };
        let email = match SubscriberEmail::parse(form.email) {
            Ok(email) => email,
            Err(message) => return Err(message),
        };
        Ok(NewSubscriber { name, email })
    }
}

impl vstd::std_specs::convert::TryFromSpecImpl<FormData> for NewSubscriber {
    open spec fn obeys_try_from_spec() -> bool {
        false
    }

    open spec fn try_from_spec(form: FormData) -> Result<NewSubscriber, String> {
        arbitrary()
    }
}

impl SubscribeStep {
    /// What is said of a step that failed.
    pub open spec fn description(self) -> Seq<char> {
        match self {
            SubscribeStep::AcquireConnection => ACQUIRE_FAILED@,
            SubscribeStep::InsertSubscriber => INSERT_FAILED@,
            SubscribeStep::StoreToken => STORE_FAILED@,
            SubscribeStep::Commit => COMMIT_FAILED@,
            SubscribeStep::SendEmail => SEND_FAILED@,
        }
    }

    /// What is said of the step where it failed.
    pub fn context(&self) -> (text: &'static str)
        ensures
            text@ == self.description(),
    {
        match self {
            SubscribeStep::AcquireConnection => ACQUIRE_FAILED,
            SubscribeStep::InsertSubscriber => INSERT_FAILED,
            SubscribeStep::StoreToken => STORE_FAILED,
            SubscribeStep::Commit => COMMIT_FAILED,
            SubscribeStep::SendEmail => SEND_FAILED,
        }
    }
}

impl SubscribeError {
    /// The fault of a step that failed: what is said of the step, with what
    /// the collaborator said as its cause.
    pub fn failed(step: SubscribeStep, cause: String) -> (e: SubscribeError)
        ensures
            e matches SubscribeError::UnexpectedError(fault) && fault@ == failure(
                step.description(),
                seq![cause@],
            ),
    {
        SubscribeError::UnexpectedError(Failure::caused_by(step.context(), cause))
    }

    /// The fault of a token that could not be stored: the failure to store
    /// it is the nearest cause, what the store said the farthest.
    pub fn from_store_token_error(e: StoreTokenError) -> (r: SubscribeError)
        ensures
            r matches SubscribeError::UnexpectedError(fault) && fault@ == failure(
                STORE_FAILED@,
                seq![STORE_TOKEN_FAILED@, e.0@],
            ),
    {
        let cause = Failure::caused_by(STORE_TOKEN_FAILED, e.0);
        let fault = cause.context(STORE_FAILED);
        proof {
            assert(fault@.causes =~= seq![STORE_TOKEN_FAILED@, e.0@]);
        }
        SubscribeError::UnexpectedError(fault)
    }

    /// The HTTP status that answers the error: 400 for a form that does not
    /// validate, 500 for a fault.
    pub fn status_code(&self) -> (code: u16)
        ensures
            code == match self {
                SubscribeError::ValidationError(_) => 400u16,
                SubscribeError::UnexpectedError(_) => 500u16,
            },
    {
        match self {
            SubscribeError::ValidationError(_) => 400,
            SubscribeError::UnexpectedError(_) => 500,
        }
    }

    /// What the error shows: the refusal of the form, or what was being
    /// done when the fault happened.
    pub open spec fn shown(self) -> Seq<char> {
        match self {
            SubscribeError::ValidationError(text) => text@,
            SubscribeError::UnexpectedError(fault) => fault@.message,
        }
    }

    /// The causes behind the error.
    pub open spec fn sources(self) -> Seq<Seq<char>> {
        match self {
            SubscribeError::ValidationError(_) => Seq::empty(),
            SubscribeError::UnexpectedError(fault) => fault@.causes,
        }
    }

    /// The error as text.
    pub fn to_string(&self) -> (text: String)
        ensures
            text@ == self.shown(),
    {
        match self {
            SubscribeError::ValidationError(text) => text.clone(),
            SubscribeError::UnexpectedError(fault) => fault.to_string(),
        }
    }

    /// The error with the chain of its causes, for the server's records.
    pub fn fmt(&self) -> (text: String)
        ensures
            text@ == chain_text(self.shown(), self.sources()),
    {
        match self {
            SubscribeError::ValidationError(text) => {
                let none: Vec<String> = Vec::new();
                error_chain_fmt(text.as_str(), &none)
            },
            SubscribeError::UnexpectedError(fault) => fault.chain(),
        }
    }
}

impl StoreTokenError {
    /// The error as text: the same for every cause.
    pub fn to_string(&self) -> (text: String)
        ensures
            text@ == STORE_TOKEN_FAILED@,
    {
        String::from_str(STORE_TOKEN_FAILED)
    }

    /// What the store said.
    pub fn source(&self) -> (cause: &str)
        ensures
            cause@ == self.0@,
    {
        self.0.as_str()
    }

    /// The error with its cause, for the server's records.
    pub fn fmt(&self) -> (text: String)
        ensures
            text@ == chain_text(STORE_TOKEN_FAILED@, seq![self.0@]),
    {
        let mut causes: Vec<String> = Vec::new();
        causes.push(self.0.clone());
        proof {
            assert(texts(causes@) =~= seq![self.0@]);
        }
        error_chain_fmt(STORE_TOKEN_FAILED, &causes)
    }
}

/// A fresh token for a confirmation link: 25 random ASCII letters and
/// digits.
pub fn generate_subscription_token() -> (token: String)
    ensures
        token@.len() == TOKEN_LENGTH,
        forall|i: int| 0 <= i < token@.len() ==> is_alphanumeric(#[trigger] token@[i] as u8),
        forall|i: int| 0 <= i < token@.len() ==> (#[trigger] token@[i] as u32) < 128,
{
    let mut token = String::new();
    let mut n: usize = 0;
    while n < TOKEN_LENGTH
        invariant
            n <= TOKEN_LENGTH,
            token@.len() == n,
            forall|i: int| 0 <= i < token@.len() ==> is_alphanumeric(#[trigger] token@[i] as u8),
            forall|i: int| 0 <= i < token@.len() ==> (#[trigger] token@[i] as u32) < 128,
        decreases TOKEN_LENGTH - n,
    {
        let byte = sample_alphanumeric();
        let c = byte as char;
        push_char(&mut token, c);
        n = n + 1;
    }
    token
}

/// The link that confirms the subscription with the given token.
pub open spec fn confirmation_link(base_url: Seq<char>, subscription_token: Seq<char>) -> Seq<char> {
    base_url + CONFIRM_PATH@ + subscription_token
}

/// Writes the e-mail that asks a new subscriber to confirm: both bodies
/// carry the link made of the base URL and the token.
pub fn send_confirmation_email(base_url: &str, subscription_token: &str) -> (email:
    ConfirmationEmail)
    ensures
        email.subject@ == SUBJECT@,
        email.plain_body@ == PLAIN_BEFORE@ + confirmation_link(base_url@, subscription_token@)
            + PLAIN_AFTER@,
        email.html_body@ == HTML_BEFORE@ + confirmation_link(base_url@, subscription_token@)
            + HTML_AFTER@,
{
    let confirmation_link = String::from_str(base_url).concat(CONFIRM_PATH).concat(
        subscription_token,
    );
    let plain_body = String::from_str(PLAIN_BEFORE).concat(confirmation_link.as_str()).concat(
        PLAIN_AFTER,
    );
    let html_body = String::from_str(HTML_BEFORE).concat(confirmation_link.as_str()).concat(
        HTML_AFTER,
    );
    ConfirmationEmail { subject: String::from_str(SUBJECT), html_body, plain_body }
}

} // verus!
