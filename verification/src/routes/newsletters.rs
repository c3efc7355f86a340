//! Publishing a newsletter: who may, and to whom.

use crate::authentication::{AuthError, Credentails};
use crate::domain::subscriber_email::is_valid_email;
use crate::domain::SubscriberEmail;
use crate::failure::{chain_text, error_chain_fmt, failure, texts, Failure};
use crate::secrets::SecretString;
use base64::Engine;
use vstd::prelude::*;
use vstd::utf8::{decode_utf8, valid_utf8};

verus! {

/// A newsletter issue as it is submitted.
pub struct NewsletterBody {
    pub title: String,
    pub content: NewsletterContent,
}

/// The two renderings of an issue.
pub struct NewsletterContent {
    pub text: String,
    pub html: String,
}

/// A subscriber who confirmed, with an address that still validates.
pub struct ConfirmedSubscriber {
    pub email: SubscriberEmail,
}

/// Why an issue was not published.
pub enum PublishError {
    /// The store or the e-mail service failed.
    UnexpectedError(Failure),
    /// The request does not come from an administrator.
    AuthError(Failure),
}

/// The `Authorization` header of a request, as far as it can be read.
pub enum AuthorizationHeader<'a> {
    /// The request has no such header.
    Missing,
    /// The header's value is not text; the text here is what was said of
    /// it.
    NotText(String),
    /// The header's value.
    Text(&'a str),
}

/// Why a request carries no usable `Basic` credentials.
#[derive(Debug, PartialEq, Eq)]
pub enum BasicAuthError {
    MissingHeader,
    /// The header is not text; the text is what was said of it.
    NotText(String),
    NotBasic,
    /// The credentials are no base64; the text is what the decoder said.
    InvalidBase64(String),
    /// The credentials are no UTF-8; the text is what the conversion said.
    InvalidUtf8(String),
    MissingPassword,
}

/// A refusal of `Basic` credentials as plain values.
pub enum BasicRefusal {
    MissingHeader,
    NotText(Seq<char>),
    NotBasic,
    InvalidBase64(Seq<char>),
    InvalidUtf8(Seq<char>),
    MissingPassword,
}

pub const SCHEME: &'static str = "Basic ";

pub const CHALLENGE: &'static str = "Basic realm=\"publish\"";

pub const AUTHORIZATION_FAILED: &'static str = "Authorization failed";

pub const DELIVERY_FAILED: &'static str = "Failed to send newsletter to ";

pub const MISSING_HEADER: &'static str = "Missing 'Authorization' header";

pub const HEADER_NOT_TEXT: &'static str =
    "Failed to parse authorization header: not a valid UTF-8 string";

pub const NOT_BASIC: &'static str = "Invalid authorization header: not 'Basic' scheme";

pub const INVALID_BASE64: &'static str = "Failed to decode base64-encoded 'Basic' credentials";

pub const INVALID_UTF8: &'static str = "Decoded credentials are not valid UTF-8";

pub const MISSING_PASSWORD: &'static str =
    "Password is missing in the 'Basic' authorization credentials";

#[verifier::external_type_specification]
#[verifier::external_body]
pub struct ExDecodeError(base64::DecodeError);

/// The bytes that a text stands for in standard, padded base64, or what
/// the decoder says where it is no such encoding.
pub uninterp spec fn base64_decoded(encoded: Seq<char>) -> Result<Seq<u8>, Seq<char>>;

/// What an error of the decoder says of itself.
pub uninterp spec fn decode_error_message(error: base64::DecodeError) -> Seq<char>;

/// `Engine::decode` of `base64::engine::general_purpose::STANDARD`: a
/// function of the text alone.
#[verifier::external_body]
fn decode_base64(encoded: &str) -> (r: Result<Vec<u8>, base64::DecodeError>)
    ensures
        match r {
            Ok(bytes) => base64_decoded(encoded@) == Ok::<Seq<u8>, Seq<char>>(bytes@),
            Err(e) => base64_decoded(encoded@) == Err::<Seq<u8>, Seq<char>>(
                decode_error_message(e),
            ),
        },
{
    base64::engine::general_purpose::STANDARD.decode(encoded)
}

/// `Display` of `base64::DecodeError`: what the error says of itself.
#[verifier::external_body]
fn decode_error_text(error: &base64::DecodeError) -> (text: String)
    ensures
        text@ == decode_error_message(*error),
{
    error.to_string()
}

#[verifier::external_type_specification]
#[verifier::external_body]
pub struct ExFromUtf8Error(std::string::FromUtf8Error);

/// What the conversion says of bytes that are no UTF-8.
pub uninterp spec fn utf8_error_message(error: std::string::FromUtf8Error) -> Seq<char>;

/// What is said of the bytes `bytes`, which are no UTF-8.
pub uninterp spec fn utf8_refusal(bytes: Seq<u8>) -> Seq<char>;

/// `String::from_utf8`: the text that the bytes encode, where they are
/// valid UTF-8, and otherwise an error that is a function of the bytes.
#[verifier::external_body]
fn from_utf8(bytes: Vec<u8>) -> (r: Result<String, std::string::FromUtf8Error>)
    ensures
        r is Ok <==> valid_utf8(bytes@),
        r matches Ok(text) ==> text@ == decode_utf8(bytes@),
        r matches Err(e) ==> utf8_error_message(e) == utf8_refusal(bytes@),
{
    String::from_utf8(bytes)
}

/// `Display` of `FromUtf8Error`: what the error says of itself.
#[verifier::external_body]
fn utf8_error_text(error: &std::string::FromUtf8Error) -> (text: String)
    ensures
        text@ == utf8_error_message(*error),
{
    error.to_string()
}

impl View for BasicAuthError {
    type V = BasicRefusal;

    open spec fn view(&self) -> BasicRefusal {
        match self {
            BasicAuthError::MissingHeader => BasicRefusal::MissingHeader,
            BasicAuthError::NotText(said) => BasicRefusal::NotText(said@),
            BasicAuthError::NotBasic => BasicRefusal::NotBasic,
            BasicAuthError::InvalidBase64(said) => BasicRefusal::InvalidBase64(said@),
            BasicAuthError::InvalidUtf8(said) => BasicRefusal::InvalidUtf8(said@),
            BasicAuthError::MissingPassword => BasicRefusal::MissingPassword,
        }
    }
}

impl BasicRefusal {
    /// What went wrong, in words.
    pub open spec fn text(self) -> Seq<char> {
        match self {
            BasicRefusal::MissingHeader => MISSING_HEADER@,
            BasicRefusal::NotText(_) => HEADER_NOT_TEXT@,
            BasicRefusal::NotBasic => NOT_BASIC@,
            BasicRefusal::InvalidBase64(_) => INVALID_BASE64@,
            BasicRefusal::InvalidUtf8(_) => INVALID_UTF8@,
            BasicRefusal::MissingPassword => MISSING_PASSWORD@,
        }
    }

    /// The causes behind the refusal: what was said by whoever could not
    /// read the header or the credentials.
    pub open spec fn sources(self) -> Seq<Seq<char>> {
        match self {
            BasicRefusal::NotText(said) => seq![said],
            BasicRefusal::InvalidBase64(said) => seq![said],
            BasicRefusal::InvalidUtf8(said) => seq![said],
            _ => Seq::empty(),
        }
    }
}

impl BasicAuthError {
    /// What went wrong, in words.
    pub fn message(&self) -> (text: &'static str)
        ensures
            text@ == self@.text(),
    {
        match self {
            BasicAuthError::MissingHeader => MISSING_HEADER,
            BasicAuthError::NotText(_) => HEADER_NOT_TEXT,
            BasicAuthError::NotBasic => NOT_BASIC,
            BasicAuthError::InvalidBase64(_) => INVALID_BASE64,
            BasicAuthError::InvalidUtf8(_) => INVALID_UTF8,
            BasicAuthError::MissingPassword => MISSING_PASSWORD,
        }
    }

    /// The refusal as a failure: the message, with what was said by
    /// whoever could not read the header or the credentials behind it.
    pub fn into_failure(self) -> (r: Failure)
        ensures
            r@ == failure(self@.text(), self@.sources()),
    {
        match self {
            BasicAuthError::NotText(said) => Failure::caused_by(HEADER_NOT_TEXT, said),
            BasicAuthError::InvalidBase64(said) => Failure::caused_by(INVALID_BASE64, said),
            BasicAuthError::InvalidUtf8(said) => Failure::caused_by(INVALID_UTF8, said),
            other => Failure::new(other.message()),
        }
    }
}

/// The text starts with the scheme's name and a space.
pub open spec fn has_scheme(text: Seq<char>) -> bool {
    text.len() >= 6 && text.subrange(0, 6) == seq!['B', 'a', 's', 'i', 'c', ' ']
}

/// The credentials that a header carries as one text, `username:password`,
/// or the reason why it carries none.
pub open spec fn carried_text(header: AuthorizationHeader) -> Result<Seq<char>, BasicRefusal> {
    match header {
        AuthorizationHeader::Missing => Err(BasicRefusal::MissingHeader),
        AuthorizationHeader::NotText(said) => Err(BasicRefusal::NotText(said@)),
        AuthorizationHeader::Text(text) => if !has_scheme(text@) {
            Err(BasicRefusal::NotBasic)
        } else {
            match base64_decoded(text@.skip(6)) {
                Err(said) => Err(BasicRefusal::InvalidBase64(said)),
                Ok(bytes) => if valid_utf8(bytes) {
                    Ok(decode_utf8(bytes))
                } else {
                    Err(BasicRefusal::InvalidUtf8(utf8_refusal(bytes)))
                },
            }
        },
    }
}

/// `at` is where the first colon of `text` stands.
pub open spec fn is_first_colon(text: Seq<char>, at: int) -> bool {
    &&& 0 <= at < text.len()
    &&& text[at] == ':'
    &&& forall|j: int| 0 <= j < at ==> text[j] != ':'
}

/// The result that splitting `text` into a username and a password asks
/// for: the username is what stands before the first colon, the password
/// all that follows it.
pub open spec fn is_split_of(r: Result<Credentails, BasicAuthError>, text: Seq<char>) -> bool {
    if text.contains(':') {
        r matches Ok(credentials) && exists|at: int|
            is_first_colon(text, at) && credentials.username@ == text.subrange(0, at)
                && credentials.password@ == text.subrange(at + 1, text.len() as int)
    } else {
        r matches Err(e) && e@ == BasicRefusal::MissingPassword
    }
}

/// Where the first colon of `text` stands, if it has one.
fn find_colon(text: &str) -> (r: Option<usize>)
    ensures
        match r {
            Some(at) => is_first_colon(text@, at as int),
            None => !text@.contains(':'),
        },
{
    let length = text.unicode_len();
    let mut i: usize = 0;
    for c in it: text.chars()
        invariant
            length == text@.len(),
            i == it.index(),
            it.seq() == text@,
            forall|j: int| 0 <= j < i ==> text@[j] != ':',
    {
        if c == ':' {
            return Some(i);
        }
        i = i + 1;
    }
    None
}

/// Splits decoded credentials at their first colon.
pub fn split_credentials(decoded: &str) -> (r: Result<Credentails, BasicAuthError>)
    ensures
        is_split_of(r, decoded@),
{
    match find_colon(decoded) {
        None => Err(BasicAuthError::MissingPassword),
        Some(at) => {
            let length = decoded.unicode_len();
            let username = String::from_str(decoded.substring_char(0, at));
            let password = String::from_str(decoded.substring_char(at + 1, length));
            Ok(Credentails { username, password: SecretString::new(password) })
        },
    }
}

/// Whether `text` starts with the scheme's name and a space.
fn starts_with_scheme(text: &str) -> (r: bool)
    ensures
        r == has_scheme(text@),
{
    if text.unicode_len() < 6 {
        return false;
    }
    let r = text.get_char(0) == 'B' && text.get_char(1) == 'a' && text.get_char(2) == 's'
        && text.get_char(3) == 'i' && text.get_char(4) == 'c' && text.get_char(5) == ' ';
    proof {
        if r {
            assert(text@.subrange(0, 6) =~= seq!['B', 'a', 's', 'i', 'c', ' ']);
        }
    }
    r
}

/// Reads the credentials of HTTP `Basic` authentication from a request's
/// `Authorization` header.
///
/// The header must be there, be text, name the `Basic` scheme, and carry
/// the base64 encoding of a UTF-8 text with a colon in it. Each way of
/// failing has its own error; the first that applies is returned.
pub fn basic_authentication(header: AuthorizationHeader) -> (r: Result<Credentails, BasicAuthError>)
    ensures
        match carried_text(header) {
            Ok(text) => is_split_of(r, text),
            Err(e) => r matches Err(refusal) && refusal@ == e,
        },
{
    let authorization_header = match header {
        AuthorizationHeader::Missing => return Err(BasicAuthError::MissingHeader),
        AuthorizationHeader::NotText(said) => return Err(BasicAuthError::NotText(said)),
        AuthorizationHeader::Text(text) => text,
    };
    if !starts_with_scheme(authorization_header) {
        return Err(BasicAuthError::NotBasic);
    }
    let length = authorization_header.unicode_len();
    let base64encoded = authorization_header.substring_char(6, length);
    let decoded_bytes = match decode_base64(base64encoded) {
        Ok(bytes) => bytes,
        Err(e) => return Err(BasicAuthError::InvalidBase64(decode_error_text(&e))),
    };
    let decoded_credentials = match from_utf8(decoded_bytes) {
        Ok(text) => text,
        Err(e) => return Err(BasicAuthError::InvalidUtf8(utf8_error_text(&e))),
    };
    split_credentials(decoded_credentials.as_str())
}

impl PublishError {
    /// What the error shows: one fixed text where the request is not
    /// authorized, and for a fault what was being done.
    pub open spec fn shown(self) -> Seq<char> {
        match self {
            PublishError::UnexpectedError(fault) => fault@.message,
            PublishError::AuthError(_) => AUTHORIZATION_FAILED@,
        }
    }

    /// The causes behind the error, nearest first.
    pub open spec fn sources(self) -> Seq<Seq<char>> {
        match self {
            PublishError::UnexpectedError(fault) => fault@.causes,
            PublishError::AuthError(refusal) => seq![refusal@.message] + refusal@.causes,
        }
    }

    /// The HTTP status that answers the error: 401 where the request is
    /// not authorized, 500 for a fault.
    pub fn status_code(&self) -> (code: u16)
        ensures
            code == match self {
                PublishError::UnexpectedError(_) => 500u16,
                PublishError::AuthError(_) => 401u16,
            },
    {
        match self {
            PublishError::UnexpectedError(_) => 500,
            PublishError::AuthError(_) => 401,
        }
    }

    /// The answer to the error: its status, and the `WWW-Authenticate`
    /// challenge that goes with it where the request is not authorized.
    /// The answer has no body.
    pub fn error_response(&self) -> (r: (u16, Option<&'static str>))
        ensures
            match self {
                PublishError::UnexpectedError(_) => r.0 == 500 && r.1 is None,
                PublishError::AuthError(_) => r.0 == 401 && (r.1 matches Some(challenge)
                    && challenge@ == CHALLENGE@),
            },
    {
        match self {
            PublishError::UnexpectedError(_) => (500, None),
            PublishError::AuthError(_) => (401, Some(CHALLENGE)),
        }
    }

    /// The error as text.
    pub fn to_string(&self) -> (text: String)
        ensures
            text@ == self.shown(),
    {
        match self {
            PublishError::UnexpectedError(fault) => fault.to_string(),
            PublishError::AuthError(_) => String::from_str(AUTHORIZATION_FAILED),
        }
    }

    /// The error with the chain of its causes, for the server's records.
    pub fn fmt(&self) -> (text: String)
        ensures
            text@ == chain_text(self.shown(), self.sources()),
    {
        match self {
            PublishError::UnexpectedError(fault) => fault.chain(),
            PublishError::AuthError(refusal) => {
                let mut causes = refusal.causes.clone();
                causes.insert(0, refusal.message.clone());
                proof {
                    assert(texts(causes@) =~= self.sources());
                }
                error_chain_fmt(AUTHORIZATION_FAILED, &causes)
            },
        }
    }

    /// A request without usable credentials is not authorized.
    pub fn from_basic_auth(e: BasicAuthError) -> (r: PublishError)
        ensures
            r matches PublishError::AuthError(refusal) && refusal@ == failure(
                e@.text(),
                e@.sources(),
            ),
    {
        PublishError::AuthError(e.into_failure())
    }

    /// A credential judgment means the request is not authorized; a fault
    /// stays a fault. Either way the error that was is the cause of the one
    /// that is.
    pub fn from_auth_error(e: AuthError) -> (r: PublishError)
        ensures
            match e {
                AuthError::InvalidCredentials(_) => r matches PublishError::AuthError(refusal)
                    && refusal@ == failure(e.shown(), e.sources()),
                AuthError::UnexpectedError(_) => r matches PublishError::UnexpectedError(fault)
                    && fault@ == failure(e.shown(), e.sources()),
            },
    {
        match e {
            AuthError::InvalidCredentials(_) => PublishError::AuthError(e.into_failure()),
            AuthError::UnexpectedError(_) => PublishError::UnexpectedError(e.into_failure()),
        }
    }

    /// The fault of a store that could not list the subscribers.
    pub fn listing_failed(cause: String) -> (r: PublishError)
        ensures
            r matches PublishError::UnexpectedError(fault) && fault@ == failure(
                cause@,
                Seq::empty(),
            ),
    {
        PublishError::UnexpectedError(Failure::new(cause.as_str()))
    }

    /// The fault of an issue that could not be sent to one subscriber.
    pub fn delivery_failed(recipient: &SubscriberEmail, cause: String) -> (r: PublishError)
        ensures
            r matches PublishError::UnexpectedError(fault) && fault@ == failure(
                DELIVERY_FAILED@ + recipient@,
                seq![cause@],
            ),
    {
        let message = String::from_str(DELIVERY_FAILED).concat(recipient.as_ref());
        PublishError::UnexpectedError(Failure::caused_by(message.as_str(), cause))
    }
}

/// What row `i` of the confirmed subscribers comes to: a subscriber where
/// its address validates, the refusal otherwise.
pub open spec fn is_reading_of(r: Result<ConfirmedSubscriber, String>, row: Seq<char>) -> bool {
    match r {
        Ok(subscriber) => is_valid_email(row) && subscriber.email@ == row,
        Err(message) => !is_valid_email(row) && message@ == row
            + crate::domain::subscriber_email::NOT_AN_EMAIL@,
    }
}

/// Reads the stored addresses of the confirmed subscribers, one result for
/// each row and in the rows' order. An address that no longer validates is
/// kept as an error, for the caller to skip.
pub fn get_confirmed_subscribers(rows: Vec<String>) -> (r: Vec<Result<ConfirmedSubscriber, String>>)
    ensures
        r.len() == rows.len(),
        forall|i: int| 0 <= i < rows.len() ==> is_reading_of(#[trigger] r[i], rows[i]@),
{
    let mut confirmed: Vec<Result<ConfirmedSubscriber, String>> = Vec::new();
    let mut i: usize = 0;
    while i < rows.len()
        invariant
            i <= rows.len(),
            confirmed.len() == i,
            forall|j: int| 0 <= j < i ==> is_reading_of(#[trigger] confirmed[j], rows[j]@),
        decreases rows.len() - i,
    {
        let reading = match SubscriberEmail::parse(rows[i].clone()) {
            Ok(email) => Ok(ConfirmedSubscriber { email }),
            Err(error) => Err(error),
        };
        confirmed.push(reading);
        i = i + 1;
    }
    confirmed
}

/// The addresses that an issue goes to: those of the rows that read as
/// subscribers, in the rows' order.
pub open spec fn addresses(readings: Seq<Result<ConfirmedSubscriber, String>>) -> Seq<Seq<char>>
    decreases readings.len(),
{
    if readings.len() == 0 {
        Seq::<Seq<char>>::empty()
    } else {
        match readings.last() {
            Ok(subscriber) => addresses(readings.drop_last()).push(subscriber.email@),
            Err(_) => addresses(readings.drop_last()),
        }
    }
}

/// Picks the subscribers that an issue is sent to, skipping every row
/// whose address did not validate.
pub fn recipients(readings: Vec<Result<ConfirmedSubscriber, String>>) -> (r: Vec<SubscriberEmail>)
    ensures
        r@.map_values(|email: SubscriberEmail| email@) == addresses(readings@),
{
    let mut picked: Vec<SubscriberEmail> = Vec::new();
    let mut i: usize = 0;
    while i < readings.len()
        invariant
            i <= readings.len(),
            picked@.map_values(|email: SubscriberEmail| email@) == addresses(
                readings@.subrange(0, i as int),
            ),
        decreases readings.len() - i,
    {
        proof {
            let next = readings@.subrange(0, i + 1);
            assert(next.drop_last() =~= readings@.subrange(0, i as int));
        }
        match &readings[i] {
            Ok(subscriber) => {
                picked.push(subscriber.email.clone());
            },
            Err(_) => {},
        }
        i = i + 1;
    }
    proof {
        assert(readings@.subrange(0, i as int) =~= readings@);
    }
    picked
}

} // verus!
