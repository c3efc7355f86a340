//! What is sent to the e-mail service, apart from the sending.

use crate::domain::SubscriberEmail;
use crate::secrets::SecretString;
use std::time::Duration;
use vstd::prelude::*;

verus! {

/// The account at the e-mail service that messages go out from.
pub struct EmailClient {
    sender: SubscriberEmail,
    base_url: String,
    authorization_token: SecretString,
    timeout: Duration,
}

/// The body of a request to send one message.
pub struct SendEmailRequest<'a> {
    pub from: &'a str,
    pub to: &'a str,
    pub subject: &'a str,
    pub html_body: &'a str,
    pub text_body: &'a str,
}

/// The path, below the service's base URL, that messages are posted to.
pub const EMAIL_PATH: &'static str = "/email";

/// The request header that carries the authorization token.
pub const TOKEN_HEADER: &'static str = "Some-sort-of-a-token";

impl EmailClient {
    /// The address that messages go out from.
    pub closed spec fn sender(self) -> Seq<char> {
        self.sender@
    }

    /// The base URL of the e-mail service.
    pub closed spec fn base_url(self) -> Seq<char> {
        self.base_url@
    }

    /// The token that authorizes requests.
    pub closed spec fn authorization_token(self) -> Seq<char> {
        self.authorization_token@
    }

    /// How long a request may take.
    pub closed spec fn timeout(self) -> Duration {
        self.timeout
    }

    /// A client for the service at `base_url`, sending as `sender`.
    pub fn new(
        base_url: String,
        sender: SubscriberEmail,
        authorization_token: SecretString,
        timeout: Duration,
    ) -> (client: EmailClient)
        ensures
            client.base_url() == base_url@,
            client.sender() == sender@,
            client.authorization_token() == authorization_token@,
            client.timeout() == timeout,
    {
        EmailClient { sender, base_url, authorization_token, timeout }
    }

    /// The address that requests to send a message go to.
    pub fn url(&self) -> (url: String)
        ensures
            url@ == self.base_url() + EMAIL_PATH@,
    {
        self.base_url.clone().concat(EMAIL_PATH)
    }

    /// The token that authorizes a request, to be sent in the header
    /// [`TOKEN_HEADER`].
    pub fn token(&self) -> (token: &SecretString)
        ensures
            token@ == self.authorization_token(),
    {
        &self.authorization_token
    }

    /// How long a request may take.
    pub fn request_timeout(&self) -> (timeout: Duration)
        ensures
            timeout == self.timeout(),
    {
        self.timeout
    }

    /// The request that sends one message from the client's sender to
    /// `recipient`.
    pub fn send_email<'a>(
        &'a self,
        recipient: &'a SubscriberEmail,
        subject: &'a str,
        html_content: &'a str,
        text_content: &'a str,
    ) -> (request: SendEmailRequest<'a>)
        ensures
            request.from@ == self.sender(),
            request.to@ == recipient@,
            request.subject@ == subject@,
            request.html_body@ == html_content@,
            request.text_body@ == text_content@,
    {
        SendEmailRequest {
            from: self.sender.as_ref(),
            to: recipient.as_ref(),
            subject,
            html_body: html_content,
            text_body: text_content,
        }
    }
}

} // verus!
