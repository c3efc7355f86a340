use base64::Engine;
use zero2prod::authentication::AuthError;
use zero2prod::domain::SubscriberEmail;
use zero2prod::failure::Failure;
use zero2prod::routes::{
    basic_authentication, get_confirmed_subscribers, recipients, split_credentials,
    AuthorizationHeader, BasicAuthError, NewsletterBody, NewsletterContent, PublishError,
};

fn credentials_of(header: &str) -> Result<(String, String), BasicAuthError> {
    basic_authentication(AuthorizationHeader::Text(header))
        .map(|c| (c.username, c.password.expose_secret().clone()))
}

fn pair(username: &str, password: &str) -> Result<(String, String), BasicAuthError> {
    Ok((username.to_string(), password.to_string()))
}

#[test]
fn basic_credentials_are_read_from_the_header() {
    assert_eq!(credentials_of("Basic YWxpY2U6czNjcmV0"), pair("alice", "s3cret"));
    assert_eq!(
        credentials_of("Basic YWRtaW46ZXZlcnl0aGluZ2hhc3Rvc3RhcnRzb21ld2hlcmU="),
        pair("admin", "everythinghastostartsomewhere")
    );
}

#[test]
fn the_password_is_all_that_follows_the_first_colon() {
    assert_eq!(credentials_of("Basic YWxpY2U6cGFzczp3b3Jk"), pair("alice", "pass:word"));
    assert_eq!(credentials_of("Basic Om5vcHc="), pair("", "nopw"));
    assert_eq!(credentials_of("Basic YWxpY2U6"), pair("alice", ""));
}

#[test]
fn credentials_may_be_any_unicode_text() {
    assert_eq!(
        credentials_of("Basic w7xuw69jb2RlOnDDpHNzd29yZA=="),
        pair("ünïcode", "pässword")
    );
}

#[test]
fn reject_requests_missing_authorization() {
    let refused = basic_authentication(AuthorizationHeader::Missing);
    assert_eq!(refused.err(), Some(BasicAuthError::MissingHeader));
    let e = PublishError::from_basic_auth(BasicAuthError::MissingHeader);
    assert_eq!(e.status_code(), 401);
    assert_eq!(e.error_response(), (401, Some("Basic realm=\"publish\"")));
    assert_eq!(e.to_string(), "Authorization failed");
    assert_eq!(
        e.fmt(),
        "Authorization failed\n\nCaused by:\n\tMissing 'Authorization' header\n"
    );
}

#[test]
fn a_header_that_is_not_text_is_refused() {
    let said = "failed to convert header to a str".to_string();
    let refused = basic_authentication(AuthorizationHeader::NotText(said.clone()));
    assert_eq!(refused.err(), Some(BasicAuthError::NotText(said.clone())));
    let failure = BasicAuthError::NotText(said.clone()).into_failure();
    assert_eq!(
        failure.message,
        "Failed to parse authorization header: not a valid UTF-8 string"
    );
    assert_eq!(failure.causes, vec![said]);
}

#[test]
fn a_header_of_another_scheme_is_refused() {
    for header in ["", "Basic", "basic YWxpY2U6czNjcmV0", "Bearer abc", "BasicYWxpY2U6czNjcmV0", " Basic YWxpY2U6czNjcmV0"] {
        assert_eq!(credentials_of(header), Err(BasicAuthError::NotBasic), "{:?}", header);
    }
}

#[test]
fn credentials_that_are_not_base64_are_refused() {
    for encoded in ["!!!", "YWxpY2U6czNjcmV0=", " YWxpY2U6czNjcmV0", "YWxpY2U"] {
        let said = base64::engine::general_purpose::STANDARD
            .decode(encoded)
            .expect_err("the text is no base64")
            .to_string();
        assert!(!said.is_empty());
        assert_eq!(
            credentials_of(&format!("Basic {}", encoded)),
            Err(BasicAuthError::InvalidBase64(said)),
            "{:?}",
            encoded
        );
    }
}

#[test]
fn credentials_that_are_not_utf8_are_refused() {
    let said = String::from_utf8(vec![0xff, 0xfe, b':', b'x'])
        .expect_err("the bytes are no UTF-8")
        .to_string();
    assert!(!said.is_empty());
    assert_eq!(credentials_of("Basic //46eA=="), Err(BasicAuthError::InvalidUtf8(said.clone())));
    let failure = BasicAuthError::InvalidUtf8(said.clone()).into_failure();
    assert_eq!(failure.message, "Decoded credentials are not valid UTF-8");
    assert_eq!(failure.causes, vec![said]);
}

#[test]
fn credentials_without_a_colon_have_no_password() {
    assert_eq!(credentials_of("Basic YWxpY2U="), Err(BasicAuthError::MissingPassword));
    assert_eq!(credentials_of("Basic "), Err(BasicAuthError::MissingPassword));
}

#[test]
fn decoded_credentials_are_split_at_the_first_colon() {
    let split = |text: &str| {
        split_credentials(text).map(|c| (c.username, c.password.expose_secret().clone()))
    };
    assert_eq!(split("alice:s3cret"), pair("alice", "s3cret"));
    assert_eq!(split(":"), pair("", ""));
    assert_eq!(split("a:b:c"), pair("a", "b:c"));
    assert_eq!(split("日本語:パスワード"), pair("日本語", "パスワード"));
    assert_eq!(split("alice"), Err(BasicAuthError::MissingPassword));
    assert_eq!(split(""), Err(BasicAuthError::MissingPassword));
}

#[test]
fn each_way_of_failing_has_its_own_words() {
    assert_eq!(BasicAuthError::MissingHeader.message(), "Missing 'Authorization' header");
    assert_eq!(
        BasicAuthError::NotText("opaque".to_string()).message(),
        "Failed to parse authorization header: not a valid UTF-8 string"
    );
    assert_eq!(
        BasicAuthError::NotBasic.message(),
        "Invalid authorization header: not 'Basic' scheme"
    );
    assert_eq!(
        BasicAuthError::InvalidBase64("Invalid padding".to_string()).message(),
        "Failed to decode base64-encoded 'Basic' credentials"
    );
    assert_eq!(
        BasicAuthError::InvalidUtf8("invalid utf-8".to_string()).message(),
        "Decoded credentials are not valid UTF-8"
    );
    assert_eq!(
        BasicAuthError::MissingPassword.message(),
        "Password is missing in the 'Basic' authorization credentials"
    );
}

#[test]
fn a_credential_judgment_is_unauthorized_and_a_fault_a_server_error() {
    let e = PublishError::from_auth_error(AuthError::InvalidCredentials(Failure::new(
        "Invalid password",
    )));
    assert!(matches!(&e, PublishError::AuthError(refusal) if refusal.message == "Invalid credentials"));
    assert_eq!(e.status_code(), 401);
    assert_eq!(e.error_response(), (401, Some("Basic realm=\"publish\"")));
    assert_eq!(e.to_string(), "Authorization failed");
    assert_eq!(
        e.fmt(),
        "Authorization failed\n\nCaused by:\n\tInvalid credentials\nCaused by:\n\tInvalid password\n"
    );

    let e = PublishError::from_auth_error(AuthError::UnexpectedError(Failure::caused_by(
        "Failed to retrieve stored credentials",
        "pool closed".to_string(),
    )));
    assert!(matches!(&e, PublishError::UnexpectedError(_)));
    assert_eq!(e.status_code(), 500);
    assert_eq!(e.error_response(), (500, None));
    assert_eq!(e.to_string(), "Failed to retrieve stored credentials");
    assert_eq!(
        e.fmt(),
        "Failed to retrieve stored credentials\n\nCaused by:\n\tpool closed\n"
    );
}

#[test]
fn a_failed_delivery_names_the_recipient() {
    let recipient = SubscriberEmail::parse("ursula_le_guin@gmail.com".to_string()).unwrap();
    let e = PublishError::delivery_failed(&recipient, "503 Service Unavailable".to_string());
    assert_eq!(e.status_code(), 500);
    assert_eq!(e.to_string(), "Failed to send newsletter to ursula_le_guin@gmail.com");
    assert_eq!(
        e.fmt(),
        "Failed to send newsletter to ursula_le_guin@gmail.com\n\nCaused by:\n\t503 Service Unavailable\n"
    );
    let e = PublishError::listing_failed("pool timed out".to_string());
    assert_eq!(e.status_code(), 500);
    assert_eq!(e.to_string(), "pool timed out");
    assert_eq!(e.fmt(), "pool timed out\n\n");
}

#[test]
fn newsletters_are_delivered_to_confirmed_subscribers() {
    let rows = vec!["ursula_le_guin@gmail.com".to_string(), "second@example.com".to_string()];
    let subscribers = get_confirmed_subscribers(rows);
    assert_eq!(subscribers.len(), 2);
    assert_eq!(subscribers[0].as_ref().map(|s| s.email.as_ref()).ok(), Some("ursula_le_guin@gmail.com"));
    assert_eq!(subscribers[1].as_ref().map(|s| s.email.as_ref()).ok(), Some("second@example.com"));
}

#[test]
fn a_stored_address_that_no_longer_validates_is_kept_as_an_error() {
    let rows = vec![
        "first@example.com".to_string(),
        "not-an-address".to_string(),
        "third@example.com".to_string(),
    ];
    let subscribers = get_confirmed_subscribers(rows);
    assert_eq!(subscribers.len(), 3);
    assert!(subscribers[0].is_ok());
    assert_eq!(
        subscribers[1].as_ref().err(),
        Some(&"not-an-address is not a valid subscriber email".to_string())
    );
    assert_eq!(subscribers[2].as_ref().map(|s| s.email.as_ref()).ok(), Some("third@example.com"));
    assert!(get_confirmed_subscribers(vec![]).is_empty());
}

#[test]
fn an_issue_has_a_title_and_two_renderings() {
    let issue = NewsletterBody {
        title: "newsletter title".to_string(),
        content: NewsletterContent {
            text: "newsletter content".to_string(),
            html: "<p>newsletter content</p>".to_string(),
        },
    };
    assert_eq!(issue.title, "newsletter title");
    assert_eq!(issue.content.text, "newsletter content");
    assert_eq!(issue.content.html, "<p>newsletter content</p>");
}

#[test]
fn an_issue_goes_to_the_rows_that_read_as_subscribers_in_their_order() {
    let rows = vec![
        "first@example.com".to_string(),
        "not-an-address".to_string(),
        "".to_string(),
        "third@example.com".to_string(),
    ];
    let picked = recipients(get_confirmed_subscribers(rows));
    let picked: Vec<&str> = picked.iter().map(|email| email.as_ref()).collect();
    assert_eq!(picked, vec!["first@example.com", "third@example.com"]);
    assert!(recipients(get_confirmed_subscribers(vec!["nobody".to_string()])).is_empty());
    assert!(recipients(vec![]).is_empty());
}

#[test]
fn credentials_that_are_not_base64_keep_what_the_decoder_said() {
    let refusal = basic_authentication(AuthorizationHeader::Text("Basic !!!")).err().unwrap();
    let said = match &refusal {
        BasicAuthError::InvalidBase64(said) => said.clone(),
        other => panic!("expected InvalidBase64, not {:?}", other),
    };
    let failure = refusal.into_failure();
    assert_eq!(failure.message, "Failed to decode base64-encoded 'Basic' credentials");
    assert_eq!(failure.causes, vec![said.clone()]);

    let e = PublishError::from_basic_auth(BasicAuthError::InvalidBase64(said.clone()));
    assert_eq!(e.status_code(), 401);
    assert_eq!(e.to_string(), "Authorization failed");
    assert_eq!(
        e.fmt(),
        format!(
            "Authorization failed\n\nCaused by:\n\tFailed to decode base64-encoded 'Basic' credentials\nCaused by:\n\t{}\n",
            said
        )
    );
    assert!(BasicAuthError::NotBasic.into_failure().causes.is_empty());
}
