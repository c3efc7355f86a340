use std::time::Duration;
use zero2prod::domain::SubscriberEmail;
use zero2prod::email_client::EmailClient;
use zero2prod::secrets::SecretString;

fn email_client(base_url: &str) -> EmailClient {
    EmailClient::new(
        base_url.to_string(),
        SubscriberEmail::parse("sender@example.com".to_string()).unwrap(),
        SecretString::new("my-secret-token".to_string()),
        Duration::from_millis(200),
    )
}

#[test]
fn send_email_fires_a_request_to_base_url() {
    let client = email_client("http://127.0.0.1:4000");
    assert_eq!(client.url(), "http://127.0.0.1:4000/email");
    assert_eq!(client.token().expose_secret().as_str(), "my-secret-token");
    assert_eq!(client.request_timeout(), Duration::from_millis(200));
    assert_eq!(zero2prod::email_client::TOKEN_HEADER, "Some-sort-of-a-token");
}

#[test]
fn a_request_carries_sender_recipient_subject_and_both_bodies() {
    let client = email_client("http://127.0.0.1:4000");
    let recipient = SubscriberEmail::parse("ursula_le_guin@gmail.com".to_string()).unwrap();
    let request = client.send_email(&recipient, "Welcome", "<p>hello</p>", "hello");
    assert_eq!(request.from, "sender@example.com");
    assert_eq!(request.to, "ursula_le_guin@gmail.com");
    assert_eq!(request.subject, "Welcome");
    assert_eq!(request.html_body, "<p>hello</p>");
    assert_eq!(request.text_body, "hello");
}
