use zero2prod::domain::{NewSubscriber, SubscriberEmail, SubscriberName};
use zero2prod::routes::FormData;

fn form(name: &str, email: &str) -> FormData {
    FormData { email: email.to_string(), name: name.to_string() }
}

#[test]
fn valid_emails_are_parsed_successfully() {
    for address in [
        "ursula_le_guin@gmail.com",
        "email@here.com",
        "weirder-email@here.and.there.com",
        "email@[127.0.0.1]",
    ] {
        let email = SubscriberEmail::parse(address.to_string());
        assert!(email.is_ok(), "{} was refused", address);
        let email = email.unwrap();
        assert_eq!(email.as_ref(), address);
        assert_eq!(email.to_string(), address);
        assert_eq!(email.clone().as_ref(), address);
    }
}

#[test]
fn an_empty_string_is_no_email() {
    assert_eq!(
        SubscriberEmail::parse("".to_string()).map(|e| e.to_string()),
        Err(" is not a valid subscriber email".to_string())
    );
}

#[test]
fn an_email_without_at_symbol_is_rejected() {
    assert_eq!(
        SubscriberEmail::parse("ursuladomain.com".to_string()).map(|e| e.to_string()),
        Err("ursuladomain.com is not a valid subscriber email".to_string())
    );
}

#[test]
fn an_email_without_subject_is_rejected() {
    assert!(SubscriberEmail::parse("@domain.com".to_string()).is_err());
    assert!(SubscriberEmail::parse("not_an_email".to_string()).is_err());
    assert!(SubscriberEmail::parse("a@b@".to_string()).is_err());
}

#[test]
fn a_name_that_says_something_is_accepted() {
    let name = SubscriberName::parse("le guin".to_string());
    assert!(name.is_ok());
    let name = name.unwrap();
    assert_eq!(name.as_ref(), "le guin");
    assert_eq!(name.clone().as_ref(), "le guin");
}

#[test]
fn an_empty_name_is_rejected() {
    assert_eq!(
        SubscriberName::parse("".to_string()).map(|name| name.as_ref().to_string()),
        Err(" is not a valid subscriber name.".to_string())
    );
}

#[test]
fn a_valid_form_makes_a_subscriber() {
    let subscriber = NewSubscriber::try_from(form("le guin", "ursula_le_guin@gmail.com"));
    assert!(subscriber.is_ok());
    let subscriber = subscriber.ok().unwrap();
    assert_eq!(subscriber.name.as_ref(), "le guin");
    assert_eq!(subscriber.email.as_ref(), "ursula_le_guin@gmail.com");
}

#[test]
fn subscribe_returns_400_when_fields_are_present_but_invalid() {
    let cases = [
        (form("", "ursula_le_guin@gmail.com"), " is not a valid subscriber name."),
        (form("Ursula", ""), " is not a valid subscriber email"),
        (form("Ursula", "not_an_email"), "not_an_email is not a valid subscriber email"),
    ];
    for (form, message) in cases {
        let refused = NewSubscriber::try_from(form);
        assert_eq!(refused.err(), Some(message.to_string()));
    }
}

#[test]
fn the_name_is_validated_before_the_address() {
    let refused = NewSubscriber::try_from(form("", "not_an_email"));
    assert_eq!(refused.err(), Some(" is not a valid subscriber name.".to_string()));
}
