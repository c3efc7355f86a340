use uuid::Uuid;
use zero2prod::failure::Failure;
use zero2prod::routes::subscriptions_confirm::ConfirmationError;
use zero2prod::routes::{
    confirm, error_chain_fmt, generate_subscription_token, greet, send_confirmation_email,
    StoreTokenError, SubscribeError, SubscribeStep,
};
use zero2prod::startup::ApplicationBaseUrl;

#[test]
fn a_token_is_25_letters_and_digits() {
    for _ in 0..50 {
        let token = generate_subscription_token();
        assert_eq!(token.len(), 25);
        assert_eq!(token.chars().count(), 25);
        assert!(token.chars().all(|c| c.is_ascii_alphanumeric()));
    }
}

#[test]
fn two_tokens_differ() {
    assert_ne!(generate_subscription_token(), generate_subscription_token());
}

#[test]
fn subscribe_sends_a_confirmation_email_with_a_link() {
    let base_url = ApplicationBaseUrl("http://127.0.0.1:8000".to_string());
    let email = send_confirmation_email(&base_url.0, "abc123");
    let link = "http://127.0.0.1:8000/subscriptions/confirm?subscription_token=abc123";
    assert_eq!(email.subject, "Welcome");
    assert_eq!(
        email.plain_body,
        format!("Welcome to our newsletter!\n\n        Visit {} to confirm your subscription.", link)
    );
    assert_eq!(
        email.html_body,
        format!(
            "Welcome to our newsletter!<br />Click <a href=\"{}\">here</a> to confirm your subscription.",
            link
        )
    );
}

#[test]
fn a_confirmation_email_with_empty_parts_still_has_its_frame() {
    let email = send_confirmation_email("", "");
    assert_eq!(
        email.plain_body,
        "Welcome to our newsletter!\n\n        Visit /subscriptions/confirm?subscription_token= to confirm your subscription."
    );
    assert_eq!(
        email.html_body,
        "Welcome to our newsletter!<br />Click <a href=\"/subscriptions/confirm?subscription_token=\">here</a> to confirm your subscription."
    );
}

#[test]
fn an_error_without_causes_is_its_text_and_a_blank_line() {
    assert_eq!(error_chain_fmt("it broke", &vec![]), "it broke\n\n");
    assert_eq!(error_chain_fmt("", &vec![]), "\n\n");
}

#[test]
fn an_error_chain_names_each_cause_in_turn() {
    let causes = vec!["the pool timed out".to_string(), "connection refused".to_string()];
    assert_eq!(
        error_chain_fmt("Failed to store the confirmation token for new subscriber", &causes),
        "Failed to store the confirmation token for new subscriber\n\n\
         Caused by:\n\tthe pool timed out\n\
         Caused by:\n\tconnection refused\n"
    );
}

#[test]
fn a_refused_form_is_a_bad_request_and_a_fault_a_server_error() {
    let refused = SubscribeError::ValidationError(" is not a valid subscriber name.".to_string());
    assert_eq!(refused.status_code(), 400);
    assert_eq!(refused.to_string(), " is not a valid subscriber name.");
    assert_eq!(refused.fmt(), " is not a valid subscriber name.\n\n");
    let fault = SubscribeError::UnexpectedError(Failure::new("Failed to commit"));
    assert_eq!(fault.status_code(), 500);
    assert_eq!(fault.to_string(), "Failed to commit");
}

#[test]
fn a_token_that_could_not_be_stored_says_so_and_keeps_its_cause() {
    let e = StoreTokenError("duplicate key".to_string());
    assert_eq!(
        e.to_string(),
        "A database error was encountered while trying to store a subscription token."
    );
    assert_eq!(e.source(), "duplicate key");
    assert_eq!(
        e.fmt(),
        "A database error was encountered while trying to store a subscription token.\n\n\
         Caused by:\n\tduplicate key\n"
    );
}

#[test]
fn the_link_returned_by_subscribe_returns_200_if_called() {
    let id = Uuid::new_v4();
    assert_eq!(confirm(Ok(Some(id))).ok(), Some(id));
}

#[test]
fn a_token_that_nobody_holds_is_unauthorized() {
    match confirm(Ok(None)) {
        Err(e) => {
            assert!(matches!(e, ConfirmationError::TokenNotFound));
            assert_eq!(e.status_code(), 401);
            assert_eq!(e.to_string(), "The provided subscription token was not found");
            assert_eq!(e.fmt(), "The provided subscription token was not found\n\n");
        },
        Ok(_) => panic!("nobody holds the token"),
    }
}

#[test]
fn a_store_that_cannot_look_up_a_token_is_a_server_error() {
    match confirm(Err("connection refused".to_string())) {
        Err(e) => {
            assert_eq!(e.status_code(), 500);
            assert_eq!(e.to_string(), "Failed to retrieve the subscriber id");
            assert_eq!(
                e.fmt(),
                "Failed to retrieve the subscriber id\n\nCaused by:\n\tconnection refused\n"
            );
        },
        Ok(_) => panic!("the store did not answer"),
    }
    let e = ConfirmationError::confirm_failed("deadlock".to_string());
    assert_eq!(e.status_code(), 500);
    assert_eq!(e.to_string(), "Failed to confirm the subscriber");
    assert_eq!(e.fmt(), "Failed to confirm the subscriber\n\nCaused by:\n\tdeadlock\n");
}

#[test]
fn greeting_by_name_or_the_world() {
    assert_eq!(greet(Some("Ursula")), "Hello Ursula!");
    assert_eq!(greet(None), "Hello World!");
    assert_eq!(greet(Some("")), "Hello !");
}

#[test]
fn each_step_of_a_subscription_fails_in_its_own_words() {
    let cases = [
        (SubscribeStep::AcquireConnection, "Failed to acquire a pg connection from the pg pool"),
        (SubscribeStep::InsertSubscriber, "Failed to insert a new subscriber into database"),
        (SubscribeStep::StoreToken, "Failed to store the confirmation token for new subscriber"),
        (SubscribeStep::Commit, "Failed to commit SQL transaction to store new subscriber"),
        (SubscribeStep::SendEmail, "Failed to send a confirmation email to new subscriber"),
    ];
    for (step, context) in cases {
        assert_eq!(step.context(), context);
        let e = SubscribeError::failed(step, "timed out".to_string());
        assert_eq!(e.status_code(), 500);
        assert_eq!(e.to_string(), context);
        assert_eq!(e.fmt(), format!("{}\n\nCaused by:\n\ttimed out\n", context));
    }
}

#[test]
fn a_token_that_could_not_be_stored_fails_the_subscription_with_both_causes() {
    let e = SubscribeError::from_store_token_error(StoreTokenError("duplicate key".to_string()));
    assert_eq!(e.status_code(), 500);
    assert_eq!(e.to_string(), "Failed to store the confirmation token for new subscriber");
    assert_eq!(
        e.fmt(),
        "Failed to store the confirmation token for new subscriber\n\n\
         Caused by:\n\tA database error was encountered while trying to store a subscription token.\n\
         Caused by:\n\tduplicate key\n"
    );
}
