use uuid::Uuid;
use zero2prod::authentication::{update_failed, AuthError};
use zero2prod::failure::Failure;
use zero2prod::routes::admin::password::{has_valid_length, FormData, Step};
use zero2prod::routes::{
    after_update, after_validation, change_password_form, check_new_password,
    reject_anonymous_users, FlashMessage, Level,
};
use zero2prod::secrets::SecretString;

fn secret(text: &str) -> SecretString {
    SecretString::new(text.to_string())
}

fn form(current: &str, new: &str, check: &str) -> FormData {
    FormData {
        current_password: secret(current),
        new_password: secret(new),
        new_password_check: secret(check),
    }
}

fn notice_of(step: &Step) -> Option<&'static str> {
    match step {
        Step::Redirect(notice) => Some(*notice),
        _ => None,
    }
}

#[test]
fn new_password_fields_must_match() {
    let new_password = Uuid::new_v4().to_string();
    let another_new_password = Uuid::new_v4().to_string();
    let step = check_new_password(&form("current", &new_password, &another_new_password));
    assert_eq!(
        notice_of(&step),
        Some("You entered two different new passwords - the field values must match.")
    );
}

#[test]
fn fields_that_differ_are_reported_before_their_length() {
    let step = check_new_password(&form("current", "short", "other"));
    assert_eq!(
        notice_of(&step),
        Some("You entered two different new passwords - the field values must match.")
    );
}

#[test]
fn new_password_is_too_short_or_too_long() {
    let short_password = "too_short";
    let long_password = "too_looooooooooooooooooo\
        ooooooooooooooooooooooooooooooooooooooooooooooooo\
        oooooooooooooooooooooooooooooooooooooooooooooooooo\
        oooooooooooooooooooooooooooooooooooooooooooooooong";
    for password in [short_password, long_password] {
        let step = check_new_password(&form("current", password, password));
        assert_eq!(notice_of(&step), Some("The new password doesn't meet the OWASP requirement."));
    }
}

#[test]
fn the_length_policy_is_12_to_128() {
    for (length, accepted) in [(0, false), (11, false), (12, true), (13, true), (127, true), (128, true), (129, false)] {
        let password = "x".repeat(length);
        assert_eq!(has_valid_length(&secret(&password)), accepted, "length {}", length);
        let step = check_new_password(&form("current", &password, &password));
        assert_eq!(matches!(step, Step::Proceed), accepted, "length {}", length);
    }
}

#[test]
fn the_length_of_a_password_is_counted_in_characters() {
    assert!(has_valid_length(&secret(&"ä".repeat(12))));
    assert!(!has_valid_length(&secret(&"ä".repeat(11))));
    assert!(has_valid_length(&secret(&"ä".repeat(128))));
    assert!(!has_valid_length(&secret(&"ä".repeat(129))));
}

#[test]
fn password_must_be_verified_before_changing() {
    let step = after_validation(Err(AuthError::InvalidCredentials(Failure::new(
        "Invalid password",
    ))));
    assert_eq!(notice_of(&step), Some("The current password is incorrect!"));
}

#[test]
fn a_fault_while_checking_the_current_password_is_a_server_error() {
    let step = after_validation(Err(AuthError::UnexpectedError(Failure::caused_by(
        "Failed to retrieve stored credentials",
        "pool closed".to_string(),
    ))));
    assert!(matches!(
        &step,
        Step::Fail(fault) if fault.message == "Failed to retrieve stored credentials"
            && fault.causes == vec!["pool closed".to_string()]
    ));
    assert!(matches!(after_validation(Ok(Uuid::new_v4())), Step::Proceed));
}

#[test]
fn change_password_func_work() {
    let password = Uuid::new_v4().to_string();
    assert!(matches!(check_new_password(&form("current", &password, &password)), Step::Proceed));
    assert!(matches!(after_validation(Ok(Uuid::new_v4())), Step::Proceed));
    let step = after_update(Ok(()));
    assert_eq!(notice_of(&step), Some("Your password has been changed successfully."));
    let html = change_password_form(
        Some(Uuid::new_v4()),
        &vec![FlashMessage { level: Level::Error, content: notice_of(&step).unwrap().to_string() }],
    );
    assert!(html.unwrap().contains("<p><i>Your password has been changed successfully.</i></p>"));
}

#[test]
fn a_store_that_cannot_write_the_new_hash_is_a_server_error() {
    let step = after_update(Err(update_failed("connection reset".to_string())));
    assert!(matches!(
        &step,
        Step::Fail(fault) if fault.message == "Failed to change user's password in the database"
            && fault.causes == vec!["connection reset".to_string()]
    ));
}

#[test]
fn you_must_be_logged_in_to_see_change_password_form() {
    assert_eq!(change_password_form(None, &vec![]), None);
}

#[test]
fn the_change_password_page_shows_every_notice() {
    let html = change_password_form(
        Some(Uuid::new_v4()),
        &vec![
            FlashMessage { level: Level::Info, content: "first".to_string() },
            FlashMessage { level: Level::Debug, content: "second".to_string() },
        ],
    )
    .unwrap();
    assert!(html.starts_with(
        "<!DOCTYPE html>\n<html lang=\"en\">\n<head>\n    <meta http-equiv=\"content-type\" content=\"text/html; charset=utf-8\">\n    <title>Change Password</title>\n</head>\n<body>\n    <p><i>first</i></p>\n<p><i>second</i></p>\n\n    <form action=\"/admin/password\" method=\"post\">"
    ));
    assert!(html.ends_with("    <p><a href=\"/admin/dashboard\"><- Back</a></p>\n</body>\n</html>"));
    assert!(html.contains("name=\"current_password\""));
    assert!(html.contains("name=\"new_password\""));
    assert!(html.contains("name=\"new_password_check\""));
}

#[test]
fn you_must_be_logged_in_to_change_password() {
    assert_eq!(reject_anonymous_users(None), Err("/login"));
}

#[test]
fn user_must_be_logged_in_to_access_the_admin_dashboard() {
    assert_eq!(reject_anonymous_users(None), Err("/login"));
    let id = Uuid::new_v4();
    assert_eq!(reject_anonymous_users(Some(id)), Ok(id));
}
