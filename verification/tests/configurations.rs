use std::time::Duration;
use zero2prod::configurations::{
    ApplicationSettings, DatabaseSettings, EmailClientSettings, Environment, SslMode,
};
use zero2prod::secrets::SecretString;
use zero2prod::startup::listen_address;

fn database(ssl_required: bool) -> DatabaseSettings {
    DatabaseSettings {
        username: "postgres".to_string(),
        password: SecretString::new("password".to_string()),
        port: 5432,
        host: "127.0.0.1".to_string(),
        database_name: "newsletter".to_string(),
        ssl_required,
    }
}

fn email_client(sender_email: &str) -> EmailClientSettings {
    EmailClientSettings {
        base_url: "https://api.example.com".to_string(),
        sender_email: sender_email.to_string(),
        authorization_token: SecretString::new("my-secret-token".to_string()),
        timeout_millisec: 10000,
    }
}

#[test]
fn environments_are_spelled_in_lowercase() {
    assert_eq!(Environment::Local.as_str(), "local");
    assert_eq!(Environment::Prodution.as_str(), "production");
}

#[test]
fn an_environment_is_read_in_any_case() {
    assert_eq!(Environment::try_from("local".to_string()), Ok(Environment::Local));
    assert_eq!(Environment::try_from("LOCAL".to_string()), Ok(Environment::Local));
    assert_eq!(Environment::try_from("production".to_string()), Ok(Environment::Prodution));
    assert_eq!(Environment::try_from("Production".to_string()), Ok(Environment::Prodution));
}

#[test]
fn an_unknown_environment_is_refused_by_its_lowercase_name() {
    assert_eq!(
        Environment::try_from("Staging".to_string()),
        Err("staging is not a supported environment. Use either 'local' or 'production'."
            .to_string())
    );
    assert_eq!(
        Environment::try_from("".to_string()),
        Err(" is not a supported environment. Use either 'local' or 'production'.".to_string())
    );
    assert!(Environment::try_from("local ".to_string()).is_err());
}

#[test]
fn a_name_already_in_lowercase_is_read_as_it_stands() {
    assert_eq!(Environment::from_lowercase("production".to_string()), Ok(Environment::Prodution));
    assert_eq!(
        Environment::from_lowercase("LOCAL".to_string()),
        Err("LOCAL is not a supported environment. Use either 'local' or 'production'."
            .to_string())
    );
}

#[test]
fn without_a_variable_the_environment_is_local() {
    assert_eq!(Environment::from_variable(None), Ok(Environment::Local));
    assert_eq!(
        Environment::from_variable(Some("PRODUCTION".to_string())),
        Ok(Environment::Prodution)
    );
    assert!(Environment::from_variable(Some("test".to_string())).is_err());
}

#[test]
fn each_environment_has_its_configuration_file() {
    assert_eq!(Environment::Local.configuration_file(), "local.yaml");
    assert_eq!(Environment::Prodution.configuration_file(), "production.yaml");
}

#[test]
fn a_connection_without_database_follows_the_settings() {
    let options = database(false).without_db();
    assert_eq!(options.host, "127.0.0.1");
    assert_eq!(options.username, "postgres");
    assert_eq!(options.password.expose_secret().as_str(), "password");
    assert_eq!(options.port, 5432);
    assert_eq!(options.ssl_mode, SslMode::Prefer);
    assert_eq!(options.database, None);
}

#[test]
fn encryption_is_required_where_the_settings_say_so() {
    assert_eq!(database(true).without_db().ssl_mode, SslMode::Require);
    assert_eq!(database(true).with_db().ssl_mode, SslMode::Require);
    assert_eq!(database(false).with_db().ssl_mode, SslMode::Prefer);
}

#[test]
fn a_connection_with_database_names_the_configured_one() {
    let options = database(true).with_db();
    assert_eq!(options.database, Some("newsletter".to_string()));
    assert_eq!(options.host, "127.0.0.1");
    assert_eq!(options.username, "postgres");
    assert_eq!(options.password.expose_secret().as_str(), "password");
    assert_eq!(options.port, 5432);
}

#[test]
fn the_sender_is_the_configured_address_where_it_is_one() {
    let sender = email_client("sender@example.com").sender();
    assert_eq!(sender.map(|email| email.to_string()), Ok("sender@example.com".to_string()));
    assert_eq!(
        email_client("nobody").sender().map(|email| email.to_string()),
        Err("nobody is not a valid subscriber email".to_string())
    );
}

#[test]
fn the_timeout_is_the_configured_number_of_milliseconds() {
    assert_eq!(email_client("sender@example.com").timeout(), Duration::from_millis(10000));
    let mut settings = email_client("sender@example.com");
    settings.timeout_millisec = 0;
    assert_eq!(settings.timeout(), Duration::ZERO);
    settings.timeout_millisec = u64::MAX;
    assert_eq!(settings.timeout().as_millis(), u64::MAX as u128);
}

#[test]
fn settings_can_be_copied_with_their_secrets() {
    let settings = database(true);
    let copy = settings.clone();
    assert_eq!(copy.password.expose_secret(), settings.password.expose_secret());
    assert_eq!(copy.database_name, settings.database_name);
}

#[test]
fn the_service_listens_on_the_configured_host_and_port() {
    let application = |host: &str, port: u16| ApplicationSettings {
        port,
        host: host.to_string(),
        base_url: "http://127.0.0.1".to_string(),
        hmac_secret: SecretString::new("long-and-secret".to_string()),
    };
    assert_eq!(listen_address(&application("127.0.0.1", 8000)), "127.0.0.1:8000");
    assert_eq!(listen_address(&application("0.0.0.0", 0)), "0.0.0.0:0");
    assert_eq!(listen_address(&application("localhost", 7)), "localhost:7");
    assert_eq!(listen_address(&application("localhost", 10)), "localhost:10");
    assert_eq!(listen_address(&application("localhost", 65535)), "localhost:65535");
}
