//! What the service is configured with, and what follows from it.

use crate::domain::SubscriberEmail;
use crate::secrets::SecretString;
use std::time::Duration;
use vstd::prelude::*;

verus! {

/// Everything the service reads at start.
#[derive(Clone)]
pub struct Settings {
    pub database: DatabaseSettings,
    pub application: ApplicationSettings,
    pub email_client: EmailClientSettings,
    pub redis_uri: SecretString,
}

/// How to reach the e-mail service.
#[derive(Clone)]
pub struct EmailClientSettings {
    pub base_url: String,
    pub sender_email: String,
    pub authorization_token: SecretString,
    pub timeout_millisec: u64,
}

/// Where the service listens, and how it signs.
#[derive(Clone)]
pub struct ApplicationSettings {
    pub port: u16,
    pub host: String,
    pub base_url: String,
    pub hmac_secret: SecretString,
}

/// How to reach the database.
#[derive(Clone)]
pub struct DatabaseSettings {
    pub username: String,
    pub password: SecretString,
    pub port: u16,
    pub host: String,
    pub database_name: String,
    pub ssl_required: bool,
}

/// Whether a database connection must be encrypted.
#[derive(Clone, Copy, Debug, PartialEq, Eq, Structural)]
pub enum SslMode {
    /// Only an encrypted connection will do.
    Require,
    /// Encrypted where the server offers it.
    Prefer,
}

/// The options of a database connection, as plain values.
pub struct ConnectOptions {
    pub host: String,
    pub username: String,
    pub password: SecretString,
    pub port: u16,
    pub ssl_mode: SslMode,
    pub database: Option<String>,
}

/// The environments that the service runs in.
#[derive(Clone, Copy, Debug, PartialEq, Eq, Structural)]
pub enum Environment {
    Local,
    Prodution,
}

pub const LOCAL: &'static str = "local";

pub const PRODUCTION: &'static str = "production";

pub const UNSUPPORTED_ENVIRONMENT: &'static str =
    " is not a supported environment. Use either 'local' or 'production'.";

pub const YAML_SUFFIX: &'static str = ".yaml";

/// The lowercase equivalent of a text, by Unicode's rules.
pub uninterp spec fn lowercased(text: Seq<char>) -> Seq<char>;

/// `str::to_lowercase`: a function of the text alone.
#[verifier::external_body]
fn to_lowercase(text: &str) -> (lowered: String)
    ensures
        lowered@ == lowercased(text@),
{
    text.to_lowercase()
}

/// The number of whole milliseconds in a duration.
pub uninterp spec fn duration_millis(duration: Duration) -> nat;

/// `Duration::from_millis`: the duration of that many milliseconds.
#[verifier::external_body]
fn from_millis(millis: u64) -> (duration: Duration)
    ensures
        duration_millis(duration) == millis,
{
    Duration::from_millis(millis)
}

impl Environment {
    /// The environment's name, as configuration files and variables spell
    /// it.
    pub open spec fn name(self) -> Seq<char> {
        match self {
            Environment::Local => LOCAL@,
            Environment::Prodution => PRODUCTION@,
        }
    }

    /// The environment's name.
    pub fn as_str(&self) -> (name: &'static str)
        ensures
            name@ == self.name(),
    {
        match self {
            Environment::Local => LOCAL,
            Environment::Prodution => PRODUCTION,
        }
    }

    /// What a name in lowercase stands for.
    pub open spec fn named(lowered: Seq<char>) -> Option<Environment> {
        if lowered == LOCAL@ {
            Some(Environment::Local)
        } else if lowered == PRODUCTION@ {
            Some(Environment::Prodution)
        } else {
            None
        }
    }

    /// Reads an environment from its name in lowercase; the error names the
    /// text that stands for none.
    pub fn from_lowercase(lowered: String) -> (r: Result<Environment, String>)
        ensures
            match r {
                Ok(environment) => Self::named(lowered@) == Some(environment),
                Err(message) => Self::named(lowered@) is None && message@ == lowered@
                    + UNSUPPORTED_ENVIRONMENT@,
            },
    {
        if lowered == String::from_str(LOCAL) {
            Ok(Environment::Local)
        } else if lowered == String::from_str(PRODUCTION) {
            Ok(Environment::Prodution)
        } else {
            Err(lowered.concat(UNSUPPORTED_ENVIRONMENT))
        }
    }

    /// The environment that a process runs in, given what its environment
    /// variable holds: the local one where the variable is not set.
    pub fn from_variable(variable: Option<String>) -> (r: Result<Environment, String>)
        ensures
            match variable {
                None => r == Ok::<Environment, String>(Environment::Local),
                Some(value) => match r {
                    Ok(environment) => Self::named(lowercased(value@)) == Some(environment),
                    Err(message) => Self::named(lowercased(value@)) is None && message@
                        == lowercased(value@) + UNSUPPORTED_ENVIRONMENT@,
                },
            },
    {
        match variable {
            Some(value) => Environment::try_from(value),
            None => Ok(Environment::Local),
        }
    }

    /// The name of the configuration file that belongs to the environment.
    pub fn configuration_file(&self) -> (file: String)
        ensures
            file@ == self.name() + YAML_SUFFIX@,
    {
        String::from_str(self.as_str()).concat(YAML_SUFFIX)
    }
}

impl TryFrom<String> for Environment {
    type Error = String;

    /// Reads an environment from its name, in whatever case it is written.
    fn try_from(value: String) -> (r: Result<Environment, String>)
        ensures
            match r {
                Ok(environment) => Environment::named(lowercased(value@)) == Some(environment),
                Err(message) => Environment::named(lowercased(value@)) is None && message@
                    == lowercased(value@) + UNSUPPORTED_ENVIRONMENT@,
            },
    {
        Environment::from_lowercase(to_lowercase(value.as_str()))
    }
}

impl vstd::std_specs::convert::TryFromSpecImpl<String> for Environment {
    open spec fn obeys_try_from_spec() -> bool {
        false
    }

    open spec fn try_from_spec(value: String) -> Result<Environment, String> {
        arbitrary()
    }
}

impl DatabaseSettings {
    /// The connection options that the settings ask for, with no database
    /// chosen.
    pub open spec fn options(self, database: Option<Seq<char>>, r: ConnectOptions) -> bool {
        &&& r.host@ == self.host@
        &&& r.username@ == self.username@
        &&& r.password@ == self.password@
        &&& r.port == self.port
        &&& r.ssl_mode == if self.ssl_required {
            SslMode::Require
        } else {
            SslMode::Prefer
        }
        &&& match database {
            Some(name) => r.database matches Some(chosen) && chosen@ == name,
            None => r.database is None,
        }
    }

    /// Options for a connection to the configured database.
    pub fn with_db(&self) -> (r: ConnectOptions)
        ensures
            self.options(Some(self.database_name@), r),
    {
        let mut options = self.without_db();
        options.database = Some(self.database_name.clone());
        options
    }

    /// Options for a connection to the server, with no database chosen.
    /// Encryption is required where the settings say so, and preferred
    /// otherwise.
    pub fn without_db(&self) -> (r: ConnectOptions)
        ensures
            self.options(None, r),
    {
        let ssl_mode = if self.ssl_required {
            SslMode::Require
        } else {
            SslMode::Prefer
        };
        ConnectOptions {
            host: self.host.clone(),
            username: self.username.clone(),
            password: self.password.clone(),
            port: self.port,
            ssl_mode,
            database: None,
        }
    }
}

impl EmailClientSettings {
    /// The sender's address, where the configured text is one.
    pub fn sender(&self) -> (r: Result<SubscriberEmail, String>)
        ensures
            match r {
                Ok(email) => crate::domain::subscriber_email::is_valid_email(self.sender_email@)
                    && email@ == self.sender_email@,
                Err(message) => !crate::domain::subscriber_email::is_valid_email(
                    self.sender_email@,
                ) && message@ == self.sender_email@
                    + crate::domain::subscriber_email::NOT_AN_EMAIL@,
            },
    {
        SubscriberEmail::parse(self.sender_email.clone())
    }

    /// How long a request to the e-mail service may take.
    pub fn timeout(&self) -> (r: Duration)
        ensures
            duration_millis(r) == self.timeout_millisec,
    {
        from_millis(self.timeout_millisec)
    }
}

} // verus!
