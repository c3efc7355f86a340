//! Verified core of a newsletter service.
//!
//! The service lets people subscribe by a form and confirm by a link, and
//! lets an administrator log in, publish an issue to the confirmed
//! subscribers and change the password. This library holds what the
//! service decides and computes; the web server, the database and the mail
//! service around it are the caller's business.
//!
//! - [`authentication`]: whether a claimed username and password name a
//!   user, and how passwords are hashed. An unknown username and a wrong
//!   password fail alike, and a fault of the machinery is never taken for
//!   a judgment of the credentials.
//! - [`secrets`]: strings that must not be printed.
//! - [`domain`]: names and e-mail addresses of subscribers.
//! - [`routes`]: what each request handler decides, given what it read.
//! - [`configurations`], [`email_client`], [`startup`]: settings and what
//!   follows from them.
//!
//! Where the library calls other crates (Argon2, base64, e-mail
//! validation, random numbers), the call stands in a small function whose
//! contract is believed rather than proved; each says so.

pub mod authentication;
pub mod configurations;
pub mod domain;
pub mod email_client;
pub mod failure;
pub mod routes;
pub mod secrets;
pub mod startup;
pub mod text;
