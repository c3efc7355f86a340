//! Secret strings: values that must not reach logs or debug output.
//!
//! The container is `secrecy::Secret`, which wipes its contents when
//! dropped. A secret string cannot be printed at all, and it is read only
//! through [`SecretString::expose_secret`], so every access is a visible
//! call site.

use secrecy::ExposeSecret;
use secrecy::Secret;
use vstd::prelude::*;

verus! {

/// A string kept in a `secrecy::Secret<String>`.
///
/// The field is hidden from the verifier; what the secret holds is known to
/// contracts only as [`secret_text`].
#[verifier::external_body]
pub struct SecretString {
    inner: Secret<String>,
}

/// The text held by a secret string.
pub uninterp spec fn secret_text(secret: SecretString) -> Seq<char>;

/// `secrecy::Secret::new`: takes ownership of `text`; the secret holds
/// exactly that text.
#[verifier::external_body]
fn seal(text: String) -> (secret: SecretString)
    ensures
        secret_text(secret) == text@,
{
    SecretString { inner: Secret::new(text) }
}

/// `secrecy::ExposeSecret::expose_secret`: borrows the text that the secret
/// holds.
#[verifier::external_body]
fn unseal(secret: &SecretString) -> (text: &String)
    ensures
        text@ == secret_text(*secret),
{
    secret.inner.expose_secret()
}

/// `Clone` of `secrecy::Secret<String>`: a second secret that holds the same
/// text.
#[verifier::external_body]
fn reseal(secret: &SecretString) -> (copy: SecretString)
    ensures
        secret_text(copy) == secret_text(*secret),
{
    SecretString { inner: secret.inner.clone() }
}

impl View for SecretString {
    type V = Seq<char>;

    open spec fn view(&self) -> Seq<char> {
        secret_text(*self)
    }
}

impl SecretString {
    /// Wraps `text`, which from now on is reachable only through
    /// [`SecretString::expose_secret`].
    pub fn new(text: String) -> (secret: SecretString)
        ensures
            secret@ == text@,
    {
        seal(text)
    }

    /// The text of the secret. The name is deliberately loud: each use is a
    /// place where the secret leaves its wrapper.
    pub fn expose_secret(&self) -> (text: &String)
        ensures
            text@ == self@,
    {
        unseal(self)
    }
}

impl Clone for SecretString {
    fn clone(&self) -> (copy: Self)
        ensures
            copy@ == self@,
    {
        reseal(self)
    }
}

} // verus!
