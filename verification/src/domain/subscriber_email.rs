//! Subscriber e-mail addresses.

use vstd::prelude::*;

verus! {

/// An e-mail address that passed validation.
#[derive(Debug)]
pub struct SubscriberEmail(String);

/// Whether the `validator` crate takes the text for an e-mail address, by
/// HTML5's rules for e-mail addresses.
pub uninterp spec fn is_valid_email(text: Seq<char>) -> bool;

pub const NOT_AN_EMAIL: &'static str = " is not a valid subscriber email";

/// `validator::validate_email`: a function of the text alone. An address
/// is never empty and always holds an `@`.
#[verifier::external_body]
fn validate_email(text: &str) -> (valid: bool)
    ensures
        valid == is_valid_email(text@),
        valid ==> text@.len() > 0 && text@.contains('@'),
{
    validator::validate_email(text)
}

impl View for SubscriberEmail {
    type V = Seq<char>;

    closed spec fn view(&self) -> Seq<char> {
        self.0@
    }
}

impl SubscriberEmail {
    /// Every value of this type holds a valid address.
    #[verifier::type_invariant]
    spec fn holds_an_address(self) -> bool {
        is_valid_email(self.0@)
    }

    /// Accepts `s` exactly where it is a valid e-mail address; the error
    /// names the text that was refused. The empty text and a text without
    /// an `@` are refused in any case.
    pub fn parse(s: String) -> (r: Result<SubscriberEmail, String>)
        ensures
            match r {
                Ok(email) => is_valid_email(s@) && email@ == s@,
                Err(message) => !is_valid_email(s@) && message@ == s@ + NOT_AN_EMAIL@,
            },
            s@.len() == 0 || !s@.contains('@') ==> r is Err,
    {
        if validate_email(s.as_str()) {
            Ok(SubscriberEmail(s))
        } else {
            Err(s.concat(NOT_AN_EMAIL))
        }
    }

    /// The address as an owned string, as it is displayed.
    pub fn to_string(&self) -> (text: String)
        ensures
            text@ == self@,
    {
        self.0.clone()
    }
}

impl AsRef<str> for SubscriberEmail {
    /// The address as text.
    fn as_ref(&self) -> (text: &str)
        ensures
            text@ == self@,
            is_valid_email(text@),
    {
        proof {
            use_type_invariant(self);
        }
        self.0.as_str()
    }
}

impl Clone for SubscriberEmail {
    fn clone(&self) -> (copy: Self)
        ensures
            copy@ == self@,
    {
        proof {
            use_type_invariant(self);
        }
        SubscriberEmail(self.0.clone())
    }
}

} // verus!
