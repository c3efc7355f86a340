//! Subscriber names.

use vstd::prelude::*;

verus! {

/// A name that a subscriber may go by.
#[derive(Debug)]
pub struct SubscriberName(String);

pub const NOT_A_NAME: &'static str = " is not a valid subscriber name.";

/// A name must say something: the empty text is none.
pub open spec fn is_valid_name(text: Seq<char>) -> bool {
    text.len() > 0
}

impl View for SubscriberName {
    type V = Seq<char>;

    closed spec fn view(&self) -> Seq<char> {
        self.0@
    }
}

impl SubscriberName {
    #[verifier::type_invariant]
    spec fn holds_a_name(self) -> bool {
        is_valid_name(self.0@)
    }

    /// Accepts `s` exactly where it is a valid name; the error names the
    /// text that was refused.
    pub fn parse(s: String) -> (r: Result<SubscriberName, String>)
        ensures
            match r {
                Ok(name) => is_valid_name(s@) && name@ == s@,
                Err(message) => !is_valid_name(s@) && message@ == s@ + NOT_A_NAME@,
            },
    {
        if s.as_str().is_empty() {
            Err(s.concat(NOT_A_NAME))
        } else {
            Ok(SubscriberName(s))
        }
    }
}

impl AsRef<str> for SubscriberName {
    /// The name as text.
    fn as_ref(&self) -> (text: &str)
        ensures
            text@ == self@,
            is_valid_name(text@),
    {
        proof {
            use_type_invariant(self);
        }
        self.0.as_str()
    }
}

impl Clone for SubscriberName {
    fn clone(&self) -> (copy: Self)
        ensures
            copy@ == self@,
    {
        proof {
            use_type_invariant(self);
        }
        SubscriberName(self.0.clone())
    }
}

} // verus!
