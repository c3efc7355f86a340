//! What went wrong, and why.
//!
//! A failure has a message, which may be shown, and the chain of causes
//! behind it, which is for the server's own records.

use vstd::prelude::*;

verus! {

/// A message and the causes behind it, nearest cause first.
#[derive(Debug)]
pub struct Failure {
    pub message: String,
    pub causes: Vec<String>,
}

/// A failure as plain text.
pub struct FailureView {
    pub message: Seq<char>,
    pub causes: Seq<Seq<char>>,
}

pub const BLANK_LINE: &'static str = "\n\n";

pub const CAUSED_BY: &'static str = "Caused by:\n\t";

pub const LINE_END: &'static str = "\n";

/// The texts of a list of strings.
pub open spec fn texts(strings: Seq<String>) -> Seq<Seq<char>> {
    strings.map_values(|s: String| s@)
}

/// The failure with the given message and causes.
pub open spec fn failure(message: Seq<char>, causes: Seq<Seq<char>>) -> FailureView {
    FailureView { message, causes }
}

/// The lines that name causes, first cause first.
pub open spec fn cause_lines(causes: Seq<Seq<char>>) -> Seq<char>
    decreases causes.len(),
{
    if causes.len() == 0 {
        Seq::<char>::empty()
    } else {
        cause_lines(causes.drop_last()) + CAUSED_BY@ + causes.last() + LINE_END@
    }
}

/// A message written out with its causes: the message and a blank line,
/// then a `Caused by:` entry for each cause in turn.
pub open spec fn chain_text(message: Seq<char>, causes: Seq<Seq<char>>) -> Seq<char> {
    message + BLANK_LINE@ + cause_lines(causes)
}

impl View for Failure {
    type V = FailureView;

    open spec fn view(&self) -> FailureView {
        FailureView { message: self.message@, causes: texts(self.causes@) }
    }
}

/// Writes an error out with the chain of its causes: the error's own text
/// and a blank line, then a `Caused by:` entry for each cause in turn.
pub fn error_chain_fmt(e: &str, causes: &Vec<String>) -> (text: String)
    ensures
        text@ == chain_text(e@, texts(causes@)),
{
    let mut text = String::from_str(e).concat(BLANK_LINE);
    let mut i: usize = 0;
    while i < causes.len()
        invariant
            i <= causes.len(),
            text@ == e@ + BLANK_LINE@ + cause_lines(texts(causes@).subrange(0, i as int)),
        decreases causes.len() - i,
    {
        proof {
            let next = texts(causes@).subrange(0, i + 1);
            assert(next.drop_last() =~= texts(causes@).subrange(0, i as int));
        }
        text.append(CAUSED_BY);
        text.append(causes[i].as_str());
        text.append(LINE_END);
        i = i + 1;
    }
    proof {
        assert(texts(causes@).subrange(0, i as int) =~= texts(causes@));
    }
    text
}

impl Failure {
    /// A failure that has no cause to name.
    pub fn new(message: &str) -> (r: Failure)
        ensures
            r@ == failure(message@, Seq::empty()),
    {
        let r = Failure { message: String::from_str(message), causes: Vec::new() };
        proof {
            assert(texts(r.causes@) =~= Seq::<Seq<char>>::empty());
        }
        r
    }

    /// A failure with one cause.
    pub fn caused_by(message: &str, cause: String) -> (r: Failure)
        ensures
            r@ == failure(message@, seq![cause@]),
    {
        let mut causes: Vec<String> = Vec::new();
        causes.push(cause);
        let r = Failure { message: String::from_str(message), causes };
        proof {
            assert(texts(r.causes@) =~= seq![cause@]);
        }
        r
    }

    /// Says what was being done when the failure happened: the new message
    /// comes first, and the old one becomes the nearest cause.
    pub fn context(self, message: &str) -> (r: Failure)
        ensures
            r@ == failure(message@, seq![self@.message] + self@.causes),
    {
        let Failure { message: old_message, causes: old_causes } = self;
        let mut causes = old_causes;
        causes.insert(0, old_message);
        let r = Failure { message: String::from_str(message), causes };
        proof {
            assert(texts(r.causes@) =~= seq![self@.message] + self@.causes);
        }
        r
    }

    /// The message alone.
    pub fn to_string(&self) -> (text: String)
        ensures
            text@ == self@.message,
    {
        self.message.clone()
    }

    /// The message with the chain of its causes.
    pub fn chain(&self) -> (text: String)
        ensures
            text@ == chain_text(self@.message, self@.causes),
    {
        error_chain_fmt(self.message.as_str(), &self.causes)
    }
}

} // verus!
