//! Notices that one request leaves for the next page to show.

use vstd::prelude::*;

verus! {

/// How much a notice matters.
#[derive(Clone, Copy, Debug, PartialEq, Eq, Structural)]
pub enum Level {
    Debug,
    Info,
    Success,
    Warning,
    Error,
}

/// A notice and its level.
pub struct FlashMessage {
    pub level: Level,
    pub content: String,
}

pub const NOTICE_BEFORE: &'static str = "<p><i>";

pub const NOTICE_AFTER: &'static str = "</i></p>\n";

/// Which notices a page shows.
#[derive(Clone, Copy, Debug, PartialEq, Eq, Structural)]
pub enum Shown {
    /// Every notice.
    All,
    /// Errors and informational notices only.
    ErrorsAndInfo,
}

impl Shown {
    /// The page shows notices of this level.
    pub open spec fn admits(self, level: Level) -> bool {
        match self {
            Shown::All => true,
            Shown::ErrorsAndInfo => level == Level::Error || level == Level::Info,
        }
    }

    /// Whether the page shows notices of this level.
    pub fn shows(&self, level: Level) -> (r: bool)
        ensures
            r == self.admits(level),
    {
        match self {
            Shown::All => true,
            Shown::ErrorsAndInfo => match level {
                Level::Error => true,
                Level::Info => true,
                _ => false,
            },
        }
    }
}

/// The notices as HTML: one paragraph and line for each notice that the
/// page shows, in their order.
pub open spec fn notice_lines(messages: Seq<FlashMessage>, shown: Shown) -> Seq<char>
    decreases messages.len(),
{
    if messages.len() == 0 {
        Seq::<char>::empty()
    } else if shown.admits(messages.last().level) {
        notice_lines(messages.drop_last(), shown) + NOTICE_BEFORE@ + messages.last().content@
            + NOTICE_AFTER@
    } else {
        notice_lines(messages.drop_last(), shown)
    }
}

/// Writes a page: what stands before the notices, the notices that the
/// page shows, and what stands after them.
pub fn render_page(before: &str, messages: &Vec<FlashMessage>, shown: Shown, after: &str) -> (html:
    String)
    ensures
        html@ == before@ + notice_lines(messages@, shown) + after@,
{
    let mut html = String::from_str(before);
    let mut i: usize = 0;
    while i < messages.len()
        invariant
            i <= messages.len(),
            html@ == before@ + notice_lines(messages@.subrange(0, i as int), shown),
        decreases messages.len() - i,
    {
        proof {
            let next = messages@.subrange(0, i + 1);
            assert(next.drop_last() =~= messages@.subrange(0, i as int));
        }
        if shown.shows(messages[i].level) {
            html.append(NOTICE_BEFORE);
            html.append(messages[i].content.as_str());
            html.append(NOTICE_AFTER);
        }
        i = i + 1;
    }
    proof {
        assert(messages@.subrange(0, i as int) =~= messages@);
    }
    html.append(after);
    html
}

} // verus!
