//! Emptying the cache of downloads.

use vstd::prelude::*;

verus! {

/// The request to empty the cache.
#[derive(Debug)]
pub struct Command {
    /// Do not ask.
    pub yes: bool,
}

/// What the user answered when asked whether to go on.
#[derive(Clone, Copy, Debug, PartialEq, Eq, Structural)]
pub enum Answer {
    Yes,
    No,
    /// Neither: ask again.
    Unclear,
}

/// What an answer means, read without the white space at its ends and in lower case:
/// `y` and `yes` agree, `n`, `no` and nothing decline.
pub open spec fn answer_of(text: Seq<char>) -> Answer {
    let t = crate::text::trimmed(text);
    if t == "y"@ || t == "yes"@ {
        Answer::Yes
    } else if t.len() == 0 || t == "n"@ || t == "no"@ {
        Answer::No
    } else {
        Answer::Unclear
    }
}

/// Reads what the user answered, given in lower case.
pub fn interpret_answer(text: &str) -> (r: Answer)
    ensures
        r == answer_of(text@),
{
    let t = crate::text::trim(text);
    if crate::text::text_eq(t, "y") || crate::text::text_eq(t, "yes") {
        Answer::Yes
    } else if t.unicode_len() == 0 || crate::text::text_eq(t, "n") || crate::text::text_eq(t, "no") {
        Answer::No
    } else {
        Answer::Unclear
    }
}

impl Command {
    /// Whether the cache is to be emptied: where the user said yes beforehand, or
    /// answered with `y` when asked.
    pub fn confirmed(&self, answer: &str) -> (r: bool)
        ensures
            r == (self.yes || crate::text::trimmed(answer@) == "y"@),
    {
        self.yes || crate::text::text_eq(crate::text::trim(answer), "y")
    }
}

} // verus!
