//! Searching device output with regular expressions.
//!
//! Matching itself is the work of the `regex` crate. What a search returns
//! is named by [`captures_at`]; the parsers state their results over that
//! name and do everything else, from the matched groups on, in verified code.

use vstd::prelude::*;

verus! {

/// One capture group that took part in a match: the byte offsets of its text
/// in the searched string, and the text itself.
#[derive(Debug)]
pub struct Group {
    pub start: usize,
    pub end: usize,
    pub text: String,
}

/// The mathematical content of a [`Group`].
pub struct GroupView {
    pub start: nat,
    pub end: nat,
    pub text: Seq<char>,
}

impl View for Group {
    type V = GroupView;

    open spec fn view(&self) -> GroupView {
        GroupView { start: self.start as nat, end: self.end as nat, text: self.text@ }
    }
}

impl DeepView for Group {
    type V = GroupView;

    open spec fn deep_view(&self) -> GroupView {
        self@
    }
}

/// What the leftmost match of `pattern` in `haystack`, searched from byte
/// offset `start` on, captured: one entry per group of the pattern, group 0
/// being the whole match, `None` for a group that took no part. `None` where
/// nothing matches or `pattern` is not a valid expression.
pub uninterp spec fn captures_at(pattern: Seq<char>, haystack: Seq<char>, start: nat) -> Option<
    Seq<Option<GroupView>>,
>;

/// Compiles `pattern` with `regex::Regex::new` and searches `haystack` with
/// `Regex::captures_at`. The outcome is a function of the three arguments
/// alone and is named by [`captures_at`]; the only fact claimed beside the
/// name is the one the crate documents for every match: its offsets lie
/// inside the searched string, start before end. `captures_at` panics on a
/// `start` beyond the end of `haystack`, which the precondition rules out.
#[verifier::external_body]
pub(crate) fn search(pattern: &str, haystack: &str, start: usize) -> (found: Option<
    Vec<Option<Group>>,
>)
    requires
        start <= haystack.len(),
    ensures
        found.deep_view() == captures_at(pattern@, haystack@, start as nat),
        found matches Some(groups) ==> forall|i: int|
            0 <= i < groups.len() ==> (#[trigger] groups[i] matches Some(g) ==> g.start <= g.end
                <= haystack.len()),
{
    let re = regex::Regex::new(pattern).ok()?;
    let caps = re.captures_at(haystack, start)?;
    Some(
        caps.iter().map(
            |m| m.map(|m| Group { start: m.start(), end: m.end(), text: m.as_str().to_string() }),
        ).collect(),
    )
}

} // verus!
