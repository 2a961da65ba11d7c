//! Regular-expression search, as the `regex` crate performs it.
//!
//! What a search finds is not modelled here: the contracts name the result
//! and say that it depends on the pattern and the text alone.

use vstd::prelude::*;
use vstd::string::*;

verus! {

/// The first match of a pattern in a text, cut into owned pieces.
#[derive(Debug, PartialEq, Eq)]
pub struct PatternMatch {
    /// The text in front of the match.
    pub before: String,
    /// The capture groups in the pattern's order. Group 0 is the whole match;
    /// a group that took no part in the match is `None`.
    pub groups: Vec<Option<String>>,
    /// The text behind the match.
    pub after: String,
}

/// A match as sequences of characters.
pub struct PatternMatchView {
    pub before: Seq<char>,
    pub groups: Seq<Option<Seq<char>>>,
    pub after: Seq<char>,
}

impl View for PatternMatch {
    type V = PatternMatchView;

    open spec fn view(&self) -> PatternMatchView {
        PatternMatchView {
            before: self.before@,
            groups: self.groups.deep_view(),
            after: self.after@,
        }
    }
}

impl PatternMatchView {
    /// The text of capture group `index`, empty where the group is missing or
    /// took no part in the match.
    pub open spec fn group(self, index: int) -> Seq<char> {
        if 0 <= index < self.groups.len() {
            match self.groups[index] {
                Some(text) => text,
                None => Seq::empty(),
            }
        } else {
            Seq::empty()
        }
    }
}

/// The leftmost-first match of `pattern` in `text` as `regex::Regex::captures`
/// reports it, `None` where there is no match or where `pattern` is no valid
/// regular expression. With `ignore_case` letters match in either case.
pub uninterp spec fn first_match(pattern: Seq<char>, ignore_case: bool, text: Seq<char>) -> Option<
    PatternMatchView,
>;

/// Whether `regex::Regex::is_match` finds `pattern` anywhere in `text`;
/// `false` where `pattern` is no valid regular expression.
pub uninterp spec fn has_match(pattern: Seq<char>, text: Seq<char>) -> bool;

impl PatternMatch {
    /// The text of capture group `index`, empty where the group is missing or
    /// took no part in the match.
    pub fn group(&self, index: usize) -> (text: &str)
        ensures
            text@ == self@.group(index as int),
    {
        proof {
            reveal_strlit("");
        }
        if index < self.groups.len() {
            match &self.groups[index] {
                Some(text) => text.as_str(),
                None => "",
            }
        } else {
            ""
        }
    }
}

/// Compiles `pattern` with `regex::RegexBuilder` and runs
/// `regex::Regex::captures` on `text`. The pieces of the result are copied
/// out of the text at the offsets that the match reports. The contract only
/// names the result: it is fixed by the three arguments.
#[verifier::external_body]
pub(crate) fn find_first(pattern: &str, ignore_case: bool, text: &str) -> (found: Option<
    PatternMatch,
>)
    ensures
        found.is_some() == first_match(pattern@, ignore_case, text@).is_some(),
        found matches Some(m) ==> Some(m@) == first_match(pattern@, ignore_case, text@),
{
    let regex = regex::RegexBuilder::new(pattern).case_insensitive(ignore_case).build().ok()?;
    let captures = regex.captures(text)?;
    let whole = captures.get(0)?;
    Some(
        PatternMatch {
            before: text[..whole.start()].to_string(),
            groups: captures.iter().map(|group| group.map(|m| m.as_str().to_string())).collect(),
            after: text[whole.end()..].to_string(),
        },
    )
}

/// Compiles `pattern` with `regex::Regex::new` and runs
/// `regex::Regex::is_match` on `text`. The contract only names the result:
/// it is fixed by the two arguments.
#[verifier::external_body]
pub(crate) fn is_match(pattern: &str, text: &str) -> (found: bool)
    ensures
        found == has_match(pattern@, text@),
{
    match regex::Regex::new(pattern) {
        Ok(regex) => regex.is_match(text),
        Err(_) => false,
    }
}

} // verus!
