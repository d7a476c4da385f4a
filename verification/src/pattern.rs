//! Matching a text against a regular expression.

use regex::Regex;
use vstd::prelude::*;

verus! {

/// What the regular expression `pattern` captures in `text`: the groups of its
/// leftmost match, by their index, the whole match being group zero, with
/// `None` for a group that took no part in the match. The result is `None`
/// where `pattern` is no regular expression or matches nowhere in `text`.
pub uninterp spec fn regex_captures(pattern: Seq<char>, text: Seq<char>) -> Option<
    Seq<Option<Seq<char>>>,
>;

/// `regex::Regex::new`, then `Regex::captures` on `text`: the text of each
/// group of the leftmost match, as `regex_captures` names it.
#[verifier::external_body]
pub(crate) fn captures(pattern: &str, text: &str) -> (groups: Option<Vec<Option<String>>>)
    ensures
        groups.deep_view() == regex_captures(pattern@, text@),
{
    let regex = Regex::new(pattern).ok()?;
    let found = regex.captures(text)?;
    Some(found.iter().map(|group| group.map(|part| part.as_str().to_string())).collect())
}

} // verus!
