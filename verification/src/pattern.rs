//! Regular expressions, as the `regex` crate matches them.

use vstd::prelude::*;

use regex::Regex;

verus! {

/// What compiling `pattern` with the `regex` crate and testing it against
/// `text` gives: `None` where the pattern does not compile, else whether
/// the regex matches somewhere in `text`.
pub uninterp spec fn regex_match(pattern: Seq<char>, text: Seq<char>) -> Option<bool>;

/// What compiling `pattern` with the `regex` crate and taking capture
/// group `group` of its first match in `text` gives: `None` where the
/// pattern does not compile, `Some(None)` where there is no match or the
/// group took no part in it, else the text of the group.
pub uninterp spec fn regex_group(pattern: Seq<char>, text: Seq<char>, group: usize) -> Option<Option<Seq<char>>>;

/// Calls `regex::Regex::new(pattern)` and, where the pattern compiles,
/// `Regex::is_match(text)`. The contract claims only that the result is
/// the same for the same pattern and text; which texts a pattern matches
/// is left to the `regex` crate.
#[verifier::external_body]
pub(crate) fn regex_is_match(pattern: &str, text: &str) -> (r: Option<bool>)
    ensures
        r == regex_match(pattern@, text@),
{
    match Regex::new(pattern) {
        Ok(rx) => Some(rx.is_match(text)),
        Err(_) => None,
    }
}

/// Calls `regex::Regex::new(pattern)` and, where the pattern compiles,
/// `Regex::captures(text)` and `Captures::get(group)`. The contract claims
/// only that the result is the same for the same pattern, text and group.
#[verifier::external_body]
pub(crate) fn regex_capture(pattern: &str, text: &str, group: usize) -> (r: Option<Option<String>>)
    ensures
        match r {
            None => regex_group(pattern@, text@, group) is None,
            Some(None) => regex_group(pattern@, text@, group) == Some(None::<Seq<char>>),
            Some(Some(g)) => regex_group(pattern@, text@, group) == Some(Some(g@)),
        },
{
    match Regex::new(pattern) {
        Ok(rx) => match rx.captures(text) {
            Some(c) => match c.get(group) {
                Some(m) => Some(Some(m.as_str().to_string())),
                None => Some(None),
            },
            None => Some(None),
        },
        Err(_) => None,
    }
}

} // verus!
