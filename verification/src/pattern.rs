//! Searching text with regular expressions of the `regex` crate.

use vstd::prelude::*;

verus! {

/// What a search with the `regex` crate finds: for the pattern `pattern`
/// and the haystack `text`, the text that capture group `group` matched in
/// each of the successive non-overlapping matches, in the order of the
/// matches; an entry is `None` where the pattern has no such group or the
/// group took no part in the match. The whole is `None` where `pattern`
/// does not compile.
pub uninterp spec fn regex_groups(pattern: Seq<char>, text: Seq<char>, group: int) -> Option<
    Seq<Option<Seq<char>>>,
>;

/// The character sequences held by the result of a search.
pub open spec fn groups_view(found: Option<Vec<Option<String>>>) -> Option<Seq<Option<Seq<char>>>> {
    match found {
        Some(groups) => Some(
            Seq::new(
                groups@.len(),
                |i: int|
                    match groups@[i] {
                        Some(text) => Some(text@),
                        None => None,
                    },
            ),
        ),
        None => None,
    }
}

/// Compiles `pattern` with `regex::Regex::new`, walks the matches that
/// `Regex::captures_iter` yields for `text`, and copies out of each what
/// `Captures::get(group)` holds.
///
/// Trusted: that the result is the one named by [`regex_groups`], which is
/// to say that it depends on the three arguments and on nothing else.
#[verifier::external_body]
pub(crate) fn search_groups(pattern: &str, text: &str, group: usize) -> (found: Option<
    Vec<Option<String>>,
>)
    ensures
        groups_view(found) == regex_groups(pattern@, text@, group as int),
{
    match regex::Regex::new(pattern) {
        Ok(compiled) => Some(
            compiled.captures_iter(text).map(
                |captures| captures.get(group).map(|found| found.as_str().to_string()),
            ).collect(),
        ),
        Err(_) => None,
    }
}

/// The text that the last match captured, if there is a match and the group
/// took part in it.
pub open spec fn last_capture(groups: Option<Seq<Option<Seq<char>>>>) -> Option<Seq<char>> {
    match groups {
        Some(found) => if found.len() > 0 {
            found.last()
        } else {
            None
        },
        None => None,
    }
}

/// The text that the last of the matches in `found` captured.
pub fn last_of<'a>(found: &'a Option<Vec<Option<String>>>) -> (captured: Option<&'a str>)
    ensures
        match captured {
            Some(text) => last_capture(groups_view(*found)) == Some(text@),
            None => last_capture(groups_view(*found)) is None,
        },
{
    match found {
        Some(groups) => {
            if groups.len() == 0 {
                None
            } else {
                match &groups[groups.len() - 1] {
                    Some(text) => Some(text.as_str()),
                    None => None,
                }
            }
        },
        None => None,
    }
}

} // verus!
