//! Searching a text for a regular expression.

use vstd::prelude::*;

verus! {

/// What a search of `text` for the regular expression `pattern` answers: whether
/// the pattern occurs somewhere in the text, or `None` for a pattern that cannot
/// be compiled.
pub uninterp spec fn pattern_found(pattern: Seq<char>, text: Seq<char>) -> Option<bool>;

/// `regex::Regex::new` on the pattern, then `Regex::is_match` on the text. The
/// answer depends on the two texts alone; a pattern that `new` refuses (it is
/// malformed, or its program would pass the size limit) gives `None`.
#[verifier::external_body]
pub(crate) fn regex_is_match(pattern: &str, text: &str) -> (r: Option<bool>)
    ensures
        r == pattern_found(pattern@, text@),
{
    match regex::Regex::new(pattern) {
        Ok(compiled) => Some(compiled.is_match(text)),
        Err(_) => None,
    }
}

} // verus!
