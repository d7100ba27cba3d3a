//! Operations of the standard library on text, with what they are known to
//! return.

use vstd::prelude::*;

verus! {

/// A text that may be there, as the characters that it holds.
pub open spec fn text_of(text: Option<String>) -> Option<Seq<char>> {
    match text {
        Some(text) => Some(text@),
        None => None,
    }
}

/// `text` without the white space at its two ends, as `str::trim` returns
/// it.
pub uninterp spec fn trimmed(text: Seq<char>) -> Seq<char>;

/// `str::trim`: the text without leading and trailing white space, where
/// white space is what Unicode calls so.
#[verifier::external_body]
pub(crate) fn trim(text: &str) -> (r: String)
    ensures
        r@ == trimmed(text@),
{
    text.trim().to_owned()
}

/// `str::strip_prefix` with a text as the pattern: what follows `prefix` in
/// `text`, where `text` starts with it, and nothing where it does not.
#[verifier::external_body]
pub(crate) fn strip_prefix(text: &str, prefix: &str) -> (r: Option<String>)
    ensures
        r is Some <==> prefix@.is_prefix_of(text@),
        r matches Some(rest) ==> rest@ == text@.skip(prefix@.len() as int),
{
    text.strip_prefix(prefix).map(str::to_owned)
}

/// `str::strip_suffix` with a text as the pattern: what stands before
/// `suffix` in `text`, where `text` ends with it, and nothing where it does
/// not.
#[verifier::external_body]
pub(crate) fn strip_suffix(text: &str, suffix: &str) -> (r: Option<String>)
    ensures
        r is Some <==> suffix@.is_suffix_of(text@),
        r matches Some(rest) ==> rest@ == text@.take(text@.len() - suffix@.len()),
{
    text.strip_suffix(suffix).map(str::to_owned)
}

} // verus!
