//! Regular-expression search, provided by the `regex` crate.
use vstd::prelude::*;

verus! {

/// The pattern that `regex::escape` gives for `s`: it matches `s` literally.
pub uninterp spec fn escaped(s: Seq<char>) -> Seq<char>;

/// Whether `regex::Regex::new` accepts `pattern`.
pub uninterp spec fn pattern_accepted(pattern: Seq<char>) -> bool;

/// Whether the regex compiled from `pattern` matches somewhere in `text`.
pub uninterp spec fn pattern_found(pattern: Seq<char>, text: Seq<char>) -> bool;

/// Relies on `regex::escape`: the result matches exactly the literal text of `s`.
#[verifier::external_body]
pub(crate) fn escape_literal(s: &str) -> (r: String)
    ensures
        r@ == escaped(s@),
{
    regex::escape(s)
}

/// Relies on `regex::Regex::new` and `regex::Regex::is_match`: compiles
/// `pattern` (failing on invalid syntax or a pattern over the size limit) and
/// searches `text` for a match anywhere, unanchored.
#[verifier::external_body]
pub(crate) fn regex_search(pattern: &str, text: &str) -> (r: Option<bool>)
    ensures
        r is Some <==> pattern_accepted(pattern@),
        r matches Some(b) ==> b == pattern_found(pattern@, text@),
{
    match regex::Regex::new(pattern) {
        Ok(re) => Some(re.is_match(text)),
        Err(_) => None,
    }
}

} // verus!
