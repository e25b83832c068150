//! The regular-expression engine, as the colorizer sees it.

use vstd::prelude::*;
use crate::colour::string_views;

verus! {

/// Whether `regex::Regex::new` accepts `pattern`: the engine refuses a pattern
/// that is not valid, or that compiles to more than its default size limit.
pub uninterp spec fn regex_compiles(pattern: Seq<char>) -> bool;

/// The texts of the successive non-overlapping matches of `pattern` in
/// `text`, in order, as `regex::Regex::find_iter` yields them.
pub uninterp spec fn regex_match_texts(pattern: Seq<char>, text: Seq<char>) -> Seq<Seq<char>>;

/// Relies on `regex::Regex::new`, which compiles `pattern` or returns an
/// error, and on `regex::Regex::find_iter` with `regex::Match::as_str`, which
/// give the texts of the successive non-overlapping matches in `text`.
#[verifier::external_body]
pub(crate) fn find_matches(pattern: &str, text: &str) -> (r: Option<Vec<String>>)
    ensures
        (r is Some) == regex_compiles(pattern@),
        r matches Some(v) ==> string_views(v@) == regex_match_texts(pattern@, text@),
{
    match regex::Regex::new(pattern) {
        Ok(re) => Some(re.find_iter(text).map(|m| m.as_str().to_string()).collect()),
        Err(_) => None,
    }
}

} // verus!
