//! Regular-expression searches, delegated to the `regex` crate.
use vstd::prelude::*;

verus! {

/// The text of the leftmost-first match of `pattern` in `text`, if there is one.
pub uninterp spec fn regex_first_match(pattern: Seq<char>, text: Seq<char>) -> Option<Seq<char>>;

/// Whether `pattern`, read as a regular expression, matches somewhere in `text`.
pub open spec fn regex_matches(pattern: Seq<char>, text: Seq<char>) -> bool {
    regex_first_match(pattern, text) is Some
}

/// Relies on `regex::Regex::new` and `regex::Regex::find`: the text of the leftmost-first match
/// of the compiled pattern in `text`. A pattern that does not compile finds nothing.
#[verifier::external_body]
pub(crate) fn find_first(pattern: &str, text: &str) -> (r: Option<String>)
    ensures
        r is None <==> regex_first_match(pattern@, text@) is None,
        r matches Some(m) ==> regex_first_match(pattern@, text@) == Some(m@),
{
    match regex::Regex::new(pattern) {
        Ok(re) => re.find(text).map(|m| m.as_str().to_string()),
        Err(_) => None,
    }
}

/// Whether `pattern` matches somewhere in `text`.
pub fn is_match(pattern: &str, text: &str) -> (r: bool)
    ensures
        r == regex_matches(pattern@, text@),
{
    find_first(pattern, text).is_some()
}

} // verus!
