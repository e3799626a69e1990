//! Regular expressions, through the `regex` crate.
use vstd::prelude::*;
use vstd::string::*;
use vstd::utf8::is_char_boundary;

verus! {

/// Whether `regex::Regex::new` accepts the pattern.
pub uninterp spec fn regex_compiles(pattern: Seq<char>) -> bool;

/// What `Regex::is_match` answers for the compiled pattern on the text.
pub uninterp spec fn regex_is_match(pattern: Seq<char>, text: Seq<char>) -> bool;

/// The byte offsets at which `Regex::find` reports the leftmost-first match of
/// the pattern in the text starts and ends, if there is one.
pub uninterp spec fn regex_find_span(pattern: Seq<char>, text: Seq<char>) -> Option<(nat, nat)>;

/// What `Regex::replace_all` gives for the pattern, the text and the replacement.
pub uninterp spec fn regex_replace_all(
    pattern: Seq<char>,
    text: Seq<char>,
    replacement: Seq<char>,
) -> Seq<char>;

/// What `Regex::captures` reports for a group: `None` when the pattern does not
/// match, `Some(None)` when the group takes no part in the match.
pub uninterp spec fn regex_group(pattern: Seq<char>, text: Seq<char>, group: nat) -> Option<
    Option<Seq<char>>,
>;

/// Calls `regex::Regex::new` and tells whether it succeeded.
/// Trusted: the answer is a function of the pattern alone.
#[verifier::external_body]
pub(crate) fn regex_valid(pattern: &str) -> (r: bool)
    ensures
        r == regex_compiles(pattern@),
{
    regex::Regex::new(pattern).is_ok()
}

/// Compiles the pattern and calls `Regex::is_match` on the text.
/// Trusted: the answer is a function of the pattern and the text.
#[verifier::external_body]
pub(crate) fn regex_matches(pattern: &str, text: &str) -> (r: bool)
    requires
        regex_compiles(pattern@),
    ensures
        r == regex_is_match(pattern@, text@),
{
    regex::Regex::new(pattern).unwrap().is_match(text)
}

/// Compiles the pattern and calls `Regex::find` on the text, giving the start
/// and the end of the match.
/// Trusted: the offsets are a function of the pattern and the text; as the crate
/// documents for `Match::start` and `Match::end`, the start is not after the end,
/// and both lie within the text's UTF-8 bytes, on character boundaries.
#[verifier::external_body]
pub(crate) fn regex_find(pattern: &str, text: &str) -> (r: Option<(usize, usize)>)
    requires
        regex_compiles(pattern@),
    ensures
        match r {
            Some((b, e)) => regex_find_span(pattern@, text@) == Some((b as nat, e as nat)) && b
                <= e && e <= text.spec_bytes().len() && is_char_boundary(text.spec_bytes(), b as int)
                && is_char_boundary(text.spec_bytes(), e as int),
            None => regex_find_span(pattern@, text@) is None,
        },
{
    match regex::Regex::new(pattern).unwrap().find(text) {
        Some(m) => Some((m.start(), m.end())),
        None => None,
    }
}

/// Compiles the pattern and calls `Regex::replace_all` on the text.
/// Trusted: the result is a function of the pattern, the text and the replacement.
#[verifier::external_body]
pub(crate) fn regex_replace(pattern: &str, text: &str, replacement: &str) -> (r: String)
    requires
        regex_compiles(pattern@),
    ensures
        r@ == regex_replace_all(pattern@, text@, replacement@),
{
    regex::Regex::new(pattern).unwrap().replace_all(text, replacement).to_string()
}

/// Compiles the pattern and calls `Regex::captures` on the text, giving one group.
/// Trusted: the result is a function of the pattern, the text and the group number.
#[verifier::external_body]
pub(crate) fn regex_capture(pattern: &str, text: &str, group: usize) -> (r: Option<Option<String>>)
    requires
        regex_compiles(pattern@),
    ensures
        match r {
            Some(Some(s)) => regex_group(pattern@, text@, group as nat) == Some(Some(s@)),
            Some(None) => regex_group(pattern@, text@, group as nat) == Some(None::<Seq<char>>),
            None => regex_group(pattern@, text@, group as nat) is None,
        },
{
    match regex::Regex::new(pattern).unwrap().captures(text) {
        Some(c) => match c.get(group) {
            Some(m) => Some(Some(m.as_str().to_string())),
            None => Some(None),
        },
        None => None,
    }
}

} // verus!
