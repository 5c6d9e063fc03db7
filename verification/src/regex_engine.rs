//! The regular expressions that drive modifiers and rules.
//!
//! A compiled expression keeps the pattern it was built from; every search is
//! described over that pattern and the haystack.  Offsets are UTF-8 byte
//! offsets into the haystack.

use vstd::prelude::*;
use vstd::utf8::*;

verus! {

/// `regex::Regex`, carried through as an opaque value.
#[verifier::external_type_specification]
#[verifier::external_body]
pub struct ExRegex(regex::Regex);

/// `regex::Regex::new` accepts this pattern.
pub uninterp spec fn regex_is_valid(pattern: Seq<char>) -> bool;

/// The successive non-overlapping matches of `pattern` in `haystack`, as
/// byte ranges (what `regex::Regex::find_iter` yields).
pub uninterp spec fn regex_find_all(pattern: Seq<char>, haystack: Seq<char>) -> Seq<(usize, usize)>;

/// The successive matches of `pattern` in `haystack` with all their capture
/// groups (group 0 is the whole match), as `regex::Regex::captures_iter` yields them.
pub uninterp spec fn regex_captures_all(pattern: Seq<char>, haystack: Seq<char>) -> Seq<
    Seq<Option<(usize, usize)>>,
>;

/// The haystack with every match of `pattern` replaced by the expansion of
/// `replacement` (what `regex::Regex::replace_all` returns).
pub uninterp spec fn regex_replace_all(
    pattern: Seq<char>,
    haystack: Seq<char>,
    replacement: Seq<char>,
) -> Seq<char>;

/// A byte range of `haystack` that can be sliced: ordered, inside the
/// haystack and on character boundaries.
pub open spec fn is_valid_span(span: (usize, usize), haystack: Seq<char>) -> bool {
    &&& span.0 <= span.1 <= encode_utf8(haystack).len()
    &&& is_char_boundary(encode_utf8(haystack), span.0 as int)
    &&& is_char_boundary(encode_utf8(haystack), span.1 as int)
}

/// Spans that are valid, in order and do not overlap.
pub open spec fn are_successive_spans(spans: Seq<(usize, usize)>, haystack: Seq<char>) -> bool {
    &&& forall|i: int| 0 <= i < spans.len() ==> is_valid_span(#[trigger] spans[i], haystack)
    &&& forall|i: int, j: int| 0 <= i < j < spans.len() ==> spans[i].1 <= spans[j].0
}

/// A regular expression together with the pattern it was compiled from.
#[derive(Debug)]
pub struct CompiledRegex {
    pattern: String,
    regex: regex::Regex,
}

impl CompiledRegex {
    pub closed spec fn spec_pattern(&self) -> Seq<char> {
        self.pattern@
    }

    /// Compiles `pattern`; `None` when the regex engine refuses it.
    pub fn new(pattern: &str) -> (r: Option<Self>)
        ensures
            r is Some == regex_is_valid(pattern@),
            r matches Some(c) ==> c.spec_pattern() == pattern@,
    {
        compile_regex(pattern)
    }

    /// The pattern this expression was compiled from.
    pub fn pattern(&self) -> (r: &String)
        ensures
            r@ == self.spec_pattern(),
    {
        &self.pattern
    }
}

/// Calls `regex::Regex::new`.  Claimed: the result is `Some` exactly when the
/// engine accepts the pattern (a fact of the pattern alone), and then keeps it.
#[verifier::external_body]
pub(crate) fn compile_regex(pattern: &str) -> (r: Option<CompiledRegex>)
    ensures
        r.is_some() == regex_is_valid(pattern@),
        r matches Some(c) ==> c.spec_pattern() == pattern@,
{
    match regex::Regex::new(pattern) {
        Ok(regex) => Some(CompiledRegex { pattern: pattern.to_string(), regex }),
        Err(_) => None,
    }
}

/// Calls `regex::Regex::find_iter` and keeps each match as its byte range.
/// Claimed: the ranges are the named matches of the pattern in the haystack,
/// in order, without overlap, on character boundaries (the crate documents
/// match offsets of a `&str` haystack as UTF-8 boundaries).
#[verifier::external_body]
pub(crate) fn find_spans(re: &CompiledRegex, haystack: &str) -> (r: Vec<(usize, usize)>)
    ensures
        r@ == regex_find_all(re.spec_pattern(), haystack@),
        are_successive_spans(r@, haystack@),
{
    re.regex.find_iter(haystack).map(|m| (m.start(), m.end())).collect()
}

/// Calls `regex::Regex::is_match`.  Claimed: it tells whether `find_iter`
/// yields at least one match.
#[verifier::external_body]
pub(crate) fn is_match(re: &CompiledRegex, haystack: &str) -> (r: bool)
    ensures
        r == (regex_find_all(re.spec_pattern(), haystack@).len() > 0),
{
    re.regex.is_match(haystack)
}

/// Calls `regex::Regex::captures_iter` and keeps, for each match, the byte
/// ranges of its groups (`None` for a group that did not take part in it).
/// Claimed: they are the named captures of the pattern in the haystack; every
/// range lies on character boundaries; group 0, the whole match, is present,
/// and the whole matches are successive and do not overlap (the crate
/// documents `captures_iter` as yielding successive non-overlapping matches).
#[verifier::external_body]
pub(crate) fn captures_spans(re: &CompiledRegex, haystack: &str) -> (r: Vec<Vec<Option<(usize, usize)>>>)
    ensures
        r@.len() == regex_captures_all(re.spec_pattern(), haystack@).len(),
        forall|i: int|
            0 <= i < r@.len() ==> (#[trigger] r@[i])@ == regex_captures_all(
                re.spec_pattern(),
                haystack@,
            )[i],
        forall|i: int, g: int|
            0 <= i < r@.len() && 0 <= g < r@[i]@.len() && (#[trigger] r@[i]@[g]) is Some
                ==> is_valid_span(r@[i]@[g]->0, haystack@),
        forall|i: int| 0 <= i < r@.len() ==> (#[trigger] r@[i]@).len() > 0 && r@[i]@[0] is Some,
        forall|i: int, j: int|
            0 <= i < j < r@.len() ==> ((#[trigger] r@[i])@[0]->0).1 <= ((#[trigger] r@[j])@[0]->0).0,
{
    re.regex.captures_iter(haystack).map(
        |caps| caps.iter().map(|m| m.map(|m| (m.start(), m.end()))).collect(),
    ).collect()
}

/// Calls `regex::Regex::replace_all` with a replacement string, whose `$`
/// references the crate expands.  Claimed: the result is the named
/// replacement of the pattern, haystack and replacement.
#[verifier::external_body]
pub(crate) fn replace_all(re: &CompiledRegex, haystack: &str, replacement: &str) -> (r: String)
    ensures
        r@ == regex_replace_all(re.spec_pattern(), haystack@, replacement@),
{
    re.regex.replace_all(haystack, replacement).into_owned()
}

} // verus!
