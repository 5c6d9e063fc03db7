//! Replacements shared by the rules.

use vstd::prelude::*;
use crate::regex_engine::{CompiledRegex, compile_regex, regex_is_valid};
use crate::utility::text_utility::replacements_view;

verus! {

pub const SPACE_TAB_EQUIVALENCE: &'static str = r"   ";

/// The replacements that escape the HTML angle brackets.
pub open spec fn escape_html_view() -> Seq<(Seq<char>, Seq<char>)> {
    seq![("<"@, "&lt;"@), (">"@, "&gt;"@)]
}

/// The regex engine accepts the patterns of `escape_html`.
pub open spec fn escape_html_valid() -> bool {
    regex_is_valid("<"@) && regex_is_valid(">"@)
}

/// Replacements of `<` by `&lt;` and of `>` by `&gt;`.
pub fn escape_html() -> (r: Vec<(CompiledRegex, String)>)
    requires
        escape_html_valid(),
    ensures
        replacements_view(r@) == escape_html_view(),
{
    let mut r: Vec<(CompiledRegex, String)> = Vec::new();
    r.push((compile_regex("<").unwrap(), String::from_str("&lt;")));
    r.push((compile_regex(">").unwrap(), String::from_str("&gt;")));
    assert(replacements_view(r@) =~= escape_html_view());
    r
}

/// `escape_html`, or `None` when the regex engine refuses its patterns.
pub fn try_escape_html() -> (r: Option<Vec<(CompiledRegex, String)>>)
    ensures
        r is Some == escape_html_valid(),
        r matches Some(v) ==> replacements_view(v@) == escape_html_view(),
{
    if compile_regex("<").is_some() && compile_regex(">").is_some() {
        Some(escape_html())
    } else {
        None
    }
}

} // verus!
