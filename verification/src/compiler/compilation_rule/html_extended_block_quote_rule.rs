//! The rule that renders an extended block quote (a focus block) in HTML.

use vstd::prelude::*;
use crate::codex::modifier::constants::{NEW_LINE, NEW_LINE_PATTERN};
use crate::codex::modifier::standard_paragraph_modifier::StandardParagraphModifier;
use crate::compiler::compilation_configuration::CompilationConfiguration;
use crate::compiler::compilation_error::CompilationError;
use crate::compiler::compilation_result::{CompilationResult, ResultPartTypeView, ResultPartView};
use crate::compiler::compilation_rule::constants::{escape_html, escape_html_valid, escape_html_view};
use crate::compiler::compilation_rule::html_list_rule::{fixed_result, span_text};
use crate::compiler::compilation_rule::replacement_rule::replacement_rule_part::single_capture_group_replacement_rule_part::group_span;
use crate::regex_engine::{
    CompiledRegex, captures_spans, compile_regex, regex_captures_all, regex_is_valid,
    regex_replace_all, replace_all,
};
use crate::resource::bucket::{Bucket, BucketView};
use crate::text_bytes::str_byte_slice;
use crate::utility::characters::{lowercase, str_to_lowercase};
use crate::utility::text_utility::{
    lines, replace, replace_chain, replacements_view, text_lines, trim, trim_chars, trim_start,
    trim_start_chars,
};

verus! {

broadcast use vstd::utf8::encode_utf8_decode_utf8;

/// A first line `> [!type]` that gives the type of the quote.
pub open spec fn quote_type_pattern() -> Seq<char> {
    r"(?:^(?m:^> \[!(.*)\]))"@
}

/// Two line endings in a row.
pub open spec fn double_new_line_pattern() -> Seq<char> {
    NEW_LINE_PATTERN@ + "{2}"@
}

/// The byte range of the type of the quote in `content`, if it opens with one.
pub open spec fn quote_type_span(content: Seq<char>) -> Option<(usize, usize)> {
    let all = regex_captures_all(quote_type_pattern(), content);
    if all.len() > 0 {
        group_span(all[0], 1)
    } else {
        None
    }
}

/// The type of the quote, in lowercase; `quote` when none is given.
pub open spec fn quote_type(content: Seq<char>) -> Seq<char> {
    match quote_type_span(content) {
        Some(span) => lowercase(span_text(content, span)),
        None => "quote"@,
    }
}

/// The lines of the quote: all lines but the one that gives the type.
pub open spec fn quote_lines(content: Seq<char>) -> Seq<Seq<char>> {
    let all = text_lines(content);
    if quote_type_span(content) is Some && all.len() > 0 {
        all.drop_first()
    } else {
        all
    }
}

/// What a line `>...` adds to the quote: its text without the `>` and the
/// white space after it; an empty line makes a paragraph break.
pub open spec fn quote_line_text(line: Seq<char>) -> Seq<char> {
    let text = trim_start_chars(line.drop_first());
    if text.len() == 0 {
        NEW_LINE@ + NEW_LINE@
    } else {
        text
    }
}

/// The text of the quote, or `None` when a line does not open with `>` and
/// the check is not strict (a strict check skips such a line).
pub open spec fn quote_body(quote_lines: Seq<Seq<char>>, strict: bool) -> Option<Seq<char>>
    decreases quote_lines.len(),
{
    if quote_lines.len() == 0 {
        Some(Seq::empty())
    } else {
        match quote_body(quote_lines.drop_last(), strict) {
            None => None,
            Some(body) => {
                let line = quote_lines.last();
                if line.len() > 0 && line[0] == '>' {
                    Some(body + quote_line_text(line))
                } else if strict {
                    Some(body)
                } else {
                    None
                }
            },
        }
    }
}

/// The opening markup of a quote of type `t`.
pub open spec fn quote_open(t: Seq<char>) -> Seq<char> {
    "\n                "@ + r#"<div class="focus-quote-block focus-quote-block-"#@ + t + r#"">"#@
        + "\n                "@ + r#"<div class="focus-quote-block-title focus-quote-block-"#@ + t
        + r#"-title"></div>"#@ + "\n                "@
        + r#"<div class="focus-quote-block-description focus-quote-block-"#@ + t
        + r#"-description">"#@
}

/// The parts of a quote of type `t` whose text is `body`: the text, escaped
/// and with its paragraph breaks as `<br>`, is left to compile.
pub open spec fn quote_parts(t: Seq<char>, body: Seq<char>) -> Seq<ResultPartView> {
    seq![
        fixed_result(quote_open(t)),
        ResultPartView {
            content: regex_replace_all(
                double_new_line_pattern(),
                replace_chain(body, escape_html_view()),
                "<br>"@,
            ),
            part_type: ResultPartTypeView::Compilable(BucketView::Nothing),
        },
        fixed_result("</div></div>"@),
    ]
}

/// Renders a block of `>` lines, whose first line may give the type of the
/// quote as `> [!type]`.
#[derive(Debug)]
pub struct HtmlExtendedBlockQuoteRule {
    search_pattern: String,
    search_pattern_regex: CompiledRegex,
    quote_type_regex: CompiledRegex,
    double_new_line_regex: CompiledRegex,
    escape_html: Vec<(CompiledRegex, String)>,
}

impl HtmlExtendedBlockQuoteRule {
    /// The rule is built with its patterns.
    pub closed spec fn wf(&self) -> bool {
        &&& self.search_pattern@ == StandardParagraphModifier::ExtendedBlockQuote.spec_modifier_pattern()
        &&& self.search_pattern_regex.spec_pattern()
            == StandardParagraphModifier::ExtendedBlockQuoteLine.spec_modifier_pattern()
        &&& self.quote_type_regex.spec_pattern() == quote_type_pattern()
        &&& self.double_new_line_regex.spec_pattern() == double_new_line_pattern()
        &&& replacements_view(self.escape_html@) == escape_html_view()
    }

    /// The rule, or `None` when the regex engine refuses one of its patterns.
    pub fn new() -> (r: Option<Self>)
        ensures
            r is Some == (regex_is_valid(
                StandardParagraphModifier::ExtendedBlockQuoteLine.spec_modifier_pattern(),
            ) && regex_is_valid(quote_type_pattern()) && regex_is_valid(double_new_line_pattern())
                && escape_html_valid()),
            r matches Some(rule) ==> rule.wf(),
    {
        let search_pattern = StandardParagraphModifier::ExtendedBlockQuote.modifier_pattern();
        let line_pattern = StandardParagraphModifier::ExtendedBlockQuoteLine.modifier_pattern();
        let mut double_new_line = String::from_str(NEW_LINE_PATTERN);
        double_new_line.append("{2}");
        let line = compile_regex(line_pattern.as_str());
        let quote_type = compile_regex(r"(?:^(?m:^> \[!(.*)\]))");
        let double = compile_regex(double_new_line.as_str());
        let valid_escape = compile_regex("<").is_some() && compile_regex(">").is_some();
        match (line, quote_type, double) {
            (Some(search_pattern_regex), Some(quote_type_regex), Some(double_new_line_regex)) => {
                if valid_escape {
                    Some(
                        Self {
                            search_pattern,
                            search_pattern_regex,
                            quote_type_regex,
                            double_new_line_regex,
                            escape_html: escape_html(),
                        },
                    )
                } else {
                    None
                }
            },
            _ => None,
        }
    }

    /// The pattern of the blocks this rule renders.
    pub fn search_pattern(&self) -> (r: &String)
        requires
            self.wf(),
        ensures
            r@ == StandardParagraphModifier::ExtendedBlockQuote.spec_modifier_pattern(),
    {
        &self.search_pattern
    }

    /// The parts of a block quote, or `None` when a line does not open with
    /// `>` and the check is not strict.
    fn quote_result(&self, content: &str, compilation_configuration: &CompilationConfiguration)
        -> (r: Option<CompilationResult>)
        requires
            self.wf(),
        ensures
            r is None <==> quote_body(
                quote_lines(trim_chars(content@)),
                compilation_configuration.spec_strict_focus_block_check(),
            ) is None,
            r matches Some(res) ==> res@ == quote_parts(
                quote_type(trim_chars(content@)),
                quote_body(
                    quote_lines(trim_chars(content@)),
                    compilation_configuration.spec_strict_focus_block_check(),
                )->0,
            ),
    {
        let trimmed = trim(content);
        let ghost c = trimmed@;
        let all_lines = lines(trimmed.as_str());
        let captures = captures_spans(&self.quote_type_regex, trimmed.as_str());
        let mut kind = String::from_str("quote");
        let mut first: usize = 0;
        if captures.len() > 0 {
            assert(captures@[0]@ == regex_captures_all(quote_type_pattern(), c)[0]);
            if captures[0].len() > 1 {
                match &captures[0][1] {
                    Some(span) => {
                        assert(captures@[0]@[1] is Some);
                        let text = str_byte_slice(trimmed.as_str(), span.0, span.1);
                        assert(text@ == span_text(c, *span));
                        kind = str_to_lowercase(text);
                        if all_lines.len() > 0 {
                            first = 1;
                        }
                    },
                    None => {},
                }
            }
        }
        let ghost ql = quote_lines(c);
        let ghost lv = all_lines@.map_values(|l: String| l@);
        assert(ql =~= lv.skip(first as int));
        let strict = compilation_configuration.strict_focus_block_check();
        let mut body = String::new();
        let mut i: usize = first;
        assert(ql.take(0) =~= Seq::<Seq<char>>::empty());
        while i < all_lines.len()
            invariant
                first <= i <= all_lines.len(),
                lv == all_lines@.map_values(|l: String| l@),
                ql =~= lv.skip(first as int),
                ql == quote_lines(trim_chars(content@)),
                strict == compilation_configuration.spec_strict_focus_block_check(),
                quote_body(ql.take(i - first), strict) == Some(body@),
            decreases all_lines.len() - i,
        {
            let line = &all_lines[i];
            let ghost taken = ql.take(i - first + 1);
            assert(taken.drop_last() =~= ql.take(i - first));
            assert(taken.last() == line@);
            let length = line.as_str().unicode_len();
            let opens = length > 0 && line.as_str().get_char(0) == '>';
            if opens {
                let rest = line.as_str().substring_char(1, length);
                assert(rest@ =~= line@.drop_first());
                let mut text = trim_start(rest);
                if text.as_str().unicode_len() == 0 {
                    text = String::from_str(NEW_LINE);
                    text.append(NEW_LINE);
                }
                body.append(text.as_str());
            } else if !strict {
                proof {
                    assert(!(line@.len() > 0 && line@[0] == '>'));
                    assert(quote_body(taken, strict) is None);
                    lemma_quote_body_fails(ql, (i - first + 1) as int, strict);
                }
                return None;
            }
            i = i + 1;
        }
        assert(ql.take(all_lines.len() - first) =~= ql);
        let escaped = replace(body.as_str(), &self.escape_html);
        let with_breaks = replace_all(&self.double_new_line_regex, escaped.as_str(), "<br>");
        let mut result = CompilationResult::new_empty();
        result.add_fixed_part(quote_open_markup(kind.as_str()));
        result.add_compilable_part(with_breaks, Bucket::Nothing);
        result.add_fixed_part(String::from_str("</div></div>"));
        assert(result@ =~= quote_parts(quote_type(c), quote_body(ql, strict)->0));
        Some(result)
    }

    /// Renders a block quote.  A line that does not open with `>` is skipped
    /// under a strict focus block check; without the check such a block is
    /// not rendered (see `checked_standard_parse`).
    pub fn standard_parse(&self, content: &str, compilation_configuration: &CompilationConfiguration)
        -> (r: Result<CompilationResult, CompilationError>)
        requires
            self.wf(),
            quote_body(
                quote_lines(trim_chars(content@)),
                compilation_configuration.spec_strict_focus_block_check(),
            ) is Some,
        ensures
            r matches Ok(res) && res@ == quote_parts(
                quote_type(trim_chars(content@)),
                quote_body(
                    quote_lines(trim_chars(content@)),
                    compilation_configuration.spec_strict_focus_block_check(),
                )->0,
            ),
    {
        match self.quote_result(content, compilation_configuration) {
            Some(result) => Ok(result),
            None => {
                proof {
                    assert(false);
                }
                Ok(CompilationResult::new_empty())
            },
        }
    }

    /// `standard_parse`, or `None` for a block with a line that does not open
    /// with `>` when the focus block check is not strict.
    pub fn checked_standard_parse(
        &self,
        content: &str,
        compilation_configuration: &CompilationConfiguration,
    ) -> (r: Option<CompilationResult>)
        requires
            self.wf(),
        ensures
            r is None <==> quote_body(
                quote_lines(trim_chars(content@)),
                compilation_configuration.spec_strict_focus_block_check(),
            ) is None,
            r matches Some(res) ==> res@ == quote_parts(
                quote_type(trim_chars(content@)),
                quote_body(
                    quote_lines(trim_chars(content@)),
                    compilation_configuration.spec_strict_focus_block_check(),
                )->0,
            ),
    {
        self.quote_result(content, compilation_configuration)
    }
}

proof fn lemma_quote_body_fails(quote_lines: Seq<Seq<char>>, k: int, strict: bool)
    requires
        0 <= k <= quote_lines.len(),
        quote_body(quote_lines.take(k), strict) is None,
    ensures
        quote_body(quote_lines, strict) is None,
    decreases quote_lines.len() - k,
{
    if k < quote_lines.len() {
        let next = quote_lines.take(k + 1);
        assert(next.drop_last() =~= quote_lines.take(k));
        lemma_quote_body_fails(quote_lines, k + 1, strict);
    } else {
        assert(quote_lines.take(k) =~= quote_lines);
    }
}

/// The opening markup of a quote of type `t`.
fn quote_open_markup(t: &str) -> (r: String)
    ensures
        r@ == quote_open(t@),
{
    let mut markup = String::from_str("\n                ");
    markup.append(r#"<div class="focus-quote-block focus-quote-block-"#);
    markup.append(t);
    markup.append(r#"">"#);
    markup.append("\n                ");
    markup.append(r#"<div class="focus-quote-block-title focus-quote-block-"#);
    markup.append(t);
    markup.append(r#"-title"></div>"#);
    markup.append("\n                ");
    markup.append(r#"<div class="focus-quote-block-description focus-quote-block-"#);
    markup.append(t);
    markup.append(r#"-description">"#);
    markup
}

} // verus!
