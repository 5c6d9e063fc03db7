//! The rule that turns a citation `^[key]` into a link to the bibliography.

use vstd::prelude::*;
use vstd::utf8::*;
use crate::bibliography::{Bibliography, bibliography_reference, key_number};
use crate::codex::modifier::standard_text_modifier::StandardTextModifier;
use crate::compilable_text::{CompilableText, CompilableTextView, compilable_chars};
use crate::compilable_text::compilable_text_part::{CompilableTextPart, PartTypeView, PartView};
use crate::compiler::compilation_configuration::CompilationConfiguration;
use crate::compiler::compilation_configuration::compilation_configuration_overlay::CompilationConfigurationOverLay;
use crate::compiler::compilation_error::CompilationError;
use crate::compiler::compilation_rule::html_list_rule::span_text;
use crate::compiler::compilation_rule::replacement_rule::replacement_rule_part::single_capture_group_replacement_rule_part::group_span;
use crate::output_format::OutputFormat;
use crate::regex_engine::{
    CompiledRegex, captures_spans, compile_regex, find_spans, is_match, is_valid_span,
    regex_captures_all, regex_is_valid,
};
use crate::text_bytes::{lemma_prefix_boundary, str_byte_len, str_byte_slice};
use super::CompilationRule;

verus! {

broadcast use vstd::utf8::encode_utf8_decode_utf8, vstd::utf8::encode_utf8_valid_utf8;

/// The pattern of a citation.
pub open spec fn cite_pattern() -> Seq<char> {
    StandardTextModifier::Cite.spec_modifier_pattern()
}

/// The decimal digit `d`.
pub open spec fn digit(d: nat) -> Seq<char> {
    if d == 0 {
        "0"@
    } else if d == 1 {
        "1"@
    } else if d == 2 {
        "2"@
    } else if d == 3 {
        "3"@
    } else if d == 4 {
        "4"@
    } else if d == 5 {
        "5"@
    } else if d == 6 {
        "6"@
    } else if d == 7 {
        "7"@
    } else if d == 8 {
        "8"@
    } else {
        "9"@
    }
}

/// `n` written in decimal.
pub open spec fn decimal(n: nat) -> Seq<char>
    decreases n,
{
    if n < 10 {
        digit(n)
    } else {
        decimal(n / 10) + digit(n % 10)
    }
}

/// The link of the citation of `key`, the `n`-th record of the bibliography.
pub open spec fn citation_link(key: Seq<char>, n: nat) -> Seq<char> {
    r#"<a class="cite" href=""#@ + bibliography_reference(key) + r#"">"#@ + decimal(n) + "</a>"@
}

/// The link of a citation reads `<a class="cite" href="#bibliography-KEY">N</a>`,
/// `N` being the number of the record in the bibliography.
pub proof fn lemma_citation_link_markup(key: Seq<char>, n: nat)
    ensures
        citation_link(key, n) == r##"<a class="cite" href="#bibliography-"##@ + key + r#"">"#@
            + decimal(n) + "</a>"@,
{
    reveal_strlit(r#"<a class="cite" href=""#);
    reveal_strlit("#");
    reveal_strlit("bibliography");
    reveal_strlit("-");
    reveal_strlit(r##"<a class="cite" href="#bibliography-"##);
    assert(citation_link(key, n) =~= r##"<a class="cite" href="#bibliography-"##@ + key + r#"">"#@
        + decimal(n) + "</a>"@);
}

/// A number is written in decimal: a single digit is its character, from `0`
/// to `9`, and a larger number is the writing of its tens followed by the
/// digit of its units.
pub proof fn lemma_decimal_writing(q: nat, d: nat)
    requires
        d < 10,
    ensures
        decimal(d).len() == 1,
        decimal(d)[0] as int == '0' as int + d,
        q > 0 ==> decimal(10 * q + d) == decimal(q) + decimal(d),
{
    reveal_strlit("0");
    reveal_strlit("1");
    reveal_strlit("2");
    reveal_strlit("3");
    reveal_strlit("4");
    reveal_strlit("5");
    reveal_strlit("6");
    reveal_strlit("7");
    reveal_strlit("8");
    reveal_strlit("9");
    if q > 0 {
        assert((10 * q + d) / 10 == q && (10 * q + d) % 10 == d) by (nonlinear_arith)
            requires
                d < 10,
        ;
    }
}

/// What a citation becomes: the link to its record when the bibliography
/// (given by its keys) holds its key, the citation as written otherwise.
pub open spec fn citation(
    captures: Seq<Option<(usize, usize)>>,
    content: Seq<char>,
    keys: Option<Seq<Seq<char>>>,
) -> Seq<char> {
    let whole = match group_span(captures, 0) {
        Some(span) => span_text(content, span),
        None => Seq::empty(),
    };
    match (group_span(captures, 1), keys) {
        (Some(k), Some(ks)) => match key_number(ks, span_text(content, k)) {
            Some(n) => citation_link(span_text(content, k), n),
            None => whole,
        },
        _ => whole,
    }
}

/// `content` from byte `from` on, each citation of `all` replaced by what it
/// becomes and the text between them kept.
pub open spec fn cited(
    all: Seq<Seq<Option<(usize, usize)>>>,
    content: Seq<char>,
    keys: Option<Seq<Seq<char>>>,
    from: int,
) -> Seq<char>
    decreases all.len(),
{
    let bytes = encode_utf8(content);
    if all.len() == 0 {
        decode_utf8(bytes.subrange(from, bytes.len() as int))
    } else {
        match group_span(all[0], 0) {
            Some(m) => decode_utf8(bytes.subrange(from, m.0 as int)) + citation(all[0], content, keys)
                + cited(all.drop_first(), content, keys, m.1 as int),
            None => cited(all.drop_first(), content, keys, from),
        }
    }
}

/// What the cite rule makes of a text: one fixed part, its compilable content
/// with every citation resolved.
pub open spec fn cite_parts(
    all: Seq<Seq<Option<(usize, usize)>>>,
    content: Seq<char>,
    keys: Option<Seq<Seq<char>>>,
) -> Seq<PartView> {
    seq![PartView { content: cited(all, content, keys, 0), part_type: PartTypeView::Fixed }]
}

/// The bibliography's keys, if there is one.
pub open spec fn bibliography_keys(bibliography: Option<Bibliography>) -> Option<Seq<Seq<char>>> {
    match bibliography {
        Some(b) => Some(b.spec_keys()),
        None => None,
    }
}

fn digit_text(d: usize) -> (r: String)
    requires
        d < 10,
    ensures
        r@ == digit(d as nat),
{
    if d == 0 {
        String::from_str("0")
    } else if d == 1 {
        String::from_str("1")
    } else if d == 2 {
        String::from_str("2")
    } else if d == 3 {
        String::from_str("3")
    } else if d == 4 {
        String::from_str("4")
    } else if d == 5 {
        String::from_str("5")
    } else if d == 6 {
        String::from_str("6")
    } else if d == 7 {
        String::from_str("7")
    } else if d == 8 {
        String::from_str("8")
    } else {
        String::from_str("9")
    }
}

/// `n` written in decimal.
pub fn decimal_text(n: usize) -> (r: String)
    ensures
        r@ == decimal(n as nat),
    decreases n,
{
    if n < 10 {
        digit_text(n)
    } else {
        let mut text = decimal_text(n / 10);
        let last = digit_text(n % 10);
        text.append(last.as_str());
        text
    }
}

/// What one citation becomes.
fn citation_text(
    content: &str,
    captures: &Vec<Option<(usize, usize)>>,
    whole: (usize, usize),
    bibliography: &Option<Bibliography>,
) -> (r: String)
    requires
        group_span(captures@, 0) == Some(whole),
        forall|g: int|
            0 <= g < captures@.len() && (#[trigger] captures@[g]) is Some ==> is_valid_span(
                captures@[g]->0,
                content@,
            ),
    ensures
        r@ == citation(captures@, content@, bibliography_keys(*bibliography)),
{
    assert(captures@[0] is Some);
    let written = str_byte_slice(content, whole.0, whole.1);
    assert(written@ == span_text(content@, whole));
    if captures.len() > 1 {
        match &captures[1] {
            Some(k) => {
                assert(captures@[1] is Some);
                let key = str_byte_slice(content, k.0, k.1);
                assert(key@ == span_text(content@, *k));
                match bibliography {
                    Some(b) => {
                        match (b.get_n_from_key(key), b.get_reference_from_key(key)) {
                            (Some(n), Some(reference)) => {
                                let mut link = String::from_str(r#"<a class="cite" href=""#);
                                link.append(reference.as_str());
                                link.append(r#"">"#);
                                let number = decimal_text(n);
                                link.append(number.as_str());
                                link.append("</a>");
                                return link;
                            },
                            _ => {},
                        }
                    },
                    None => {},
                }
            },
            None => {},
        }
    }
    written.to_string()
}

/// Turns each citation `^[key]` into a link to the record `key` of the
/// bibliography, numbered by its position; a citation whose key the
/// bibliography does not hold, or a text without bibliography, keeps the
/// citation as written.
#[derive(Debug)]
pub struct HtmlCiteRule {
    search_pattern_regex: CompiledRegex,
}

impl HtmlCiteRule {
    pub closed spec fn spec_pattern(&self) -> Seq<char> {
        self.search_pattern_regex.spec_pattern()
    }

    /// The rule, searching the pattern of the cite modifier.
    pub fn new() -> (r: Self)
        requires
            regex_is_valid(cite_pattern()),
        ensures
            r.spec_pattern() == cite_pattern(),
    {
        let pattern = StandardTextModifier::Cite.modifier_pattern();
        Self { search_pattern_regex: compile_regex(pattern.as_str()).unwrap() }
    }

    /// `new`, or `None` when the regex engine refuses the pattern.
    pub fn try_new() -> (r: Option<Self>)
        ensures
            r is Some == regex_is_valid(cite_pattern()),
            r matches Some(rule) ==> rule.spec_pattern() == cite_pattern(),
    {
        let pattern = StandardTextModifier::Cite.modifier_pattern();
        if compile_regex(pattern.as_str()).is_some() {
            Some(Self::new())
        } else {
            None
        }
    }

    fn resolve(&self, compilable: &CompilableText, compilation_configuration: &CompilationConfiguration)
        -> (r: CompilableText)
        ensures
            r@.parts == cite_parts(
                regex_captures_all(self.spec_pattern(), compilable_chars(compilable@.parts)),
                compilable_chars(compilable@.parts),
                compilation_configuration.spec_bibliography_keys(),
            ),
    {
        let content = compilable.compilable_content();
        let ghost c = content@;
        let ghost bytes = encode_utf8(c);
        let bibliography = compilation_configuration.bibliography();
        let ghost keys = compilation_configuration.spec_bibliography_keys();
        assert(keys == bibliography_keys(*bibliography));
        let all = captures_spans(&self.search_pattern_regex, content.as_str());
        let ghost allv = regex_captures_all(self.spec_pattern(), c);
        let mut out = String::new();
        let mut from: usize = 0;
        let mut i: usize = 0;
        assert(allv.skip(0) =~= allv);
        assert(out@ + cited(allv, c, keys, 0) =~= cited(allv, c, keys, 0));
        while i < all.len()
            invariant
                i <= all.len(),
                c == content@,
                bytes == encode_utf8(c),
                keys == bibliography_keys(*bibliography),
                allv == regex_captures_all(self.spec_pattern(), c),
                all@.len() == allv.len(),
                forall|k: int| 0 <= k < all@.len() ==> (#[trigger] all@[k])@ == allv[k],
                forall|k: int, g: int|
                    0 <= k < all@.len() && 0 <= g < all@[k]@.len() && (#[trigger] all@[k]@[g]) is Some
                        ==> is_valid_span(all@[k]@[g]->0, c),
                forall|k: int| 0 <= k < all@.len() ==> (#[trigger] all@[k]@).len() > 0 && all@[k]@[0] is Some,
                forall|k: int, j: int|
                    0 <= k < j < all@.len() ==> ((#[trigger] all@[k])@[0]->0).1 <= ((#[trigger] all@[j])@[0]->0).0,
                forall|k: int| i <= k < all@.len() ==> from <= ((#[trigger] all@[k])@[0]->0).0,
                from <= bytes.len(),
                is_char_boundary(bytes, from as int),
                out@ + cited(allv.skip(i as int), c, keys, from as int) == cited(allv, c, keys, 0),
            decreases all.len() - i,
        {
            let captures = &all[i];
            assert(captures@ == allv[i as int]);
            assert(all@[i as int]@[0] is Some);
            let whole = match &captures[0] {
                Some(span) => *span,
                None => (0, 0),
            };
            assert(is_valid_span(whole, c));
            let ghost rest = allv.skip(i as int);
            assert(rest[0] == allv[i as int]);
            assert(rest.drop_first() =~= allv.skip(i + 1));
            let gap = str_byte_slice(content.as_str(), from, whole.0);
            assert(gap@ == decode_utf8(bytes.subrange(from as int, whole.0 as int)));
            let cited_one = citation_text(content.as_str(), captures, whole, bibliography);
            let ghost before = out@;
            out.append(gap);
            out.append(cited_one.as_str());
            assert(before + (gap@ + cited_one@ + cited(allv.skip(i + 1), c, keys, whole.1 as int))
                =~= out@ + cited(allv.skip(i + 1), c, keys, whole.1 as int));
            from = whole.1;
            assert forall|k: int| i + 1 <= k < all@.len() implies from <= ((#[trigger] all@[k])@[0]->0).0 by {
                assert(((all@[i as int])@[0]->0).1 <= ((all@[k])@[0]->0).0);
            }
            i = i + 1;
        }
        let length = str_byte_len(content.as_str());
        proof {
            lemma_prefix_boundary(c, Seq::<char>::empty());
            assert(c + Seq::<char>::empty() =~= c);
        }
        let tail = str_byte_slice(content.as_str(), from, length);
        assert(allv.skip(i as int) =~= Seq::<Seq<Option<(usize, usize)>>>::empty());
        let ghost before = out@;
        out.append(tail);
        assert(out@ =~= before + tail@);
        let mut parts: Vec<CompilableTextPart> = Vec::new();
        parts.push(CompilableTextPart::new_fixed(out));
        let r = CompilableText::new(parts);
        assert(r@.parts =~= cite_parts(allv, c, keys));
        r
    }
}

impl CompilationRule for HtmlCiteRule {
    open spec fn wf(&self) -> bool {
        true
    }

    open spec fn spec_search_pattern(&self) -> Seq<char> {
        self.spec_pattern()
    }

    open spec fn spec_standard_compile(
        &self,
        text: CompilableTextView,
        format: OutputFormat,
        configuration: CompilationConfiguration,
        overlay: CompilationConfigurationOverLay,
    ) -> Result<Seq<PartView>, CompilationError> {
        Ok(
            cite_parts(
                regex_captures_all(self.spec_pattern(), compilable_chars(text.parts)),
                compilable_chars(text.parts),
                configuration.spec_bibliography_keys(),
            ),
        )
    }

    open spec fn spec_fast_compile(
        &self,
        text: CompilableTextView,
        format: OutputFormat,
        configuration: CompilationConfiguration,
        overlay: CompilationConfigurationOverLay,
    ) -> Result<Seq<PartView>, CompilationError> {
        self.spec_standard_compile(text, format, configuration, overlay)
    }

    fn search_pattern(&self) -> (r: &String) {
        self.search_pattern_regex.pattern()
    }

    fn search_pattern_regex(&self) -> (r: &CompiledRegex) {
        &self.search_pattern_regex
    }

    fn is_match(&self, content: &str) -> (r: bool) {
        is_match(&self.search_pattern_regex, content)
    }

    fn find_iter(&self, content: &str) -> (r: Vec<(usize, usize)>) {
        find_spans(&self.search_pattern_regex, content)
    }

    fn standard_compile(
        &self,
        compilable: &CompilableText,
        format: &OutputFormat,
        compilation_configuration: &CompilationConfiguration,
        compilation_configuration_overlay: &CompilationConfigurationOverLay,
    ) -> (r: Result<CompilableText, CompilationError>) {
        Ok(self.resolve(compilable, compilation_configuration))
    }

    fn fast_compile(
        &self,
        compilable: &CompilableText,
        format: &OutputFormat,
        compilation_configuration: &CompilationConfiguration,
        compilation_configuration_overlay: &CompilationConfigurationOverLay,
    ) -> (r: Result<CompilableText, CompilationError>) {
        Ok(self.resolve(compilable, compilation_configuration))
    }
}

} // verus!
