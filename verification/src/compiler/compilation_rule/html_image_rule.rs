//! The rule of images: the matches of an image paragraph with their capture
//! groups, the HTML figure of an image, and the paragraph with each match
//! replaced by its figure.  Where an image comes from (a file to read or
//! embed, a remote address) is settled by the caller.

use vstd::prelude::*;
use vstd::utf8::*;
use crate::codex::modifier::standard_paragraph_modifier::StandardParagraphModifier;
use crate::compilable_text::{CompilableText, compilable_chars};
use crate::compiler::compilation_result::CompilationResult;
use crate::compiler::compilation_rule::html_list_rule::{fixed_result, span_text};
use crate::regex_engine::{
    CompiledRegex, are_successive_spans, captures_spans, compile_regex, is_valid_span,
    regex_captures_all, regex_is_valid,
};
use crate::text_bytes::{lemma_prefix_boundary, str_byte_len, str_byte_slice};

verus! {

broadcast use vstd::utf8::encode_utf8_decode_utf8, vstd::utf8::encode_utf8_valid_utf8;

/// `name="value"`, or nothing without a value.
pub open spec fn optional_attribute(name: Seq<char>, value: Option<Seq<char>>) -> Seq<char> {
    match value {
        Some(v) => name + "=\""@ + v + "\""@,
        None => Seq::empty(),
    }
}

/// The words joined by single spaces.
pub open spec fn joined(words: Seq<Seq<char>>) -> Seq<char>
    decreases words.len(),
{
    if words.len() == 0 {
        Seq::empty()
    } else if words.len() == 1 {
        words[0]
    } else {
        joined(words.drop_last()) + " "@ + words.last()
    }
}

/// The HTML figure of an image: its source, alternative text, caption,
/// identifier, unique identifier, classes and style.
pub open spec fn html_img(
    src: Seq<char>,
    alt: Option<Seq<char>>,
    caption: Option<Seq<char>>,
    id: Option<Seq<char>>,
    nuid: Option<Seq<char>>,
    classes: Seq<Seq<char>>,
    style: Option<Seq<char>>,
) -> Seq<char> {
    r#"<figure class="figure" "#@ + optional_attribute("id"@, id) + " "@ + optional_attribute(
        "data-nuid"@,
        nuid,
    ) + ">\n                    <img src=\""@ + src + "\" "@ + optional_attribute("alt"@, alt)
        + " class=\""@ + joined(classes) + "\" "@ + optional_attribute("style"@, style)
        + " />\n                    "@ + match caption {
        Some(c) => r#"<figcaption class="image-caption">"#@ + c + "</figcaption>"@,
        None => Seq::empty(),
    } + "\n                </figure>"@
}

/// The text of each capture group after the whole match (group 1 on), as
/// far as the match has groups.
pub open spec fn group_texts(captures: Seq<Option<(usize, usize)>>, content: Seq<char>) -> Seq<
    Option<Seq<char>>,
> {
    captures.skip(1).map_values(
        |g: Option<(usize, usize)>|
            match g {
                Some(span) => Some(span_text(content, span)),
                None => None,
            },
    )
}

/// `content` from byte `from` on, each span replaced by its replacement and
/// the text between them kept.
pub open spec fn spliced(
    content: Seq<char>,
    spans: Seq<(usize, usize)>,
    replacements: Seq<Seq<char>>,
    from: int,
) -> Seq<char>
    decreases spans.len(),
{
    let bytes = encode_utf8(content);
    if spans.len() == 0 {
        decode_utf8(bytes.subrange(from, bytes.len() as int))
    } else {
        decode_utf8(bytes.subrange(from, spans[0].0 as int)) + replacements[0] + spliced(
            content,
            spans.drop_first(),
            replacements.drop_first(),
            spans[0].1 as int,
        )
    }
}

/// The paragraph modifiers that are images.
pub open spec fn is_image_modifier(m: StandardParagraphModifier) -> bool {
    m is Image || m is AbridgedImage || m is MultiImage
}

/// A match of an image pattern: the byte range of the whole match and the
/// text of its capture groups (group 1 on).
#[derive(Debug)]
pub struct ImageMatch {
    pub whole: (usize, usize),
    pub groups: Vec<Option<String>>,
}

pub open spec fn option_text(o: Option<String>) -> Option<Seq<char>> {
    match o {
        Some(s) => Some(s@),
        None => None,
    }
}

/// Mathematical value of an image match.
pub open spec fn image_match_view(m: ImageMatch) -> ((usize, usize), Seq<Option<Seq<char>>>) {
    (m.whole, m.groups@.map_values(|g: Option<String>| option_text(g)))
}

fn optional_attribute_text(name: &str, value: &Option<String>) -> (r: String)
    ensures
        r@ == optional_attribute(name@, option_text(*value)),
{
    match value {
        Some(v) => {
            let mut a = String::from_str(name);
            a.append("=\"");
            a.append(v.as_str());
            a.append("\"");
            a
        },
        None => String::new(),
    }
}

fn joined_text(words: &Vec<String>) -> (r: String)
    ensures
        r@ == joined(words@.map_values(|w: String| w@)),
{
    let ghost ws = words@.map_values(|w: String| w@);
    let mut text = String::new();
    let mut i: usize = 0;
    assert(ws.take(0) =~= Seq::<Seq<char>>::empty());
    while i < words.len()
        invariant
            i <= words.len(),
            ws == words@.map_values(|w: String| w@),
            text@ == joined(ws.take(i as int)),
        decreases words.len() - i,
    {
        assert(ws.take(i + 1).drop_last() =~= ws.take(i as int));
        assert(ws.take(i + 1).last() == words@[i as int]@);
        if i > 0 {
            text.append(" ");
        } else {
            assert(text@ =~= Seq::<char>::empty());
            assert(ws.take(1) =~= seq![words@[0]@]);
        }
        text.append(words[i].as_str());
        if i == 0 {
            assert(text@ =~= joined(ws.take(1)));
        }
        i = i + 1;
    }
    assert(ws.take(words.len() as int) =~= ws);
    text
}

/// The HTML figure of an image.
pub fn build_html_img(
    src: &str,
    alt: &Option<String>,
    caption: &Option<String>,
    id: &Option<String>,
    nuid: &Option<String>,
    img_classes: &Vec<String>,
    style: &Option<String>,
) -> (r: String)
    ensures
        r@ == html_img(
            src@,
            option_text(*alt),
            option_text(*caption),
            option_text(*id),
            option_text(*nuid),
            img_classes@.map_values(|w: String| w@),
            option_text(*style),
        ),
{
    let mut figure = String::from_str(r#"<figure class="figure" "#);
    figure.append(optional_attribute_text("id", id).as_str());
    figure.append(" ");
    figure.append(optional_attribute_text("data-nuid", nuid).as_str());
    figure.append(">\n                    <img src=\"");
    figure.append(src);
    figure.append("\" ");
    figure.append(optional_attribute_text("alt", alt).as_str());
    figure.append(" class=\"");
    figure.append(joined_text(img_classes).as_str());
    figure.append("\" ");
    figure.append(optional_attribute_text("style", style).as_str());
    figure.append(" />\n                    ");
    match caption {
        Some(c) => {
            figure.append(r#"<figcaption class="image-caption">"#);
            figure.append(c.as_str());
            figure.append("</figcaption>");
        },
        None => {},
    }
    figure.append("\n                </figure>");
    figure
}

/// `content` with each span replaced by its replacement.
pub fn splice(content: &str, spans: &Vec<(usize, usize)>, replacements: &Vec<String>) -> (r: String)
    requires
        spans@.len() == replacements@.len(),
        are_successive_spans(spans@, content@),
    ensures
        r@ == spliced(content@, spans@, replacements@.map_values(|s: String| s@), 0),
{
    let ghost c = content@;
    let ghost bytes = encode_utf8(c);
    let ghost rv = replacements@.map_values(|s: String| s@);
    let mut out = String::new();
    let mut from: usize = 0;
    let mut i: usize = 0;
    assert(spans@.skip(0) =~= spans@);
    assert(rv.skip(0) =~= rv);
    assert(out@ + spliced(c, spans@, rv, 0) =~= spliced(c, spans@, rv, 0));
    while i < spans.len()
        invariant
            i <= spans.len(),
            spans@.len() == replacements@.len(),
            c == content@,
            bytes == encode_utf8(c),
            rv == replacements@.map_values(|s: String| s@),
            are_successive_spans(spans@, c),
            forall|k: int| i <= k < spans@.len() ==> from <= (#[trigger] spans@[k]).0,
            from <= bytes.len(),
            is_char_boundary(bytes, from as int),
            out@ + spliced(c, spans@.skip(i as int), rv.skip(i as int), from as int) == spliced(
                c,
                spans@,
                rv,
                0,
            ),
        decreases spans.len() - i,
    {
        let span = spans[i];
        assert(is_valid_span(spans@[i as int], c));
        assert(spans@.skip(i as int)[0] == span);
        assert(spans@.skip(i as int).drop_first() =~= spans@.skip(i + 1));
        assert(rv.skip(i as int)[0] == replacements@[i as int]@);
        assert(rv.skip(i as int).drop_first() =~= rv.skip(i + 1));
        let gap = str_byte_slice(content, from, span.0);
        let ghost before = out@;
        out.append(gap);
        out.append(replacements[i].as_str());
        assert(before + (gap@ + replacements@[i as int]@ + spliced(
            c,
            spans@.skip(i + 1),
            rv.skip(i + 1),
            span.1 as int,
        )) =~= out@ + spliced(c, spans@.skip(i + 1), rv.skip(i + 1), span.1 as int));
        from = span.1;
        assert forall|k: int| i + 1 <= k < spans@.len() implies from <= (#[trigger] spans@[k]).0 by {
            assert(spans@[i as int].1 <= spans@[k].0);
        }
        i = i + 1;
    }
    let length = str_byte_len(content);
    proof {
        lemma_prefix_boundary(c, Seq::<char>::empty());
        assert(c + Seq::<char>::empty() =~= c);
    }
    let tail = str_byte_slice(content, from, length);
    assert(spans@.skip(i as int) =~= Seq::<(usize, usize)>::empty());
    let ghost before = out@;
    out.append(tail);
    assert(out@ =~= before + tail@);
    out
}

/// The rule of an image paragraph (a single image, an abridged image or
/// several images).
#[derive(Debug)]
pub struct HtmlImageRule {
    image_modifier: StandardParagraphModifier,
    search_pattern_regex: CompiledRegex,
}

impl HtmlImageRule {
    pub closed spec fn spec_modifier(&self) -> StandardParagraphModifier {
        self.image_modifier
    }

    /// The rule is built for an image modifier, searching its pattern.
    pub closed spec fn wf(&self) -> bool {
        &&& is_image_modifier(self.image_modifier)
        &&& self.search_pattern_regex.spec_pattern() == self.image_modifier.spec_modifier_pattern()
    }

    /// The rule of an image modifier; `None` for another modifier, or when
    /// the regex engine refuses its pattern.
    pub fn new(image_modifier: StandardParagraphModifier) -> (r: Option<Self>)
        ensures
            r is Some == (is_image_modifier(image_modifier) && regex_is_valid(
                image_modifier.spec_modifier_pattern(),
            )),
            r matches Some(rule) ==> rule.wf() && rule.spec_modifier() == image_modifier,
    {
        let supported = match image_modifier {
            StandardParagraphModifier::Image => true,
            StandardParagraphModifier::AbridgedImage => true,
            StandardParagraphModifier::MultiImage => true,
            _ => false,
        };
        if !supported {
            return None;
        }
        let pattern = image_modifier.modifier_pattern();
        match compile_regex(pattern.as_str()) {
            Some(search_pattern_regex) => Some(Self { image_modifier, search_pattern_regex }),
            None => None,
        }
    }

    /// The matches of the image pattern in `content`, in order, each with the
    /// text of its capture groups.
    pub fn image_matches(&self, content: &str) -> (r: Vec<ImageMatch>)
        requires
            self.wf(),
        ensures
            r@.len() == regex_captures_all(self.spec_modifier().spec_modifier_pattern(), content@).len(),
            forall|i: int|
                0 <= i < r@.len() ==> image_match_view(#[trigger] r@[i]) == (
                    regex_captures_all(self.spec_modifier().spec_modifier_pattern(), content@)[i][0]->0,
                    group_texts(
                        regex_captures_all(self.spec_modifier().spec_modifier_pattern(), content@)[i],
                        content@,
                    ),
                ),
            are_successive_spans(r@.map_values(|m: ImageMatch| m.whole), content@),
    {
        let all = captures_spans(&self.search_pattern_regex, content);
        let ghost allv = regex_captures_all(self.spec_modifier().spec_modifier_pattern(), content@);
        let mut out: Vec<ImageMatch> = Vec::new();
        let mut i: usize = 0;
        while i < all.len()
            invariant
                i <= all.len(),
                out@.len() == i,
                allv == regex_captures_all(self.spec_modifier().spec_modifier_pattern(), content@),
                all@.len() == allv.len(),
                forall|k: int| 0 <= k < all@.len() ==> (#[trigger] all@[k])@ == allv[k],
                forall|k: int, g: int|
                    0 <= k < all@.len() && 0 <= g < all@[k]@.len() && (#[trigger] all@[k]@[g]) is Some
                        ==> is_valid_span(all@[k]@[g]->0, content@),
                forall|k: int| 0 <= k < all@.len() ==> (#[trigger] all@[k]@).len() > 0 && all@[k]@[0] is Some,
                forall|k: int, j: int|
                    0 <= k < j < all@.len() ==> ((#[trigger] all@[k])@[0]->0).1 <= ((#[trigger] all@[j])@[0]->0).0,
                forall|k: int| 0 <= k < i ==> image_match_view(#[trigger] out@[k]) == (
                    allv[k][0]->0,
                    group_texts(allv[k], content@),
                ),
            decreases all.len() - i,
        {
            let captures = &all[i];
            assert(captures@ == allv[i as int]);
            let whole = match &captures[0] {
                Some(span) => *span,
                None => (0, 0),
            };
            assert(all@[i as int]@[0] is Some);
            let mut groups: Vec<Option<String>> = Vec::new();
            let mut g: usize = 1;
            let ghost gv = group_texts(allv[i as int], content@);
            while g < captures.len()
                invariant
                    1 <= g <= captures.len(),
                    captures@ == allv[i as int],
                    gv == group_texts(allv[i as int], content@),
                    groups@.len() == g - 1,
                    forall|h: int|
                        0 <= h < captures@.len() && (#[trigger] captures@[h]) is Some ==> is_valid_span(
                            captures@[h]->0,
                            content@,
                        ),
                    forall|h: int| 0 <= h < g - 1 ==> option_text(#[trigger] groups@[h]) == gv[h],
                decreases captures.len() - g,
            {
                assert(gv[g - 1] == match captures@[g as int] {
                    Some(span) => Some(span_text(content@, span)),
                    None => None::<Seq<char>>,
                });
                match &captures[g] {
                    Some(span) => {
                        let text = str_byte_slice(content, span.0, span.1);
                        groups.push(Some(text.to_string()));
                    },
                    None => groups.push(None),
                }
                g = g + 1;
            }
            proof {
                assert(groups@.map_values(|o: Option<String>| option_text(o)) =~= gv);
                assert forall|h: int|
                    0 <= h < captures@.len() && (#[trigger] captures@[h]) is Some implies is_valid_span(
                    captures@[h]->0,
                    content@,
                ) by {
                    assert(all@[i as int]@[h] is Some);
                }
            }
            out.push(ImageMatch { whole, groups });
            i = i + 1;
        }
        proof {
            let ws = out@.map_values(|m: ImageMatch| m.whole);
            assert forall|k: int| 0 <= k < ws.len() implies is_valid_span(#[trigger] ws[k], content@) by {
                assert(all@[k]@[0] is Some);
            }
            assert forall|k: int, j: int| 0 <= k < j < ws.len() implies ws[k].1 <= ws[j].0 by {
                assert(((all@[k])@[0]->0).1 <= ((all@[j])@[0]->0).0);
            }
        }
        out
    }

    /// The fast compilation of an image: its text as alternative text.
    pub fn fast_compile(&self, compilable: &CompilableText) -> (r: CompilationResult)
        ensures
            r@ == seq![
                fixed_result(
                    "<img alt=\""@ + compilable_chars(compilable@.parts) + "\" />"@,
                ),
            ],
    {
        let mut img = String::from_str("<img alt=\"");
        img.append(compilable.compilable_content().as_str());
        img.append("\" />");
        CompilationResult::new_fixed(img)
    }
}

} // verus!
