//! The rule that renders a list paragraph as an HTML list.

use vstd::prelude::*;
use vstd::utf8::*;
use crate::codex::modifier::standard_paragraph_modifier::{StandardParagraphModifier, list_item_pattern};
use crate::compilable_text::{CompilableText, compilable_chars, option_string_view};
use crate::compiler::compilation_configuration::CompilationConfiguration;
use crate::compiler::compilation_configuration::list_bullet_configuration_record::{
    CHECKBOX, CHECKBOX_CHECKED, ListBulletConfigurationRecord,
};
use crate::compiler::compilation_error::CompilationError;
use crate::compiler::compilation_result::{CompilationResult, ResultPartTypeView, ResultPartView};
use crate::compiler::compilation_rule::constants::{escape_html, escape_html_valid, escape_html_view};
use crate::compiler::compilation_rule::replacement_rule::replacement_rule_part::single_capture_group_replacement_rule_part::group_span;
use crate::regex_engine::{
    CompiledRegex, captures_spans, compile_regex, is_valid_span, regex_captures_all, regex_is_valid,
};
use crate::resource::bucket::{Bucket, BucketView};
use crate::text_bytes::str_byte_slice;
use crate::utility::text_utility::{
    line_without_cr, newline_pieces, replace, replace_chain, replacements_view,
};

verus! {

broadcast use vstd::utf8::encode_utf8_decode_utf8;

/// Markup that indents a list item by one level.
pub const LIST_ITEM_INDENTATION: &'static str = r#"<span class="list-item-indentation"></span>"#;

/// The text of `content` inside the byte range `span`.
pub open spec fn span_text(content: Seq<char>, span: (usize, usize)) -> Seq<char> {
    decode_utf8(encode_utf8(content).subrange(span.0 as int, span.1 as int))
}

pub open spec fn is_blank(c: char) -> bool {
    c == ' ' || c == '\t'
}

/// Width of the blanks that open `s`, a tab counting as three spaces.
pub open spec fn leading_blank_width(s: Seq<char>) -> nat
    decreases s.len(),
{
    if s.len() == 0 {
        0
    } else if s[0] == ' ' {
        1 + leading_blank_width(s.drop_first())
    } else if s[0] == '\t' {
        3 + leading_blank_width(s.drop_first())
    } else {
        0
    }
}

/// Indentation level of an item: one level for every three spaces of its
/// leading blanks.
pub open spec fn indentation_level(indentation: Seq<char>) -> nat {
    leading_blank_width(indentation) / 3
}

/// `s` written `n` times.
pub open spec fn repeated(s: Seq<char>, n: nat) -> Seq<char>
    decreases n,
{
    if n == 0 {
        Seq::empty()
    } else {
        repeated(s, (n - 1) as nat) + s
    }
}

/// The markup of a configured bullet: the checkbox markers become checkboxes.
pub open spec fn bullet_field(to: Seq<char>) -> Seq<char> {
    if to == CHECKBOX@ {
        r#"<div class="checkbox checkbox-unchecked"></div>"#@
    } else if to == CHECKBOX_CHECKED@ {
        r#"<div class="checkbox checkbox-checked"></div>"#@
    } else {
        to
    }
}

/// A bullet rendered by a record whose `to` is the checked checkbox marker
/// `checkbox-checked` is drawn as a checked checkbox, and one whose `to` is
/// the checkbox marker `checkbox` as an unchecked one: the first record that
/// renders the bullet decides.
pub proof fn lemma_checkbox_bullets(
    records: Seq<ListBulletConfigurationRecord>,
    bullet: Seq<char>,
    level: nat,
)
    requires
        records.len() > 0,
        records[0].from@ == bullet,
        records[0].strict_indentation ==> level == records[0].indentation_level,
        !records[0].strict_indentation ==> level >= records[0].indentation_level,
    ensures
        records[0].to@ == "checkbox-checked"@ ==> transformed_bullet(records, bullet, level)
            == r#"<div class="checkbox checkbox-checked"></div>"#@,
        records[0].to@ == "checkbox"@ ==> transformed_bullet(records, bullet, level)
            == r#"<div class="checkbox checkbox-unchecked"></div>"#@,
{
    reveal_strlit("checkbox");
    reveal_strlit("checkbox-checked");
    assert("checkbox"@.len() != "checkbox-checked"@.len());
}

/// The record renders `bullet` at indentation `level`.
pub open spec fn bullet_applies(
    record: ListBulletConfigurationRecord,
    bullet: Seq<char>,
    level: nat,
) -> bool {
    &&& record.from@ == bullet
    &&& if record.strict_indentation {
        level == record.indentation_level
    } else {
        level >= record.indentation_level
    }
}

/// The markup of `bullet`: that of the first record that renders it, or the
/// bullet itself when none does.
pub open spec fn transformed_bullet(
    records: Seq<ListBulletConfigurationRecord>,
    bullet: Seq<char>,
    level: nat,
) -> Seq<char>
    decreases records.len(),
{
    if records.len() == 0 {
        bullet
    } else if bullet_applies(records[0], bullet, level) {
        bullet_field(records[0].to@)
    } else {
        transformed_bullet(records.drop_first(), bullet, level)
    }
}

pub open spec fn fixed_result(content: Seq<char>) -> ResultPartView {
    ResultPartView { content, part_type: ResultPartTypeView::Fixed }
}

/// The opening tag of the list, which carries the text's identifier if any.
pub open spec fn list_open(nuid: Option<Seq<char>>) -> Seq<char> {
    r#"<ul class="list" "#@ + match nuid {
        Some(n) => r#"data-nuid=""#@ + n + r#"""#@,
        None => Seq::<char>::empty(),
    } + ">"@
}

/// The parts of one item, from the byte ranges of its indentation, bullet and
/// text: the text, escaped, is the only part left to compile.
pub open spec fn item_markup(
    content: Seq<char>,
    indentation: (usize, usize),
    bullet: (usize, usize),
    text: (usize, usize),
    records: Seq<ListBulletConfigurationRecord>,
) -> Seq<ResultPartView> {
    let level = indentation_level(span_text(content, indentation));
    seq![
        fixed_result(r#"<li class="list-item">"#@),
        fixed_result(repeated(LIST_ITEM_INDENTATION@, level)),
        fixed_result(r#"<span class="list-item-bullet">"#@),
        fixed_result(transformed_bullet(records, span_text(content, bullet), level)),
        fixed_result(r#"</span><span class="list-item-content">"#@),
        ResultPartView {
            content: replace_chain(span_text(content, text), escape_html_view()),
            part_type: ResultPartTypeView::Compilable(BucketView::Nothing),
        },
        fixed_result(r#"</span></li>"#@),
    ]
}

/// A match of the item pattern that has its indentation, bullet and text.
pub open spec fn is_list_item(captures: Seq<Option<(usize, usize)>>) -> bool {
    &&& group_span(captures, 1) is Some
    &&& group_span(captures, 2) is Some
    &&& group_span(captures, 3) is Some
}

/// The parts of one match: those of its item, nothing when it is no item.
pub open spec fn list_item_parts(
    captures: Seq<Option<(usize, usize)>>,
    content: Seq<char>,
    records: Seq<ListBulletConfigurationRecord>,
) -> Seq<ResultPartView> {
    if is_list_item(captures) {
        item_markup(
            content,
            group_span(captures, 1)->0,
            group_span(captures, 2)->0,
            group_span(captures, 3)->0,
            records,
        )
    } else {
        Seq::empty()
    }
}

/// The parts of all the items of the matches, in order.
pub open spec fn list_items_parts(
    all: Seq<Seq<Option<(usize, usize)>>>,
    content: Seq<char>,
    records: Seq<ListBulletConfigurationRecord>,
) -> Seq<ResultPartView>
    decreases all.len(),
{
    if all.len() == 0 {
        Seq::empty()
    } else {
        list_items_parts(all.drop_last(), content, records) + list_item_parts(
            all.last(),
            content,
            records,
        )
    }
}

/// How many of the matches are items.
pub open spec fn list_items_found(all: Seq<Seq<Option<(usize, usize)>>>) -> nat
    decreases all.len(),
{
    if all.len() == 0 {
        0
    } else {
        list_items_found(all.drop_last()) + if is_list_item(all.last()) {
            1nat
        } else {
            0nat
        }
    }
}

/// How many of the lines ended by `\n` are not empty.
pub open spec fn count_non_empty_lines(pieces: Seq<Seq<char>>) -> nat
    decreases pieces.len(),
{
    if pieces.len() == 0 {
        0
    } else {
        count_non_empty_lines(pieces.drop_last()) + if line_without_cr(pieces.last()).len() > 0 {
            1nat
        } else {
            0nat
        }
    }
}

/// How many non-empty lines `s` has, lines split as `str::lines` splits them:
/// at each `\n` (a `\r` just before it belongs to the ending), the text after
/// the last `\n` being a line when it is not empty.
pub open spec fn non_empty_line_count(s: Seq<char>) -> nat {
    let pieces = newline_pieces(s);
    count_non_empty_lines(pieces.drop_last()) + if pieces.last().len() > 0 {
        1nat
    } else {
        0nat
    }
}

/// What the list rule makes of a text whose compilable content is `content`.
pub open spec fn list_parts(
    all: Seq<Seq<Option<(usize, usize)>>>,
    content: Seq<char>,
    nuid: Option<Seq<char>>,
    records: Seq<ListBulletConfigurationRecord>,
) -> Seq<ResultPartView> {
    seq![fixed_result(list_open(nuid))] + list_items_parts(all, content, records) + seq![
        fixed_result("</ul>"@),
    ]
}

/// A list opens with `<ul class="list" >`, or with the text's identifier
/// `<ul class="list" data-nuid="ID">`, and closes with `</ul>`; in between
/// stand the parts of its items, in order.
pub proof fn lemma_list_frame(
    all: Seq<Seq<Option<(usize, usize)>>>,
    content: Seq<char>,
    nuid: Option<Seq<char>>,
    records: Seq<ListBulletConfigurationRecord>,
)
    ensures
        list_parts(all, content, nuid, records)[0] == fixed_result(
            match nuid {
                Some(n) => r#"<ul class="list" data-nuid=""#@ + n + r#"">"#@,
                None => r#"<ul class="list" >"#@,
            },
        ),
        list_parts(all, content, nuid, records).last() == fixed_result("</ul>"@),
        list_parts(all, content, nuid, records).subrange(
            1,
            list_parts(all, content, nuid, records).len() - 1,
        ) == list_items_parts(all, content, records),
{
    reveal_strlit(r#"<ul class="list" "#);
    reveal_strlit(r#"data-nuid=""#);
    reveal_strlit(r#"""#);
    reveal_strlit(">");
    reveal_strlit(r#"<ul class="list" data-nuid=""#);
    reveal_strlit(r#"">"#);
    reveal_strlit(r#"<ul class="list" >"#);
    let parts = list_parts(all, content, nuid, records);
    assert(parts.subrange(1, parts.len() - 1) =~= list_items_parts(all, content, records));
    match nuid {
        Some(n) => {
            assert(list_open(nuid) =~= r#"<ul class="list" data-nuid=""#@ + n + r#"">"#@);
        },
        None => {
            assert(list_open(nuid) =~= r#"<ul class="list" >"#@);
        },
    }
}

/// An item is rendered as `<li class="list-item">`, one
/// `<span class="list-item-indentation"></span>` for each level of its
/// indentation, its bullet inside `<span class="list-item-bullet">`, then
/// `</span><span class="list-item-content">`, its text escaped and left to
/// compile with no modifier excluded, and `</span></li>`.
pub proof fn lemma_list_item_markup(
    content: Seq<char>,
    indentation: (usize, usize),
    bullet: (usize, usize),
    text: (usize, usize),
    records: Seq<ListBulletConfigurationRecord>,
)
    ensures
        ({
            let parts = item_markup(content, indentation, bullet, text, records);
            let level = indentation_level(span_text(content, indentation));
            &&& parts.len() == 7
            &&& parts[0] == fixed_result(r#"<li class="list-item">"#@)
            &&& parts[1] == fixed_result(
                repeated(r#"<span class="list-item-indentation"></span>"#@, level),
            )
            &&& parts[2] == fixed_result(r#"<span class="list-item-bullet">"#@)
            &&& parts[3] == fixed_result(
                transformed_bullet(records, span_text(content, bullet), level),
            )
            &&& parts[4] == fixed_result(r#"</span><span class="list-item-content">"#@)
            &&& parts[5].content == replace_chain(span_text(content, text), escape_html_view())
            &&& parts[5].part_type == ResultPartTypeView::Compilable(BucketView::Nothing)
            &&& parts[6] == fixed_result(r#"</span></li>"#@)
        }),
{
}

/// A bullet that no record renders at its level stays as written; one that a
/// record renders, and that no earlier record renders, takes the markup of
/// that record's `to`, itself unless it is a checkbox marker.
pub proof fn lemma_bullet_first_record(
    records: Seq<ListBulletConfigurationRecord>,
    bullet: Seq<char>,
    level: nat,
)
    ensures
        (forall|k: int| 0 <= k < records.len() ==> !bullet_applies(#[trigger] records[k], bullet, level))
            ==> transformed_bullet(records, bullet, level) == bullet,
        forall|k: int|
            0 <= k < records.len() && bullet_applies(#[trigger] records[k], bullet, level) && (forall|
                j: int,
            | 0 <= j < k ==> !bullet_applies(#[trigger] records[j], bullet, level)) ==> {
                &&& transformed_bullet(records, bullet, level) == bullet_field(records[k].to@)
                &&& records[k].to@ != "checkbox"@ && records[k].to@ != "checkbox-checked"@
                    ==> transformed_bullet(records, bullet, level) == records[k].to@
            },
    decreases records.len(),
{
    if records.len() > 0 {
        let rest = records.drop_first();
        lemma_bullet_first_record(rest, bullet, level);
        assert forall|k: int| 0 <= k < rest.len() implies rest[k] == records[k + 1] by {}
        if forall|k: int| 0 <= k < records.len() ==> !bullet_applies(#[trigger] records[k], bullet, level) {
            assert(!bullet_applies(records[0], bullet, level));
            assert forall|k: int| 0 <= k < rest.len() implies !bullet_applies(#[trigger] rest[k], bullet, level) by {
                assert(!bullet_applies(records[k + 1], bullet, level));
            }
        }
        assert forall|k: int|
            0 <= k < records.len() && bullet_applies(#[trigger] records[k], bullet, level) && (forall|
                j: int,
            | 0 <= j < k ==> !bullet_applies(#[trigger] records[j], bullet, level)) implies
                transformed_bullet(records, bullet, level) == bullet_field(records[k].to@) by {
            if k > 0 {
                assert(!bullet_applies(records[0], bullet, level));
                assert(rest[k - 1] == records[k]);
                assert forall|j: int| 0 <= j < k - 1 implies !bullet_applies(#[trigger] rest[j], bullet, level) by {
                    assert(!bullet_applies(records[j + 1], bullet, level));
                }
            }
        }
    }
}

/// Width of the indentation of `n` spaces, or of `n` tabs.
proof fn lemma_blank_run_width(n: nat)
    ensures
        leading_blank_width(Seq::new(n, |_i: int| ' ')) == n,
        leading_blank_width(Seq::new(n, |_i: int| '\t')) == 3 * n,
    decreases n,
{
    if n > 0 {
        lemma_blank_run_width((n - 1) as nat);
        assert(Seq::new(n, |_i: int| ' ').drop_first() =~= Seq::new((n - 1) as nat, |_i: int| ' '));
        assert(Seq::new(n, |_i: int| '\t').drop_first() =~= Seq::new(
            (n - 1) as nat,
            |_i: int| '\t',
        ));
    }
}

/// An item indented by `n` spaces stands at level `n / 3`; one indented by
/// `n` tabs at level `n`.
pub proof fn lemma_indentation_levels(n: nat)
    ensures
        indentation_level(Seq::new(n, |_i: int| ' ')) == n / 3,
        indentation_level(Seq::new(n, |_i: int| '\t')) == n,
{
    lemma_blank_run_width(n);
}

proof fn lemma_blank_width_split(s: Seq<char>, i: int)
    requires
        0 <= i <= s.len(),
        forall|j: int| 0 <= j < i ==> is_blank(#[trigger] s[j]),
    ensures
        leading_blank_width(s) == leading_blank_width(s.take(i)) + leading_blank_width(s.skip(i)),
    decreases i,
{
    if i == 0 {
        assert(s.take(0) =~= Seq::<char>::empty());
        assert(s.skip(0) =~= s);
    } else {
        let t = s.drop_first();
        assert forall|j: int| 0 <= j < i - 1 implies is_blank(#[trigger] t[j]) by {
            assert(t[j] == s[j + 1]);
        }
        lemma_blank_width_split(t, i - 1);
        assert(t.take(i - 1) =~= s.take(i).drop_first());
        assert(t.skip(i - 1) =~= s.skip(i));
        assert(s.take(i)[0] == s[0]);
    }
}

/// The indentation level of a captured indentation.
fn indentation_level_of(indentation: &str) -> (r: usize)
    ensures
        r == indentation_level(indentation@),
{
    let n = indentation.unicode_len();
    let ghost s = indentation@;
    let mut level: usize = 0;
    let mut rem: usize = 0;
    let mut i: usize = 0;
    while i < n && is_blank_at(indentation, i)
        invariant
            n == s.len(),
            s == indentation@,
            i <= n,
            rem < 3,
            level <= i,
            forall|j: int| 0 <= j < i ==> is_blank(#[trigger] s[j]),
            leading_blank_width(s.take(i as int)) == 3 * level + rem,
        decreases n - i,
    {
        let c = indentation.get_char(i);
        proof {
            let u = s.take(i + 1);
            assert forall|j: int| 0 <= j < i + 1 implies is_blank(#[trigger] u[j]) by {
                assert(u[j] == s[j]);
            }
            lemma_blank_width_split(u, i as int);
            assert(u.take(i as int) =~= s.take(i as int));
            assert(u.skip(i as int) =~= seq![c]);
            assert(seq![c].drop_first() =~= Seq::<char>::empty());
            assert(leading_blank_width(Seq::<char>::empty()) == 0);
            assert(c == s[i as int]);
            assert(leading_blank_width(seq![c]) == if c == ' ' { 1nat } else { 3nat });
        }
        if c == ' ' {
            if rem == 2 {
                level = level + 1;
                rem = 0;
            } else {
                rem = rem + 1;
            }
        } else {
            level = level + 1;
        }
        i = i + 1;
    }
    proof {
        lemma_blank_width_split(s, i as int);
        assert(leading_blank_width(s.skip(i as int)) == 0) by {
            if i < n {
                assert(s.skip(i as int)[0] == s[i as int]);
            }
        }
        assert((3 * level + rem) / 3 == level) by (nonlinear_arith)
            requires
                rem < 3,
        ;
    }
    level
}

/// The character at `i` is a space or a tab.
fn is_blank_at(s: &str, i: usize) -> (r: bool)
    requires
        i < s@.len(),
    ensures
        r == is_blank(s@[i as int]),
{
    let c = s.get_char(i);
    c == ' ' || c == '\t'
}

/// `LIST_ITEM_INDENTATION` written `level` times.
fn indentation_markup(level: usize) -> (r: String)
    ensures
        r@ == repeated(LIST_ITEM_INDENTATION@, level as nat),
{
    let mut markup = String::new();
    let mut k: usize = 0;
    while k < level
        invariant
            k <= level,
            markup@ == repeated(LIST_ITEM_INDENTATION@, k as nat),
        decreases level - k,
    {
        markup.append(LIST_ITEM_INDENTATION);
        k = k + 1;
    }
    markup
}

/// The markup of a configured bullet.
fn transform_to_field(to: &String) -> (r: String)
    ensures
        r@ == bullet_field(to@),
{
    let checkbox = String::from_str(CHECKBOX);
    let checkbox_checked = String::from_str(CHECKBOX_CHECKED);
    if *to == checkbox {
        String::from_str(r#"<div class="checkbox checkbox-unchecked"></div>"#)
    } else if *to == checkbox_checked {
        String::from_str(r#"<div class="checkbox checkbox-checked"></div>"#)
    } else {
        to.clone()
    }
}

/// The markup of `bullet` at indentation `level`.
fn bullet_transform(bullet: &str, level: usize, records: &Vec<ListBulletConfigurationRecord>) -> (r:
    String)
    ensures
        r@ == transformed_bullet(records@, bullet@, level as nat),
{
    let b = String::from_str(bullet);
    let mut i: usize = 0;
    assert(records@.skip(0) =~= records@);
    while i < records.len()
        invariant
            i <= records.len(),
            b@ == bullet@,
            transformed_bullet(records@, bullet@, level as nat) == transformed_bullet(
                records@.skip(i as int),
                bullet@,
                level as nat,
            ),
        decreases records.len() - i,
    {
        let ghost rest = records@.skip(i as int);
        assert(rest[0] == records@[i as int]);
        assert(rest.drop_first() =~= records@.skip(i + 1));
        let record = &records[i];
        if record.from == b {
            let applies = if record.strict_indentation {
                level == record.indentation_level
            } else {
                level >= record.indentation_level
            };
            if applies {
                return transform_to_field(&record.to);
            }
        }
        i = i + 1;
    }
    assert(records@.skip(i as int) =~= Seq::<ListBulletConfigurationRecord>::empty());
    b
}

/// The opening tag of the list.
fn list_open_tag(nuid: &Option<String>) -> (r: String)
    ensures
        r@ == list_open(option_string_view(*nuid)),
{
    let mut tag = String::from_str(r#"<ul class="list" "#);
    match nuid {
        Some(n) => {
            tag.append(r#"data-nuid=""#);
            tag.append(n.as_str());
            tag.append(r#"""#);
        },
        None => {},
    }
    tag.append(">");
    tag
}

/// Counts the non-empty lines of `s`.
fn count_lines(s: &str) -> (r: usize)
    ensures
        r == non_empty_line_count(s@),
{
    let n = s.unicode_len();
    let ghost text = s@;
    let mut closed: usize = 0;
    let mut current: usize = 0;
    let mut current_cr = false;
    let mut i: usize = 0;
    proof {
        assert(text.take(0) =~= Seq::<char>::empty());
    }
    while i < n
        invariant
            n == text.len(),
            text == s@,
            i <= n,
            closed + current <= i,
            newline_pieces(text.take(i as int)).len() >= 1,
            closed == count_non_empty_lines(newline_pieces(text.take(i as int)).drop_last()),
            current == newline_pieces(text.take(i as int)).last().len(),
            current_cr == (current > 0 && newline_pieces(text.take(i as int)).last().last()
                == '\r'),
        decreases n - i,
    {
        let c = s.get_char(i);
        let ghost p = newline_pieces(text.take(i as int));
        proof {
            let u = text.take(i + 1);
            assert(u.drop_last() =~= text.take(i as int));
            assert(u.last() == c);
        }
        if c == '\n' {
            proof {
                let q = p.push(Seq::<char>::empty());
                assert(q.drop_last() =~= p);
                assert(p.drop_last() =~= p.drop_last());
            }
            if current > 1 || (current == 1 && !current_cr) {
                closed = closed + 1;
            }
            current = 0;
            current_cr = false;
        } else {
            proof {
                let q = p.update(p.len() - 1, p.last().push(c));
                assert(q.drop_last() =~= p.drop_last());
                assert(q.last() == p.last().push(c));
            }
            current = current + 1;
            current_cr = c == '\r';
        }
        i = i + 1;
    }
    assert(text.take(n as int) =~= text);
    if current > 0 {
        closed + 1
    } else {
        closed
    }
}

/// Renders a list paragraph as an HTML list: one item for every line that
/// the item pattern recognises, with its indentation level, its bullet as
/// configured and its text escaped.
#[derive(Debug)]
pub struct HtmlListRule {
    search_pattern: String,
    search_pattern_regex: CompiledRegex,
    list_item_regex: CompiledRegex,
    escape_html: Vec<(CompiledRegex, String)>,
}

impl HtmlListRule {
    /// The rule is built: it searches lists and parses them item by item.
    pub closed spec fn wf(&self) -> bool {
        &&& self.search_pattern@ == StandardParagraphModifier::List.spec_modifier_pattern()
        &&& self.search_pattern_regex.spec_pattern() == StandardParagraphModifier::List.spec_modifier_pattern()
        &&& self.list_item_regex.spec_pattern() == list_item_pattern()
        &&& replacements_view(self.escape_html@) == escape_html_view()
    }

    /// The rule, or `None` when the regex engine refuses one of its patterns.
    pub fn new() -> (r: Option<Self>)
        ensures
            r is Some == (regex_is_valid(StandardParagraphModifier::List.spec_modifier_pattern())
                && regex_is_valid(list_item_pattern()) && escape_html_valid()),
            r matches Some(rule) ==> rule.wf(),
    {
        let pattern = StandardParagraphModifier::List.modifier_pattern();
        let item_pattern = StandardParagraphModifier::ListItem.modifier_pattern();
        let search = compile_regex(pattern.as_str());
        let item = compile_regex(item_pattern.as_str());
        let valid_escape = compile_regex("<").is_some() && compile_regex(">").is_some();
        match (search, item) {
            (Some(search_pattern_regex), Some(list_item_regex)) => {
                if valid_escape {
                    Some(
                        Self {
                            search_pattern: pattern,
                            search_pattern_regex,
                            list_item_regex,
                            escape_html: escape_html(),
                        },
                    )
                } else {
                    None
                }
            },
            _ => None,
        }
    }

    /// The pattern of the lists this rule compiles.
    pub fn search_pattern(&self) -> (r: &String)
        requires
            self.wf(),
        ensures
            r@ == StandardParagraphModifier::List.spec_modifier_pattern(),
    {
        &self.search_pattern
    }

    /// Appends the parts of one item.
    fn push_item(
        &self,
        content: &str,
        indentation: (usize, usize),
        bullet: (usize, usize),
        text: (usize, usize),
        records: &Vec<ListBulletConfigurationRecord>,
        result: &mut CompilationResult,
    )
        requires
            self.wf(),
            is_valid_span(indentation, content@),
            is_valid_span(bullet, content@),
            is_valid_span(text, content@),
        ensures
            final(result)@ == old(result)@ + item_markup(
                content@,
                indentation,
                bullet,
                text,
                records@,
            ),
    {
        let ind = str_byte_slice(content, indentation.0, indentation.1);
        assert(ind@ == span_text(content@, indentation));
        let level = indentation_level_of(ind);
        let b = str_byte_slice(content, bullet.0, bullet.1);
        assert(b@ == span_text(content@, bullet));
        let bullet_markup = bullet_transform(b, level, records);
        let t = str_byte_slice(content, text.0, text.1);
        assert(t@ == span_text(content@, text));
        let escaped = replace(t, &self.escape_html);
        result.add_fixed_part(String::from_str(r#"<li class="list-item">"#));
        result.add_fixed_part(indentation_markup(level));
        result.add_fixed_part(String::from_str(r#"<span class="list-item-bullet">"#));
        result.add_fixed_part(bullet_markup);
        result.add_fixed_part(String::from_str(r#"</span><span class="list-item-content">"#));
        result.add_compilable_part(escaped, Bucket::Nothing);
        result.add_fixed_part(String::from_str(r#"</span></li>"#));
        assert(final(result)@ =~= old(result)@ + item_markup(
            content@,
            indentation,
            bullet,
            text,
            records@,
        ));
    }

    /// The parts of a list paragraph and the number of items found in it.
    fn compile_items(
        &self,
        compilable: &CompilableText,
        compilation_configuration: &CompilationConfiguration,
    ) -> (r: (CompilationResult, usize))
        requires
            self.wf(),
        ensures
            r.0@ == list_parts(
                regex_captures_all(list_item_pattern(), compilable_chars(compilable@.parts)),
                compilable_chars(compilable@.parts),
                compilable@.nuid,
                compilation_configuration.spec_list_bullets(),
            ),
            r.1 == list_items_found(
                regex_captures_all(list_item_pattern(), compilable_chars(compilable@.parts)),
            ),
    {
        let content = compilable.compilable_content();
        let records = compilation_configuration.list_bullets_configuration();
        let all = captures_spans(&self.list_item_regex, content.as_str());
        let ghost allv = regex_captures_all(list_item_pattern(), content@);
        let mut result = CompilationResult::new_empty();
        result.add_fixed_part(list_open_tag(compilable.nuid()));
        let mut items_found: usize = 0;
        let mut i: usize = 0;
        while i < all.len()
            invariant
                self.wf(),
                i <= all.len(),
                items_found <= i,
                allv == regex_captures_all(list_item_pattern(), content@),
                all@.len() == allv.len(),
                forall|k: int| 0 <= k < all@.len() ==> (#[trigger] all@[k])@ == allv[k],
                forall|k: int, g: int|
                    0 <= k < all@.len() && 0 <= g < all@[k]@.len() && (#[trigger] all@[k]@[g]) is Some
                        ==> is_valid_span(all@[k]@[g]->0, content@),
                items_found == list_items_found(allv.take(i as int)),
                result@ == seq![fixed_result(list_open(compilable@.nuid))] + list_items_parts(
                    allv.take(i as int),
                    content@,
                    records@,
                ),
            decreases all.len() - i,
        {
            let captures = &all[i];
            assert(captures@ == allv[i as int]);
            assert(allv.take(i + 1).drop_last() =~= allv.take(i as int));
            assert(allv.take(i + 1).last() == allv[i as int]);
            let ghost before = result@;
            if captures.len() > 3 {
                match (&captures[1], &captures[2], &captures[3]) {
                    (Some(indentation), Some(bullet), Some(text)) => {
                        assert(all@[i as int]@[1] is Some);
                        assert(all@[i as int]@[2] is Some);
                        assert(all@[i as int]@[3] is Some);
                        self.push_item(
                            content.as_str(),
                            *indentation,
                            *bullet,
                            *text,
                            records,
                            &mut result,
                        );
                        items_found = items_found + 1;
                    },
                    _ => {},
                }
            }
            assert(result@ =~= seq![fixed_result(list_open(compilable@.nuid))] + list_items_parts(
                allv.take(i + 1),
                content@,
                records@,
            ));
            i = i + 1;
        }
        assert(allv.take(all.len() as int) =~= allv);
        result.add_fixed_part(String::from_str("</ul>"));
        assert(result@ =~= list_parts(allv, content@, compilable@.nuid, records@));
        (result, items_found)
    }

    /// Compiles a list paragraph.  A text in which the items found are not
    /// all its non-empty lines is compiled only without a strict list check:
    /// under the check such a text is refused (see `checked_standard_compile`).
    pub fn standard_compile(
        &self,
        compilable: &CompilableText,
        compilation_configuration: &CompilationConfiguration,
    ) -> (r: Result<CompilationResult, CompilationError>)
        requires
            self.wf(),
            compilation_configuration.spec_strict_list_check() ==> list_items_found(
                regex_captures_all(list_item_pattern(), compilable_chars(compilable@.parts)),
            ) == non_empty_line_count(compilable_chars(compilable@.parts)),
        ensures
            r matches Ok(res) && res@ == list_parts(
                regex_captures_all(list_item_pattern(), compilable_chars(compilable@.parts)),
                compilable_chars(compilable@.parts),
                compilable@.nuid,
                compilation_configuration.spec_list_bullets(),
            ),
    {
        let (result, _) = self.compile_items(compilable, compilation_configuration);
        Ok(result)
    }

    /// `standard_compile`, or `None` for a text that a strict list check
    /// refuses: one in which the items found are not all its non-empty lines.
    pub fn checked_standard_compile(
        &self,
        compilable: &CompilableText,
        compilation_configuration: &CompilationConfiguration,
    ) -> (r: Option<CompilationResult>)
        requires
            self.wf(),
        ensures
            r is None <==> compilation_configuration.spec_strict_list_check() && list_items_found(
                regex_captures_all(list_item_pattern(), compilable_chars(compilable@.parts)),
            ) != non_empty_line_count(compilable_chars(compilable@.parts)),
            r matches Some(res) ==> res@ == list_parts(
                regex_captures_all(list_item_pattern(), compilable_chars(compilable@.parts)),
                compilable_chars(compilable@.parts),
                compilable@.nuid,
                compilation_configuration.spec_list_bullets(),
            ),
    {
        let (result, items_found) = self.compile_items(compilable, compilation_configuration);
        if compilation_configuration.strict_list_check() {
            let content = compilable.compilable_content();
            if items_found != count_lines(content.as_str()) {
                return None;
            }
        }
        Some(result)
    }
}

} // verus!
