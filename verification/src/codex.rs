//! `Codex` is the ordered set of modifiers and rules used by the compiler.

pub mod modifier;

use vstd::prelude::*;
use crate::compilable_text::{CompilableText, CompilableTextView, option_string_view};
use crate::compilable_text::compilable_text_part::{PartTypeView, PartView};
use crate::compiler::{compile_parts_spec, lemma_fully_incompatible_part_kept};
use crate::compiler::compilation_configuration::CompilationConfiguration;
use crate::compiler::compilation_configuration::compilation_configuration_overlay::CompilationConfigurationOverLay;
use crate::compiler::compilation_error::CompilationError;
use crate::compiler::compilation_rule::CompilationRule;
use crate::compiler::compilation_rule::constants::{escape_html, escape_html_valid, escape_html_view};
use crate::compiler::compilation_rule::html_cite_rule::HtmlCiteRule;
use crate::compiler::compilation_rule::reference_rule::ReferenceRule;
use crate::compiler::compilation_rule::replacement_rule::ReplacementRule;
use crate::compiler::compilation_rule::replacement_rule::replacement_rule_part::{
    ReplacementRuleReplacerPart, ReplacerPartView,
};
use crate::compiler::compilation_rule::replacement_rule::replacement_rule_part::fixed_replacement_rule_part::FixedReplacementRuleReplacerPart;
use crate::compiler::compilation_rule::replacement_rule::replacement_rule_part::single_capture_group_replacement_rule_part::SingleCaptureGroupReplacementRuleReplacerPart;
use crate::output_format::OutputFormat;
use crate::regex_engine::{CompiledRegex, compile_regex, regex_is_valid};
use crate::resource::bucket::{BucketView, strings_view};
use crate::utility::text_utility::replacements_view;
use modifier::ModifierIdentifier;
use modifier::base_modifier::BaseModifier;
use modifier::standard_paragraph_modifier::StandardParagraphModifier;
use modifier::standard_text_modifier::{StandardTextModifier, lemma_identifiers_distinct};

verus! {

/// Identifier of a modifier (and of the rule bound to it) inside a codex.
pub type CodexIdentifier = String;

/// A rule that transforms inline text.
#[derive(Debug)]
pub enum TextRule {
    Replacement(ReplacementRule),
    Reference(ReferenceRule),
    Cite(HtmlCiteRule),
}

/// Mathematical value of a text rule: its search pattern and, for a
/// replacement rule, its replacer parts.
pub enum TextRuleView {
    Replacement(Seq<char>, Seq<ReplacerPartView>),
    Reference(Seq<char>),
    Cite(Seq<char>),
}

impl View for TextRule {
    type V = TextRuleView;

    open spec fn view(&self) -> TextRuleView {
        match self {
            TextRule::Replacement(r) => TextRuleView::Replacement(r.spec_pattern(), r.spec_replacers()),
            TextRule::Reference(r) => TextRuleView::Reference(r.spec_pattern()),
            TextRule::Cite(r) => TextRuleView::Cite(r.spec_pattern()),
        }
    }
}

impl CompilationRule for TextRule {
    open spec fn wf(&self) -> bool {
        match self {
            TextRule::Replacement(r) => r.wf(),
            TextRule::Reference(r) => r.wf(),
            TextRule::Cite(r) => r.wf(),
        }
    }

    open spec fn spec_search_pattern(&self) -> Seq<char> {
        match self {
            TextRule::Replacement(r) => r.spec_search_pattern(),
            TextRule::Reference(r) => r.spec_search_pattern(),
            TextRule::Cite(r) => r.spec_search_pattern(),
        }
    }

    open spec fn spec_standard_compile(
        &self,
        text: CompilableTextView,
        format: OutputFormat,
        configuration: CompilationConfiguration,
        overlay: CompilationConfigurationOverLay,
    ) -> Result<Seq<PartView>, CompilationError> {
        match self {
            TextRule::Replacement(r) => r.spec_standard_compile(text, format, configuration, overlay),
            TextRule::Reference(r) => r.spec_standard_compile(text, format, configuration, overlay),
            TextRule::Cite(r) => r.spec_standard_compile(text, format, configuration, overlay),
        }
    }

    open spec fn spec_fast_compile(
        &self,
        text: CompilableTextView,
        format: OutputFormat,
        configuration: CompilationConfiguration,
        overlay: CompilationConfigurationOverLay,
    ) -> Result<Seq<PartView>, CompilationError> {
        match self {
            TextRule::Replacement(r) => r.spec_fast_compile(text, format, configuration, overlay),
            TextRule::Reference(r) => r.spec_fast_compile(text, format, configuration, overlay),
            TextRule::Cite(r) => r.spec_fast_compile(text, format, configuration, overlay),
        }
    }

    fn search_pattern(&self) -> (r: &String) {
        match self {
            TextRule::Replacement(r) => r.search_pattern(),
            TextRule::Reference(r) => r.search_pattern(),
            TextRule::Cite(r) => r.search_pattern(),
        }
    }

    fn search_pattern_regex(&self) -> (r: &CompiledRegex) {
        match self {
            TextRule::Replacement(r) => r.search_pattern_regex(),
            TextRule::Reference(r) => r.search_pattern_regex(),
            TextRule::Cite(r) => r.search_pattern_regex(),
        }
    }

    fn is_match(&self, content: &str) -> (r: bool) {
        match self {
            TextRule::Replacement(r) => r.is_match(content),
            TextRule::Reference(r) => r.is_match(content),
            TextRule::Cite(r) => r.is_match(content),
        }
    }

    fn find_iter(&self, content: &str) -> (r: Vec<(usize, usize)>) {
        match self {
            TextRule::Replacement(r) => r.find_iter(content),
            TextRule::Reference(r) => r.find_iter(content),
            TextRule::Cite(r) => r.find_iter(content),
        }
    }

    fn standard_compile(
        &self,
        compilable: &CompilableText,
        format: &OutputFormat,
        compilation_configuration: &CompilationConfiguration,
        compilation_configuration_overlay: &CompilationConfigurationOverLay,
    ) -> (r: Result<CompilableText, CompilationError>) {
        match self {
            TextRule::Replacement(r) => r.standard_compile(
                compilable,
                format,
                compilation_configuration,
                compilation_configuration_overlay,
            ),
            TextRule::Reference(r) => r.standard_compile(
                compilable,
                format,
                compilation_configuration,
                compilation_configuration_overlay,
            ),
            TextRule::Cite(r) => r.standard_compile(
                compilable,
                format,
                compilation_configuration,
                compilation_configuration_overlay,
            ),
        }
    }

    fn fast_compile(
        &self,
        compilable: &CompilableText,
        format: &OutputFormat,
        compilation_configuration: &CompilationConfiguration,
        compilation_configuration_overlay: &CompilationConfigurationOverLay,
    ) -> (r: Result<CompilableText, CompilationError>) {
        match self {
            TextRule::Replacement(r) => r.fast_compile(
                compilable,
                format,
                compilation_configuration,
                compilation_configuration_overlay,
            ),
            TextRule::Reference(r) => r.fast_compile(
                compilable,
                format,
                compilation_configuration,
                compilation_configuration_overlay,
            ),
            TextRule::Cite(r) => r.fast_compile(
                compilable,
                format,
                compilation_configuration,
                compilation_configuration_overlay,
            ),
        }
    }
}

/// A text modifier of the codex: its identifier, the modifier and, when the
/// codex has one for it, its rule.
pub type TextModifierEntry = (ModifierIdentifier, (BaseModifier, Option<TextRule>));

/// A paragraph modifier of the codex: its identifier and the modifier.
pub type ParagraphModifierEntry = (ModifierIdentifier, BaseModifier);

/// Mathematical value of a modifier under its identifier.
pub struct ModifierView {
    pub identifier: Seq<char>,
    pub pattern: Seq<char>,
    pub incompatible_modifiers: BucketView,
}

/// Mathematical value of a text modifier of the codex.
pub struct TextModifierView {
    pub modifier: ModifierView,
    pub rule: Option<TextRuleView>,
}

pub open spec fn base_modifier_view(id: String, m: BaseModifier) -> ModifierView {
    ModifierView {
        identifier: id@,
        pattern: m.spec_modifier_pattern(),
        incompatible_modifiers: m.spec_incompatible_modifiers(),
    }
}

pub open spec fn option_rule_view(rule: Option<TextRule>) -> Option<TextRuleView> {
    match rule {
        Some(r) => Some(r@),
        None => None,
    }
}

pub open spec fn text_entry_view(e: TextModifierEntry) -> TextModifierView {
    TextModifierView { modifier: base_modifier_view(e.0, e.1.0), rule: option_rule_view(e.1.1) }
}

/// Views of text modifier entries.
pub open spec fn entries_view(entries: Seq<TextModifierEntry>) -> Seq<TextModifierView> {
    entries.map_values(|e: TextModifierEntry| text_entry_view(e))
}

/// Views of paragraph modifier entries.
pub open spec fn paragraph_entries_view(entries: Seq<ParagraphModifierEntry>) -> Seq<ModifierView> {
    entries.map_values(|e: ParagraphModifierEntry| base_modifier_view(e.0, e.1))
}

/// Identifiers and rules of entries.
pub open spec fn entries_rules(entries: Seq<TextModifierEntry>) -> Seq<(Seq<char>, Option<TextRule>)> {
    entries.map_values(|e: TextModifierEntry| (e.0@, e.1.1))
}

/// No identifier occurs twice among the entries, as in an ordered map.
pub open spec fn distinct_identifiers<V>(entries: Seq<(String, V)>) -> bool {
    forall|i: int, j: int|
        0 <= i < j < entries.len() ==> (#[trigger] entries[i]).0@ != (#[trigger] entries[j]).0@
}

/// A selection of entries with distinct identifiers has distinct identifiers.
pub proof fn lemma_select_keeps_distinct<V>(entries: Seq<(String, V)>, ids: Seq<Seq<char>>, keep: bool)
    requires
        distinct_identifiers(entries),
    ensures
        distinct_identifiers(select_entries(entries, ids, keep)),
    decreases entries.len(),
{
    if entries.len() > 0 {
        let init = entries.drop_last();
        assert(distinct_identifiers(init)) by {
            assert forall|i: int, j: int| 0 <= i < j < init.len() implies (#[trigger] init[i]).0@
                != (#[trigger] init[j]).0@ by {
                assert(init[i] == entries[i] && init[j] == entries[j]);
            }
        }
        lemma_select_keeps_distinct(init, ids, keep);
        lemma_select_entries(init, ids, keep);
        let rest = select_entries(init, ids, keep);
        let sel = select_entries(entries, ids, keep);
        if ids.contains(entries.last().0@) == keep {
            assert forall|i: int, j: int| 0 <= i < j < sel.len() implies (#[trigger] sel[i]).0@
                != (#[trigger] sel[j]).0@ by {
                if j == sel.len() - 1 {
                    assert(sel[i] == rest[i]);
                    let k = choose|k: int| 0 <= k < init.len() && init[k] == rest[i];
                    assert(entries[k] == init[k]);
                    assert(sel[j] == entries[entries.len() - 1]);
                } else {
                    assert(sel[i] == rest[i] && sel[j] == rest[j]);
                }
            }
        }
    }
}

/// The entries of `entries` whose identifier is listed in `ids` (when `keep`)
/// or is not listed (otherwise), in their order.
pub open spec fn select_entries<V>(entries: Seq<(String, V)>, ids: Seq<Seq<char>>, keep: bool) -> Seq<
    (String, V),
>
    decreases entries.len(),
{
    if entries.len() == 0 {
        entries
    } else {
        let rest = select_entries(entries.drop_last(), ids, keep);
        if ids.contains(entries.last().0@) == keep {
            rest.push(entries.last())
        } else {
            rest
        }
    }
}

/// Selecting keeps, in their order, exactly the entries whose identifier is
/// listed (`keep`) or not listed (otherwise): every selected entry is one of
/// `entries` on the right side of the list, and every such entry is selected.
pub proof fn lemma_select_entries<V>(entries: Seq<(String, V)>, ids: Seq<Seq<char>>, keep: bool)
    ensures
        select_entries(entries, ids, keep).len() <= entries.len(),
        forall|i: int|
            0 <= i < select_entries(entries, ids, keep).len() ==> ids.contains(
                (#[trigger] select_entries(entries, ids, keep)[i]).0@,
            ) == keep && entries.contains(select_entries(entries, ids, keep)[i]),
        forall|j: int|
            0 <= j < entries.len() && ids.contains((#[trigger] entries[j]).0@) == keep
                ==> select_entries(entries, ids, keep).contains(entries[j]),
    decreases entries.len(),
{
    if entries.len() > 0 {
        let init = entries.drop_last();
        lemma_select_entries(init, ids, keep);
        let rest = select_entries(init, ids, keep);
        let sel = select_entries(entries, ids, keep);
        assert forall|i: int| 0 <= i < sel.len() implies ids.contains((#[trigger] sel[i]).0@) == keep
            && entries.contains(sel[i]) by {
            if i < rest.len() {
                assert(sel[i] == rest[i]);
                let k = choose|k: int| 0 <= k < init.len() && init[k] == rest[i];
                assert(entries[k] == init[k]);
            } else {
                assert(sel[i] == entries.last());
                assert(entries[entries.len() - 1] == entries.last());
            }
        }
        assert forall|j: int|
            0 <= j < entries.len() && ids.contains((#[trigger] entries[j]).0@) == keep implies sel.contains(
            entries[j],
        ) by {
            if j < entries.len() - 1 {
                assert(init[j] == entries[j]);
                let k = choose|k: int| 0 <= k < rest.len() && rest[k] == init[j];
                assert(sel[k] == rest[k]);
            } else {
                assert(sel[sel.len() - 1] == entries.last());
            }
        }
    }
}

/// A replacement rule that wraps capture group 1 between two fixed texts.
pub open spec fn wrap_rule_view(
    m: StandardTextModifier,
    open: Seq<char>,
    post: Seq<(Seq<char>, Seq<char>)>,
    close: Seq<char>,
) -> TextRuleView {
    TextRuleView::Replacement(
        m.spec_modifier_pattern(),
        seq![
            ReplacerPartView::Fixed(open),
            ReplacerPartView::SingleCaptureGroup(1, post, m.spec_incompatible_modifiers()),
            ReplacerPartView::Fixed(close),
        ],
    )
}

/// A replacement rule that replaces each match with a fixed text.
pub open spec fn fixed_rule_view(m: StandardTextModifier, text: Seq<char>) -> TextRuleView {
    TextRuleView::Replacement(m.spec_modifier_pattern(), seq![ReplacerPartView::Fixed(text)])
}

/// A replacement rule that keeps capture group 1, escaping HTML.
pub open spec fn capture_rule_view(m: StandardTextModifier) -> TextRuleView {
    TextRuleView::Replacement(
        m.spec_modifier_pattern(),
        seq![
            ReplacerPartView::SingleCaptureGroup(
                1,
                escape_html_view(),
                m.spec_incompatible_modifiers(),
            ),
        ],
    )
}

/// A standard text modifier under its identifier.
pub open spec fn standard_modifier_view(m: StandardTextModifier) -> ModifierView {
    ModifierView {
        identifier: m.spec_identifier(),
        pattern: m.spec_modifier_pattern(),
        incompatible_modifiers: m.spec_incompatible_modifiers(),
    }
}

/// A standard text modifier with its rule, if any.
pub open spec fn text_modifier_view(m: StandardTextModifier, rule: Option<TextRuleView>) -> TextModifierView {
    TextModifierView { modifier: standard_modifier_view(m), rule }
}

/// A standard paragraph modifier under its identifier.
pub open spec fn paragraph_modifier_view(m: StandardParagraphModifier) -> ModifierView {
    ModifierView {
        identifier: m.spec_identifier(),
        pattern: m.spec_modifier_pattern(),
        incompatible_modifiers: m.spec_incompatible_modifiers(),
    }
}

/// The text modifiers of the standard HTML codex, in the order they are
/// applied, with their rules.  The rules of bookmarks, greek letters,
/// embedded styles, identifiers, links and emojis are not held.
pub open spec fn html_text_rules() -> Seq<TextModifierView> {
    seq![
        text_modifier_view(
            StandardTextModifier::Todo,
            Some(wrap_rule_view(StandardTextModifier::Todo, r#"<div class="todo"><div class="todo-title"></div><div class="todo-description">"#@, escape_html_view(), r"</div></div>"@)),
        ),
        text_modifier_view(StandardTextModifier::Bookmark, None),
        text_modifier_view(StandardTextModifier::GreekLetter, None),
        text_modifier_view(StandardTextModifier::AbridgedBookmark, None),
        text_modifier_view(StandardTextModifier::EmbeddedStyle, None),
        text_modifier_view(StandardTextModifier::AbridgedEmbeddedStyle, None),
        text_modifier_view(StandardTextModifier::Identifier, None),
        text_modifier_view(
            StandardTextModifier::Highlight,
            Some(wrap_rule_view(StandardTextModifier::Highlight, r#"<mark class="highlight">"#@, escape_html_view(), r"</mark>"@)),
        ),
        text_modifier_view(
            StandardTextModifier::InlineMath,
            Some(wrap_rule_view(StandardTextModifier::InlineMath, r#"<span class="inline-math">$"#@, Seq::empty(), r"$</span>"@)),
        ),
        text_modifier_view(
            StandardTextModifier::InlineCode,
            Some(wrap_rule_view(StandardTextModifier::InlineCode, r#"<code class="language-markup inline-code">"#@, escape_html_view(), r"</code>"@)),
        ),
        text_modifier_view(
            StandardTextModifier::BoldStarVersion,
            Some(wrap_rule_view(StandardTextModifier::BoldStarVersion, r#"<strong class="bold">"#@, escape_html_view(), r"</strong>"@)),
        ),
        text_modifier_view(
            StandardTextModifier::BoldUnderscoreVersion,
            Some(wrap_rule_view(StandardTextModifier::BoldUnderscoreVersion, r#"<strong class="bold">"#@, escape_html_view(), r"</strong>"@)),
        ),
        text_modifier_view(
            StandardTextModifier::ItalicStarVersion,
            Some(wrap_rule_view(StandardTextModifier::ItalicStarVersion, r#"<em class="italic">"#@, escape_html_view(), r"</em>"@)),
        ),
        text_modifier_view(
            StandardTextModifier::ItalicUnderscoreVersion,
            Some(wrap_rule_view(StandardTextModifier::ItalicUnderscoreVersion, r#"<em class="italic">"#@, escape_html_view(), r"</em>"@)),
        ),
        text_modifier_view(
            StandardTextModifier::Strikethrough,
            Some(wrap_rule_view(StandardTextModifier::Strikethrough, r#"<del class="strikethrough">"#@, escape_html_view(), r"</del>"@)),
        ),
        text_modifier_view(
            StandardTextModifier::Underlined,
            Some(wrap_rule_view(StandardTextModifier::Underlined, r#"<u class="underlined">"#@, escape_html_view(), r"</u>"@)),
        ),
        text_modifier_view(
            StandardTextModifier::Superscript,
            Some(wrap_rule_view(StandardTextModifier::Superscript, r#"<sup class="superscript">"#@, escape_html_view(), r"</sup>"@)),
        ),
        text_modifier_view(
            StandardTextModifier::Subscript,
            Some(wrap_rule_view(StandardTextModifier::Subscript, r#"<sub class="subscript">"#@, escape_html_view(), r"</sub>"@)),
        ),
        text_modifier_view(StandardTextModifier::Link, None),
        text_modifier_view(
            StandardTextModifier::Comment,
            Some(wrap_rule_view(StandardTextModifier::Comment, r"<!-- "@, escape_html_view(), r" -->"@)),
        ),
        text_modifier_view(StandardTextModifier::Checkbox, Some(fixed_rule_view(StandardTextModifier::Checkbox, r#"<div class="checkbox checkbox-unchecked"></div>"#@))),
        text_modifier_view(StandardTextModifier::CheckboxChecked, Some(fixed_rule_view(StandardTextModifier::CheckboxChecked, r#"<div class="checkbox checkbox-checked"></div>"#@))),
        text_modifier_view(StandardTextModifier::Emoji, None),
        text_modifier_view(StandardTextModifier::Escape, Some(capture_rule_view(StandardTextModifier::Escape))),
        text_modifier_view(StandardTextModifier::Reference, Some(TextRuleView::Reference(StandardTextModifier::Reference.spec_modifier_pattern()))),
        text_modifier_view(
            StandardTextModifier::Cite,
            Some(TextRuleView::Cite(StandardTextModifier::Cite.spec_modifier_pattern())),
        ),
    ]
}

/// The text modifiers of the standard HTML codex.
pub open spec fn html_modifiers() -> Seq<StandardTextModifier> {
    seq![
        StandardTextModifier::Todo,
        StandardTextModifier::Bookmark,
        StandardTextModifier::GreekLetter,
        StandardTextModifier::AbridgedBookmark,
        StandardTextModifier::EmbeddedStyle,
        StandardTextModifier::AbridgedEmbeddedStyle,
        StandardTextModifier::Identifier,
        StandardTextModifier::Highlight,
        StandardTextModifier::InlineMath,
        StandardTextModifier::InlineCode,
        StandardTextModifier::BoldStarVersion,
        StandardTextModifier::BoldUnderscoreVersion,
        StandardTextModifier::ItalicStarVersion,
        StandardTextModifier::ItalicUnderscoreVersion,
        StandardTextModifier::Strikethrough,
        StandardTextModifier::Underlined,
        StandardTextModifier::Superscript,
        StandardTextModifier::Subscript,
        StandardTextModifier::Link,
        StandardTextModifier::Comment,
        StandardTextModifier::Checkbox,
        StandardTextModifier::CheckboxChecked,
        StandardTextModifier::Emoji,
        StandardTextModifier::Escape,
        StandardTextModifier::Reference,
        StandardTextModifier::Cite,
    ]
}

/// The paragraph modifiers of the standard HTML codex.
pub open spec fn html_paragraph_modifiers() -> Seq<StandardParagraphModifier> {
    seq![
        StandardParagraphModifier::CodeBlock,
        StandardParagraphModifier::MathBlock,
        StandardParagraphModifier::EmbeddedParagraphStyle,
        StandardParagraphModifier::ParagraphIdentifier,
        StandardParagraphModifier::Table,
        StandardParagraphModifier::ExtendedBlockQuote,
        StandardParagraphModifier::FocusBlock,
        StandardParagraphModifier::List,
        StandardParagraphModifier::AbridgedTodo,
        StandardParagraphModifier::MultilineTodo,
        StandardParagraphModifier::Todo,
        StandardParagraphModifier::MultiImage,
        StandardParagraphModifier::Image,
        StandardParagraphModifier::AbridgedImage,
        StandardParagraphModifier::PageBreak,
        StandardParagraphModifier::LineBreakDash,
        StandardParagraphModifier::LineBreakStar,
        StandardParagraphModifier::LineBreakPlus,
        StandardParagraphModifier::CommentBlock,
    ]
}

/// The paragraph modifiers of the standard HTML codex, each with its own pattern.
pub open spec fn html_paragraph_rules() -> Seq<ModifierView> {
    html_paragraph_modifiers().map_values(|m: StandardParagraphModifier| paragraph_modifier_view(m))
}

/// Where a text modifier stands in the standard HTML codex.
pub open spec fn html_position(m: StandardTextModifier) -> int {
    match m {
        StandardTextModifier::Todo => 0,
        StandardTextModifier::Bookmark => 1,
        StandardTextModifier::GreekLetter => 2,
        StandardTextModifier::AbridgedBookmark => 3,
        StandardTextModifier::EmbeddedStyle => 4,
        StandardTextModifier::AbridgedEmbeddedStyle => 5,
        StandardTextModifier::Identifier => 6,
        StandardTextModifier::Highlight => 7,
        StandardTextModifier::InlineMath => 8,
        StandardTextModifier::InlineCode => 9,
        StandardTextModifier::BoldStarVersion => 10,
        StandardTextModifier::BoldUnderscoreVersion => 11,
        StandardTextModifier::ItalicStarVersion => 12,
        StandardTextModifier::ItalicUnderscoreVersion => 13,
        StandardTextModifier::Strikethrough => 14,
        StandardTextModifier::Underlined => 15,
        StandardTextModifier::Superscript => 16,
        StandardTextModifier::Subscript => 17,
        StandardTextModifier::Link => 18,
        StandardTextModifier::Comment => 19,
        StandardTextModifier::Checkbox => 20,
        StandardTextModifier::CheckboxChecked => 21,
        StandardTextModifier::Emoji => 22,
        StandardTextModifier::Escape => 23,
        StandardTextModifier::Reference => 24,
        StandardTextModifier::Cite => 25,
    }
}

/// Where a paragraph modifier stands in the standard HTML codex.
pub open spec fn html_paragraph_position(m: StandardParagraphModifier) -> int {
    match m {
        StandardParagraphModifier::CodeBlock => 0,
        StandardParagraphModifier::MathBlock => 1,
        StandardParagraphModifier::EmbeddedParagraphStyle => 2,
        StandardParagraphModifier::ParagraphIdentifier => 3,
        StandardParagraphModifier::Table => 4,
        StandardParagraphModifier::ExtendedBlockQuote => 5,
        StandardParagraphModifier::FocusBlock => 6,
        StandardParagraphModifier::List => 7,
        StandardParagraphModifier::AbridgedTodo => 8,
        StandardParagraphModifier::MultilineTodo => 9,
        StandardParagraphModifier::Todo => 10,
        StandardParagraphModifier::MultiImage => 11,
        StandardParagraphModifier::Image => 12,
        StandardParagraphModifier::AbridgedImage => 13,
        StandardParagraphModifier::PageBreak => 14,
        StandardParagraphModifier::LineBreakDash => 15,
        StandardParagraphModifier::LineBreakStar => 16,
        StandardParagraphModifier::LineBreakPlus => 17,
        StandardParagraphModifier::CommentBlock => 18,
        _ => -1,
    }
}

/// The text identifiers of the standard HTML codex are pairwise distinct: it
/// is an ordered map from identifiers to modifiers and rules.
pub proof fn lemma_html_identifiers_distinct()
    ensures
        forall|i: int, j: int|
            0 <= i < j < html_text_rules().len() ==> (
            #[trigger] html_text_rules()[i]).modifier.identifier != (
            #[trigger] html_text_rules()[j]).modifier.identifier,
{
    let mods = html_modifiers();
    let rules = html_text_rules();
    assert forall|i: int| 0 <= i < mods.len() implies html_position(#[trigger] mods[i]) == i
        && rules[i].modifier.identifier == mods[i].spec_identifier() by {
        if i == 0 {
            assert(html_position(mods[0]) == 0);
        } else if i == 1 {
            assert(html_position(mods[1]) == 1);
        } else if i == 2 {
            assert(html_position(mods[2]) == 2);
        } else if i == 3 {
            assert(html_position(mods[3]) == 3);
        } else if i == 4 {
            assert(html_position(mods[4]) == 4);
        } else if i == 5 {
            assert(html_position(mods[5]) == 5);
        } else if i == 6 {
            assert(html_position(mods[6]) == 6);
        } else if i == 7 {
            assert(html_position(mods[7]) == 7);
        } else if i == 8 {
            assert(html_position(mods[8]) == 8);
        } else if i == 9 {
            assert(html_position(mods[9]) == 9);
        } else if i == 10 {
            assert(html_position(mods[10]) == 10);
        } else if i == 11 {
            assert(html_position(mods[11]) == 11);
        } else if i == 12 {
            assert(html_position(mods[12]) == 12);
        } else if i == 13 {
            assert(html_position(mods[13]) == 13);
        } else if i == 14 {
            assert(html_position(mods[14]) == 14);
        } else if i == 15 {
            assert(html_position(mods[15]) == 15);
        } else if i == 16 {
            assert(html_position(mods[16]) == 16);
        } else if i == 17 {
            assert(html_position(mods[17]) == 17);
        } else if i == 18 {
            assert(html_position(mods[18]) == 18);
        } else if i == 19 {
            assert(html_position(mods[19]) == 19);
        } else if i == 20 {
            assert(html_position(mods[20]) == 20);
        } else if i == 21 {
            assert(html_position(mods[21]) == 21);
        } else if i == 22 {
            assert(html_position(mods[22]) == 22);
        } else if i == 23 {
            assert(html_position(mods[23]) == 23);
        } else if i == 24 {
            assert(html_position(mods[24]) == 24);
        } else if i == 25 {
            assert(html_position(mods[25]) == 25);
        }
    }
    assert forall|i: int, j: int|
        0 <= i < j < rules.len() implies (#[trigger] rules[i]).modifier.identifier != (
        #[trigger] rules[j]).modifier.identifier by {
        assert(html_position(mods[i]) != html_position(mods[j]));
        lemma_identifiers_distinct(mods[i], mods[j]);
    }
}

/// In the HTML codex, the modifier `id` replaces each match by `open`, the
/// text of its first capture group, and `close`.
pub open spec fn html_wraps(id: Seq<char>, open: Seq<char>, close: Seq<char>) -> bool {
    forall|i: int|
        0 <= i < html_text_rules().len() && (#[trigger] html_text_rules()[i]).modifier.identifier == id
            ==> (html_text_rules()[i].rule matches Some(TextRuleView::Replacement(_, parts))
            && parts.len() == 3 && parts[0] == ReplacerPartView::Fixed(open) && (
        parts[1] matches ReplacerPartView::SingleCaptureGroup(1, _, _)) && parts[2]
            == ReplacerPartView::Fixed(close))
}

/// In the HTML codex, the modifier `id` replaces each match by `text`.
pub open spec fn html_replaces_with(id: Seq<char>, text: Seq<char>) -> bool {
    forall|i: int|
        0 <= i < html_text_rules().len() && (#[trigger] html_text_rules()[i]).modifier.identifier == id
            ==> (html_text_rules()[i].rule matches Some(TextRuleView::Replacement(_, parts))
            && parts == seq![ReplacerPartView::Fixed(text)])
}

/// The modifier at position `k` of the HTML codex is the only one with its
/// identifier.
proof fn lemma_html_only_index(k: int)
    requires
        0 <= k < html_text_rules().len(),
    ensures
        forall|i: int|
            0 <= i < html_text_rules().len() && (#[trigger] html_text_rules()[i]).modifier.identifier
                == html_text_rules()[k].modifier.identifier ==> i == k,
{
    lemma_html_identifiers_distinct();
    let rules = html_text_rules();
    assert forall|i: int|
        0 <= i < rules.len() && (#[trigger] rules[i]).modifier.identifier == rules[k].modifier.identifier
            implies i == k by {
        if i < k {
            assert(rules[i].modifier.identifier != rules[k].modifier.identifier);
        } else if i > k {
            assert(rules[k].modifier.identifier != rules[i].modifier.identifier);
        }
    }
}

/// The markup of the standard HTML codex: what each modifier with a rule
/// makes of the text it matches.
pub proof fn lemma_html_text_markup()
    ensures
        html_wraps("todo"@, r#"<div class="todo"><div class="todo-title"></div><div class="todo-description">"#@, r"</div></div>"@),
        html_wraps("highlight"@, r#"<mark class="highlight">"#@, r"</mark>"@),
        html_wraps("inline-math"@, r#"<span class="inline-math">$"#@, r"$</span>"@),
        html_wraps("inline-code"@, r#"<code class="language-markup inline-code">"#@, r"</code>"@),
        html_wraps("bold-star-version"@, r#"<strong class="bold">"#@, r"</strong>"@),
        html_wraps("bold-underscore-version"@, r#"<strong class="bold">"#@, r"</strong>"@),
        html_wraps("italic-star-version"@, r#"<em class="italic">"#@, r"</em>"@),
        html_wraps("italic-underscore-version"@, r#"<em class="italic">"#@, r"</em>"@),
        html_wraps("strikethrough"@, r#"<del class="strikethrough">"#@, r"</del>"@),
        html_wraps("underlined"@, r#"<u class="underlined">"#@, r"</u>"@),
        html_wraps("superscript"@, r#"<sup class="superscript">"#@, r"</sup>"@),
        html_wraps("subscript"@, r#"<sub class="subscript">"#@, r"</sub>"@),
        html_wraps("comment"@, r"<!-- "@, r" -->"@),
        html_replaces_with("checkbox"@, r#"<div class="checkbox checkbox-unchecked"></div>"#@),
        html_replaces_with("checkbox-checked"@, r#"<div class="checkbox checkbox-checked"></div>"#@),
{
    lemma_html_only_index(0);
    assert(html_text_rules()[0].modifier.identifier == "todo"@);
    lemma_html_only_index(7);
    assert(html_text_rules()[7].modifier.identifier == "highlight"@);
    lemma_html_only_index(8);
    assert(html_text_rules()[8].modifier.identifier == "inline-math"@);
    lemma_html_only_index(9);
    assert(html_text_rules()[9].modifier.identifier == "inline-code"@);
    lemma_html_only_index(10);
    assert(html_text_rules()[10].modifier.identifier == "bold-star-version"@);
    lemma_html_only_index(11);
    assert(html_text_rules()[11].modifier.identifier == "bold-underscore-version"@);
    lemma_html_only_index(12);
    assert(html_text_rules()[12].modifier.identifier == "italic-star-version"@);
    lemma_html_only_index(13);
    assert(html_text_rules()[13].modifier.identifier == "italic-underscore-version"@);
    lemma_html_only_index(14);
    assert(html_text_rules()[14].modifier.identifier == "strikethrough"@);
    lemma_html_only_index(15);
    assert(html_text_rules()[15].modifier.identifier == "underlined"@);
    lemma_html_only_index(16);
    assert(html_text_rules()[16].modifier.identifier == "superscript"@);
    lemma_html_only_index(17);
    assert(html_text_rules()[17].modifier.identifier == "subscript"@);
    lemma_html_only_index(19);
    assert(html_text_rules()[19].modifier.identifier == "comment"@);
    lemma_html_only_index(20);
    assert(html_text_rules()[20].modifier.identifier == "checkbox"@);
    lemma_html_only_index(21);
    assert(html_text_rules()[21].modifier.identifier == "checkbox-checked"@);
}

/// In the standard HTML codex, superscript text `^x^` becomes
/// `<sup class="superscript">` followed by the captured text and `</sup>`.
pub proof fn lemma_html_superscript_markup()
    ensures
        forall|i: int|
            0 <= i < html_text_rules().len() && (#[trigger] html_text_rules()[i]).modifier.identifier
                == "superscript"@ ==> (html_text_rules()[i].rule matches Some(
                TextRuleView::Replacement(_, parts),
            ) && parts.len() == 3 && parts[0] == ReplacerPartView::Fixed(
                r#"<sup class="superscript">"#@,
            ) && (parts[1] matches ReplacerPartView::SingleCaptureGroup(1, _, _)) && parts[2]
                == ReplacerPartView::Fixed("</sup>"@)),
{
    lemma_html_identifiers_distinct();
    let rules = html_text_rules();
    assert(rules[16].modifier.identifier == "superscript"@);
    assert forall|i: int|
        0 <= i < rules.len() && (#[trigger] rules[i]).modifier.identifier == "superscript"@ implies i
            == 16 by {
        if i < 16 {
            assert(rules[i].modifier.identifier != rules[16].modifier.identifier);
        } else if i > 16 {
            assert(rules[16].modifier.identifier != rules[i].modifier.identifier);
        }
    }
}

/// Inline math `$...$` is left as written: its modifier is incompatible with
/// every modifier, the HTML codex makes its content a part incompatible with
/// every modifier, and such a part goes unchanged through every rule of any
/// codex.
pub proof fn lemma_html_inline_math_untouched(
    codex: Codex,
    format: OutputFormat,
    configuration: CompilationConfiguration,
    overlay: CompilationConfigurationOverLay,
    parts: Seq<PartView>,
    p: PartView,
)
    ensures
        StandardTextModifier::InlineMath.spec_incompatible_modifiers() == BucketView::All,
        forall|id: Seq<char>| StandardTextModifier::InlineMath.spec_incompatible_modifiers().contains(id),
        forall|i: int|
            0 <= i < html_text_rules().len() && (#[trigger] html_text_rules()[i]).modifier.identifier
                == "inline-math"@ ==> (html_text_rules()[i].rule matches Some(
                TextRuleView::Replacement(_, rps),
            ) && rps.len() == 3 && (rps[1] matches ReplacerPartView::SingleCaptureGroup(
                1,
                _,
                BucketView::All,
            ))),
        parts.contains(p) && p.part_type == PartTypeView::Compilable(BucketView::All)
            && compile_parts_spec(codex, format, configuration, overlay, parts) is Ok
            ==> compile_parts_spec(codex, format, configuration, overlay, parts)->Ok_0.contains(p),
{
    lemma_html_identifiers_distinct();
    let rules = html_text_rules();
    assert(rules[8].modifier.identifier == "inline-math"@);
    assert forall|i: int|
        0 <= i < rules.len() && (#[trigger] rules[i]).modifier.identifier == "inline-math"@ implies i
            == 8 by {
        if i < 8 {
            assert(rules[i].modifier.identifier != rules[8].modifier.identifier);
        } else if i > 8 {
            assert(rules[8].modifier.identifier != rules[i].modifier.identifier);
        }
    }
    if parts.contains(p) && p.part_type == PartTypeView::Compilable(BucketView::All)
        && compile_parts_spec(codex, format, configuration, overlay, parts) is Ok {
        lemma_fully_incompatible_part_kept(
            codex.spec_entries(),
            codex.spec_entries().len() as int,
            configuration.spec_excluded_modifiers(),
            format,
            configuration,
            overlay,
            parts,
            p,
        );
    }
}

/// The paragraph identifiers of the standard HTML codex are pairwise distinct.
pub proof fn lemma_html_paragraph_identifiers_distinct()
    ensures
        forall|i: int, j: int|
            0 <= i < j < html_paragraph_rules().len() ==> (
            #[trigger] html_paragraph_rules()[i]).identifier != (
            #[trigger] html_paragraph_rules()[j]).identifier,
{
    let mods = html_paragraph_modifiers();
    let rules = html_paragraph_rules();
    assert forall|i: int| 0 <= i < mods.len() implies html_paragraph_position(#[trigger] mods[i]) == i by {
        if i == 0 {
            assert(html_paragraph_position(mods[0]) == 0);
        } else if i == 1 {
            assert(html_paragraph_position(mods[1]) == 1);
        } else if i == 2 {
            assert(html_paragraph_position(mods[2]) == 2);
        } else if i == 3 {
            assert(html_paragraph_position(mods[3]) == 3);
        } else if i == 4 {
            assert(html_paragraph_position(mods[4]) == 4);
        } else if i == 5 {
            assert(html_paragraph_position(mods[5]) == 5);
        } else if i == 6 {
            assert(html_paragraph_position(mods[6]) == 6);
        } else if i == 7 {
            assert(html_paragraph_position(mods[7]) == 7);
        } else if i == 8 {
            assert(html_paragraph_position(mods[8]) == 8);
        } else if i == 9 {
            assert(html_paragraph_position(mods[9]) == 9);
        } else if i == 10 {
            assert(html_paragraph_position(mods[10]) == 10);
        } else if i == 11 {
            assert(html_paragraph_position(mods[11]) == 11);
        } else if i == 12 {
            assert(html_paragraph_position(mods[12]) == 12);
        } else if i == 13 {
            assert(html_paragraph_position(mods[13]) == 13);
        } else if i == 14 {
            assert(html_paragraph_position(mods[14]) == 14);
        } else if i == 15 {
            assert(html_paragraph_position(mods[15]) == 15);
        } else if i == 16 {
            assert(html_paragraph_position(mods[16]) == 16);
        } else if i == 17 {
            assert(html_paragraph_position(mods[17]) == 17);
        } else if i == 18 {
            assert(html_paragraph_position(mods[18]) == 18);
        }
    }
    assert forall|i: int, j: int|
        0 <= i < j < rules.len() implies (#[trigger] rules[i]).identifier != (
        #[trigger] rules[j]).identifier by {
        assert(html_paragraph_position(mods[i]) != html_paragraph_position(mods[j]));
        modifier::standard_paragraph_modifier::lemma_identifiers_distinct(mods[i], mods[j]);
    }
}

/// The regex engine accepts every pattern of the standard HTML codex.
pub open spec fn html_codex_valid() -> bool {
    &&& escape_html_valid()
    &&& forall|i: int|
        0 <= i < html_modifiers().len() ==> regex_is_valid(
            (#[trigger] html_modifiers()[i]).spec_modifier_pattern(),
        )
    &&& forall|i: int|
        0 <= i < html_paragraph_modifiers().len() ==> regex_is_valid(
            (#[trigger] html_paragraph_modifiers()[i]).spec_modifier_pattern(),
        )
}

fn base_modifier(m: StandardTextModifier) -> (r: BaseModifier)
    requires
        regex_is_valid(m.spec_modifier_pattern()),
    ensures
        r.spec_modifier_pattern() == m.spec_modifier_pattern(),
        r.spec_incompatible_modifiers() == m.spec_incompatible_modifiers(),
{
    let pattern = m.modifier_pattern();
    let regex = compile_regex(pattern.as_str()).unwrap();
    BaseModifier::new(pattern, regex, m.incompatible_modifiers())
}

fn paragraph_entry(m: StandardParagraphModifier) -> (r: ParagraphModifierEntry)
    requires
        regex_is_valid(m.spec_modifier_pattern()),
    ensures
        base_modifier_view(r.0, r.1) == paragraph_modifier_view(m),
{
    let pattern = m.modifier_pattern();
    let regex = compile_regex(pattern.as_str()).unwrap();
    (m.identifier(), BaseModifier::new(pattern, regex, m.incompatible_modifiers()))
}

fn fixed_part(content: &str) -> (r: ReplacementRuleReplacerPart)
    ensures
        r@ == ReplacerPartView::Fixed(content@),
{
    ReplacementRuleReplacerPart::Fixed(FixedReplacementRuleReplacerPart::new(String::from_str(content)))
}

fn modifier_only_entry(m: StandardTextModifier) -> (r: TextModifierEntry)
    requires
        regex_is_valid(m.spec_modifier_pattern()),
    ensures
        text_entry_view(r) == text_modifier_view(m, None),
{
    (m.identifier(), (base_modifier(m), None))
}

fn replacement_entry(m: StandardTextModifier, parts: Vec<ReplacementRuleReplacerPart>) -> (r:
    TextModifierEntry)
    requires
        regex_is_valid(m.spec_modifier_pattern()),
    ensures
        text_entry_view(r) == text_modifier_view(
            m,
            Some(
                TextRuleView::Replacement(
                    m.spec_modifier_pattern(),
                    parts@.map_values(|p: ReplacementRuleReplacerPart| p@),
                ),
            ),
        ),
{
    let rule = ReplacementRule::new(m.modifier_pattern(), parts);
    (m.identifier(), (base_modifier(m), Some(TextRule::Replacement(rule))))
}

fn wrap_entry(m: StandardTextModifier, open: &str, escape: bool, close: &str) -> (r: TextModifierEntry)
    requires
        regex_is_valid(m.spec_modifier_pattern()),
        escape ==> escape_html_valid(),
    ensures
        text_entry_view(r) == text_modifier_view(
            m,
            Some(
                wrap_rule_view(
                    m,
                    open@,
                    if escape {
                        escape_html_view()
                    } else {
                        Seq::empty()
                    },
                    close@,
                ),
            ),
        ),
{
    let post = if escape {
        escape_html()
    } else {
        Vec::new()
    };
    let ghost post_view = if escape {
        escape_html_view()
    } else {
        Seq::empty()
    };
    assert(replacements_view(post@) =~= post_view);
    let mut parts: Vec<ReplacementRuleReplacerPart> = Vec::new();
    parts.push(fixed_part(open));
    parts.push(
        ReplacementRuleReplacerPart::SingleCaptureGroup(
            SingleCaptureGroupReplacementRuleReplacerPart::new(1, post, m.incompatible_modifiers()),
        ),
    );
    parts.push(fixed_part(close));
    assert(parts@.map_values(|p: ReplacementRuleReplacerPart| p@) =~= seq![
        ReplacerPartView::Fixed(open@),
        ReplacerPartView::SingleCaptureGroup(1, post_view, m.spec_incompatible_modifiers()),
        ReplacerPartView::Fixed(close@),
    ]);
    replacement_entry(m, parts)
}

fn fixed_entry(m: StandardTextModifier, text: &str) -> (r: TextModifierEntry)
    requires
        regex_is_valid(m.spec_modifier_pattern()),
    ensures
        text_entry_view(r) == text_modifier_view(m, Some(fixed_rule_view(m, text@))),
{
    let mut parts: Vec<ReplacementRuleReplacerPart> = Vec::new();
    parts.push(fixed_part(text));
    assert(parts@.map_values(|p: ReplacementRuleReplacerPart| p@) =~= seq![ReplacerPartView::Fixed(text@)]);
    replacement_entry(m, parts)
}

fn capture_entry(m: StandardTextModifier) -> (r: TextModifierEntry)
    requires
        regex_is_valid(m.spec_modifier_pattern()),
        escape_html_valid(),
    ensures
        text_entry_view(r) == text_modifier_view(m, Some(capture_rule_view(m))),
{
    let mut parts: Vec<ReplacementRuleReplacerPart> = Vec::new();
    parts.push(
        ReplacementRuleReplacerPart::SingleCaptureGroup(
            SingleCaptureGroupReplacementRuleReplacerPart::new(1, escape_html(), m.incompatible_modifiers()),
        ),
    );
    assert(parts@.map_values(|p: ReplacementRuleReplacerPart| p@) =~= seq![
        ReplacerPartView::SingleCaptureGroup(1, escape_html_view(), m.spec_incompatible_modifiers()),
    ]);
    replacement_entry(m, parts)
}

fn reference_entry() -> (r: TextModifierEntry)
    requires
        regex_is_valid(StandardTextModifier::Reference.spec_modifier_pattern()),
    ensures
        text_entry_view(r) == text_modifier_view(
            StandardTextModifier::Reference,
            Some(TextRuleView::Reference(StandardTextModifier::Reference.spec_modifier_pattern())),
        ),
{
    let m = StandardTextModifier::Reference;
    (m.identifier(), (base_modifier(m), Some(TextRule::Reference(ReferenceRule::new()))))
}

fn cite_entry() -> (r: TextModifierEntry)
    requires
        regex_is_valid(StandardTextModifier::Cite.spec_modifier_pattern()),
    ensures
        text_entry_view(r) == text_modifier_view(
            StandardTextModifier::Cite,
            Some(TextRuleView::Cite(StandardTextModifier::Cite.spec_modifier_pattern())),
        ),
{
    let m = StandardTextModifier::Cite;
    (m.identifier(), (base_modifier(m), Some(TextRule::Cite(HtmlCiteRule::new()))))
}

/// The text modifiers of the standard HTML codex.
fn html_text_entries() -> (r: Vec<TextModifierEntry>)
    requires
        html_codex_valid(),
    ensures
        entries_view(r@) == html_text_rules(),
{
    let ghost mods = html_modifiers();
    assert forall|i: int| 0 <= i < mods.len() implies regex_is_valid(
        mods[i].spec_modifier_pattern(),
    ) by {
        assert(regex_is_valid((#[trigger] html_modifiers()[i]).spec_modifier_pattern()));
    }
    assert(regex_is_valid(mods[0].spec_modifier_pattern()));
    assert(regex_is_valid(mods[1].spec_modifier_pattern()));
    assert(regex_is_valid(mods[2].spec_modifier_pattern()));
    assert(regex_is_valid(mods[3].spec_modifier_pattern()));
    assert(regex_is_valid(mods[4].spec_modifier_pattern()));
    assert(regex_is_valid(mods[5].spec_modifier_pattern()));
    assert(regex_is_valid(mods[6].spec_modifier_pattern()));
    assert(regex_is_valid(mods[7].spec_modifier_pattern()));
    assert(regex_is_valid(mods[8].spec_modifier_pattern()));
    assert(regex_is_valid(mods[9].spec_modifier_pattern()));
    assert(regex_is_valid(mods[10].spec_modifier_pattern()));
    assert(regex_is_valid(mods[11].spec_modifier_pattern()));
    assert(regex_is_valid(mods[12].spec_modifier_pattern()));
    assert(regex_is_valid(mods[13].spec_modifier_pattern()));
    assert(regex_is_valid(mods[14].spec_modifier_pattern()));
    assert(regex_is_valid(mods[15].spec_modifier_pattern()));
    assert(regex_is_valid(mods[16].spec_modifier_pattern()));
    assert(regex_is_valid(mods[17].spec_modifier_pattern()));
    assert(regex_is_valid(mods[18].spec_modifier_pattern()));
    assert(regex_is_valid(mods[19].spec_modifier_pattern()));
    assert(regex_is_valid(mods[20].spec_modifier_pattern()));
    assert(regex_is_valid(mods[21].spec_modifier_pattern()));
    assert(regex_is_valid(mods[22].spec_modifier_pattern()));
    assert(regex_is_valid(mods[23].spec_modifier_pattern()));
    assert(regex_is_valid(mods[24].spec_modifier_pattern()));
    assert(regex_is_valid(mods[25].spec_modifier_pattern()));
    let mut text_modifiers: Vec<TextModifierEntry> = Vec::new();
    text_modifiers.push(wrap_entry(StandardTextModifier::Todo, r#"<div class="todo"><div class="todo-title"></div><div class="todo-description">"#, true, r"</div></div>"));
    assert(entries_view(text_modifiers@) =~= html_text_rules().take(1));
    text_modifiers.push(modifier_only_entry(StandardTextModifier::Bookmark));
    assert(entries_view(text_modifiers@) =~= html_text_rules().take(2));
    text_modifiers.push(modifier_only_entry(StandardTextModifier::GreekLetter));
    assert(entries_view(text_modifiers@) =~= html_text_rules().take(3));
    text_modifiers.push(modifier_only_entry(StandardTextModifier::AbridgedBookmark));
    assert(entries_view(text_modifiers@) =~= html_text_rules().take(4));
    text_modifiers.push(modifier_only_entry(StandardTextModifier::EmbeddedStyle));
    assert(entries_view(text_modifiers@) =~= html_text_rules().take(5));
    text_modifiers.push(modifier_only_entry(StandardTextModifier::AbridgedEmbeddedStyle));
    assert(entries_view(text_modifiers@) =~= html_text_rules().take(6));
    text_modifiers.push(modifier_only_entry(StandardTextModifier::Identifier));
    assert(entries_view(text_modifiers@) =~= html_text_rules().take(7));
    text_modifiers.push(wrap_entry(StandardTextModifier::Highlight, r#"<mark class="highlight">"#, true, r"</mark>"));
    assert(entries_view(text_modifiers@) =~= html_text_rules().take(8));
    text_modifiers.push(wrap_entry(StandardTextModifier::InlineMath, r#"<span class="inline-math">$"#, false, r"$</span>"));
    assert(entries_view(text_modifiers@) =~= html_text_rules().take(9));
    text_modifiers.push(wrap_entry(StandardTextModifier::InlineCode, r#"<code class="language-markup inline-code">"#, true, r"</code>"));
    assert(entries_view(text_modifiers@) =~= html_text_rules().take(10));
    text_modifiers.push(wrap_entry(StandardTextModifier::BoldStarVersion, r#"<strong class="bold">"#, true, r"</strong>"));
    assert(entries_view(text_modifiers@) =~= html_text_rules().take(11));
    text_modifiers.push(wrap_entry(StandardTextModifier::BoldUnderscoreVersion, r#"<strong class="bold">"#, true, r"</strong>"));
    assert(entries_view(text_modifiers@) =~= html_text_rules().take(12));
    text_modifiers.push(wrap_entry(StandardTextModifier::ItalicStarVersion, r#"<em class="italic">"#, true, r"</em>"));
    assert(entries_view(text_modifiers@) =~= html_text_rules().take(13));
    text_modifiers.push(wrap_entry(StandardTextModifier::ItalicUnderscoreVersion, r#"<em class="italic">"#, true, r"</em>"));
    assert(entries_view(text_modifiers@) =~= html_text_rules().take(14));
    text_modifiers.push(wrap_entry(StandardTextModifier::Strikethrough, r#"<del class="strikethrough">"#, true, r"</del>"));
    assert(entries_view(text_modifiers@) =~= html_text_rules().take(15));
    text_modifiers.push(wrap_entry(StandardTextModifier::Underlined, r#"<u class="underlined">"#, true, r"</u>"));
    assert(entries_view(text_modifiers@) =~= html_text_rules().take(16));
    text_modifiers.push(wrap_entry(StandardTextModifier::Superscript, r#"<sup class="superscript">"#, true, r"</sup>"));
    assert(entries_view(text_modifiers@) =~= html_text_rules().take(17));
    text_modifiers.push(wrap_entry(StandardTextModifier::Subscript, r#"<sub class="subscript">"#, true, r"</sub>"));
    assert(entries_view(text_modifiers@) =~= html_text_rules().take(18));
    text_modifiers.push(modifier_only_entry(StandardTextModifier::Link));
    assert(entries_view(text_modifiers@) =~= html_text_rules().take(19));
    text_modifiers.push(wrap_entry(StandardTextModifier::Comment, r"<!-- ", true, r" -->"));
    assert(entries_view(text_modifiers@) =~= html_text_rules().take(20));
    text_modifiers.push(fixed_entry(StandardTextModifier::Checkbox, r#"<div class="checkbox checkbox-unchecked"></div>"#));
    assert(entries_view(text_modifiers@) =~= html_text_rules().take(21));
    text_modifiers.push(fixed_entry(StandardTextModifier::CheckboxChecked, r#"<div class="checkbox checkbox-checked"></div>"#));
    assert(entries_view(text_modifiers@) =~= html_text_rules().take(22));
    text_modifiers.push(modifier_only_entry(StandardTextModifier::Emoji));
    assert(entries_view(text_modifiers@) =~= html_text_rules().take(23));
    text_modifiers.push(capture_entry(StandardTextModifier::Escape));
    assert(entries_view(text_modifiers@) =~= html_text_rules().take(24));
    text_modifiers.push(reference_entry());
    assert(entries_view(text_modifiers@) =~= html_text_rules().take(25));
    text_modifiers.push(cite_entry());
    assert(entries_view(text_modifiers@) =~= html_text_rules().take(26));
    assert(html_text_rules().take(26) =~= html_text_rules());
    text_modifiers
}

/// The paragraph modifiers of the standard HTML codex.
fn html_paragraph_entries() -> (r: Vec<ParagraphModifierEntry>)
    requires
        html_codex_valid(),
    ensures
        paragraph_entries_view(r@) == html_paragraph_rules(),
{
    let ghost pmods = html_paragraph_modifiers();
    assert forall|i: int| 0 <= i < pmods.len() implies regex_is_valid(
        pmods[i].spec_modifier_pattern(),
    ) by {
        assert(regex_is_valid((#[trigger] html_paragraph_modifiers()[i]).spec_modifier_pattern()));
    }
    assert(regex_is_valid(pmods[0].spec_modifier_pattern()));
    assert(regex_is_valid(pmods[1].spec_modifier_pattern()));
    assert(regex_is_valid(pmods[2].spec_modifier_pattern()));
    assert(regex_is_valid(pmods[3].spec_modifier_pattern()));
    assert(regex_is_valid(pmods[4].spec_modifier_pattern()));
    assert(regex_is_valid(pmods[5].spec_modifier_pattern()));
    assert(regex_is_valid(pmods[6].spec_modifier_pattern()));
    assert(regex_is_valid(pmods[7].spec_modifier_pattern()));
    assert(regex_is_valid(pmods[8].spec_modifier_pattern()));
    assert(regex_is_valid(pmods[9].spec_modifier_pattern()));
    assert(regex_is_valid(pmods[10].spec_modifier_pattern()));
    assert(regex_is_valid(pmods[11].spec_modifier_pattern()));
    assert(regex_is_valid(pmods[12].spec_modifier_pattern()));
    assert(regex_is_valid(pmods[13].spec_modifier_pattern()));
    assert(regex_is_valid(pmods[14].spec_modifier_pattern()));
    assert(regex_is_valid(pmods[15].spec_modifier_pattern()));
    assert(regex_is_valid(pmods[16].spec_modifier_pattern()));
    assert(regex_is_valid(pmods[17].spec_modifier_pattern()));
    assert(regex_is_valid(pmods[18].spec_modifier_pattern()));
    let mut paragraph_modifiers: Vec<ParagraphModifierEntry> = Vec::new();
    paragraph_modifiers.push(paragraph_entry(StandardParagraphModifier::CodeBlock));
    assert(paragraph_entries_view(paragraph_modifiers@) =~= html_paragraph_rules().take(1));
    paragraph_modifiers.push(paragraph_entry(StandardParagraphModifier::MathBlock));
    assert(paragraph_entries_view(paragraph_modifiers@) =~= html_paragraph_rules().take(2));
    paragraph_modifiers.push(paragraph_entry(StandardParagraphModifier::EmbeddedParagraphStyle));
    assert(paragraph_entries_view(paragraph_modifiers@) =~= html_paragraph_rules().take(3));
    paragraph_modifiers.push(paragraph_entry(StandardParagraphModifier::ParagraphIdentifier));
    assert(paragraph_entries_view(paragraph_modifiers@) =~= html_paragraph_rules().take(4));
    paragraph_modifiers.push(paragraph_entry(StandardParagraphModifier::Table));
    assert(paragraph_entries_view(paragraph_modifiers@) =~= html_paragraph_rules().take(5));
    paragraph_modifiers.push(paragraph_entry(StandardParagraphModifier::ExtendedBlockQuote));
    assert(paragraph_entries_view(paragraph_modifiers@) =~= html_paragraph_rules().take(6));
    paragraph_modifiers.push(paragraph_entry(StandardParagraphModifier::FocusBlock));
    assert(paragraph_entries_view(paragraph_modifiers@) =~= html_paragraph_rules().take(7));
    paragraph_modifiers.push(paragraph_entry(StandardParagraphModifier::List));
    assert(paragraph_entries_view(paragraph_modifiers@) =~= html_paragraph_rules().take(8));
    paragraph_modifiers.push(paragraph_entry(StandardParagraphModifier::AbridgedTodo));
    assert(paragraph_entries_view(paragraph_modifiers@) =~= html_paragraph_rules().take(9));
    paragraph_modifiers.push(paragraph_entry(StandardParagraphModifier::MultilineTodo));
    assert(paragraph_entries_view(paragraph_modifiers@) =~= html_paragraph_rules().take(10));
    paragraph_modifiers.push(paragraph_entry(StandardParagraphModifier::Todo));
    assert(paragraph_entries_view(paragraph_modifiers@) =~= html_paragraph_rules().take(11));
    paragraph_modifiers.push(paragraph_entry(StandardParagraphModifier::MultiImage));
    assert(paragraph_entries_view(paragraph_modifiers@) =~= html_paragraph_rules().take(12));
    paragraph_modifiers.push(paragraph_entry(StandardParagraphModifier::Image));
    assert(paragraph_entries_view(paragraph_modifiers@) =~= html_paragraph_rules().take(13));
    paragraph_modifiers.push(paragraph_entry(StandardParagraphModifier::AbridgedImage));
    assert(paragraph_entries_view(paragraph_modifiers@) =~= html_paragraph_rules().take(14));
    paragraph_modifiers.push(paragraph_entry(StandardParagraphModifier::PageBreak));
    assert(paragraph_entries_view(paragraph_modifiers@) =~= html_paragraph_rules().take(15));
    paragraph_modifiers.push(paragraph_entry(StandardParagraphModifier::LineBreakDash));
    assert(paragraph_entries_view(paragraph_modifiers@) =~= html_paragraph_rules().take(16));
    paragraph_modifiers.push(paragraph_entry(StandardParagraphModifier::LineBreakStar));
    assert(paragraph_entries_view(paragraph_modifiers@) =~= html_paragraph_rules().take(17));
    paragraph_modifiers.push(paragraph_entry(StandardParagraphModifier::LineBreakPlus));
    assert(paragraph_entries_view(paragraph_modifiers@) =~= html_paragraph_rules().take(18));
    paragraph_modifiers.push(paragraph_entry(StandardParagraphModifier::CommentBlock));
    assert(paragraph_entries_view(paragraph_modifiers@) =~= html_paragraph_rules().take(19));
    assert(html_paragraph_rules().take(19) =~= html_paragraph_rules());
    paragraph_modifiers
}

/// The identifier `id` is one of `identifiers`.
fn listed(identifiers: &Vec<String>, id: &String) -> (r: bool)
    ensures
        r == strings_view(identifiers@).contains(id@),
{
    let mut i: usize = 0;
    while i < identifiers.len()
        invariant
            i <= identifiers.len(),
            forall|j: int| 0 <= j < i ==> identifiers@[j]@ != id@,
        decreases identifiers.len() - i,
    {
        if identifiers[i] == *id {
            assert(strings_view(identifiers@)[i as int] == id@);
            return true;
        }
        i = i + 1;
    }
    assert(!strings_view(identifiers@).contains(id@)) by {
        if strings_view(identifiers@).contains(id@) {
            let j = choose|j: int|
                0 <= j < strings_view(identifiers@).len() && strings_view(identifiers@)[j] == id@;
            assert(identifiers@[j]@ == id@);
        }
    }
    false
}

/// Keeps the entries whose identifier is listed (`keep`) or not listed
/// (otherwise), in their order.
fn select_in<V>(entries: &mut Vec<(String, V)>, identifiers: &Vec<String>, keep: bool)
    ensures
        final(entries)@ == select_entries(old(entries)@, strings_view(identifiers@), keep),
{
    let ghost orig = entries@;
    assert(orig.len() == entries.len());
    let ghost ids = strings_view(identifiers@);
    let mut rest: Vec<(String, V)> = Vec::new();
    std::mem::swap(&mut rest, entries);
    let mut selected: Vec<(String, V)> = Vec::new();
    let mut k: usize = 0;
    assert(orig.skip(0) =~= orig);
    assert(orig.take(0) =~= Seq::<(String, V)>::empty());
    while rest.len() > 0
        invariant
            orig.len() <= usize::MAX,
            k + rest@.len() == orig.len(),
            rest@ == orig.skip(k as int),
            selected@ == select_entries(orig.take(k as int), ids, keep),
            ids == strings_view(identifiers@),
        decreases rest.len(),
    {
        let entry = rest.remove(0);
        assert(entry == orig[k as int]);
        assert(orig.take(k + 1).drop_last() =~= orig.take(k as int));
        assert(rest@ =~= orig.skip(k + 1));
        if listed(identifiers, &entry.0) == keep {
            selected.push(entry);
        }
        k = k + 1;
    }
    assert(orig.take(k as int) =~= orig);
    *entries = selected;
}

/// Ordered collection of rules: a rule is the actual text transformation
/// bound to a modifier.  Text modifiers carry their rule where the codex has
/// one; paragraph modifiers are listed with the fallback paragraph modifier.
#[derive(Debug)]
pub struct Codex {
    text_modifiers: Vec<TextModifierEntry>,
    paragraph_modifiers: Vec<ParagraphModifierEntry>,
    fallback_paragraph: Option<ModifierIdentifier>,
}

impl Codex {
    /// The identifiers and rules of the text modifiers, in the order they are applied.
    pub closed spec fn spec_entries(&self) -> Seq<(Seq<char>, Option<TextRule>)> {
        entries_rules(self.text_modifiers@)
    }

    /// The text modifiers with their rules, in the order they are applied.
    pub closed spec fn spec_text_rules(&self) -> Seq<TextModifierView> {
        entries_view(self.text_modifiers@)
    }

    pub closed spec fn spec_modifiers(&self) -> Seq<TextModifierEntry> {
        self.text_modifiers@
    }

    pub closed spec fn spec_paragraph_entries(&self) -> Seq<ParagraphModifierEntry> {
        self.paragraph_modifiers@
    }

    /// The paragraph modifiers, in their order.
    pub closed spec fn spec_paragraph_modifiers(&self) -> Seq<ModifierView> {
        paragraph_entries_view(self.paragraph_modifiers@)
    }

    /// Neither the text nor the paragraph modifiers repeat an identifier.
    pub closed spec fn wf(&self) -> bool {
        distinct_identifiers(self.text_modifiers@) && distinct_identifiers(self.paragraph_modifiers@)
    }

    pub closed spec fn spec_fallback_paragraph(&self) -> Option<Seq<char>> {
        option_string_view(self.fallback_paragraph)
    }

    /// A codex with the given modifiers and rules.
    pub fn new(
        text_modifiers: Vec<TextModifierEntry>,
        paragraph_modifiers: Vec<ParagraphModifierEntry>,
        fallback_paragraph: Option<ModifierIdentifier>,
    ) -> (r: Self)
        ensures
            r.spec_modifiers() == text_modifiers@,
            r.spec_entries() == entries_rules(text_modifiers@),
            r.spec_text_rules() == entries_view(text_modifiers@),
            r.spec_paragraph_entries() == paragraph_modifiers@,
            r.spec_paragraph_modifiers() == paragraph_entries_view(paragraph_modifiers@),
            r.spec_fallback_paragraph() == option_string_view(fallback_paragraph),
            r.wf() == (distinct_identifiers(text_modifiers@) && distinct_identifiers(
                paragraph_modifiers@,
            )),
    {
        Self { text_modifiers, paragraph_modifiers, fallback_paragraph }
    }

    pub fn text_modifiers(&self) -> (r: &Vec<TextModifierEntry>)
        ensures
            r@ == self.spec_modifiers(),
            entries_rules(r@) == self.spec_entries(),
            entries_view(r@) == self.spec_text_rules(),
    {
        &self.text_modifiers
    }

    pub fn set_text_modifiers(&mut self, text_modifiers: Vec<TextModifierEntry>)
        ensures
            final(self).spec_modifiers() == text_modifiers@,
            final(self).spec_entries() == entries_rules(text_modifiers@),
            final(self).spec_text_rules() == entries_view(text_modifiers@),
            final(self).spec_paragraph_entries() == old(self).spec_paragraph_entries(),
            final(self).spec_fallback_paragraph() == old(self).spec_fallback_paragraph(),
    {
        self.text_modifiers = text_modifiers;
    }

    pub fn paragraph_modifiers(&self) -> (r: &Vec<ParagraphModifierEntry>)
        ensures
            r@ == self.spec_paragraph_entries(),
            paragraph_entries_view(r@) == self.spec_paragraph_modifiers(),
    {
        &self.paragraph_modifiers
    }

    pub fn set_paragraph_modifiers(&mut self, paragraph_modifiers: Vec<ParagraphModifierEntry>)
        ensures
            final(self).spec_paragraph_entries() == paragraph_modifiers@,
            final(self).spec_paragraph_modifiers() == paragraph_entries_view(paragraph_modifiers@),
            final(self).spec_modifiers() == old(self).spec_modifiers(),
            final(self).spec_fallback_paragraph() == old(self).spec_fallback_paragraph(),
            final(self).wf() == (distinct_identifiers(old(self).spec_modifiers())
                && distinct_identifiers(paragraph_modifiers@)),
    {
        self.paragraph_modifiers = paragraph_modifiers;
    }

    pub fn fallback_paragraph(&self) -> (r: &Option<ModifierIdentifier>)
        ensures
            option_string_view(*r) == self.spec_fallback_paragraph(),
    {
        &self.fallback_paragraph
    }

    pub fn set_fallback_paragraph(&mut self, fallback_paragraph: Option<ModifierIdentifier>)
        ensures
            final(self).spec_fallback_paragraph() == option_string_view(fallback_paragraph),
            final(self).spec_modifiers() == old(self).spec_modifiers(),
            final(self).spec_paragraph_entries() == old(self).spec_paragraph_entries(),
            final(self).wf() == old(self).wf(),
    {
        self.fallback_paragraph = fallback_paragraph;
    }

    /// Removes all modifiers and rules except those listed.
    pub fn retain(&mut self, identifiers: &Vec<ModifierIdentifier>)
        ensures
            final(self).spec_modifiers() == select_entries(
                old(self).spec_modifiers(),
                strings_view(identifiers@),
                true,
            ),
            final(self).spec_paragraph_entries() == select_entries(
                old(self).spec_paragraph_entries(),
                strings_view(identifiers@),
                true,
            ),
            final(self).spec_fallback_paragraph() == old(self).spec_fallback_paragraph(),
            old(self).wf() ==> final(self).wf(),
    {
        proof {
            if self.wf() {
                lemma_select_keeps_distinct(self.text_modifiers@, strings_view(identifiers@), true);
                lemma_select_keeps_distinct(self.paragraph_modifiers@, strings_view(identifiers@), true);
            }
        }
        select_in(&mut self.text_modifiers, identifiers, true);
        select_in(&mut self.paragraph_modifiers, identifiers, true);
    }

    /// Removes the listed modifiers and rules.
    pub fn remove(&mut self, identifiers: &Vec<ModifierIdentifier>)
        ensures
            final(self).spec_modifiers() == select_entries(
                old(self).spec_modifiers(),
                strings_view(identifiers@),
                false,
            ),
            final(self).spec_paragraph_entries() == select_entries(
                old(self).spec_paragraph_entries(),
                strings_view(identifiers@),
                false,
            ),
            final(self).spec_fallback_paragraph() == old(self).spec_fallback_paragraph(),
            old(self).wf() ==> final(self).wf(),
    {
        proof {
            if self.wf() {
                lemma_select_keeps_distinct(self.text_modifiers@, strings_view(identifiers@), false);
                lemma_select_keeps_distinct(self.paragraph_modifiers@, strings_view(identifiers@), false);
            }
        }
        select_in(&mut self.text_modifiers, identifiers, false);
        select_in(&mut self.paragraph_modifiers, identifiers, false);
    }

    /// The standard codex of an output format.
    pub fn from(format: &OutputFormat) -> (r: Self)
        requires
            html_codex_valid(),
        ensures
            r.spec_text_rules() == html_text_rules(),
            r.spec_paragraph_modifiers() == html_paragraph_rules(),
            r.spec_fallback_paragraph() == Some(
                StandardParagraphModifier::CommonParagraph.spec_identifier(),
            ),
            r.wf(),
    {
        match format {
            OutputFormat::Html => Self::of_html(),
        }
    }

    /// Standard HTML `Codex`.
    pub fn of_html() -> (r: Self)
        requires
            html_codex_valid(),
        ensures
            r.spec_text_rules() == html_text_rules(),
            r.spec_paragraph_modifiers() == html_paragraph_rules(),
            r.spec_fallback_paragraph() == Some(
                StandardParagraphModifier::CommonParagraph.spec_identifier(),
            ),
            r.wf(),
    {
        let text_modifiers = html_text_entries();
        let paragraph_modifiers = html_paragraph_entries();
        proof {
            lemma_html_identifiers_distinct();
            lemma_html_paragraph_identifiers_distinct();
            assert forall|i: int, j: int| 0 <= i < j < text_modifiers@.len() implies (
            #[trigger] text_modifiers@[i]).0@ != (#[trigger] text_modifiers@[j]).0@ by {
                assert(entries_view(text_modifiers@)[i].modifier.identifier == text_modifiers@[i].0@);
                assert(entries_view(text_modifiers@)[j].modifier.identifier == text_modifiers@[j].0@);
            }
            assert forall|i: int, j: int| 0 <= i < j < paragraph_modifiers@.len() implies (
            #[trigger] paragraph_modifiers@[i]).0@ != (#[trigger] paragraph_modifiers@[j]).0@ by {
                assert(paragraph_entries_view(paragraph_modifiers@)[i].identifier
                    == paragraph_modifiers@[i].0@);
                assert(paragraph_entries_view(paragraph_modifiers@)[j].identifier
                    == paragraph_modifiers@[j].0@);
            }
        }
        Self {
            text_modifiers,
            paragraph_modifiers,
            fallback_paragraph: Some(StandardParagraphModifier::CommonParagraph.identifier()),
        }
    }

    /// `of_html`, or `None` when the regex engine refuses one of its patterns.
    pub fn try_of_html() -> (r: Option<Self>)
        ensures
            r is Some == html_codex_valid(),
            r matches Some(c) ==> c.spec_text_rules() == html_text_rules()
                && c.spec_paragraph_modifiers() == html_paragraph_rules()
                && c.spec_fallback_paragraph() == Some(
                StandardParagraphModifier::CommonParagraph.spec_identifier(),
            ) && c.wf(),
    {
        if compile_regex("<").is_none() || compile_regex(">").is_none() {
            return None;
        }
        let mods = vec![
            StandardTextModifier::Todo,
            StandardTextModifier::Bookmark,
            StandardTextModifier::GreekLetter,
            StandardTextModifier::AbridgedBookmark,
            StandardTextModifier::EmbeddedStyle,
            StandardTextModifier::AbridgedEmbeddedStyle,
            StandardTextModifier::Identifier,
            StandardTextModifier::Highlight,
            StandardTextModifier::InlineMath,
            StandardTextModifier::InlineCode,
            StandardTextModifier::BoldStarVersion,
            StandardTextModifier::BoldUnderscoreVersion,
            StandardTextModifier::ItalicStarVersion,
            StandardTextModifier::ItalicUnderscoreVersion,
            StandardTextModifier::Strikethrough,
            StandardTextModifier::Underlined,
            StandardTextModifier::Superscript,
            StandardTextModifier::Subscript,
            StandardTextModifier::Link,
            StandardTextModifier::Comment,
            StandardTextModifier::Checkbox,
            StandardTextModifier::CheckboxChecked,
            StandardTextModifier::Emoji,
            StandardTextModifier::Escape,
            StandardTextModifier::Reference,
            StandardTextModifier::Cite,
        ];
        assert(mods@ =~= html_modifiers());
        let mut i: usize = 0;
        while i < mods.len()
            invariant
                i <= mods.len(),
                mods@ == html_modifiers(),
                forall|j: int| 0 <= j < i ==> regex_is_valid(#[trigger] mods@[j].spec_modifier_pattern()),
            decreases mods.len() - i,
        {
            let pattern = mods[i].modifier_pattern();
            if compile_regex(pattern.as_str()).is_none() {
                return None;
            }
            i = i + 1;
        }
        let pmods = vec![
            StandardParagraphModifier::CodeBlock,
            StandardParagraphModifier::MathBlock,
            StandardParagraphModifier::EmbeddedParagraphStyle,
            StandardParagraphModifier::ParagraphIdentifier,
            StandardParagraphModifier::Table,
            StandardParagraphModifier::ExtendedBlockQuote,
            StandardParagraphModifier::FocusBlock,
            StandardParagraphModifier::List,
            StandardParagraphModifier::AbridgedTodo,
            StandardParagraphModifier::MultilineTodo,
            StandardParagraphModifier::Todo,
            StandardParagraphModifier::MultiImage,
            StandardParagraphModifier::Image,
            StandardParagraphModifier::AbridgedImage,
            StandardParagraphModifier::PageBreak,
            StandardParagraphModifier::LineBreakDash,
            StandardParagraphModifier::LineBreakStar,
            StandardParagraphModifier::LineBreakPlus,
            StandardParagraphModifier::CommentBlock,
        ];
        assert(pmods@ =~= html_paragraph_modifiers());
        let mut i: usize = 0;
        while i < pmods.len()
            invariant
                i <= pmods.len(),
                pmods@ == html_paragraph_modifiers(),
                forall|j: int| 0 <= j < i ==> regex_is_valid(#[trigger] pmods@[j].spec_modifier_pattern()),
            decreases pmods.len() - i,
        {
            let pattern = pmods[i].modifier_pattern();
            if compile_regex(pattern.as_str()).is_none() {
                return None;
            }
            i = i + 1;
        }
        assert(forall|j: int| 0 <= j < html_modifiers().len() ==> regex_is_valid(#[trigger] html_modifiers()[j].spec_modifier_pattern()));
        Some(Self::of_html())
    }
}

} // verus!
