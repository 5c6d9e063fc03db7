//! The modifiers of whole paragraphs: code blocks, lists, tables, images and the like.

use vstd::prelude::*;
use crate::resource::bucket::{Bucket, BucketView};
use super::{ModifierIdentifier, ModifierPattern, ModifiersBucket};
use super::constants::{
    IDENTIFIER_PATTERN, MULTI_LINES_CONTENT_EXCLUDING_HEADINGS_PATTERN, MULTI_LINES_CONTENT_PATTERN,
    NEW_LINE_PATTERN, STYLE_PATTERN, build_strict_reserved_line_pattern, strict_reserved_line_pattern,
};

verus! {

pub const PARAGRAPH_SEPARATOR_START: &'static str = r"(?m:^[ \t]*\r?\n)+";

pub const PARAGRAPH_SEPARATOR_END: &'static str = r"(?m:[ \t]*\r?\n){2}";

/// The standard paragraph modifiers.
#[derive(Debug, Clone, Copy, PartialEq, Eq, Structural)]
pub enum StandardParagraphModifier {
    List,
    ListItem,
    Table,
    Image,
    AbridgedImage,
    MultiImage,
    CodeBlock,
    CommentBlock,
    ExtendedBlockQuote,
    ExtendedBlockQuoteLine,
    FocusBlock,
    MathBlock,
    LineBreakDash,
    LineBreakStar,
    LineBreakPlus,
    CommonParagraph,
    EmbeddedParagraphStyle,
    ParagraphIdentifier,
    PageBreak,
    Todo,
    AbridgedTodo,
    MultilineTodo,
}

/// Pattern of one item of a list.
pub open spec fn list_item_pattern() -> Seq<char> {
    r"(?m:^([\t ]*)(-\[\]|-\[ \]|-\[x\]|-\[X\]|-|->|\||\*|\+|--|\d[\.)]?|[a-zA-Z]{1,8}[\.)]|&[^;]+;) (.*)"@ + NEW_LINE_PATTERN@ + r"?)"@
}

fn list_item_modifier_pattern() -> (r: ModifierPattern)
    ensures
        r@ == list_item_pattern(),
{
    let mut p = String::from_str(r"(?m:^([\t ]*)(-\[\]|-\[ \]|-\[x\]|-\[X\]|-|->|\||\*|\+|--|\d[\.)]?|[a-zA-Z]{1,8}[\.)]|&[^;]+;) (.*)");
    p.append(NEW_LINE_PATTERN);
    p.append(r"?)");
    p
}

impl StandardParagraphModifier {
    /// The modifiers in the order in which they must be applied (the common
    /// paragraph is the fallback and is not listed).
    pub open spec fn spec_ordered() -> Seq<StandardParagraphModifier> {
        seq![
            StandardParagraphModifier::CodeBlock,
            StandardParagraphModifier::MathBlock,
            StandardParagraphModifier::EmbeddedParagraphStyle,
            StandardParagraphModifier::ParagraphIdentifier,
            StandardParagraphModifier::Table,
            StandardParagraphModifier::ExtendedBlockQuote,
            StandardParagraphModifier::FocusBlock,
            StandardParagraphModifier::List,
            StandardParagraphModifier::AbridgedTodo,
            StandardParagraphModifier::MultilineTodo,
            StandardParagraphModifier::Todo,
            StandardParagraphModifier::PageBreak,
            StandardParagraphModifier::LineBreakDash,
            StandardParagraphModifier::LineBreakStar,
            StandardParagraphModifier::LineBreakPlus,
            StandardParagraphModifier::MultiImage,
            StandardParagraphModifier::AbridgedImage,
            StandardParagraphModifier::Image,
            StandardParagraphModifier::CommentBlock,
        ]
    }

    pub open spec fn spec_identifier(self) -> Seq<char> {
        match self {
            StandardParagraphModifier::List => "list"@,
            StandardParagraphModifier::ListItem => "list-item"@,
            StandardParagraphModifier::Table => "table"@,
            StandardParagraphModifier::Image => "image"@,
            StandardParagraphModifier::AbridgedImage => "abridged-image"@,
            StandardParagraphModifier::MultiImage => "multi-image"@,
            StandardParagraphModifier::CodeBlock => "code-block"@,
            StandardParagraphModifier::CommentBlock => "comment-block"@,
            StandardParagraphModifier::ExtendedBlockQuote => "extended-block-quote"@,
            StandardParagraphModifier::ExtendedBlockQuoteLine => "extended-block-quote-line"@,
            StandardParagraphModifier::FocusBlock => "focus-block"@,
            StandardParagraphModifier::MathBlock => "math-block"@,
            StandardParagraphModifier::LineBreakDash => "line-break-dash"@,
            StandardParagraphModifier::LineBreakStar => "line-break-star"@,
            StandardParagraphModifier::LineBreakPlus => "line-break-plus"@,
            StandardParagraphModifier::CommonParagraph => "common-paragraph"@,
            StandardParagraphModifier::EmbeddedParagraphStyle => "embedded-paragraph-style"@,
            StandardParagraphModifier::ParagraphIdentifier => "paragraph-identifier"@,
            StandardParagraphModifier::PageBreak => "page-break"@,
            StandardParagraphModifier::Todo => "todo"@,
            StandardParagraphModifier::AbridgedTodo => "abridged-todo"@,
            StandardParagraphModifier::MultilineTodo => "multiline-todo"@,
        }
    }

    pub open spec fn spec_modifier_pattern(self) -> Seq<char> {
        match self {
            StandardParagraphModifier::List => r"((?:"@ + list_item_pattern() + r"+)+)"@,
            StandardParagraphModifier::ListItem => list_item_pattern(),
            StandardParagraphModifier::Table => r"(\|(.*)\|"@ + NEW_LINE_PATTERN@ + r"?)+(?:\|(.*)\|)(?U:"@ + NEW_LINE_PATTERN@ + r"?(?:\[(.*)\])?(?:"@ + IDENTIFIER_PATTERN@ + r")?(?:\{\{"@ + STYLE_PATTERN@ + r"\}\})?)?"@,
            StandardParagraphModifier::Image => strict_reserved_line_pattern(r"!\[([^\]]*)\](?:"@ + IDENTIFIER_PATTERN@ + r")?\(([^)]+)\)(?:\{\{"@ + STYLE_PATTERN@ + r"\}\})?"@),
            StandardParagraphModifier::AbridgedImage => strict_reserved_line_pattern(r"!\[\((.*)\)\](?:"@ + IDENTIFIER_PATTERN@ + r")?(?:\{\{"@ + STYLE_PATTERN@ + r"\}\})?"@),
            StandardParagraphModifier::MultiImage => strict_reserved_line_pattern(r"!!(?::([\w-]+):)?\[\[(?s:(.*?))\]\]"@),
            StandardParagraphModifier::CodeBlock => strict_reserved_line_pattern(r"```[ \t]*(\w+)?"@) + NEW_LINE_PATTERN@ + MULTI_LINES_CONTENT_PATTERN@ + strict_reserved_line_pattern(r"```"@),
            StandardParagraphModifier::CommentBlock => r"<!--(?s:(.*?))-->"@,
            StandardParagraphModifier::ExtendedBlockQuote => r"(?m)(^[ \t]*>.*(?:\r?\n>.*)*)"@,
            StandardParagraphModifier::ExtendedBlockQuoteLine => r"(?m:^> (.*))"@,
            StandardParagraphModifier::FocusBlock => strict_reserved_line_pattern(r":::[ \t]*(\w+)?"@) + NEW_LINE_PATTERN@ + MULTI_LINES_CONTENT_EXCLUDING_HEADINGS_PATTERN@ + strict_reserved_line_pattern(r":::"@),
            StandardParagraphModifier::MathBlock => strict_reserved_line_pattern(r"\$\$"@) + MULTI_LINES_CONTENT_PATTERN@ + strict_reserved_line_pattern(r"\$\$"@),
            StandardParagraphModifier::LineBreakDash => strict_reserved_line_pattern(r"-{3,}"@),
            StandardParagraphModifier::LineBreakStar => strict_reserved_line_pattern(r"\*{3,}"@),
            StandardParagraphModifier::LineBreakPlus => strict_reserved_line_pattern(r"\+{3,}"@),
            StandardParagraphModifier::CommonParagraph => MULTI_LINES_CONTENT_EXCLUDING_HEADINGS_PATTERN@ + NEW_LINE_PATTERN@ + NEW_LINE_PATTERN@,
            StandardParagraphModifier::EmbeddedParagraphStyle => r"\[\[(?sx:(.*?))\]\]"@ + NEW_LINE_PATTERN@ + r"?(?:"@ + IDENTIFIER_PATTERN@ + r")?"@ + NEW_LINE_PATTERN@ + r"?\{\{"@ + STYLE_PATTERN@ + r"\}\}"@,
            StandardParagraphModifier::ParagraphIdentifier => r"\[\[(?sx:(.*?))\]\]"@ + NEW_LINE_PATTERN@ + r"?"@ + IDENTIFIER_PATTERN@,
            StandardParagraphModifier::PageBreak => strict_reserved_line_pattern(r"#{3,}"@),
            StandardParagraphModifier::Todo => strict_reserved_line_pattern(r"(?i:TODO):?\s(?:(.*?))"@),
            StandardParagraphModifier::AbridgedTodo => strict_reserved_line_pattern(r"(?i:TODO)"@),
            StandardParagraphModifier::MultilineTodo => strict_reserved_line_pattern(r"(?i:TODO):"@) + r"(?s:(.*?)):(?i:TODO)"@,
        }
    }

    pub open spec fn spec_incompatible_modifiers(self) -> BucketView {
        match self {
            StandardParagraphModifier::Image => BucketView::All,
            StandardParagraphModifier::AbridgedImage => BucketView::All,
            StandardParagraphModifier::MultiImage => BucketView::All,
            StandardParagraphModifier::CodeBlock => BucketView::All,
            StandardParagraphModifier::CommentBlock => BucketView::All,
            StandardParagraphModifier::MathBlock => BucketView::All,
            _ => BucketView::Nothing,
        }
    }

    /// The modifiers in compatibility order.
    pub fn ordered() -> (r: Vec<Self>)
        ensures
            r@ == Self::spec_ordered(),
    {
        let r = vec![
            Self::CodeBlock,
            Self::MathBlock,
            Self::EmbeddedParagraphStyle,
            Self::ParagraphIdentifier,
            Self::Table,
            Self::ExtendedBlockQuote,
            Self::FocusBlock,
            Self::List,
            Self::AbridgedTodo,
            Self::MultilineTodo,
            Self::Todo,
            Self::PageBreak,
            Self::LineBreakDash,
            Self::LineBreakStar,
            Self::LineBreakPlus,
            Self::MultiImage,
            Self::AbridgedImage,
            Self::Image,
            Self::CommentBlock,
        ];
        assert(r@ =~= Self::spec_ordered());
        r
    }

    pub fn identifier(&self) -> (r: ModifierIdentifier)
        ensures
            r@ == self.spec_identifier(),
    {
        match self {
            Self::List => String::from_str("list"),
            Self::ListItem => String::from_str("list-item"),
            Self::Table => String::from_str("table"),
            Self::Image => String::from_str("image"),
            Self::AbridgedImage => String::from_str("abridged-image"),
            Self::MultiImage => String::from_str("multi-image"),
            Self::CodeBlock => String::from_str("code-block"),
            Self::CommentBlock => String::from_str("comment-block"),
            Self::ExtendedBlockQuote => String::from_str("extended-block-quote"),
            Self::ExtendedBlockQuoteLine => String::from_str("extended-block-quote-line"),
            Self::FocusBlock => String::from_str("focus-block"),
            Self::MathBlock => String::from_str("math-block"),
            Self::LineBreakDash => String::from_str("line-break-dash"),
            Self::LineBreakStar => String::from_str("line-break-star"),
            Self::LineBreakPlus => String::from_str("line-break-plus"),
            Self::CommonParagraph => String::from_str("common-paragraph"),
            Self::EmbeddedParagraphStyle => String::from_str("embedded-paragraph-style"),
            Self::ParagraphIdentifier => String::from_str("paragraph-identifier"),
            Self::PageBreak => String::from_str("page-break"),
            Self::Todo => String::from_str("todo"),
            Self::AbridgedTodo => String::from_str("abridged-todo"),
            Self::MultilineTodo => String::from_str("multiline-todo"),
        }
    }

    /// The pattern of the modifier.
    pub fn modifier_pattern(&self) -> (r: ModifierPattern)
        ensures
            r@ == self.spec_modifier_pattern(),
    {
        match self {
            Self::List => {
                let mut p = String::from_str(r"((?:");
                let closing = list_item_modifier_pattern();
                p.append(closing.as_str());
                p.append(r"+)+)");
                p
            },
            Self::ListItem => list_item_modifier_pattern(),
            Self::Table => {
                let mut p = String::from_str(r"(\|(.*)\|");
                p.append(NEW_LINE_PATTERN);
                p.append(r"?)+(?:\|(.*)\|)(?U:");
                p.append(NEW_LINE_PATTERN);
                p.append(r"?(?:\[(.*)\])?(?:");
                p.append(IDENTIFIER_PATTERN);
                p.append(r")?(?:\{\{");
                p.append(STYLE_PATTERN);
                p.append(r"\}\})?)?");
                p
            },
            Self::Image => {
                let mut line = String::from_str(r"!\[([^\]]*)\](?:");
                line.append(IDENTIFIER_PATTERN);
                line.append(r")?\(([^)]+)\)(?:\{\{");
                line.append(STYLE_PATTERN);
                line.append(r"\}\})?");
                build_strict_reserved_line_pattern(line.as_str())
            },
            Self::AbridgedImage => {
                let mut line = String::from_str(r"!\[\((.*)\)\](?:");
                line.append(IDENTIFIER_PATTERN);
                line.append(r")?(?:\{\{");
                line.append(STYLE_PATTERN);
                line.append(r"\}\})?");
                build_strict_reserved_line_pattern(line.as_str())
            },
            Self::MultiImage => build_strict_reserved_line_pattern(r"!!(?::([\w-]+):)?\[\[(?s:(.*?))\]\]"),
            Self::CodeBlock => {
                let mut p = build_strict_reserved_line_pattern(r"```[ \t]*(\w+)?");
                p.append(NEW_LINE_PATTERN);
                p.append(MULTI_LINES_CONTENT_PATTERN);
                let closing = build_strict_reserved_line_pattern(r"```");
                p.append(closing.as_str());
                p
            },
            Self::CommentBlock => String::from_str(r"<!--(?s:(.*?))-->"),
            Self::ExtendedBlockQuote => String::from_str(r"(?m)(^[ \t]*>.*(?:\r?\n>.*)*)"),
            Self::ExtendedBlockQuoteLine => String::from_str(r"(?m:^> (.*))"),
            Self::FocusBlock => {
                let mut p = build_strict_reserved_line_pattern(r":::[ \t]*(\w+)?");
                p.append(NEW_LINE_PATTERN);
                p.append(MULTI_LINES_CONTENT_EXCLUDING_HEADINGS_PATTERN);
                let closing = build_strict_reserved_line_pattern(r":::");
                p.append(closing.as_str());
                p
            },
            Self::MathBlock => {
                let mut p = build_strict_reserved_line_pattern(r"\$\$");
                p.append(MULTI_LINES_CONTENT_PATTERN);
                let closing = build_strict_reserved_line_pattern(r"\$\$");
                p.append(closing.as_str());
                p
            },
            Self::LineBreakDash => build_strict_reserved_line_pattern(r"-{3,}"),
            Self::LineBreakStar => build_strict_reserved_line_pattern(r"\*{3,}"),
            Self::LineBreakPlus => build_strict_reserved_line_pattern(r"\+{3,}"),
            Self::CommonParagraph => {
                let mut p = String::from_str(MULTI_LINES_CONTENT_EXCLUDING_HEADINGS_PATTERN);
                p.append(NEW_LINE_PATTERN);
                p.append(NEW_LINE_PATTERN);
                p
            },
            Self::EmbeddedParagraphStyle => {
                let mut p = String::from_str(r"\[\[(?sx:(.*?))\]\]");
                p.append(NEW_LINE_PATTERN);
                p.append(r"?(?:");
                p.append(IDENTIFIER_PATTERN);
                p.append(r")?");
                p.append(NEW_LINE_PATTERN);
                p.append(r"?\{\{");
                p.append(STYLE_PATTERN);
                p.append(r"\}\}");
                p
            },
            Self::ParagraphIdentifier => {
                let mut p = String::from_str(r"\[\[(?sx:(.*?))\]\]");
                p.append(NEW_LINE_PATTERN);
                p.append(r"?");
                p.append(IDENTIFIER_PATTERN);
                p
            },
            Self::PageBreak => build_strict_reserved_line_pattern(r"#{3,}"),
            Self::Todo => build_strict_reserved_line_pattern(r"(?i:TODO):?\s(?:(.*?))"),
            Self::AbridgedTodo => build_strict_reserved_line_pattern(r"(?i:TODO)"),
            Self::MultilineTodo => {
                let mut p = build_strict_reserved_line_pattern(r"(?i:TODO):");
                p.append(r"(?s:(.*?)):(?i:TODO)");
                p
            },
        }
    }

    pub fn incompatible_modifiers(&self) -> (r: ModifiersBucket)
        ensures
            r@ == self.spec_incompatible_modifiers(),
    {
        match self {
            Self::Image => Bucket::All,
            Self::AbridgedImage => Bucket::All,
            Self::MultiImage => Bucket::All,
            Self::CodeBlock => Bucket::All,
            Self::CommentBlock => Bucket::All,
            Self::MathBlock => Bucket::All,
            _ => Bucket::Nothing,
        }
    }
}

/// The length, the first and the second-to-last characters of an identifier:
/// enough to tell the identifiers of the modifiers apart.
pub open spec fn identifier_key(id: Seq<char>) -> (nat, char, char) {
    (id.len(), id[0], id[id.len() - 2])
}

/// The key of the identifier of each modifier.
pub open spec fn modifier_key(m: StandardParagraphModifier) -> (nat, char, char) {
    match m {
        StandardParagraphModifier::List => (4, 'l', 's'),
        StandardParagraphModifier::ListItem => (9, 'l', 'e'),
        StandardParagraphModifier::Table => (5, 't', 'l'),
        StandardParagraphModifier::Image => (5, 'i', 'g'),
        StandardParagraphModifier::AbridgedImage => (14, 'a', 'g'),
        StandardParagraphModifier::MultiImage => (11, 'm', 'g'),
        StandardParagraphModifier::CodeBlock => (10, 'c', 'c'),
        StandardParagraphModifier::CommentBlock => (13, 'c', 'c'),
        StandardParagraphModifier::ExtendedBlockQuote => (20, 'e', 't'),
        StandardParagraphModifier::ExtendedBlockQuoteLine => (25, 'e', 'n'),
        StandardParagraphModifier::FocusBlock => (11, 'f', 'c'),
        StandardParagraphModifier::MathBlock => (10, 'm', 'c'),
        StandardParagraphModifier::LineBreakDash => (15, 'l', 's'),
        StandardParagraphModifier::LineBreakStar => (15, 'l', 'a'),
        StandardParagraphModifier::LineBreakPlus => (15, 'l', 'u'),
        StandardParagraphModifier::CommonParagraph => (16, 'c', 'p'),
        StandardParagraphModifier::EmbeddedParagraphStyle => (24, 'e', 'l'),
        StandardParagraphModifier::ParagraphIdentifier => (20, 'p', 'e'),
        StandardParagraphModifier::PageBreak => (10, 'p', 'a'),
        StandardParagraphModifier::Todo => (4, 't', 'd'),
        StandardParagraphModifier::AbridgedTodo => (13, 'a', 'd'),
        StandardParagraphModifier::MultilineTodo => (14, 'm', 'd'),
    }
}

proof fn lemma_identifier_key(m: StandardParagraphModifier)
    ensures
        identifier_key(m.spec_identifier()) == modifier_key(m),
{
    match m {
        StandardParagraphModifier::List => reveal_strlit("list"),
        StandardParagraphModifier::ListItem => reveal_strlit("list-item"),
        StandardParagraphModifier::Table => reveal_strlit("table"),
        StandardParagraphModifier::Image => reveal_strlit("image"),
        StandardParagraphModifier::AbridgedImage => reveal_strlit("abridged-image"),
        StandardParagraphModifier::MultiImage => reveal_strlit("multi-image"),
        StandardParagraphModifier::CodeBlock => reveal_strlit("code-block"),
        StandardParagraphModifier::CommentBlock => reveal_strlit("comment-block"),
        StandardParagraphModifier::ExtendedBlockQuote => reveal_strlit("extended-block-quote"),
        StandardParagraphModifier::ExtendedBlockQuoteLine => reveal_strlit("extended-block-quote-line"),
        StandardParagraphModifier::FocusBlock => reveal_strlit("focus-block"),
        StandardParagraphModifier::MathBlock => reveal_strlit("math-block"),
        StandardParagraphModifier::LineBreakDash => reveal_strlit("line-break-dash"),
        StandardParagraphModifier::LineBreakStar => reveal_strlit("line-break-star"),
        StandardParagraphModifier::LineBreakPlus => reveal_strlit("line-break-plus"),
        StandardParagraphModifier::CommonParagraph => reveal_strlit("common-paragraph"),
        StandardParagraphModifier::EmbeddedParagraphStyle => reveal_strlit("embedded-paragraph-style"),
        StandardParagraphModifier::ParagraphIdentifier => reveal_strlit("paragraph-identifier"),
        StandardParagraphModifier::PageBreak => reveal_strlit("page-break"),
        StandardParagraphModifier::Todo => reveal_strlit("todo"),
        StandardParagraphModifier::AbridgedTodo => reveal_strlit("abridged-todo"),
        StandardParagraphModifier::MultilineTodo => reveal_strlit("multiline-todo"),
    }
}

/// Distinct modifiers have distinct identifiers, so identifiers can key a codex.
pub proof fn lemma_identifiers_distinct(a: StandardParagraphModifier, b: StandardParagraphModifier)
    requires
        a != b,
    ensures
        a.spec_identifier() != b.spec_identifier(),
{
    lemma_identifier_key(a);
    lemma_identifier_key(b);
}

} // verus!
