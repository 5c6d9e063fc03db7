//! The modifiers of inline text: emphasis, code, references and the like.

use vstd::prelude::*;
use crate::resource::bucket::{Bucket, BucketView};
use super::{ModifierIdentifier, ModifierPattern, ModifiersBucket};
use super::constants::{ABRIDGED_STYLE_PATTERN, IDENTIFIER_PATTERN, NEW_LINE_PATTERN, STYLE_PATTERN};

verus! {

/// The standard inline text modifiers.
#[derive(Debug, Clone, Copy, PartialEq, Eq, Structural)]
pub enum StandardTextModifier {
    BoldStarVersion,
    BoldUnderscoreVersion,
    ItalicStarVersion,
    ItalicUnderscoreVersion,
    Strikethrough,
    Underlined,
    Link,
    AbridgedEmbeddedStyle,
    EmbeddedStyle,
    Identifier,
    Highlight,
    Emoji,
    Superscript,
    Subscript,
    InlineCode,
    InlineMath,
    Comment,
    AbridgedBookmark,
    Bookmark,
    Todo,
    Checkbox,
    CheckboxChecked,
    GreekLetter,
    Escape,
    Reference,
    Cite,
}

impl StandardTextModifier {
    /// The modifiers in the order in which they must be applied.
    pub open spec fn spec_ordered() -> Seq<StandardTextModifier> {
        seq![
            StandardTextModifier::InlineCode,
            StandardTextModifier::InlineMath,
            StandardTextModifier::Comment,
            StandardTextModifier::GreekLetter,
            StandardTextModifier::Todo,
            StandardTextModifier::Bookmark,
            StandardTextModifier::AbridgedBookmark,
            StandardTextModifier::EmbeddedStyle,
            StandardTextModifier::AbridgedEmbeddedStyle,
            StandardTextModifier::Identifier,
            StandardTextModifier::Highlight,
            StandardTextModifier::BoldStarVersion,
            StandardTextModifier::BoldUnderscoreVersion,
            StandardTextModifier::ItalicStarVersion,
            StandardTextModifier::ItalicUnderscoreVersion,
            StandardTextModifier::Strikethrough,
            StandardTextModifier::Underlined,
            StandardTextModifier::Superscript,
            StandardTextModifier::Subscript,
            StandardTextModifier::Link,
            StandardTextModifier::Checkbox,
            StandardTextModifier::CheckboxChecked,
            StandardTextModifier::Emoji,
            StandardTextModifier::Escape,
            StandardTextModifier::Reference,
            StandardTextModifier::Cite,
        ]
    }

    pub open spec fn spec_identifier(self) -> Seq<char> {
        match self {
            StandardTextModifier::BoldStarVersion => "bold-star-version"@,
            StandardTextModifier::BoldUnderscoreVersion => "bold-underscore-version"@,
            StandardTextModifier::ItalicStarVersion => "italic-star-version"@,
            StandardTextModifier::ItalicUnderscoreVersion => "italic-underscore-version"@,
            StandardTextModifier::Strikethrough => "strikethrough"@,
            StandardTextModifier::Underlined => "underlined"@,
            StandardTextModifier::Link => "link"@,
            StandardTextModifier::AbridgedEmbeddedStyle => "abridged-embedded-style"@,
            StandardTextModifier::EmbeddedStyle => "embedded-style"@,
            StandardTextModifier::Identifier => "identifier"@,
            StandardTextModifier::Highlight => "highlight"@,
            StandardTextModifier::Emoji => "emoji"@,
            StandardTextModifier::Superscript => "superscript"@,
            StandardTextModifier::Subscript => "subscript"@,
            StandardTextModifier::InlineCode => "inline-code"@,
            StandardTextModifier::InlineMath => "inline-math"@,
            StandardTextModifier::Comment => "comment"@,
            StandardTextModifier::AbridgedBookmark => "abridged-bookmark"@,
            StandardTextModifier::Bookmark => "bookmark"@,
            StandardTextModifier::Todo => "todo"@,
            StandardTextModifier::Checkbox => "checkbox"@,
            StandardTextModifier::CheckboxChecked => "checkbox-checked"@,
            StandardTextModifier::GreekLetter => "greek-letter"@,
            StandardTextModifier::Escape => "escape"@,
            StandardTextModifier::Reference => "reference"@,
            StandardTextModifier::Cite => "cite"@,
        }
    }

    pub open spec fn spec_modifier_pattern(self) -> Seq<char> {
        match self {
            StandardTextModifier::BoldStarVersion => r"\*\*(.*?)\*\*"@,
            StandardTextModifier::BoldUnderscoreVersion => r"__(.*?)__"@,
            StandardTextModifier::ItalicStarVersion => r"\*(.*?)\*"@,
            StandardTextModifier::ItalicUnderscoreVersion => r"_(.*?)_"@,
            StandardTextModifier::Strikethrough => r"~~(.*?)~~"@,
            StandardTextModifier::Underlined => r"\+\+(.*?)\+\+"@,
            StandardTextModifier::Link => r"\[([^\]]+)\]\(([^)]+)\)"@,
            StandardTextModifier::AbridgedEmbeddedStyle => r"\[([^\]\n]*?)\]"@ + NEW_LINE_PATTERN@ + r"?(?:"@ + IDENTIFIER_PATTERN@ + r")?"@ + NEW_LINE_PATTERN@ + r"?\{"@ + ABRIDGED_STYLE_PATTERN@ + r"\}"@,
            StandardTextModifier::EmbeddedStyle => r"\[([^\]\n]*?)\]"@ + NEW_LINE_PATTERN@ + r"?(?:"@ + IDENTIFIER_PATTERN@ + r")?"@ + NEW_LINE_PATTERN@ + r"?\{\{"@ + STYLE_PATTERN@ + r"\}\}"@,
            StandardTextModifier::Identifier => r"\[(.*?)\]"@ + NEW_LINE_PATTERN@ + r"?#([\w-]*)"@,
            StandardTextModifier::Highlight => r"==(.*)=="@,
            StandardTextModifier::Emoji => r":(\w*):"@,
            StandardTextModifier::Superscript => r"\^(.*)\^"@,
            StandardTextModifier::Subscript => r"~(.*)~"@,
            StandardTextModifier::InlineCode => r"`(.*?)`"@,
            StandardTextModifier::InlineMath => r"\$([^$]+)\$"@,
            StandardTextModifier::Comment => r"^//(.*)"@,
            StandardTextModifier::AbridgedBookmark => r"@\[([^\]]*?)\](?:"@ + IDENTIFIER_PATTERN@ + r")?"@,
            StandardTextModifier::Bookmark => r"@\[([^\]]*?)\](?:"@ + IDENTIFIER_PATTERN@ + r")?\((?s:(.*?))\)"@,
            StandardTextModifier::Todo => r"@\[(?i:TODO)\]\((?s:(.*?))\)"@,
            StandardTextModifier::Checkbox => r"(\[\]|\[ \])"@,
            StandardTextModifier::CheckboxChecked => r"(\[x\]|\[X\])"@,
            StandardTextModifier::GreekLetter => r"%(\w*?)%"@,
            StandardTextModifier::Escape => r"\\([\*\+\\~%\^\$@=\[\]!<>\{\}\(\)#-_\|\?&]+)"@,
            StandardTextModifier::Reference => r"&([\w-]+)&"@,
            StandardTextModifier::Cite => r"\^\[([\w_]+)\]"@,
        }
    }

    pub open spec fn spec_incompatible_modifiers(self) -> BucketView {
        match self {
            StandardTextModifier::Emoji => BucketView::All,
            StandardTextModifier::InlineCode => BucketView::All,
            StandardTextModifier::InlineMath => BucketView::All,
            StandardTextModifier::GreekLetter => BucketView::All,
            StandardTextModifier::Escape => BucketView::All,
            StandardTextModifier::Reference => BucketView::All,
            StandardTextModifier::Cite => BucketView::All,
            _ => BucketView::Nothing,
        }
    }

    /// The modifiers in compatibility order: a modifier comes before those
    /// that may appear inside it.
    pub fn ordered() -> (r: Vec<Self>)
        ensures
            r@ == Self::spec_ordered(),
    {
        let r = vec![
            Self::InlineCode,
            Self::InlineMath,
            Self::Comment,
            Self::GreekLetter,
            Self::Todo,
            Self::Bookmark,
            Self::AbridgedBookmark,
            Self::EmbeddedStyle,
            Self::AbridgedEmbeddedStyle,
            Self::Identifier,
            Self::Highlight,
            Self::BoldStarVersion,
            Self::BoldUnderscoreVersion,
            Self::ItalicStarVersion,
            Self::ItalicUnderscoreVersion,
            Self::Strikethrough,
            Self::Underlined,
            Self::Superscript,
            Self::Subscript,
            Self::Link,
            Self::Checkbox,
            Self::CheckboxChecked,
            Self::Emoji,
            Self::Escape,
            Self::Reference,
            Self::Cite,
        ];
        assert(r@ =~= Self::spec_ordered());
        r
    }

    pub fn identifier(&self) -> (r: ModifierIdentifier)
        ensures
            r@ == self.spec_identifier(),
    {
        match self {
            Self::BoldStarVersion => String::from_str("bold-star-version"),
            Self::BoldUnderscoreVersion => String::from_str("bold-underscore-version"),
            Self::ItalicStarVersion => String::from_str("italic-star-version"),
            Self::ItalicUnderscoreVersion => String::from_str("italic-underscore-version"),
            Self::Strikethrough => String::from_str("strikethrough"),
            Self::Underlined => String::from_str("underlined"),
            Self::Link => String::from_str("link"),
            Self::AbridgedEmbeddedStyle => String::from_str("abridged-embedded-style"),
            Self::EmbeddedStyle => String::from_str("embedded-style"),
            Self::Identifier => String::from_str("identifier"),
            Self::Highlight => String::from_str("highlight"),
            Self::Emoji => String::from_str("emoji"),
            Self::Superscript => String::from_str("superscript"),
            Self::Subscript => String::from_str("subscript"),
            Self::InlineCode => String::from_str("inline-code"),
            Self::InlineMath => String::from_str("inline-math"),
            Self::Comment => String::from_str("comment"),
            Self::AbridgedBookmark => String::from_str("abridged-bookmark"),
            Self::Bookmark => String::from_str("bookmark"),
            Self::Todo => String::from_str("todo"),
            Self::Checkbox => String::from_str("checkbox"),
            Self::CheckboxChecked => String::from_str("checkbox-checked"),
            Self::GreekLetter => String::from_str("greek-letter"),
            Self::Escape => String::from_str("escape"),
            Self::Reference => String::from_str("reference"),
            Self::Cite => String::from_str("cite"),
        }
    }

    pub fn modifier_pattern(&self) -> (r: ModifierPattern)
        ensures
            r@ == self.spec_modifier_pattern(),
    {
        match self {
            Self::BoldStarVersion => String::from_str(r"\*\*(.*?)\*\*"),
            Self::BoldUnderscoreVersion => String::from_str(r"__(.*?)__"),
            Self::ItalicStarVersion => String::from_str(r"\*(.*?)\*"),
            Self::ItalicUnderscoreVersion => String::from_str(r"_(.*?)_"),
            Self::Strikethrough => String::from_str(r"~~(.*?)~~"),
            Self::Underlined => String::from_str(r"\+\+(.*?)\+\+"),
            Self::Link => String::from_str(r"\[([^\]]+)\]\(([^)]+)\)"),
            Self::AbridgedEmbeddedStyle => {
                let mut p = String::from_str(r"\[([^\]\n]*?)\]");
                p.append(NEW_LINE_PATTERN);
                p.append(r"?(?:");
                p.append(IDENTIFIER_PATTERN);
                p.append(r")?");
                p.append(NEW_LINE_PATTERN);
                p.append(r"?\{");
                p.append(ABRIDGED_STYLE_PATTERN);
                p.append(r"\}");
                p
            },
            Self::EmbeddedStyle => {
                let mut p = String::from_str(r"\[([^\]\n]*?)\]");
                p.append(NEW_LINE_PATTERN);
                p.append(r"?(?:");
                p.append(IDENTIFIER_PATTERN);
                p.append(r")?");
                p.append(NEW_LINE_PATTERN);
                p.append(r"?\{\{");
                p.append(STYLE_PATTERN);
                p.append(r"\}\}");
                p
            },
            Self::Identifier => {
                let mut p = String::from_str(r"\[(.*?)\]");
                p.append(NEW_LINE_PATTERN);
                p.append(r"?#([\w-]*)");
                p
            },
            Self::Highlight => String::from_str(r"==(.*)=="),
            Self::Emoji => String::from_str(r":(\w*):"),
            Self::Superscript => String::from_str(r"\^(.*)\^"),
            Self::Subscript => String::from_str(r"~(.*)~"),
            Self::InlineCode => String::from_str(r"`(.*?)`"),
            Self::InlineMath => String::from_str(r"\$([^$]+)\$"),
            Self::Comment => String::from_str(r"^//(.*)"),
            Self::AbridgedBookmark => {
                let mut p = String::from_str(r"@\[([^\]]*?)\](?:");
                p.append(IDENTIFIER_PATTERN);
                p.append(r")?");
                p
            },
            Self::Bookmark => {
                let mut p = String::from_str(r"@\[([^\]]*?)\](?:");
                p.append(IDENTIFIER_PATTERN);
                p.append(r")?\((?s:(.*?))\)");
                p
            },
            Self::Todo => String::from_str(r"@\[(?i:TODO)\]\((?s:(.*?))\)"),
            Self::Checkbox => String::from_str(r"(\[\]|\[ \])"),
            Self::CheckboxChecked => String::from_str(r"(\[x\]|\[X\])"),
            Self::GreekLetter => String::from_str(r"%(\w*?)%"),
            Self::Escape => String::from_str(r"\\([\*\+\\~%\^\$@=\[\]!<>\{\}\(\)#-_\|\?&]+)"),
            Self::Reference => String::from_str(r"&([\w-]+)&"),
            Self::Cite => String::from_str(r"\^\[([\w_]+)\]"),
        }
    }

    pub fn incompatible_modifiers(&self) -> (r: ModifiersBucket)
        ensures
            r@ == self.spec_incompatible_modifiers(),
    {
        match self {
            Self::Emoji => Bucket::All,
            Self::InlineCode => Bucket::All,
            Self::InlineMath => Bucket::All,
            Self::GreekLetter => Bucket::All,
            Self::Escape => Bucket::All,
            Self::Reference => Bucket::All,
            Self::Cite => Bucket::All,
            _ => Bucket::Nothing,
        }
    }
}

/// The length, the first and the second-to-last characters of an identifier:
/// enough to tell the identifiers of the modifiers apart.
pub open spec fn identifier_key(id: Seq<char>) -> (nat, char, char) {
    (id.len(), id[0], id[id.len() - 2])
}

/// The key of the identifier of each modifier.
pub open spec fn modifier_key(m: StandardTextModifier) -> (nat, char, char) {
    match m {
        StandardTextModifier::BoldStarVersion => (17, 'b', 'o'),
        StandardTextModifier::BoldUnderscoreVersion => (23, 'b', 'o'),
        StandardTextModifier::ItalicStarVersion => (19, 'i', 'o'),
        StandardTextModifier::ItalicUnderscoreVersion => (25, 'i', 'o'),
        StandardTextModifier::Strikethrough => (13, 's', 'g'),
        StandardTextModifier::Underlined => (10, 'u', 'e'),
        StandardTextModifier::Link => (4, 'l', 'n'),
        StandardTextModifier::AbridgedEmbeddedStyle => (23, 'a', 'l'),
        StandardTextModifier::EmbeddedStyle => (14, 'e', 'l'),
        StandardTextModifier::Identifier => (10, 'i', 'e'),
        StandardTextModifier::Highlight => (9, 'h', 'h'),
        StandardTextModifier::Emoji => (5, 'e', 'j'),
        StandardTextModifier::Superscript => (11, 's', 'p'),
        StandardTextModifier::Subscript => (9, 's', 'p'),
        StandardTextModifier::InlineCode => (11, 'i', 'd'),
        StandardTextModifier::InlineMath => (11, 'i', 't'),
        StandardTextModifier::Comment => (7, 'c', 'n'),
        StandardTextModifier::AbridgedBookmark => (17, 'a', 'r'),
        StandardTextModifier::Bookmark => (8, 'b', 'r'),
        StandardTextModifier::Todo => (4, 't', 'd'),
        StandardTextModifier::Checkbox => (8, 'c', 'o'),
        StandardTextModifier::CheckboxChecked => (16, 'c', 'e'),
        StandardTextModifier::GreekLetter => (12, 'g', 'e'),
        StandardTextModifier::Escape => (6, 'e', 'p'),
        StandardTextModifier::Reference => (9, 'r', 'c'),
        StandardTextModifier::Cite => (4, 'c', 't'),
    }
}

proof fn lemma_identifier_key(m: StandardTextModifier)
    ensures
        identifier_key(m.spec_identifier()) == modifier_key(m),
{
    match m {
        StandardTextModifier::BoldStarVersion => reveal_strlit("bold-star-version"),
        StandardTextModifier::BoldUnderscoreVersion => reveal_strlit("bold-underscore-version"),
        StandardTextModifier::ItalicStarVersion => reveal_strlit("italic-star-version"),
        StandardTextModifier::ItalicUnderscoreVersion => reveal_strlit("italic-underscore-version"),
        StandardTextModifier::Strikethrough => reveal_strlit("strikethrough"),
        StandardTextModifier::Underlined => reveal_strlit("underlined"),
        StandardTextModifier::Link => reveal_strlit("link"),
        StandardTextModifier::AbridgedEmbeddedStyle => reveal_strlit("abridged-embedded-style"),
        StandardTextModifier::EmbeddedStyle => reveal_strlit("embedded-style"),
        StandardTextModifier::Identifier => reveal_strlit("identifier"),
        StandardTextModifier::Highlight => reveal_strlit("highlight"),
        StandardTextModifier::Emoji => reveal_strlit("emoji"),
        StandardTextModifier::Superscript => reveal_strlit("superscript"),
        StandardTextModifier::Subscript => reveal_strlit("subscript"),
        StandardTextModifier::InlineCode => reveal_strlit("inline-code"),
        StandardTextModifier::InlineMath => reveal_strlit("inline-math"),
        StandardTextModifier::Comment => reveal_strlit("comment"),
        StandardTextModifier::AbridgedBookmark => reveal_strlit("abridged-bookmark"),
        StandardTextModifier::Bookmark => reveal_strlit("bookmark"),
        StandardTextModifier::Todo => reveal_strlit("todo"),
        StandardTextModifier::Checkbox => reveal_strlit("checkbox"),
        StandardTextModifier::CheckboxChecked => reveal_strlit("checkbox-checked"),
        StandardTextModifier::GreekLetter => reveal_strlit("greek-letter"),
        StandardTextModifier::Escape => reveal_strlit("escape"),
        StandardTextModifier::Reference => reveal_strlit("reference"),
        StandardTextModifier::Cite => reveal_strlit("cite"),
    }
}

/// Distinct modifiers have distinct identifiers, so identifiers can key a codex.
pub proof fn lemma_identifiers_distinct(a: StandardTextModifier, b: StandardTextModifier)
    requires
        a != b,
    ensures
        a.spec_identifier() != b.spec_identifier(),
{
    lemma_identifier_key(a);
    lemma_identifier_key(b);
}
/// The modifiers whose text is taken as written, and that no other modifier
/// may rewrite, are exactly inline code, inline math, emoji, greek letters,
/// escapes, references and citations; every other modifier lets all the
/// others apply inside it.
pub proof fn lemma_verbatim_modifiers(m: StandardTextModifier)
    ensures
        m.spec_incompatible_modifiers() == BucketView::All || m.spec_incompatible_modifiers()
            == BucketView::Nothing,
        m.spec_incompatible_modifiers() == BucketView::All <==> (m == StandardTextModifier::InlineCode
            || m == StandardTextModifier::InlineMath || m == StandardTextModifier::Emoji || m
            == StandardTextModifier::GreekLetter || m == StandardTextModifier::Escape || m
            == StandardTextModifier::Reference || m == StandardTextModifier::Cite),
{
}

/// The emphasis modifiers capture the text between their delimiters: `**x**`
/// and `__x__` (bold), `*x*` and `_x_` (italic), `~~x~~` (strikethrough),
/// `++x++` (underlined), `==x==` (highlight), `^x^` (superscript), `~x~`
/// (subscript), `` `x` `` (inline code) and `$x$` (inline math).
pub proof fn lemma_emphasis_patterns()
    ensures
        StandardTextModifier::BoldStarVersion.spec_modifier_pattern() == r"\*\*(.*?)\*\*"@,
        StandardTextModifier::BoldUnderscoreVersion.spec_modifier_pattern() == r"__(.*?)__"@,
        StandardTextModifier::ItalicStarVersion.spec_modifier_pattern() == r"\*(.*?)\*"@,
        StandardTextModifier::ItalicUnderscoreVersion.spec_modifier_pattern() == r"_(.*?)_"@,
        StandardTextModifier::Strikethrough.spec_modifier_pattern() == r"~~(.*?)~~"@,
        StandardTextModifier::Underlined.spec_modifier_pattern() == r"\+\+(.*?)\+\+"@,
        StandardTextModifier::Highlight.spec_modifier_pattern() == r"==(.*)=="@,
        StandardTextModifier::Superscript.spec_modifier_pattern() == r"\^(.*)\^"@,
        StandardTextModifier::Subscript.spec_modifier_pattern() == r"~(.*)~"@,
        StandardTextModifier::InlineCode.spec_modifier_pattern() == r"`(.*?)`"@,
        StandardTextModifier::InlineMath.spec_modifier_pattern() == r"\$([^$]+)\$"@,
{
}

/// Where a modifier stands in the compatibility order.
pub open spec fn ordered_position(m: StandardTextModifier) -> int {
    match m {
        StandardTextModifier::InlineCode => 0,
        StandardTextModifier::InlineMath => 1,
        StandardTextModifier::Comment => 2,
        StandardTextModifier::GreekLetter => 3,
        StandardTextModifier::Todo => 4,
        StandardTextModifier::Bookmark => 5,
        StandardTextModifier::AbridgedBookmark => 6,
        StandardTextModifier::EmbeddedStyle => 7,
        StandardTextModifier::AbridgedEmbeddedStyle => 8,
        StandardTextModifier::Identifier => 9,
        StandardTextModifier::Highlight => 10,
        StandardTextModifier::BoldStarVersion => 11,
        StandardTextModifier::BoldUnderscoreVersion => 12,
        StandardTextModifier::ItalicStarVersion => 13,
        StandardTextModifier::ItalicUnderscoreVersion => 14,
        StandardTextModifier::Strikethrough => 15,
        StandardTextModifier::Underlined => 16,
        StandardTextModifier::Superscript => 17,
        StandardTextModifier::Subscript => 18,
        StandardTextModifier::Link => 19,
        StandardTextModifier::Checkbox => 20,
        StandardTextModifier::CheckboxChecked => 21,
        StandardTextModifier::Emoji => 22,
        StandardTextModifier::Escape => 23,
        StandardTextModifier::Reference => 24,
        StandardTextModifier::Cite => 25,
    }
}

/// The compatibility order lists every modifier exactly once.
pub proof fn lemma_ordered_lists_each_once(m: StandardTextModifier)
    ensures
        StandardTextModifier::spec_ordered().len() == 26,
        StandardTextModifier::spec_ordered()[ordered_position(m)] == m,
        0 <= ordered_position(m) < 26,
        forall|i: int|
            0 <= i < StandardTextModifier::spec_ordered().len() ==> ordered_position(
                #[trigger] StandardTextModifier::spec_ordered()[i],
            ) == i,
{
    let o = StandardTextModifier::spec_ordered();
    assert forall|i: int| 0 <= i < o.len() implies ordered_position(#[trigger] o[i]) == i by {
        if i == 0 {
            assert(ordered_position(o[0]) == 0);
        } else if i == 1 {
            assert(ordered_position(o[1]) == 1);
        } else if i == 2 {
            assert(ordered_position(o[2]) == 2);
        } else if i == 3 {
            assert(ordered_position(o[3]) == 3);
        } else if i == 4 {
            assert(ordered_position(o[4]) == 4);
        } else if i == 5 {
            assert(ordered_position(o[5]) == 5);
        } else if i == 6 {
            assert(ordered_position(o[6]) == 6);
        } else if i == 7 {
            assert(ordered_position(o[7]) == 7);
        } else if i == 8 {
            assert(ordered_position(o[8]) == 8);
        } else if i == 9 {
            assert(ordered_position(o[9]) == 9);
        } else if i == 10 {
            assert(ordered_position(o[10]) == 10);
        } else if i == 11 {
            assert(ordered_position(o[11]) == 11);
        } else if i == 12 {
            assert(ordered_position(o[12]) == 12);
        } else if i == 13 {
            assert(ordered_position(o[13]) == 13);
        } else if i == 14 {
            assert(ordered_position(o[14]) == 14);
        } else if i == 15 {
            assert(ordered_position(o[15]) == 15);
        } else if i == 16 {
            assert(ordered_position(o[16]) == 16);
        } else if i == 17 {
            assert(ordered_position(o[17]) == 17);
        } else if i == 18 {
            assert(ordered_position(o[18]) == 18);
        } else if i == 19 {
            assert(ordered_position(o[19]) == 19);
        } else if i == 20 {
            assert(ordered_position(o[20]) == 20);
        } else if i == 21 {
            assert(ordered_position(o[21]) == 21);
        } else if i == 22 {
            assert(ordered_position(o[22]) == 22);
        } else if i == 23 {
            assert(ordered_position(o[23]) == 23);
        } else if i == 24 {
            assert(ordered_position(o[24]) == 24);
        } else if i == 25 {
            assert(ordered_position(o[25]) == 25);
        }
    }
}

} // verus!
