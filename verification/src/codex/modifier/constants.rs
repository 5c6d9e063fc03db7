//! Pattern fragments shared by the modifiers.

use vstd::prelude::*;

verus! {

/// A line that holds only `delimiter`, surrounded by spaces or tabs.
pub open spec fn strict_reserved_line_pattern(delimiter: Seq<char>) -> Seq<char> {
    r"(?m)^[ \t]*"@ + delimiter + r"[ \t]*$"@
}

/// Pattern of a line that holds only `delimiter`, surrounded by spaces or tabs.
pub fn build_strict_reserved_line_pattern(delimiter: &str) -> (r: String)
    ensures
        r@ == strict_reserved_line_pattern(delimiter@),
{
    let mut pattern = String::from_str(r"(?m)^[ \t]*");
    pattern.append(delimiter);
    pattern.append(r"[ \t]*$");
    pattern
}

pub const CHAPTER_TAGS_PATTERN: &'static str = r"(?:\r?\n@(.*))*";

pub const CHAPTER_STYLE_PATTERN: &'static str = r"(\r?\n\{(?s:(.*))\})?";

pub const IDENTIFIER_PATTERN: &'static str = r"#([\w-]+)";

pub const NEW_LINE_PATTERN: &'static str = r"(?:\n|\r\n)";

/// The line ending written into compiled text.
pub const NEW_LINE: &'static str = "\n";

pub const MULTI_LINES_CONTENT_PATTERN: &'static str = r"([\s\S]*?)";

pub const MULTI_LINES_CONTENT_EXCLUDING_HEADINGS_PATTERN: &'static str = r"(?m)^([^#\n][\s\S]*?)";

/// The deepest heading level.
pub const MAX_HEADING_LEVEL: u32 = 6;

pub const STYLE_PATTERN: &'static str = r"([^{}]*(?:\.(?:\w+|\d+)\s*|(?:\w+\s*:\s*[^;{}]+\s*;?))*)";

pub const ABRIDGED_STYLE_PATTERN: &'static str = r"((#?[\w\d\-]+)?;(#?[\w\d\-]+)?;?([\w\d\-]+)?)";

} // verus!
