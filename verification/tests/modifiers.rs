use nmd_core::codex::modifier::constants::build_strict_reserved_line_pattern;
use nmd_core::codex::modifier::standard_heading_modifier::StandardHeading;
use nmd_core::codex::modifier::standard_paragraph_modifier::StandardParagraphModifier;
use nmd_core::codex::modifier::standard_text_modifier::StandardTextModifier;
use nmd_core::resource::bucket::Bucket;
use regex::Regex;

#[test]
fn match_list() {
    let regex = Regex::new(StandardParagraphModifier::List.modifier_pattern().as_str()).unwrap();

    let list = String::from("\n") + "\n" + "- [Element 1](#element-1)" + "- [Element 2](#element-2)" + "\n" + "\n";

    assert!(regex.is_match(&list));
}

#[test]
fn text_modifier_patterns_expand_their_fragments() {
    assert_eq!(StandardTextModifier::AbridgedBookmark.modifier_pattern(), r"@\[([^\]]*?)\](?:#([\w-]+))?");
    assert_eq!(
        StandardTextModifier::AbridgedEmbeddedStyle.modifier_pattern(),
        r"\[([^\]\n]*?)\](?:\n|\r\n)?(?:#([\w-]+))?(?:\n|\r\n)?\{((#?[\w\d\-]+)?;(#?[\w\d\-]+)?;?([\w\d\-]+)?)\}"
    );
    assert_eq!(StandardTextModifier::BoldStarVersion.identifier(), "bold-star-version");
    assert!(matches!(StandardTextModifier::Escape.incompatible_modifiers(), Bucket::All));
    assert!(matches!(StandardTextModifier::Todo.incompatible_modifiers(), Bucket::Nothing));
    let ordered = StandardTextModifier::ordered();
    assert_eq!(ordered.len(), 26);
    assert_eq!(ordered[0], StandardTextModifier::InlineCode);
    assert_eq!(ordered[25], StandardTextModifier::Cite);
    for m in &ordered {
        assert!(Regex::new(m.modifier_pattern().as_str()).is_ok());
    }
}

#[test]
fn paragraph_modifier_patterns_expand_their_fragments() {
    assert_eq!(build_strict_reserved_line_pattern("```"), r"(?m)^[ \t]*```[ \t]*$");
    assert_eq!(
        StandardParagraphModifier::MathBlock.modifier_pattern(),
        r"(?m)^[ \t]*\$\$[ \t]*$([\s\S]*?)(?m)^[ \t]*\$\$[ \t]*$"
    );
    assert_eq!(StandardParagraphModifier::PageBreak.identifier(), "page-break");
    assert!(matches!(StandardParagraphModifier::CodeBlock.incompatible_modifiers(), Bucket::All));
    let ordered = StandardParagraphModifier::ordered();
    assert_eq!(ordered.len(), 19);
    for m in &ordered {
        assert!(Regex::new(m.modifier_pattern().as_str()).is_ok());
    }
}

#[test]
fn heading_identifiers_and_patterns() {
    assert_eq!(StandardHeading::HeadingGeneralExtendedVersion(2).identifier(), "heading-2-extended-version");
    assert_eq!(StandardHeading::HeadingGeneralCompactVersion(5).identifier(), "heading-5-compact-version");
    assert_eq!(StandardHeading::MinorHeading.identifier(), "minor-heading");
    assert_eq!(
        StandardHeading::HeadingGeneralExtendedVersion(2).modifier_pattern(),
        r"(?m:^#{2}\s+(.*))(?:\r?\n@(.*))*(\r?\n\{(?s:(.*))\})?"
    );
    assert_eq!(
        StandardHeading::HeadingGeneralCompactVersion(3).modifier_pattern(),
        r"(?m:^#(3)\s+(.*))(?:\r?\n@(.*))*(\r?\n\{(?s:(.*))\})?"
    );
    let ordered = StandardHeading::ordered();
    assert_eq!(ordered.len(), 15);
    assert_eq!(ordered[3], StandardHeading::HeadingGeneralExtendedVersion(6));
    assert_eq!(ordered[14], StandardHeading::HeadingGeneralCompactVersion(1));
}

#[test]
fn heading_levels() {
    assert_eq!(StandardHeading::heading_level("# title"), Some(1));
    assert_eq!(StandardHeading::heading_level("### title"), Some(3));
    assert_eq!(StandardHeading::heading_level("#4 title"), Some(4));
    assert_eq!(StandardHeading::heading_level("####### title"), None);
    assert_eq!(StandardHeading::heading_level("plain text"), None);
    assert!(StandardHeading::str_is_heading("###### six"));
    assert!(!StandardHeading::str_is_heading("no heading"));
    assert_eq!(StandardHeading::checked_heading_level("## two"), Some(Some(2)));
    assert_eq!(StandardHeading::checked_heading_level("#- minor"), None);
    assert_eq!(StandardHeading::checked_str_is_heading("#= same"), None);
    assert_eq!(StandardHeading::checked_str_is_heading("text"), Some(false));
}

#[test]
fn identifiers_are_distinct_and_ordered_lists_each_modifier_once() {
    let ordered = StandardTextModifier::ordered();
    let mut ids: Vec<String> = ordered.iter().map(|m| m.identifier()).collect();
    ids.sort();
    ids.dedup();
    assert_eq!(ids.len(), 26);
    let ordered = StandardParagraphModifier::ordered();
    let mut ids: Vec<String> = ordered.iter().map(|m| m.identifier()).collect();
    ids.sort();
    ids.dedup();
    assert_eq!(ids.len(), 19);
    assert_ne!(StandardParagraphModifier::List.identifier(), StandardParagraphModifier::ListItem.identifier());
}
