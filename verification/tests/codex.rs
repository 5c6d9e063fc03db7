use nmd_core::codex::modifier::standard_paragraph_modifier::StandardParagraphModifier;
use nmd_core::codex::modifier::base_modifier::BaseModifier;
use nmd_core::codex::modifier::standard_text_modifier::StandardTextModifier;
use nmd_core::codex::{Codex, TextRule};
use nmd_core::compiler::compilation_rule::replacement_rule::ReplacementRule;
use nmd_core::regex_engine::CompiledRegex;

fn entry(id: &str) -> (String, (BaseModifier, Option<TextRule>)) {
    let pattern = StandardTextModifier::BoldStarVersion.modifier_pattern();
    let regex = CompiledRegex::new(pattern.as_str()).unwrap();
    (
        String::from(id),
        (
            BaseModifier::new(pattern, regex, StandardTextModifier::BoldStarVersion.incompatible_modifiers()),
            Some(TextRule::Replacement(ReplacementRule::new(String::from("fake"), vec![]))),
        ),
    )
}

fn paragraph_entry(id: &str) -> (String, BaseModifier) {
    let pattern = StandardTextModifier::BoldStarVersion.modifier_pattern();
    let regex = CompiledRegex::new(pattern.as_str()).unwrap();
    (String::from(id), BaseModifier::new(pattern, regex, StandardTextModifier::BoldStarVersion.incompatible_modifiers()))
}

fn paragraph_ids(codex: &Codex) -> String {
    codex.paragraph_modifiers().iter().map(|e| e.0.clone()).collect::<Vec<String>>().join("")
}

fn ids(codex: &Codex) -> String {
    codex.text_modifiers().iter().map(|e| e.0.clone()).collect::<Vec<String>>().join("")
}

#[test]
fn correct_order() {
    let codex = Codex::new(
        vec![],
        vec![paragraph_entry("a"), paragraph_entry("b"), paragraph_entry("e"), paragraph_entry("c"), paragraph_entry("i")],
        None,
    );

    assert_eq!(paragraph_ids(&codex), "abeci");

    let codex = Codex::new(vec![entry("a"), entry("b"), entry("e"), entry("c"), entry("i")], vec![], None);
    assert_eq!(ids(&codex), "abeci");
}

#[test]
fn html_codex_order() {
    let codex = Codex::of_html();
    let order: Vec<String> = codex.text_modifiers().iter().map(|e| e.0.clone()).collect();
    assert_eq!(
        order,
        vec![
            "todo",
            "bookmark",
            "greek-letter",
            "abridged-bookmark",
            "embedded-style",
            "abridged-embedded-style",
            "identifier",
            "highlight",
            "inline-math",
            "inline-code",
            "bold-star-version",
            "bold-underscore-version",
            "italic-star-version",
            "italic-underscore-version",
            "strikethrough",
            "underlined",
            "superscript",
            "subscript",
            "link",
            "comment",
            "checkbox",
            "checkbox-checked",
            "emoji",
            "escape",
            "reference",
            "cite",
        ]
    );
    for e in codex.text_modifiers() {
        let m = StandardTextModifier::ordered().into_iter().find(|m| m.identifier() == e.0).unwrap();
        assert_eq!(e.1 .0.modifier_pattern(), &m.modifier_pattern());
    }
    let with_rules = codex.text_modifiers().iter().filter(|e| e.1 .1.is_some()).count();
    assert_eq!(with_rules, 18);
    let mut paragraph_ids: Vec<String> = codex.paragraph_modifiers().iter().map(|e| e.0.clone()).collect();
    assert_eq!(paragraph_ids.len(), 19);
    assert_eq!(paragraph_ids[16], "line-break-star");
    assert_eq!(
        codex.paragraph_modifiers()[16].1.modifier_pattern(),
        &StandardParagraphModifier::LineBreakStar.modifier_pattern()
    );
    assert_eq!(codex.paragraph_modifiers()[16].1.modifier_pattern(), r"(?m)^[ \t]*\*{3,}[ \t]*$");
    assert_eq!(codex.paragraph_modifiers()[17].1.modifier_pattern(), r"(?m)^[ \t]*\+{3,}[ \t]*$");
    paragraph_ids.sort();
    let mut expected: Vec<String> = StandardParagraphModifier::ordered().iter().map(|m| m.identifier()).collect();
    expected.sort();
    assert_eq!(paragraph_ids, expected);
    assert_eq!(codex.fallback_paragraph(), &Some(String::from("common-paragraph")));
    assert!(Codex::try_of_html().is_some());
}

#[test]
fn retain_keeps_listed_in_codex_order() {
    let mut codex = Codex::new(
        vec![entry("a"), entry("b"), entry("e"), entry("c"), entry("i")],
        vec![paragraph_entry("b"), paragraph_entry("z"), paragraph_entry("e")],
        Some(String::from("fallback")),
    );
    codex.retain(&vec![String::from("i"), String::from("b"), String::from("z")]);
    assert_eq!(ids(&codex), "bi");
    assert_eq!(paragraph_ids(&codex), "bz");
    assert_eq!(codex.fallback_paragraph(), &Some(String::from("fallback")));
}

#[test]
fn remove_drops_listed() {
    let mut codex = Codex::new(
        vec![entry("a"), entry("b"), entry("e"), entry("c"), entry("i")],
        vec![paragraph_entry("b"), paragraph_entry("z"), paragraph_entry("e")],
        Some(String::from("fallback")),
    );
    codex.remove(&vec![String::from("e"), String::from("a"), String::from("z")]);
    assert_eq!(ids(&codex), "bci");
    assert_eq!(paragraph_ids(&codex), "b");
}

#[test]
fn html_codex_repeats_no_identifier() {
    let codex = Codex::of_html();
    let text_ids: Vec<&String> = codex.text_modifiers().iter().map(|e| &e.0).collect();
    for (i, a) in text_ids.iter().enumerate() {
        for b in text_ids.iter().skip(i + 1) {
            assert_ne!(a, b);
        }
    }
    let paragraph_ids: Vec<&String> = codex.paragraph_modifiers().iter().map(|e| &e.0).collect();
    for (i, a) in paragraph_ids.iter().enumerate() {
        for b in paragraph_ids.iter().skip(i + 1) {
            assert_ne!(a, b);
        }
    }
}
