use nmd_core::codex::modifier::base_modifier::BaseModifier;
use nmd_core::codex::modifier::standard_text_modifier::StandardTextModifier;
use nmd_core::codex::modifier::ModifiersBucket;
use nmd_core::codex::{Codex, TextRule};
use nmd_core::compilable_text::compilable_text_part::CompilableTextPart;
use nmd_core::compilable_text::CompilableText;
use nmd_core::compiler::compilation_configuration::compilation_configuration_overlay::CompilationConfigurationOverLay;
use nmd_core::compiler::compilation_configuration::CompilationConfiguration;
use nmd_core::compiler::compilation_rule::replacement_rule::replacement_rule_part::fixed_replacement_rule_part::FixedReplacementRuleReplacerPart;
use nmd_core::compiler::compilation_rule::replacement_rule::replacement_rule_part::single_capture_group_replacement_rule_part::SingleCaptureGroupReplacementRuleReplacerPart;
use nmd_core::compiler::compilation_rule::replacement_rule::replacement_rule_part::ReplacementRuleReplacerPart;
use nmd_core::compiler::compilation_rule::replacement_rule::ReplacementRule;
use nmd_core::compiler::Compiler;
use nmd_core::output_format::OutputFormat;
use nmd_core::regex_engine::CompiledRegex;

fn bold_modifier() -> BaseModifier {
    let pattern = StandardTextModifier::BoldStarVersion.modifier_pattern();
    let regex = CompiledRegex::new(pattern.as_str()).unwrap();
    BaseModifier::new(pattern, regex, StandardTextModifier::BoldStarVersion.incompatible_modifiers())
}

#[test]
fn compiler_compile_fake_paragraph_with_bold_text() {
    let mut compilable_text = CompilableText::new(vec![
        CompilableTextPart::new_fixed(String::from("<p>")),
        CompilableTextPart::new_compilable(String::from("This is a **bold text**!"), ModifiersBucket::Nothing),
        CompilableTextPart::new_fixed(String::from(" &euro; ")),
        CompilableTextPart::new_compilable(String::from("**again"), ModifiersBucket::Nothing),
        CompilableTextPart::new_fixed(String::from(" &euro;")),
        CompilableTextPart::new_compilable(String::from("**"), ModifiersBucket::Nothing),
        CompilableTextPart::new_fixed(String::from("</p>")),
    ]);

    // the capture group is taken as it is: no replacement, no new incompatibility
    let codex = Codex::new(
        vec![(
        StandardTextModifier::BoldStarVersion.identifier(),
        (
            bold_modifier(),
            Some(TextRule::Replacement(ReplacementRule::new(
                StandardTextModifier::BoldStarVersion.modifier_pattern(),
                vec![
                    ReplacementRuleReplacerPart::Fixed(FixedReplacementRuleReplacerPart::new(String::from("<strong>"))),
                    ReplacementRuleReplacerPart::SingleCaptureGroup(SingleCaptureGroupReplacementRuleReplacerPart::new(
                        1,
                        Vec::new(),
                        ModifiersBucket::Nothing,
                    )),
                    ReplacementRuleReplacerPart::Fixed(FixedReplacementRuleReplacerPart::new(String::from("</strong>"))),
                ],
            ))),
        ),
    )],
        vec![],
        None,
    );

    Compiler::compile_compilable_text(
        &mut compilable_text,
        &OutputFormat::Html,
        &codex,
        &CompilationConfiguration::default(),
        &CompilationConfigurationOverLay::default(),
    )
    .unwrap();

    assert_eq!(
        compilable_text.content(),
        "<p>This is a <strong>bold text</strong>! &euro; <strong>again &euro;</strong></p>"
    )
}

#[test]
fn compiler_compile_nested_modifiers() {
    let mut codex = Codex::of_html();

    codex.retain(&vec![
        StandardTextModifier::BoldStarVersion.identifier(),
        StandardTextModifier::BoldUnderscoreVersion.identifier(),
        StandardTextModifier::ItalicStarVersion.identifier(),
        StandardTextModifier::ItalicUnderscoreVersion.identifier(),
        StandardTextModifier::InlineCode.identifier(),
    ]);

    let compilation_configuration = CompilationConfiguration::default();

    let content = "A piece of **bold text**, *italic text*, `a **(fake) bold text** which must be not parsed` and *nested **bold text***";

    let outcome = Compiler::compile_str(
        content,
        &OutputFormat::Html,
        &codex,
        &compilation_configuration,
        &CompilationConfigurationOverLay::default(),
    )
    .unwrap();

    assert_eq!(
        outcome.content(),
        String::from("A piece of ")
            + r#"<strong class="bold">bold text</strong>, "#
            + r#"<em class="italic">italic text</em>, "#
            + r#"<code class="language-markup inline-code">a **(fake) bold text** which must be not parsed</code>"#
            + r#" and "#
            + r#"<em class="italic">nested <strong class="bold">bold text</strong></em>"#
    );
}

#[test]
fn min_headers_lv_of_levels() {
    assert_eq!(Compiler::min_headers_lv(&vec![]), None);
    assert_eq!(Compiler::min_headers_lv(&vec![3, 1, 2]), Some(1));
    assert_eq!(Compiler::min_headers_lv(&vec![4]), Some(4));
}

#[test]
fn parts_incompatible_with_every_modifier_are_kept() {
    let codex = Codex::of_html();
    let mut text = CompilableText::new(vec![
        CompilableTextPart::new_compilable(String::from("**a** "), ModifiersBucket::Nothing),
        CompilableTextPart::new_compilable(String::from("**b**"), ModifiersBucket::All),
    ]);
    Compiler::compile_compilable_text(
        &mut text,
        &OutputFormat::Html,
        &codex,
        &CompilationConfiguration::default(),
        &CompilationConfigurationOverLay::default(),
    )
    .unwrap();
    assert_eq!(text.content(), r#"<strong class="bold">a</strong> **b**"#);
    assert!(text.parts().iter().any(|p| p.content() == "**b**"));
}

#[test]
fn a_failing_rule_error_comes_back_and_the_text_stays() {
    // the rule asks for a capture group that the bold pattern does not have
    let codex = Codex::new(
        vec![(
            StandardTextModifier::BoldStarVersion.identifier(),
            (
                bold_modifier(),
                Some(TextRule::Replacement(ReplacementRule::new(
                    StandardTextModifier::BoldStarVersion.modifier_pattern(),
                    vec![ReplacementRuleReplacerPart::SingleCaptureGroup(
                        SingleCaptureGroupReplacementRuleReplacerPart::new(7, Vec::new(), ModifiersBucket::Nothing),
                    )],
                ))),
            ),
        )],
        vec![],
        None,
    );
    let mut compilable_text = CompilableText::new(vec![CompilableTextPart::new_compilable(
        String::from("a **b** c"),
        ModifiersBucket::Nothing,
    )]);

    let outcome = Compiler::compile_compilable_text(
        &mut compilable_text,
        &OutputFormat::Html,
        &codex,
        &CompilationConfiguration::default(),
        &CompilationConfigurationOverLay::default(),
    );

    assert!(matches!(outcome, Err(nmd_core::compiler::compilation_error::CompilationError::ElaborationError)));
    assert_eq!(compilable_text.content(), "a **b** c");
}
