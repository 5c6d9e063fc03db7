use nmd_core::codex::modifier::standard_text_modifier::StandardTextModifier;
use nmd_core::codex::modifier::ModifiersBucket;
use nmd_core::compilable_text::compilable_text_part::{CompilableTextPart, CompilableTextPartType};
use nmd_core::compilable_text::CompilableText;
use nmd_core::compiler::compilation_configuration::compilation_configuration_overlay::CompilationConfigurationOverLay;
use nmd_core::compiler::compilation_configuration::CompilationConfiguration;
use nmd_core::compiler::compilation_rule::constants::escape_html;
use nmd_core::compiler::compilation_rule::replacement_rule::replacement_rule_part::fixed_replacement_rule_part::FixedReplacementRuleReplacerPart;
use nmd_core::compiler::compilation_rule::replacement_rule::replacement_rule_part::single_capture_group_replacement_rule_part::SingleCaptureGroupReplacementRuleReplacerPart;
use nmd_core::compiler::compilation_rule::replacement_rule::replacement_rule_part::ReplacementRuleReplacerPart;
use nmd_core::compiler::compilation_rule::replacement_rule::ReplacementRule;
use nmd_core::compiler::compilation_rule::CompilationRule;
use nmd_core::output_format::OutputFormat;

fn fixed(content: &str) -> ReplacementRuleReplacerPart {
    ReplacementRuleReplacerPart::Fixed(FixedReplacementRuleReplacerPart::new(String::from(content)))
}

#[test]
fn bold_compiling() {
    // valid pattern with a valid text modifier; the capture group is taken as it is
    let replacement_rule = ReplacementRule::new(
        StandardTextModifier::BoldStarVersion.modifier_pattern(),
        vec![
            fixed("<strong>"),
            ReplacementRuleReplacerPart::SingleCaptureGroup(SingleCaptureGroupReplacementRuleReplacerPart::new(
                1,
                Vec::new(),
                ModifiersBucket::Nothing,
            )),
            fixed("</strong>"),
        ],
    );

    let text_to_compile = r"A piece of **bold text** and **bold text2**";
    let compilation_configuration = CompilationConfiguration::default();

    let compilable = CompilableText::new(vec![CompilableTextPart::new(
        text_to_compile.to_string(),
        CompilableTextPartType::Compilable { incompatible_modifiers: ModifiersBucket::Nothing },
    )]);

    let outcome = replacement_rule
        .compile(&compilable, &OutputFormat::Html, &compilation_configuration, &CompilationConfigurationOverLay::default())
        .unwrap();

    assert_eq!(outcome.content(), r"<strong>bold text</strong><strong>bold text2</strong>");

    // without text modifier
    let text_to_compile = r"A piece of text without bold text";

    let compilable = CompilableText::new(vec![CompilableTextPart::new(
        text_to_compile.to_string(),
        CompilableTextPartType::Compilable { incompatible_modifiers: ModifiersBucket::Nothing },
    )]);

    let outcome = replacement_rule
        .compile(&compilable, &OutputFormat::Html, &compilation_configuration, &CompilationConfigurationOverLay::default())
        .unwrap();

    assert_eq!(outcome.content(), r"");
}

fn italic_rule() -> ReplacementRule {
    ReplacementRule::new(
        StandardTextModifier::ItalicStarVersion.modifier_pattern(),
        vec![
            fixed("<em>"),
            ReplacementRuleReplacerPart::SingleCaptureGroup(SingleCaptureGroupReplacementRuleReplacerPart::new(
                1,
                escape_html(),
                ModifiersBucket::Nothing,
            )),
            fixed("</em>"),
        ],
    )
}

#[test]
fn input_with_fixed_parts() {
    let replacement_rule = italic_rule();

    let compilation_configuration = CompilationConfiguration::default();

    // ==== italic spanning a fixed part ====
    let compilable = CompilableText::new(vec![
        CompilableTextPart::new(
            String::from("*start "),
            CompilableTextPartType::Compilable { incompatible_modifiers: ModifiersBucket::Nothing },
        ),
        CompilableTextPart::new_fixed(String::from("<strong>")),
        CompilableTextPart::new_compilable(String::from("fixed"), ModifiersBucket::Nothing),
        CompilableTextPart::new_fixed(String::from("</strong>")),
        CompilableTextPart::new(
            String::from(" end*"),
            CompilableTextPartType::Compilable { incompatible_modifiers: ModifiersBucket::Nothing },
        ),
    ]);

    let outcome = replacement_rule
        .compile(&compilable, &OutputFormat::Html, &compilation_configuration, &CompilationConfigurationOverLay::default())
        .unwrap();

    assert_eq!(outcome.content(), r"<em>start <strong>fixed</strong> end</em>");

    // ==== italic ending right after a fixed part ====
    let compilable = CompilableText::new(vec![
        CompilableTextPart::new(
            String::from("*start "),
            CompilableTextPartType::Compilable { incompatible_modifiers: ModifiersBucket::Nothing },
        ),
        CompilableTextPart::new_fixed(String::from("<strong>")),
        CompilableTextPart::new_compilable(String::from("fixed"), ModifiersBucket::Nothing),
        CompilableTextPart::new_fixed(String::from("</strong>")),
        CompilableTextPart::new(
            String::from("*"),
            CompilableTextPartType::Compilable { incompatible_modifiers: ModifiersBucket::Nothing },
        ),
    ]);

    let outcome = replacement_rule
        .compile(&compilable, &OutputFormat::Html, &compilation_configuration, &CompilationConfigurationOverLay::default())
        .unwrap();

    assert_eq!(outcome.content(), r"<em>start <strong>fixed</strong></em>");

    // ==== italic starting right before a fixed part ====
    let compilable = CompilableText::new(vec![
        CompilableTextPart::new(
            String::from("*"),
            CompilableTextPartType::Compilable { incompatible_modifiers: ModifiersBucket::Nothing },
        ),
        CompilableTextPart::new_fixed(String::from("<strong>")),
        CompilableTextPart::new_compilable(String::from("fixed"), ModifiersBucket::Nothing),
        CompilableTextPart::new_fixed(String::from("</strong>")),
        CompilableTextPart::new(
            String::from(" end*"),
            CompilableTextPartType::Compilable { incompatible_modifiers: ModifiersBucket::Nothing },
        ),
    ]);

    let outcome = replacement_rule
        .compile(&compilable, &OutputFormat::Html, &compilation_configuration, &CompilationConfigurationOverLay::default())
        .unwrap();

    assert_eq!(outcome.content(), r"<em><strong>fixed</strong> end</em>");
}

#[test]
fn single_capture_group_escapes_html_and_marks_incompatibility() {
    let rule = ReplacementRule::new(
        StandardTextModifier::ItalicStarVersion.modifier_pattern(),
        vec![ReplacementRuleReplacerPart::SingleCaptureGroup(SingleCaptureGroupReplacementRuleReplacerPart::new(
            1,
            escape_html(),
            ModifiersBucket::All,
        ))],
    );
    let compilable = CompilableText::new(vec![CompilableTextPart::new_compilable(
        String::from("*a<b>*"),
        ModifiersBucket::Nothing,
    )]);
    let outcome = rule
        .compile(
            &compilable,
            &OutputFormat::Html,
            &CompilationConfiguration::default(),
            &CompilationConfigurationOverLay::default(),
        )
        .unwrap();
    assert_eq!(outcome.content(), "a&lt;b&gt;");
    assert_eq!(outcome.parts().len(), 1);
    assert!(matches!(
        outcome.parts()[0].part_type(),
        CompilableTextPartType::Compilable { incompatible_modifiers: ModifiersBucket::All }
    ));
}

#[test]
fn missing_capture_group_is_an_elaboration_error() {
    let rule = ReplacementRule::new(
        StandardTextModifier::ItalicStarVersion.modifier_pattern(),
        vec![ReplacementRuleReplacerPart::SingleCaptureGroup(SingleCaptureGroupReplacementRuleReplacerPart::new(
            5,
            Vec::new(),
            ModifiersBucket::Nothing,
        ))],
    );
    let compilable = CompilableText::new(vec![CompilableTextPart::new_compilable(
        String::from("*a*"),
        ModifiersBucket::Nothing,
    )]);
    let outcome = rule.compile(
        &compilable,
        &OutputFormat::Html,
        &CompilationConfiguration::default(),
        &CompilationConfigurationOverLay::default(),
    );
    assert!(matches!(
        outcome,
        Err(nmd_core::compiler::compilation_error::CompilationError::ElaborationError)
    ));
}
