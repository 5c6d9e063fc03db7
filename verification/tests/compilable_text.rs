use nmd_core::codex::modifier::ModifiersBucket;
use nmd_core::codex::modifier::standard_text_modifier::StandardTextModifier;
use nmd_core::codex::Codex;
use nmd_core::compilable_text::compilable_text_part::{CompilableTextPart, CompilableTextPartType};
use nmd_core::compilable_text::{CompilableText, PartsSliceElaborationPolicy};
use nmd_core::compiler::compilation_configuration::compilation_configuration_overlay::CompilationConfigurationOverLay;
use nmd_core::compiler::compilation_configuration::CompilationConfiguration;
use nmd_core::output_format::OutputFormat;

#[test]
fn parts_between_positions_in_cfc() {
    let compilable = CompilableText::new(vec![
        CompilableTextPart::new(
            String::from("this is a string with 35 characters"),
            CompilableTextPartType::Compilable { incompatible_modifiers: ModifiersBucket::Nothing },
        ),
        CompilableTextPart::new(String::from("this is the fixed part"), CompilableTextPartType::Fixed),
        CompilableTextPart::new(
            String::from("end of the content"),
            CompilableTextPartType::Compilable { incompatible_modifiers: ModifiersBucket::Nothing },
        ),
    ]);

    let start1: usize = 5;
    let start2: usize = 25;

    let end1: usize = 16;
    let end2: usize = 38;

    let parts_slice = compilable.parts_slice(start1, end1).unwrap();

    assert_eq!(parts_slice.len(), 1);
    assert_eq!(parts_slice[0].content(), &String::from("is a string"));

    let parts_slice = compilable.parts_slice(start2, end2).unwrap();

    assert_eq!(parts_slice.len(), 3);
    assert_eq!(parts_slice[0].content(), &String::from("characters"));
    assert_eq!(parts_slice[1].content(), &String::from("this is the fixed part"));
    assert_eq!(parts_slice[2].content(), &String::from("end"));
}

#[test]
fn parts_between_positions_in_cfcfc() {
    let compilable = CompilableText::new(vec![
        CompilableTextPart::new_compilable(String::from("c1"), ModifiersBucket::Nothing),
        CompilableTextPart::new_fixed(String::from("f1")),
        CompilableTextPart::new_compilable(String::from("c2"), ModifiersBucket::Nothing),
        CompilableTextPart::new_fixed(String::from("f2")),
        CompilableTextPart::new_compilable(String::from("c3"), ModifiersBucket::Nothing),
    ]);

    let start: usize = 1;
    let end: usize = 5;

    let parts_slice = compilable.parts_slice(start, end).unwrap();

    assert_eq!(parts_slice.len(), 5);
    assert_eq!(parts_slice[0].content(), &String::from("1"));
    assert_eq!(parts_slice[1].content(), &String::from("f1"));
    assert_eq!(parts_slice[2].content(), &String::from("c2"));
    assert_eq!(parts_slice[3].content(), &String::from("f2"));
    assert_eq!(parts_slice[4].content(), &String::from("c"));

    let compilable = CompilableText::new(vec![
        CompilableTextPart::new_compilable(String::from("c1"), ModifiersBucket::Nothing),
        CompilableTextPart::new_fixed(String::from("f1")),
        CompilableTextPart::new_compilable(String::from("c2"), ModifiersBucket::Nothing),
        CompilableTextPart::new_fixed(String::from("f2")),
        CompilableTextPart::new_compilable(String::from("c3"), ModifiersBucket::Nothing),
    ]);

    let start: usize = 1;
    let end: usize = 4;

    let parts_slice = compilable.parts_slice(start, end).unwrap();

    assert_eq!(parts_slice.len(), 4);
    assert_eq!(parts_slice[0].content(), &String::from("1"));
    assert_eq!(parts_slice[1].content(), &String::from("f1"));
    assert_eq!(parts_slice[2].content(), &String::from("c2"));
    assert_eq!(parts_slice[3].content(), &String::from("f2"));
}

#[test]
fn parts_between_positions_in_cfcfc_with_explicit_policy() {
    let compilable = CompilableText::new(vec![
        CompilableTextPart::new_fixed(String::from("f-1")),
        CompilableTextPart::new_compilable(String::from("c0"), ModifiersBucket::Nothing),
        CompilableTextPart::new_fixed(String::from("f0")),
        CompilableTextPart::new_compilable(String::from("*"), ModifiersBucket::Nothing),
        CompilableTextPart::new_fixed(String::from("f1")),
        CompilableTextPart::new_compilable(String::from("c2"), ModifiersBucket::Nothing),
        CompilableTextPart::new_fixed(String::from("f2")),
        CompilableTextPart::new_compilable(String::from("*"), ModifiersBucket::Nothing),
        CompilableTextPart::new_fixed(String::from("f3")),
        CompilableTextPart::new_compilable(String::from("c3"), ModifiersBucket::Nothing),
        CompilableTextPart::new_fixed(String::from("f4")),
    ]);

    let start: usize = 3;
    let end: usize = 5;

    // ==== take left and right ====
    let parts_slice = compilable
        .parts_slice_with_explicit_policy(start, end, PartsSliceElaborationPolicy::TakeLeftAndRightFixedParts)
        .unwrap();

    assert_eq!(parts_slice.len(), 3);
    assert_eq!(parts_slice[0].content(), &String::from("f1"));
    assert_eq!(parts_slice[1].content(), &String::from("c2"));
    assert_eq!(parts_slice[2].content(), &String::from("f2"));

    // ==== take left ====
    let parts_slice = compilable
        .parts_slice_with_explicit_policy(start, end, PartsSliceElaborationPolicy::TakeLeftFixedParts)
        .unwrap();

    assert_eq!(parts_slice.len(), 2);
    assert_eq!(parts_slice[0].content(), &String::from("f1"));
    assert_eq!(parts_slice[1].content(), &String::from("c2"));

    // ==== take right ====
    let parts_slice = compilable
        .parts_slice_with_explicit_policy(start, end, PartsSliceElaborationPolicy::TakeRightFixedParts)
        .unwrap();

    assert_eq!(parts_slice.len(), 2);
    assert_eq!(parts_slice[0].content(), &String::from("c2"));
    assert_eq!(parts_slice[1].content(), &String::from("f2"));

    // ==== no take ====
    let parts_slice = compilable
        .parts_slice_with_explicit_policy(start, end, PartsSliceElaborationPolicy::DontTakeBorderFixedParts)
        .unwrap();

    assert_eq!(parts_slice.len(), 1);
    assert_eq!(parts_slice[0].content(), &String::from("c2"));
}

#[test]
fn compilable_text_compile_nested_modifiers() {
    let mut codex = Codex::of_html();

    codex.retain(&vec![
        StandardTextModifier::BoldStarVersion.identifier(),
        StandardTextModifier::BoldUnderscoreVersion.identifier(),
        StandardTextModifier::ItalicStarVersion.identifier(),
        StandardTextModifier::ItalicUnderscoreVersion.identifier(),
        StandardTextModifier::InlineCode.identifier(),
    ]);

    let compilation_configuration = CompilationConfiguration::default();

    let content = "A piece of **bold text**, *italic text*, `a **(fake) bold text** which must be not parsed` and *nested **bold text***";

    let mut outcome = CompilableText::from(content);

    outcome
        .compile(&OutputFormat::Html, &codex, &compilation_configuration, &CompilationConfigurationOverLay::default())
        .unwrap();

    assert_eq!(
        outcome.content(),
        String::from("A piece of ")
            + r#"<strong class="bold">bold text</strong>, "#
            + r#"<em class="italic">italic text</em>, "#
            + r#"<code class="language-markup inline-code">a **(fake) bold text** which must be not parsed</code>"#
            + r#" and "#
            + r#"<em class="italic">nested <strong class="bold">bold text</strong></em>"#
    );
}
