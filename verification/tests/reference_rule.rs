use nmd_core::codex::Codex;
use nmd_core::compiler::compilation_configuration::compilation_configuration_overlay::CompilationConfigurationOverLay;
use nmd_core::compiler::compilation_configuration::CompilationConfiguration;
use nmd_core::compiler::Compiler;
use nmd_core::output_format::OutputFormat;
use nmd_core::resource::bucket::Bucket;
use nmd_core::resource::text_reference::TextReferenceMap;

#[test]
fn references_are_replaced_and_unknown_ones_dropped() {
    let mut codex = Codex::of_html();
    codex.retain(&vec![String::from("reference")]);

    let mut references = TextReferenceMap::new();
    references.insert(String::from("name"), String::from("Text"));
    let mut configuration = CompilationConfiguration::default();
    configuration.set_references(references);

    let outcome = Compiler::compile_str(
        "see &name& and &missing&!",
        &OutputFormat::Html,
        &codex,
        &configuration,
        &CompilationConfigurationOverLay::default(),
    )
    .unwrap();

    assert_eq!(outcome.content(), "see Text and !");
}

#[test]
fn reference_map_read_gives_back_last_write() {
    let mut references = TextReferenceMap::new();
    references.insert(String::from("k"), String::from("one"));
    references.insert(String::from("other"), String::from("x"));
    references.insert(String::from("k"), String::from("two"));
    assert_eq!(references.get("k"), Some(&String::from("two")));
    assert_eq!(references.get("other"), Some(&String::from("x")));
    assert_eq!(references.get("none"), None);
}

#[test]
fn all_excluded_leaves_text_unchanged() {
    let codex = Codex::of_html();
    let mut configuration = CompilationConfiguration::default();
    configuration.set_excluded_modifiers(Bucket::All);
    let outcome = Compiler::compile_str(
        "**bold** and *italic*",
        &OutputFormat::Html,
        &codex,
        &configuration,
        &CompilationConfigurationOverLay::default(),
    )
    .unwrap();
    assert_eq!(outcome.content(), "**bold** and *italic*");
}

#[test]
fn excluded_modifier_is_skipped() {
    let codex = Codex::of_html();
    let mut configuration = CompilationConfiguration::default();
    configuration.set_excluded_modifiers(Bucket::Only(vec![String::from("italic-star-version")]));
    let outcome = Compiler::compile_str(
        "**bold** and *italic*",
        &OutputFormat::Html,
        &codex,
        &configuration,
        &CompilationConfigurationOverLay::default(),
    )
    .unwrap();
    assert_eq!(outcome.content(), r#"<strong class="bold">bold</strong> and *italic*"#);
}

#[test]
fn text_without_matches_is_unchanged() {
    let codex = Codex::of_html();
    let outcome = Compiler::compile_str(
        "plain words only",
        &OutputFormat::Html,
        &codex,
        &CompilationConfiguration::default(),
        &CompilationConfigurationOverLay::default(),
    )
    .unwrap();
    assert_eq!(outcome.content(), "plain words only");
    assert_eq!(outcome.parts().len(), 1);
}
