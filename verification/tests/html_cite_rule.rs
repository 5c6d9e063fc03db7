use nmd_core::bibliography::bibliography_record::BibliographyRecord;
use nmd_core::bibliography::Bibliography;
use nmd_core::codex::modifier::ModifiersBucket;
use nmd_core::codex::Codex;
use nmd_core::compilable_text::compilable_text_part::CompilableTextPart;
use nmd_core::compilable_text::CompilableText;
use nmd_core::compiler::compilation_configuration::compilation_configuration_overlay::CompilationConfigurationOverLay;
use nmd_core::compiler::compilation_configuration::CompilationConfiguration;
use nmd_core::compiler::compilation_rule::html_cite_rule::{decimal_text, HtmlCiteRule};
use nmd_core::compiler::compilation_rule::CompilationRule;
use nmd_core::compiler::Compiler;
use nmd_core::output_format::OutputFormat;

fn bibliography() -> Bibliography {
    let record = |t: &str| BibliographyRecord::new(String::from(t), None, Some(2000), None, None);
    Bibliography::new(
        String::from("Bibliography"),
        vec![(String::from("alpha"), record("A")), (String::from("beta"), record("B"))],
    )
}

fn text(content: &str) -> CompilableText {
    CompilableText::new(vec![CompilableTextPart::new_compilable(String::from(content), ModifiersBucket::Nothing)])
}

#[test]
fn citations_link_to_their_record() {
    let rule = HtmlCiteRule::try_new().unwrap();
    let mut configuration = CompilationConfiguration::default();
    configuration.set_bibliography(Some(bibliography()));

    let outcome = rule
        .compile(
            &text("see ^[beta], ^[gamma] and ^[alpha]."),
            &OutputFormat::Html,
            &configuration,
            &CompilationConfigurationOverLay::default(),
        )
        .unwrap();

    assert_eq!(outcome.parts().len(), 1);
    assert_eq!(
        outcome.content(),
        r##"see <a class="cite" href="#bibliography-beta">2</a>, ^[gamma] and <a class="cite" href="#bibliography-alpha">1</a>."##
    );
}

#[test]
fn citations_without_bibliography_stay() {
    let rule = HtmlCiteRule::try_new().unwrap();
    let outcome = rule
        .compile(
            &text("see ^[beta]"),
            &OutputFormat::Html,
            &CompilationConfiguration::default(),
            &CompilationConfigurationOverLay::default(),
        )
        .unwrap();
    assert_eq!(outcome.content(), "see ^[beta]");
}

#[test]
fn the_html_codex_resolves_citations() {
    let mut configuration = CompilationConfiguration::default();
    configuration.set_bibliography(Some(bibliography()));
    let compiled = Compiler::compile_str(
        "a ^[alpha] b",
        &OutputFormat::Html,
        &Codex::of_html(),
        &configuration,
        &CompilationConfigurationOverLay::default(),
    )
    .unwrap();
    assert!(compiled.content().contains(r##"<a class="cite" href="#bibliography-alpha">1</a>"##));
}

#[test]
fn numbers_in_decimal() {
    assert_eq!(decimal_text(0), "0");
    assert_eq!(decimal_text(7), "7");
    assert_eq!(decimal_text(1234509), "1234509");
}
