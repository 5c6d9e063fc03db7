use nmd_core::compiler::compilation_configuration::CompilationConfiguration;
use nmd_core::compiler::compilation_result::CompilationResultPartType;
use nmd_core::compiler::compilation_rule::html_extended_block_quote_rule::HtmlExtendedBlockQuoteRule;

fn opening(kind: &str) -> String {
    let indent = "\n                ";
    [
        indent,
        r#"<div class="focus-quote-block focus-quote-block-"#,
        kind,
        r#"">"#,
        indent,
        r#"<div class="focus-quote-block-title focus-quote-block-"#,
        kind,
        r#"-title"></div>"#,
        indent,
        r#"<div class="focus-quote-block-description focus-quote-block-"#,
        kind,
        r#"-description">"#,
    ]
    .join("")
}

#[test]
fn quote_with_a_type_and_a_paragraph_break() {
    let rule = HtmlExtendedBlockQuoteRule::new().unwrap();
    let result = rule
        .standard_parse("  > [!Note]\n> first\n>\n> second\n", &CompilationConfiguration::default())
        .unwrap();

    assert_eq!(result.parts().len(), 3);
    assert_eq!(result.parts()[0].content(), &opening("note"));
    assert_eq!(result.parts()[1].content(), &String::from("first<br>second"));
    match result.parts()[1].part_type() {
        CompilationResultPartType::Compilable { .. } => {},
        CompilationResultPartType::Fixed => panic!("the quote text is left to compile"),
    }
    assert_eq!(result.parts()[2].content(), &String::from("</div></div>"));
}

#[test]
fn quote_without_a_type_is_escaped() {
    let rule = HtmlExtendedBlockQuoteRule::new().unwrap();
    let result = rule.standard_parse("> a <b>\n> c", &CompilationConfiguration::default()).unwrap();

    assert_eq!(result.parts()[0].content(), &opening("quote"));
    assert_eq!(result.parts()[1].content(), &String::from("a &lt;b&gt;c"));
}

#[test]
fn quote_with_a_stray_line() {
    let rule = HtmlExtendedBlockQuoteRule::new().unwrap();
    let content = "> a\nstray\n> b";

    assert!(rule.checked_standard_parse(content, &CompilationConfiguration::default()).is_none());

    let mut strict = CompilationConfiguration::default();
    strict.set_strict_focus_block_check(true);
    let result = rule.standard_parse(content, &strict).unwrap();
    assert_eq!(result.parts()[1].content(), &String::from("ab"));
    let checked = rule.checked_standard_parse(content, &strict).unwrap();
    assert_eq!(checked.parts()[1].content(), &String::from("ab"));
}
