use nmd_core::codex::modifier::ModifiersBucket;
use nmd_core::compilable_text::compilable_text_part::CompilableTextPart;
use nmd_core::compilable_text::CompilableText;
use nmd_core::compiler::compilation_configuration::list_bullet_configuration_record::{
    ListBulletConfigurationRecord, CHECKBOX,
};
use nmd_core::compiler::compilation_configuration::CompilationConfiguration;
use nmd_core::compiler::compilation_result::CompilationResultPartType;
use nmd_core::compiler::compilation_rule::html_list_rule::HtmlListRule;

fn text(content: &str) -> CompilableText {
    CompilableText::new(vec![CompilableTextPart::new_compilable(
        String::from(content),
        ModifiersBucket::Nothing,
    )])
}

#[test]
fn list_of_two_items() {
    let rule = HtmlListRule::new().unwrap();
    let result = rule
        .standard_compile(&text("- element 1\n- element 2"), &CompilationConfiguration::default())
        .unwrap();

    assert_eq!(
        result.content(),
        [
            r#"<ul class="list" >"#,
            r#"<li class="list-item"><span class="list-item-bullet">-</span><span class="list-item-content">element 1</span></li>"#,
            r#"<li class="list-item"><span class="list-item-bullet">-</span><span class="list-item-content">element 2</span></li>"#,
            "</ul>",
        ]
        .join("")
    );
    assert_eq!(result.parts().len(), 16);
    match result.parts()[6].part_type() {
        CompilationResultPartType::Compilable { .. } => {},
        CompilationResultPartType::Fixed => panic!("the item text is left to compile"),
    }
}

#[test]
fn list_keeps_the_identifier() {
    let rule = HtmlListRule::new().unwrap();
    let mut compilable = text("* one");
    compilable.set_nuid(Some(String::from("n1")));
    let result = rule.standard_compile(&compilable, &CompilationConfiguration::default()).unwrap();

    assert_eq!(result.parts()[0].content(), &String::from(r#"<ul class="list" data-nuid="n1">"#));
}

#[test]
fn list_indentation_levels_and_escape() {
    let rule = HtmlListRule::new().unwrap();
    let result = rule
        .standard_compile(&text("- a\n      - b<c>\n\t- d"), &CompilationConfiguration::default())
        .unwrap();
    let indentation = r#"<span class="list-item-indentation"></span>"#;

    assert_eq!(result.parts()[2].content(), &String::new());
    assert_eq!(result.parts()[9].content(), &indentation.repeat(2));
    assert_eq!(result.parts()[13].content(), &String::from("b&lt;c&gt;"));
    assert_eq!(result.parts()[16].content(), &indentation.repeat(1));
}

#[test]
fn list_bullets_as_configured() {
    let rule = HtmlListRule::new().unwrap();
    let mut configuration = CompilationConfiguration::default();
    configuration.set_list_bullets_configuration(vec![
        ListBulletConfigurationRecord {
            from: String::from("-"),
            to: String::from("&bull;"),
            indentation_level: 1,
            strict_indentation: true,
        },
        ListBulletConfigurationRecord {
            from: String::from("-"),
            to: String::from(CHECKBOX),
            indentation_level: 0,
            strict_indentation: false,
        },
    ]);
    let result = rule.standard_compile(&text("- a\n   - b\n      - c\n* d"), &configuration).unwrap();

    assert_eq!(
        result.parts()[4].content(),
        &String::from(r#"<div class="checkbox checkbox-unchecked"></div>"#)
    );
    assert_eq!(result.parts()[11].content(), &String::from("&bull;"));
    assert_eq!(
        result.parts()[18].content(),
        &String::from(r#"<div class="checkbox checkbox-unchecked"></div>"#)
    );
    assert_eq!(result.parts()[25].content(), &String::from("*"));
}

#[test]
fn list_with_a_stray_line() {
    let rule = HtmlListRule::new().unwrap();
    let compilable = text("- a\nnot an item\n\n");

    let lenient = rule.standard_compile(&compilable, &CompilationConfiguration::default()).unwrap();
    assert_eq!(lenient.parts().len(), 9);

    let mut strict = CompilationConfiguration::default();
    strict.set_strict_list_check(true);
    assert!(rule.checked_standard_compile(&compilable, &strict).is_none());
    assert_eq!(rule.checked_standard_compile(&compilable, &CompilationConfiguration::default()).unwrap().parts().len(), 9);

    let clean = text("- a\r\n- b\r\n\r\n");
    assert_eq!(rule.checked_standard_compile(&clean, &strict).unwrap().parts().len(), 16);
    assert!(rule.standard_compile(&clean, &strict).is_ok());
}

#[test]
fn parsing() {
    let nmd_text = r#"
- element 1
- element 2
    - element 2.1
        - element 2.1.1a
        | element 2.1.1b
        - element 2.1.2
        - element 2.1.3
    - element 2.2
- element 3
"#
    .trim();

    let rule = HtmlListRule::new().unwrap();
    let result = rule.standard_compile(&text(nmd_text), &CompilationConfiguration::default()).unwrap();

    assert_eq!(result.parts().len(), 1 + 9 * 7 + 1);
    assert_eq!(result.parts()[6].content(), &String::from("element 1"));
    assert_eq!(result.parts()[32].content(), &String::from("|"));
    assert_eq!(result.parts()[30].content(), &r#"<span class="list-item-indentation"></span>"#.repeat(2));
}
