use nmd_core::codex::modifier::standard_paragraph_modifier::StandardParagraphModifier;
use nmd_core::codex::modifier::ModifiersBucket;
use nmd_core::compilable_text::compilable_text_part::CompilableTextPart;
use nmd_core::compilable_text::CompilableText;
use nmd_core::compiler::compilation_rule::html_image_rule::{build_html_img, splice, HtmlImageRule};

fn figure(id_attr: &str, nuid_attr: &str, src: &str, alt: &str, classes: &str, style: &str, caption: &str) -> String {
    format!(
        r#"<figure class="figure" {} {}>
                    <img src="{}" {} class="{}" {} />
                    {}
                </figure>"#,
        id_attr, nuid_attr, src, alt, classes, style, caption
    )
}

#[test]
fn image_figure() {
    let html = build_html_img(
        "cat.png",
        &Some(String::from("a cat")),
        &Some(String::from("<em>a cat</em>")),
        &Some(String::from("doc-cat")),
        &None,
        &vec![String::from("image"), String::from("abridged-image")],
        &Some(String::from("width: 50%")),
    );
    assert_eq!(
        html,
        figure(
            r#"id="doc-cat""#,
            "",
            "cat.png",
            r#"alt="a cat""#,
            "image abridged-image",
            r#"style="width: 50%""#,
            r#"<figcaption class="image-caption"><em>a cat</em></figcaption>"#,
        )
    );
    let bare = build_html_img("x", &None, &None, &None, &Some(String::from("n1")), &vec![], &None);
    assert_eq!(bare, figure("", r#"data-nuid="n1""#, "x", "", "", "", ""));
}

#[test]
fn image_matches_and_splice() {
    assert!(HtmlImageRule::new(StandardParagraphModifier::Table).is_none());
    let rule = HtmlImageRule::new(StandardParagraphModifier::Image).unwrap();
    let content = "![a cat](cat.png)\n![dog]#dog-id(dog.png)";
    let matches = rule.image_matches(content);

    assert_eq!(matches.len(), 2);
    assert_eq!(matches[0].whole, (0, 17));
    assert_eq!(matches[0].groups[0], Some(String::from("a cat")));
    assert_eq!(matches[0].groups[1], None);
    assert_eq!(matches[0].groups[2], Some(String::from("cat.png")));
    assert_eq!(matches[1].groups[1], Some(String::from("dog-id")));
    assert_eq!(matches[1].groups[2], Some(String::from("dog.png")));

    let spans: Vec<(usize, usize)> = matches.iter().map(|m| m.whole).collect();
    let spliced = splice(content, &spans, &vec![String::from("X"), String::from("Y")]);
    assert_eq!(spliced, "X\nY");
}

#[test]
fn image_fast_compile() {
    let rule = HtmlImageRule::new(StandardParagraphModifier::AbridgedImage).unwrap();
    let text = CompilableText::new(vec![CompilableTextPart::new_compilable(String::from("![(a.png)]"), ModifiersBucket::Nothing)]);
    assert_eq!(rule.fast_compile(&text).content(), r#"<img alt="![(a.png)]" />"#);
}
