use build_html::{Html, HtmlPage};
use nmd_core::assembler::html_assembler::{
    HeadAddon, HtmlAssembler, EMOJI_CSS, KATEX_AUTO_RENDER, KATEX_AUTO_RENDER_INTEGRITY, KATEX_CSS,
    KATEX_CSS_INTEGRITY, KATEX_JS, KATEX_JS_INTEGRITY, MATH_RENDER_SCRIPT, PRISM_AUTOLOADER, PRISM_CORE,
    PRISM_DARK, PRISM_LIGHT,
};
use nmd_core::theme::Theme;

#[test]
fn remote_addons_follow_the_theme() {
    let dark = HtmlAssembler::standard_remote_addons(&Theme::Dark);
    assert_eq!(dark.len(), 8);
    match &dark[2] {
        HeadAddon::Link { href, rel } => {
            assert_eq!(href, PRISM_DARK);
            assert_eq!(rel, "stylesheet");
        },
        _ => panic!("the third resource is the code stylesheet"),
    }

    let high_contrast = HtmlAssembler::standard_remote_addons(&Theme::HighContrast);
    match &high_contrast[2] {
        HeadAddon::Link { href, .. } => assert_eq!(href, PRISM_LIGHT),
        _ => panic!("the third resource is the code stylesheet"),
    }
    match &high_contrast[4] {
        HeadAddon::LinkWithAttributes { attributes, .. } => {
            assert_eq!(attributes.len(), 2);
            assert_eq!(attributes[0].0, "integrity");
            assert_eq!(attributes[1], (String::from("crossorigin"), String::from("anonymous")));
        },
        _ => panic!("the fifth resource is the math stylesheet"),
    }
}

#[test]
fn remote_addons_go_into_the_page_head_in_order() {
    let page = HtmlAssembler::apply_standard_remote_addons(HtmlPage::new(), &Theme::Vintage).to_html_string();

    let core = page
        .find(r#"<script src="https://cdnjs.cloudflare.com/ajax/libs/prism/1.29.0/components/prism-core.min.js" crossorigin="anonymous"></script>"#)
        .unwrap();
    let theme = page
        .find(r#"<link href="https://cdnjs.cloudflare.com/ajax/libs/prism/1.29.0/themes/prism-solarizedlight.css" rel="stylesheet">"#)
        .unwrap();
    let math = page.find("<script>").unwrap();
    assert!(core < theme && theme < math);
    assert!(page.contains("renderMathInElement(document.body"));
    assert!(page.ends_with("</script></head><body></body></html>"));
}

#[test]
fn remote_addons_make_exactly_this_head() {
    let page = HtmlAssembler::apply_standard_remote_addons(HtmlPage::new(), &Theme::Light).to_html_string();
    let head = [
        format!(r#"<script src="{}" crossorigin="anonymous"></script>"#, PRISM_CORE),
        format!(r#"<script src="{}" crossorigin="anonymous"></script>"#, PRISM_AUTOLOADER),
        format!(r#"<link href="{}" rel="stylesheet">"#, PRISM_LIGHT),
        format!(r#"<link href="{}" rel="stylesheet">"#, EMOJI_CSS),
        format!(
            r#"<link href="{}" rel="stylesheet" integrity="{}" crossorigin="anonymous">"#,
            KATEX_CSS, KATEX_CSS_INTEGRITY
        ),
        format!(r#"<script src="{}" integrity="{}" crossorigin="anonymous"></script>"#, KATEX_JS, KATEX_JS_INTEGRITY),
        format!(
            r#"<script src="{}" integrity="{}" crossorigin="anonymous"></script>"#,
            KATEX_AUTO_RENDER, KATEX_AUTO_RENDER_INTEGRITY
        ),
        format!("<script>{}</script>", MATH_RENDER_SCRIPT),
    ]
    .join("");
    assert_eq!(page, format!("<!DOCTYPE html><html><head>{}</head><body></body></html>", head));
}
