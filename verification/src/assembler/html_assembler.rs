//! The HTML assembler: what a page of a given theme loads.

use vstd::prelude::*;
use build_html::HtmlPage;
use crate::theme::Theme;

verus! {

/// `build_html::HtmlPage`, carried through as an opaque value.
#[verifier::external_type_specification]
#[verifier::external_body]
pub struct ExHtmlPage(HtmlPage);

pub const PRISM_CORE: &'static str = "https://cdnjs.cloudflare.com/ajax/libs/prism/1.29.0/components/prism-core.min.js";

pub const PRISM_AUTOLOADER: &'static str = "https://cdnjs.cloudflare.com/ajax/libs/prism/1.29.0/plugins/autoloader/prism-autoloader.min.js";

pub const PRISM_LIGHT: &'static str = "https://cdnjs.cloudflare.com/ajax/libs/prism/1.29.0/themes/prism.css";

pub const PRISM_DARK: &'static str = "https://cdnjs.cloudflare.com/ajax/libs/prism/1.29.0/themes/prism-okaidia.css";

pub const PRISM_SCIENTIFIC: &'static str = "https://cdnjs.cloudflare.com/ajax/libs/prism/1.29.0/themes/prism-coy.css";

pub const PRISM_VINTAGE: &'static str = "https://cdnjs.cloudflare.com/ajax/libs/prism/1.29.0/themes/prism-solarizedlight.css";

pub const EMOJI_CSS: &'static str = "https://emoji-css.afeld.me/emoji.css";

pub const KATEX_CSS: &'static str = "https://cdn.jsdelivr.net/npm/katex@0.16.9/dist/katex.min.css";

pub const KATEX_CSS_INTEGRITY: &'static str = "sha384-n8MVd4RsNIU0tAv4ct0nTaAbDJwPJzDEaqSD1odI+WdtXRGWt2kTvGFasHpSy3SV";

pub const KATEX_JS: &'static str = "https://cdn.jsdelivr.net/npm/katex@0.16.9/dist/katex.min.js";

pub const KATEX_JS_INTEGRITY: &'static str = "sha384-XjKyOOlGwcjNTAIQHIpgOno0Hl1YQqzUOEleOLALmuqehneUG+vnGctmUb0ZY0l8";

pub const KATEX_AUTO_RENDER: &'static str = "https://cdn.jsdelivr.net/npm/katex@0.16.9/dist/contrib/auto-render.min.js";

pub const KATEX_AUTO_RENDER_INTEGRITY: &'static str = "sha384-+VBxd3r6XgURycqtZ117nYw44OOcIax56Z4dCRWbxyPt0Koah1uHoK0o4+/RRE05";

/// The script that renders the math of the page once it is loaded.
pub const MATH_RENDER_SCRIPT: &'static str = r#"
                document.addEventListener("DOMContentLoaded", function() {
                    renderMathInElement(document.body, {
                        
                        delimiters: [
                            {left: '$$', right: '$$', display: true},
                            {left: '$', right: '$', display: false},
                        ],
                        
                        throwOnError : false
                    });
                });"#;

/// A resource added to the head of a page.
#[derive(Debug)]
pub enum HeadAddon {
    /// A script loaded from `src`, with extra attributes.
    ScriptLink { src: String, attributes: Vec<(String, String)> },
    /// A link to `href` with relation `rel`.
    Link { href: String, rel: String },
    /// A link with extra attributes.
    LinkWithAttributes { href: String, rel: String, attributes: Vec<(String, String)> },
    /// An inline script.
    ScriptLiteral(String),
}

/// Mathematical value of a head resource.
pub enum HeadAddonView {
    ScriptLink(Seq<char>, Seq<(Seq<char>, Seq<char>)>),
    Link(Seq<char>, Seq<char>),
    LinkWithAttributes(Seq<char>, Seq<char>, Seq<(Seq<char>, Seq<char>)>),
    ScriptLiteral(Seq<char>),
}

pub open spec fn attributes_view(a: Seq<(String, String)>) -> Seq<(Seq<char>, Seq<char>)> {
    a.map_values(|p: (String, String)| (p.0@, p.1@))
}

impl View for HeadAddon {
    type V = HeadAddonView;

    open spec fn view(&self) -> HeadAddonView {
        match self {
            HeadAddon::ScriptLink { src, attributes } => HeadAddonView::ScriptLink(
                src@,
                attributes_view(attributes@),
            ),
            HeadAddon::Link { href, rel } => HeadAddonView::Link(href@, rel@),
            HeadAddon::LinkWithAttributes { href, rel, attributes } => HeadAddonView::LinkWithAttributes(
                href@,
                rel@,
                attributes_view(attributes@),
            ),
            HeadAddon::ScriptLiteral(code) => HeadAddonView::ScriptLiteral(code@),
        }
    }
}

pub open spec fn addons_view(a: Seq<HeadAddon>) -> Seq<HeadAddonView> {
    a.map_values(|x: HeadAddon| x@)
}

/// Attributes of a resource shared across origins anonymously, after an
/// integrity hash if any.
pub open spec fn anonymous(integrity: Option<Seq<char>>) -> Seq<(Seq<char>, Seq<char>)> {
    match integrity {
        Some(hash) => seq![("integrity"@, hash), ("crossorigin"@, "anonymous"@)],
        None => seq![("crossorigin"@, "anonymous"@)],
    }
}

/// The stylesheet of highlighted code for a theme.
pub open spec fn prism_stylesheet(theme: Theme) -> Seq<char> {
    match theme {
        Theme::Dark => PRISM_DARK@,
        Theme::Scientific => PRISM_SCIENTIFIC@,
        Theme::Vintage => PRISM_VINTAGE@,
        _ => PRISM_LIGHT@,
    }
}

/// What a page of `theme` loads from the network, in order: code
/// highlighting (its stylesheet by theme), emoji, and math rendering.
pub open spec fn remote_addons(theme: Theme) -> Seq<HeadAddonView> {
    seq![
        HeadAddonView::ScriptLink(PRISM_CORE@, anonymous(None)),
        HeadAddonView::ScriptLink(PRISM_AUTOLOADER@, anonymous(None)),
        HeadAddonView::Link(prism_stylesheet(theme), "stylesheet"@),
        HeadAddonView::Link(EMOJI_CSS@, "stylesheet"@),
        HeadAddonView::LinkWithAttributes(
            KATEX_CSS@,
            "stylesheet"@,
            anonymous(Some(KATEX_CSS_INTEGRITY@)),
        ),
        HeadAddonView::ScriptLink(KATEX_JS@, anonymous(Some(KATEX_JS_INTEGRITY@))),
        HeadAddonView::ScriptLink(KATEX_AUTO_RENDER@, anonymous(Some(KATEX_AUTO_RENDER_INTEGRITY@))),
        HeadAddonView::ScriptLiteral(MATH_RENDER_SCRIPT@),
    ]
}

/// A page loads, as its third resource, the code highlighting stylesheet of
/// its theme: `prism.css` for the light, high contrast and unstyled themes,
/// `prism-okaidia.css` for the dark one, `prism-coy.css` for the scientific
/// one and `prism-solarizedlight.css` for the vintage one.
pub proof fn lemma_code_stylesheet_by_theme(theme: Theme)
    ensures
        remote_addons(theme).len() == 8,
        theme == Theme::Light || theme == Theme::HighContrast || theme == Theme::NoStyle
            ==> remote_addons(theme)[2] == HeadAddonView::Link(
            "https://cdnjs.cloudflare.com/ajax/libs/prism/1.29.0/themes/prism.css"@,
            "stylesheet"@,
        ),
        theme == Theme::Dark ==> remote_addons(theme)[2] == HeadAddonView::Link(
            "https://cdnjs.cloudflare.com/ajax/libs/prism/1.29.0/themes/prism-okaidia.css"@,
            "stylesheet"@,
        ),
        theme == Theme::Scientific ==> remote_addons(theme)[2] == HeadAddonView::Link(
            "https://cdnjs.cloudflare.com/ajax/libs/prism/1.29.0/themes/prism-coy.css"@,
            "stylesheet"@,
        ),
        theme == Theme::Vintage ==> remote_addons(theme)[2] == HeadAddonView::Link(
            "https://cdnjs.cloudflare.com/ajax/libs/prism/1.29.0/themes/prism-solarizedlight.css"@,
            "stylesheet"@,
        ),
{
}

/// Besides the code stylesheet of its theme, every page loads the same remote
/// resources, in this order: the Prism core and autoloader scripts, the
/// emoji stylesheet, the KaTeX stylesheet, script and auto-render script
/// (each with its integrity hash, shared anonymously), and the inline script
/// that renders the math of the page once it is loaded.
pub proof fn lemma_remote_addons_by_theme(theme: Theme)
    ensures
        remote_addons(theme).len() == 8,
        remote_addons(theme)[0] == HeadAddonView::ScriptLink(
            "https://cdnjs.cloudflare.com/ajax/libs/prism/1.29.0/components/prism-core.min.js"@,
            seq![("crossorigin"@, "anonymous"@)],
        ),
        remote_addons(theme)[1] == HeadAddonView::ScriptLink(
            "https://cdnjs.cloudflare.com/ajax/libs/prism/1.29.0/plugins/autoloader/prism-autoloader.min.js"@,
            seq![("crossorigin"@, "anonymous"@)],
        ),
        remote_addons(theme)[3] == HeadAddonView::Link(
            "https://emoji-css.afeld.me/emoji.css"@,
            "stylesheet"@,
        ),
        remote_addons(theme)[4] == HeadAddonView::LinkWithAttributes(
            "https://cdn.jsdelivr.net/npm/katex@0.16.9/dist/katex.min.css"@,
            "stylesheet"@,
            seq![
                ("integrity"@, "sha384-n8MVd4RsNIU0tAv4ct0nTaAbDJwPJzDEaqSD1odI+WdtXRGWt2kTvGFasHpSy3SV"@),
                ("crossorigin"@, "anonymous"@),
            ],
        ),
        remote_addons(theme)[5] == HeadAddonView::ScriptLink(
            "https://cdn.jsdelivr.net/npm/katex@0.16.9/dist/katex.min.js"@,
            seq![
                ("integrity"@, "sha384-XjKyOOlGwcjNTAIQHIpgOno0Hl1YQqzUOEleOLALmuqehneUG+vnGctmUb0ZY0l8"@),
                ("crossorigin"@, "anonymous"@),
            ],
        ),
        remote_addons(theme)[6] == HeadAddonView::ScriptLink(
            "https://cdn.jsdelivr.net/npm/katex@0.16.9/dist/contrib/auto-render.min.js"@,
            seq![
                ("integrity"@, "sha384-+VBxd3r6XgURycqtZ117nYw44OOcIax56Z4dCRWbxyPt0Koah1uHoK0o4+/RRE05"@),
                ("crossorigin"@, "anonymous"@),
            ],
        ),
        remote_addons(theme)[7] == HeadAddonView::ScriptLiteral(r#"
                document.addEventListener("DOMContentLoaded", function() {
                    renderMathInElement(document.body, {
                        
                        delimiters: [
                            {left: '$$', right: '$$', display: true},
                            {left: '$', right: '$', display: false},
                        ],
                        
                        throwOnError : false
                    });
                });"#@),
{
}

fn anonymous_attributes(integrity: Option<&str>) -> (r: Vec<(String, String)>)
    ensures
        attributes_view(r@) == anonymous(
            match integrity {
                Some(h) => Some(h@),
                None => None,
            },
        ),
{
    let mut r: Vec<(String, String)> = Vec::new();
    match integrity {
        Some(hash) => r.push((String::from_str("integrity"), String::from_str(hash))),
        None => {},
    }
    r.push((String::from_str("crossorigin"), String::from_str("anonymous")));
    assert(attributes_view(r@) =~= anonymous(
        match integrity {
            Some(h) => Some(h@),
            None => None,
        },
    ));
    r
}

/// What the head of a page holds: the markup of the elements added to it, in
/// the order of their addition.
pub uninterp spec fn page_head(page: HtmlPage) -> Seq<char>;

/// What the body of a page holds.
pub uninterp spec fn page_body(page: HtmlPage) -> Seq<char>;

/// The markup of attributes: ` key="value"` for each, in order.
pub open spec fn attributes_markup(attributes: Seq<(Seq<char>, Seq<char>)>) -> Seq<char>
    decreases attributes.len(),
{
    if attributes.len() == 0 {
        Seq::empty()
    } else {
        let a = attributes.last();
        attributes_markup(attributes.drop_last()) + " "@ + a.0 + "=\""@ + a.1 + "\""@
    }
}

/// The markup that a resource adds to the head of a page.
pub open spec fn addon_markup(addon: HeadAddonView) -> Seq<char> {
    match addon {
        HeadAddonView::ScriptLink(src, attributes) => "<script src=\""@ + src + "\""@
            + attributes_markup(attributes) + "></script>"@,
        HeadAddonView::Link(href, rel) => "<link href=\""@ + href + "\" rel=\""@ + rel + "\">"@,
        HeadAddonView::LinkWithAttributes(href, rel, attributes) => "<link href=\""@ + href
            + "\" rel=\""@ + rel + "\""@ + attributes_markup(attributes) + ">"@,
        HeadAddonView::ScriptLiteral(code) => "<script>"@ + code + "</script>"@,
    }
}

/// The markup of resources, in order.
pub open spec fn addons_markup(addons: Seq<HeadAddonView>) -> Seq<char>
    decreases addons.len(),
{
    if addons.len() == 0 {
        Seq::empty()
    } else {
        addons_markup(addons.drop_last()) + addon_markup(addons.last())
    }
}

/// Calls `HtmlPage::with_script_link_attr`.  Claimed, as the crate's source
/// shows: the head gains `<script src="src"` with the attributes and
/// `></script>`; the body stays.
#[verifier::external_body]
fn with_script_link_attr(page: HtmlPage, src: &str, attributes: &Vec<(String, String)>) -> (r:
    HtmlPage)
    ensures
        page_head(r) == page_head(page) + addon_markup(
            HeadAddonView::ScriptLink(src@, attributes_view(attributes@)),
        ),
        page_body(r) == page_body(page),
{
    page.with_script_link_attr(src, attributes.clone())
}

/// Calls `HtmlPage::with_head_link`.  Claimed, as the crate's source shows:
/// the head gains `<link href="href" rel="rel">`; the body stays.
#[verifier::external_body]
fn with_head_link(page: HtmlPage, href: &str, rel: &str) -> (r: HtmlPage)
    ensures
        page_head(r) == page_head(page) + addon_markup(HeadAddonView::Link(href@, rel@)),
        page_body(r) == page_body(page),
{
    page.with_head_link(href, rel)
}

/// Calls `HtmlPage::with_head_link_attr`.  Claimed, as the crate's source
/// shows: the head gains the link with the attributes; the body stays.
#[verifier::external_body]
fn with_head_link_attr(page: HtmlPage, href: &str, rel: &str, attributes: &Vec<(String, String)>) -> (r:
    HtmlPage)
    ensures
        page_head(r) == page_head(page) + addon_markup(
            HeadAddonView::LinkWithAttributes(href@, rel@, attributes_view(attributes@)),
        ),
        page_body(r) == page_body(page),
{
    page.with_head_link_attr(href, rel, attributes.clone())
}

/// Calls `HtmlPage::add_script_literal`.  Claimed, as the crate's source
/// shows: the head gains `<script>code</script>`; the body stays.
#[verifier::external_body]
fn add_script_literal(page: &mut HtmlPage, code: &str)
    ensures
        page_head(*final(page)) == page_head(*old(page)) + addon_markup(
            HeadAddonView::ScriptLiteral(code@),
        ),
        page_body(*final(page)) == page_body(*old(page)),
{
    page.add_script_literal(code)
}

/// Assembles HTML pages.
#[derive(Debug)]
pub struct HtmlAssembler;

impl HtmlAssembler {
    /// What a page of `theme` loads from the network.
    pub fn standard_remote_addons(theme: &Theme) -> (r: Vec<HeadAddon>)
        ensures
            addons_view(r@) == remote_addons(*theme),
    {
        let stylesheet = match theme {
            Theme::Dark => PRISM_DARK,
            Theme::Scientific => PRISM_SCIENTIFIC,
            Theme::Vintage => PRISM_VINTAGE,
            _ => PRISM_LIGHT,
        };
        let mut r: Vec<HeadAddon> = Vec::new();
        r.push(HeadAddon::ScriptLink { src: String::from_str(PRISM_CORE), attributes: anonymous_attributes(None) });
        r.push(HeadAddon::ScriptLink { src: String::from_str(PRISM_AUTOLOADER), attributes: anonymous_attributes(None) });
        r.push(HeadAddon::Link { href: String::from_str(stylesheet), rel: String::from_str("stylesheet") });
        r.push(HeadAddon::Link { href: String::from_str(EMOJI_CSS), rel: String::from_str("stylesheet") });
        r.push(
            HeadAddon::LinkWithAttributes {
                href: String::from_str(KATEX_CSS),
                rel: String::from_str("stylesheet"),
                attributes: anonymous_attributes(Some(KATEX_CSS_INTEGRITY)),
            },
        );
        r.push(
            HeadAddon::ScriptLink {
                src: String::from_str(KATEX_JS),
                attributes: anonymous_attributes(Some(KATEX_JS_INTEGRITY)),
            },
        );
        r.push(
            HeadAddon::ScriptLink {
                src: String::from_str(KATEX_AUTO_RENDER),
                attributes: anonymous_attributes(Some(KATEX_AUTO_RENDER_INTEGRITY)),
            },
        );
        r.push(HeadAddon::ScriptLiteral(String::from_str(MATH_RENDER_SCRIPT)));
        assert(addons_view(r@) =~= remote_addons(*theme));
        r
    }

    /// Adds to the head of `page`, in order, what a page of `theme` loads
    /// from the network.
    pub fn apply_standard_remote_addons(page: HtmlPage, theme: &Theme) -> (r: HtmlPage)
        ensures
            page_head(r) == page_head(page) + addons_markup(remote_addons(*theme)),
            page_body(r) == page_body(page),
    {
        let addons = Self::standard_remote_addons(theme);
        let ghost head0 = page_head(page);
        let ghost body0 = page_body(page);
        let ghost av = addons_view(addons@);
        let mut page = page;
        let mut i: usize = 0;
        assert(av.take(0) =~= Seq::<HeadAddonView>::empty());
        assert(head0 + Seq::<char>::empty() =~= head0);
        while i < addons.len()
            invariant
                i <= addons.len(),
                av == addons_view(addons@),
                page_head(page) == head0 + addons_markup(av.take(i as int)),
                page_body(page) == body0,
            decreases addons.len() - i,
        {
            assert(av.take(i + 1).drop_last() =~= av.take(i as int));
            assert(av.take(i + 1).last() == addons@[i as int]@);
            let ghost before = page_head(page);
            match &addons[i] {
                HeadAddon::ScriptLink { src, attributes } => {
                    page = with_script_link_attr(page, src.as_str(), attributes);
                },
                HeadAddon::Link { href, rel } => {
                    page = with_head_link(page, href.as_str(), rel.as_str());
                },
                HeadAddon::LinkWithAttributes { href, rel, attributes } => {
                    page = with_head_link_attr(page, href.as_str(), rel.as_str(), attributes);
                },
                HeadAddon::ScriptLiteral(code) => {
                    add_script_literal(&mut page, code.as_str());
                },
            }
            assert(page_head(page) =~= head0 + addons_markup(av.take(i + 1)));
            i = i + 1;
        }
        assert(av.take(addons.len() as int) =~= av);
        page
    }
}

} // verus!
