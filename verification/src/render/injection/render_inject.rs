use crate::configs::settings::{Setting, SettingView};
use crate::text::{append, chars_of, replace, replace_all, string_of};
use vstd::prelude::*;

verus! {

/// What is loaded for a page: scripts and style sheets, from the network and
/// from local files.
#[derive(Clone, Debug, PartialEq, Eq)]
pub struct Assets {
    pub css_cdn: String,
    pub css_local: String,
    pub js_cdn: String,
    pub js_local: String,
}

/// Assets are injected only in the rendering mode `paimon`.
pub open spec fn injects_spec(render_mode: SettingView) -> bool {
    render_mode == SettingView::Text("paimon"@)
}

/// What is injected for one kind of asset: what came from the network, then
/// what came from local files; nothing outside the mode `paimon`.
pub open spec fn injection(render_mode: SettingView, cdn: Seq<char>, local: Seq<char>) -> Seq<
    char,
> {
    if injects_spec(render_mode) {
        cdn + local
    } else {
        Seq::empty()
    }
}

/// The title of the page that renders `file`.
pub open spec fn page_title(file: Seq<char>) -> Seq<char> {
    "Paimon: "@ + file + ": README"@
}

/// A page template with its four placeholders filled, in this order: title,
/// rendered Markdown, style sheets, scripts.
pub open spec fn content_spec(
    file: Seq<char>,
    contents: Seq<char>,
    markdown_html: Seq<char>,
    css: Seq<char>,
    js: Seq<char>,
) -> Seq<char> {
    replace_all(
        replace_all(
            replace_all(
                replace_all(contents, "{{ page_title }}"@, page_title(file)),
                "{{ markdown_content }}"@,
                markdown_html,
            ),
            "{{ inject_css }}"@,
            css,
        ),
        "{{ inject_js }}"@,
        js,
    )
}

/// The filling of page templates.
pub struct RenderMarkdownInject;

impl RenderMarkdownInject {
    /// Whether anything is injected in this rendering mode.
    pub fn injects(render_mode: &Setting) -> (b: bool)
        ensures
            b == injects_spec(render_mode@),
    {
        render_mode.is_text("paimon")
    }

    fn inject(render_mode: &Setting, cdn: &str, local: &str) -> (out: Vec<char>)
        ensures
            out@ == injection(render_mode@, cdn@, local@),
    {
        let mut out: Vec<char> = Vec::new();
        if RenderMarkdownInject::injects(render_mode) {
            append(&mut out, &chars_of(cdn));
            append(&mut out, &chars_of(local));
        }
        assert(out@ =~= injection(render_mode@, cdn@, local@));
        out
    }

    /// The scripts that are injected in this rendering mode.
    pub fn get_js(render_mode: &Setting, cdn: &str, local: &str) -> (out: String)
        ensures
            out@ == injection(render_mode@, cdn@, local@),
    {
        string_of(&RenderMarkdownInject::inject(render_mode, cdn, local))
    }

    /// The style sheets that are injected in this rendering mode.
    pub fn get_css(render_mode: &Setting, cdn: &str, local: &str) -> (out: String)
        ensures
            out@ == injection(render_mode@, cdn@, local@),
    {
        string_of(&RenderMarkdownInject::inject(render_mode, cdn, local))
    }

    /// The page for `file`: the template `contents` with its placeholders
    /// filled by the title, the rendered Markdown, and the style sheets and
    /// scripts that the rendering mode injects.
    pub fn content(
        file: &str,
        contents: String,
        markdown_html: String,
        render_mode: &Setting,
        assets: &Assets,
    ) -> (page: String)
        ensures
            page@ == content_spec(
                file@,
                contents@,
                markdown_html@,
                injection(render_mode@, assets.css_cdn@, assets.css_local@),
                injection(render_mode@, assets.js_cdn@, assets.js_local@),
            ),
    {
        let mut title = chars_of("Paimon: ");
        append(&mut title, &chars_of(file));
        append(&mut title, &chars_of(": README"));
        let css = RenderMarkdownInject::inject(
            render_mode,
            assets.css_cdn.as_str(),
            assets.css_local.as_str(),
        );
        let js = RenderMarkdownInject::inject(
            render_mode,
            assets.js_cdn.as_str(),
            assets.js_local.as_str(),
        );
        let a = replace(&chars_of(contents.as_str()), &chars_of("{{ page_title }}"), &title);
        let b = replace(&a, &chars_of("{{ markdown_content }}"), &chars_of(markdown_html.as_str()));
        let c = replace(&b, &chars_of("{{ inject_css }}"), &css);
        let d = replace(&c, &chars_of("{{ inject_js }}"), &js);
        string_of(&d)
    }
}

} // verus!
