//! Markdown-to-HTML rendering.

use vstd::prelude::*;

verus! {

/// What the CommonMark renderer produces for a Markdown text; raw HTML in
/// the source passes through unchanged.
pub uninterp spec fn html_of(s: Seq<char>) -> Seq<char>;

/// Relies on pulldown_cmark's Parser (default options) and html::push_html:
/// the rendering is a pure function of the Markdown text.
#[verifier::external_body]
pub(crate) fn render_markdown(body: &str) -> (r: String)
    ensures
        r@ == html_of(body@),
{
    let parser = pulldown_cmark::Parser::new(body);
    let mut out = String::new();
    pulldown_cmark::html::push_html(&mut out, parser);
    out
}

} // verus!
