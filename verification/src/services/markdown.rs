//! Markdown rendering, done by the `pulldown-cmark` crate.
//!
//! Nothing here is proved: the function states what the outside crate is
//! trusted to return, and the spec function without a body stands for its
//! result.

use vstd::prelude::*;

verus! {

/// The HTML that `pulldown-cmark` writes for the Markdown text `markdown`.
pub uninterp spec fn html_of_markdown(markdown: Seq<char>) -> Seq<char>;

/// Parses `markdown` with `pulldown_cmark::Parser::new` and writes it with
/// `pulldown_cmark::html::push_html`. Trusted: the HTML is a function of the
/// Markdown text alone.
#[verifier::external_body]
pub(crate) fn markdown_to_html(markdown: &str) -> (html: String)
    ensures
        html@ == html_of_markdown(markdown@),
{
    let mut html = String::new();
    pulldown_cmark::html::push_html(&mut html, pulldown_cmark::Parser::new(markdown));
    html
}

} // verus!
