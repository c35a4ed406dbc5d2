//! Rendering of one source document to an HTML fragment.
//!
//! The Markdown-to-HTML conversion itself is done by an outside
//! renderer; the library names its output and reasons about everything
//! around the call. Reading a document from disk is the program's job:
//! the library receives each document as a [`DocRead`], the outcome of
//! that read.

use vstd::prelude::*;

verus! {

/// The HTML fragment the Markdown renderer produces for a source text.
/// The conversion is a pure function of the text, so its output is
/// named rather than spelled out.
pub uninterp spec fn html_of(source: Seq<char>) -> Seq<char>;

/// Relies on pulldown_cmark's `Parser::new_ext` and `html::push_html`:
/// with no options enabled, the HTML pushed is a pure function of the
/// input text.
#[verifier::external_body]
fn md_to_html(input: &str) -> (r: String)
    ensures
        r@ == html_of(input@),
{
    let parser = pulldown_cmark::Parser::new_ext(input, pulldown_cmark::Options::empty());
    let mut output = String::new();
    pulldown_cmark::html::push_html(&mut output, parser);
    output
}

/// The outcome of reading one source document from disk.
pub enum DocRead {
    /// The document's text.
    Text(String),
    /// The document could not be read.
    Unreadable,
}

/// Why a document could not be rendered.
#[derive(Debug)]
pub enum RenderError {
    /// The source document could not be read.
    Unreadable,
}

/// HTML renderer
pub struct HtmlRenderer {}

impl HtmlRenderer {
    /// Initializes the HTML renderer
    pub fn new() -> (r: Self) {
        HtmlRenderer {  }
    }

    /// Renders a source document to an HTML fragment: the renderer's
    /// output for the document's text, or an error when the document
    /// could not be read.
    pub fn render(&self, source: &DocRead) -> (r: Result<String, RenderError>)
        ensures
            source matches DocRead::Text(t) ==> (r matches Ok(h) && h@ == html_of(t@)),
            source is Unreadable ==> r == Err::<String, RenderError>(RenderError::Unreadable),
    {
        match source {
            DocRead::Text(t) => Ok(md_to_html(t.as_str())),
            DocRead::Unreadable => Err(RenderError::Unreadable),
        }
    }
}

} // verus!
