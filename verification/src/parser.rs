//! The DOM-backed HTML parser: builds structured content out of raw HTML,
//! with the title and visible text read through the verified extractors.

use vstd::prelude::*;
use vstd::string::*;
use crate::model::{ContentMetadata, HtmlContent};
use crate::errors::ContentParserError;
use crate::html::{
    spec_adapter_title, spec_adapter_text, extract_title_node, extract_text_lines,
};
use crate::text::cleaned_text;
use crate::text::clean_lines;
use crate::ports::ContentParser;

verus! {

/// Parses HTML into content through the DOM: title from the first `title`
/// element, text from the body's text nodes.
pub struct HtmlParserAdapter;

impl HtmlParserAdapter {
    /// A fresh parser.
    pub fn new() -> (r: Self) {
        HtmlParserAdapter
    }

    /// Trims every line of the text, drops the empty ones, and joins the
    /// rest with newlines.
    pub fn clean_text_content(&self, text: String) -> (r: String)
        ensures
            r@ == cleaned_text(text@),
    {
        clean_lines(text.as_str())
    }

    /// The first `title` element's text, trimmed; an empty or
    /// whitespace-only title counts as absent.
    pub fn extract_title_from_raw_html(&self, raw_html: &str) -> (r: Option<String>)
        ensures
            r.deep_view() == spec_adapter_title(raw_html@),
    {
        extract_title_node(raw_html)
    }

    /// The visible text of the document: body text nodes joined by spaces,
    /// lines trimmed, empty lines dropped. Never fails.
    pub fn extract_text_from_html(&self, raw_html: &str) -> (r: Result<
        String,
        ContentParserError,
    >)
        ensures
            r matches Ok(t) && t@ == spec_adapter_text(raw_html@),
    {
        Ok(extract_text_lines(raw_html))
    }

    /// Reads raw HTML into structured content for the given URL: the
    /// adapter's title and text extraction, with metadata describing a
    /// successfully parsed HTML document. Never fails.
    pub fn parse_html(&self, raw_html: &str, url: &str) -> (r: Result<
        HtmlContent,
        ContentParserError,
    >)
        ensures
            r matches Ok(c) && {
                &&& c.url@ == url@
                &&& c.title.deep_view() == spec_adapter_title(raw_html@)
                &&& c.text_content@ == spec_adapter_text(raw_html@)
                &&& c.raw_html@ == raw_html@
                &&& c.metadata.content_type@ == "text/html"@
                &&& c.metadata.status_code == 200u16
                &&& c.metadata.content_length == Some(raw_html.spec_bytes().len() as usize)
                &&& c.metadata.last_modified is None
                &&& c.metadata.charset matches Some(cs) && cs@ == "utf-8"@
                &&& c.metadata.javascript_detected is None
                &&& c.metadata.fetch_method is None
            },
    {
        let title = self.extract_title_from_raw_html(raw_html);
        let text_content = extract_text_lines(raw_html);
        let metadata = ContentMetadata {
            content_type: String::from_str("text/html"),
            status_code: 200,
            content_length: Some(raw_html.len()),
            last_modified: None,
            charset: Some(String::from_str("utf-8")),
            javascript_detected: None,
            fetch_method: None,
        };
        Ok(
            HtmlContent {
                url: String::from_str(url),
                title,
                text_content,
                raw_html: String::from_str(raw_html),
                metadata,
            },
        )
    }

    /// The visible text of already-parsed content, re-extracted from its
    /// raw HTML. Never fails.
    pub fn extract_text(&self, html_content: &HtmlContent) -> (r: Result<
        String,
        ContentParserError,
    >)
        ensures
            r matches Ok(t) && t@ == spec_adapter_text(html_content.raw_html@),
    {
        self.extract_text_from_html(html_content.raw_html.as_str())
    }
}

impl ContentParser for HtmlParserAdapter {
    fn parse_html(&self, raw_html: &str, url: &str) -> Result<HtmlContent, ContentParserError> {
        HtmlParserAdapter::parse_html(self, raw_html, url)
    }

    fn extract_text(&self, html_content: &HtmlContent) -> Result<String, ContentParserError> {
        HtmlParserAdapter::extract_text(self, html_content)
    }
}

} // verus!
