//! The two capability interfaces of the engine: fetching content and
//! parsing it. The static, browser and hybrid fetchers all implement the
//! fetch capability, so the services can be driven by substitutable
//! implementations, test doubles included. The interfaces promise nothing
//! of their results: what a particular implementation guarantees stands on
//! that implementation.

use vstd::prelude::*;
use crate::model::{FetchContentRequest, HtmlContent};
use crate::errors::{ContentFetcherError, ContentParserError};

verus! {

/// Something that can turn a fetch request into fetched content.
pub trait ContentFetcher {
    fn fetch_content(&self, request: FetchContentRequest) -> Result<HtmlContent, ContentFetcherError>;
}

/// Something that can read raw HTML into structured content.
pub trait ContentParser {
    fn parse_html(&self, raw_html: &str, url: &str) -> Result<HtmlContent, ContentParserError>;

    fn extract_text(&self, html_content: &HtmlContent) -> Result<String, ContentParserError>;
}

} // verus!
