//! The application services: request validation, and thin coordination
//! around the fetch and parse capabilities.

use vstd::prelude::*;
use vstd::string::*;
use std::sync::Arc;
use crate::model::{FetchContentRequest, HtmlContent};
use crate::errors::{ContentFetcherError, ContentParserError};
use crate::ports::{ContentFetcher, ContentParser};
use crate::text::{chars_of, is_match_at, match_at};

verus! {

/// Why a request is rejected before any fetch: an empty URL, a scheme other
/// than http or https, or a timeout beyond the 300 second cap — the first
/// failing check wins. `None` means the request is acceptable.
pub open spec fn spec_validate(url: Seq<char>, timeout_seconds: Option<u64>) -> Option<Seq<char>> {
    if url.len() == 0 {
        Some("URL cannot be empty"@)
    } else if !(is_match_at(url, "http://"@, 0) || is_match_at(url, "https://"@, 0)) {
        Some("URL must start with http:// or https://"@)
    } else {
        match timeout_seconds {
            Option::Some(t) => {
                if t > 300 {
                    Some("Timeout cannot exceed 300 seconds"@)
                } else {
                    None
                }
            },
            Option::None => None,
        }
    }
}

/// Fetches content and hands it on, through whatever fetcher the service
/// was built with.
pub struct ContentFetchService<F: ContentFetcher> {
    content_fetcher: Arc<F>,
}

impl<F: ContentFetcher> ContentFetchService<F> {
    /// The fetcher this service delegates every fetch to.
    pub closed spec fn fetcher(&self) -> Arc<F> {
        self.content_fetcher
    }

    /// A service bound to the given fetcher: every later fetch delegates to
    /// exactly this one. Construction performs no fetch and no I/O.
    pub fn new(content_fetcher: Arc<F>) -> (r: Self)
        ensures
            r.fetcher() == content_fetcher,
    {
        ContentFetchService { content_fetcher }
    }

    /// Fetches the requested content through the configured fetcher and
    /// returns whatever it produced. What the result guarantees is the
    /// fetcher implementation's contract, not this service's.
    pub fn fetch_and_process_content(&self, request: FetchContentRequest) -> Result<
        HtmlContent,
        ContentFetcherError,
    > {
        self.content_fetcher.fetch_content(request)
    }

    /// Rejects an empty URL, a non-http(s) URL, and a timeout over 300
    /// seconds, in that order, each with its fixed message; accepts
    /// everything else.
    pub fn validate_request(&self, request: &FetchContentRequest) -> (r: Result<(), String>)
        ensures
            match r {
                Result::Ok(()) => spec_validate(request.url@, request.timeout_seconds) is None,
                Result::Err(m) => spec_validate(request.url@, request.timeout_seconds)
                    == Some(m@),
            },
    {
        let url_chars = chars_of(request.url.as_str());
        if url_chars.len() == 0 {
            return Err(String::from_str("URL cannot be empty"));
        }
        let http_prefix = chars_of("http://");
        let https_prefix = chars_of("https://");
        if !(match_at(&url_chars, &http_prefix, 0) || match_at(&url_chars, &https_prefix, 0)) {
            return Err(String::from_str("URL must start with http:// or https://"));
        }
        if let Some(timeout) = request.timeout_seconds {
            if timeout > 300 {
                return Err(String::from_str("Timeout cannot exceed 300 seconds"));
            }
        }
        Ok(())
    }
}

/// Parses raw HTML and extracts text, through whatever parser the service
/// was built with.
pub struct ContentParseService<P: ContentParser> {
    content_parser: Arc<P>,
}

impl<P: ContentParser> ContentParseService<P> {
    /// The parser this service delegates every parse to.
    pub closed spec fn parser(&self) -> Arc<P> {
        self.content_parser
    }

    /// A service bound to the given parser: every later parse delegates to
    /// exactly this one. Construction performs no parse and no I/O.
    pub fn new(content_parser: Arc<P>) -> (r: Self)
        ensures
            r.parser() == content_parser,
    {
        ContentParseService { content_parser }
    }

    /// Parses raw HTML for the given URL through the configured parser and
    /// returns whatever it produced.
    pub fn parse_html_content(&self, raw_html: &str, url: &str) -> Result<
        HtmlContent,
        ContentParserError,
    > {
        self.content_parser.parse_html(raw_html, url)
    }

    /// Extracts the visible text of already-parsed content through the
    /// configured parser and returns whatever it produced.
    pub fn extract_text_only(&self, html_content: &HtmlContent) -> Result<
        String,
        ContentParserError,
    > {
        self.content_parser.extract_text(html_content)
    }
}

} // verus!
