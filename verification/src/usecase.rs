//! The fetch-web-content use case: defaults, validation, the fetch itself,
//! and the rendering of failures for REST and JSON-RPC callers.

use vstd::prelude::*;
use vstd::string::*;
use std::sync::Arc;
use crate::model::{FetchContentRequest, HtmlContent};
use crate::errors::ContentFetcherError;
use crate::ports::{ContentFetcher, ContentParser};
use crate::service::{spec_validate, ContentFetchService, ContentParseService};
use crate::text::{dec_str, push_decimal};

verus! {

/// The processed request keeps the URL and fills every absent option with
/// its default: extract text, follow redirects, a 30 second timeout, the
/// library's user agent.
pub open spec fn defaults_applied(orig: FetchContentRequest, r: FetchContentRequest) -> bool {
    &&& r.url == orig.url
    &&& r.extract_text_only == (if orig.extract_text_only is Some {
        orig.extract_text_only
    } else {
        Some(true)
    })
    &&& r.follow_redirects == (if orig.follow_redirects is Some {
        orig.follow_redirects
    } else {
        Some(true)
    })
    &&& r.timeout_seconds == (if orig.timeout_seconds is Some {
        orig.timeout_seconds
    } else {
        Some(30u64)
    })
    &&& (orig.user_agent is Some ==> r.user_agent == orig.user_agent)
    &&& (orig.user_agent is None ==> (r.user_agent matches Some(ua) && ua@
        == "html-api-reader/0.1.0"@))
}

/// The timeout the validator sees once defaults are applied.
pub open spec fn spec_timeout_or_default(timeout_seconds: Option<u64>) -> Option<u64> {
    if timeout_seconds is Some {
        timeout_seconds
    } else {
        Some(30u64)
    }
}

/// Fills every absent option of a request with its default, leaving the URL
/// and any given values untouched.
pub fn apply_defaults(request: FetchContentRequest) -> (r: FetchContentRequest)
    ensures
        defaults_applied(request, r),
{
    FetchContentRequest {
        url: request.url,
        extract_text_only: match request.extract_text_only {
            Some(v) => Some(v),
            None => Some(true),
        },
        follow_redirects: match request.follow_redirects {
            Some(v) => Some(v),
            None => Some(true),
        },
        timeout_seconds: match request.timeout_seconds {
            Some(v) => Some(v),
            None => Some(30),
        },
        user_agent: match request.user_agent {
            Some(v) => Some(v),
            None => Some(String::from_str("html-api-reader/0.1.0")),
        },
    }
}

/// How a fetch failure reads for a REST caller.
pub open spec fn spec_api_error_message(e: ContentFetcherError) -> Seq<char> {
    match e {
        ContentFetcherError::Network(m) => "Network error: "@ + m@,
        ContentFetcherError::InvalidUrl(m) => "Invalid URL: "@ + m@,
        ContentFetcherError::Timeout(s) => "Request timeout after "@ + dec_str(s as nat)
            + " seconds"@,
        ContentFetcherError::Http { status, message } => "HTTP "@ + dec_str(status as nat) + ": "@
            + message@,
        ContentFetcherError::Parse(m) => "Parse error: "@ + m@,
    }
}

/// Renders a fetch failure for a REST caller.
pub fn api_error_message(e: &ContentFetcherError) -> (r: String)
    ensures
        r@ == spec_api_error_message(*e),
{
    match e {
        ContentFetcherError::Network(m) => {
            let mut r = String::from_str("Network error: ");
            r.append(m.as_str());
            r
        },
        ContentFetcherError::InvalidUrl(m) => {
            let mut r = String::from_str("Invalid URL: ");
            r.append(m.as_str());
            r
        },
        ContentFetcherError::Timeout(s) => {
            let mut r = String::from_str("Request timeout after ");
            push_decimal(*s, &mut r);
            r.append(" seconds");
            r
        },
        ContentFetcherError::Http { status, message } => {
            let mut r = String::from_str("HTTP ");
            push_decimal(*status as u64, &mut r);
            r.append(": ");
            r.append(message.as_str());
            r
        },
        ContentFetcherError::Parse(m) => {
            let mut r = String::from_str("Parse error: ");
            r.append(m.as_str());
            r
        },
    }
}

/// The JSON-RPC error code of a fetch failure: network failures, timeouts,
/// HTTP failures and parse failures each carry their own code; an invalid
/// URL is an invalid-parameters error.
pub open spec fn spec_mcp_error_code(e: ContentFetcherError) -> int {
    match e {
        ContentFetcherError::Network(_) => -32001,
        ContentFetcherError::InvalidUrl(_) => -32602,
        ContentFetcherError::Timeout(_) => -32002,
        ContentFetcherError::Http { .. } => -32003,
        ContentFetcherError::Parse(_) => -32004,
    }
}

/// The JSON-RPC error code of a fetch failure.
pub fn mcp_error_code(e: &ContentFetcherError) -> (c: i32)
    ensures
        c as int == spec_mcp_error_code(*e),
{
    match e {
        ContentFetcherError::Network(_) => -32001,
        ContentFetcherError::InvalidUrl(_) => -32602,
        ContentFetcherError::Timeout(_) => -32002,
        ContentFetcherError::Http { .. } => -32003,
        ContentFetcherError::Parse(_) => -32004,
    }
}

/// Turns a fetch outcome into a REST outcome: content passes through,
/// a failure becomes its rendered message.
pub fn api_result_of(result: Result<HtmlContent, ContentFetcherError>) -> (r: Result<
    HtmlContent,
    String,
>)
    ensures
        match result {
            Result::Ok(c) => r matches Ok(rc) && rc == c,
            Result::Err(e) => r matches Err(m) && m@ == spec_api_error_message(e),
        },
{
    match result {
        Ok(c) => Ok(c),
        Err(e) => Err(api_error_message(&e)),
    }
}

/// The one operation this engine exposes: fetch a page's content, with
/// validation up front and failures rendered for the caller.
pub struct FetchWebContentUseCase<F: ContentFetcher, P: ContentParser> {
    fetch_service: Arc<ContentFetchService<F>>,
    parse_service: Arc<ContentParseService<P>>,
}

impl<F: ContentFetcher, P: ContentParser> FetchWebContentUseCase<F, P> {
    /// The fetch service this use case validates and fetches through.
    pub closed spec fn spec_fetch_service(&self) -> Arc<ContentFetchService<F>> {
        self.fetch_service
    }

    /// The parse service this use case retains.
    pub closed spec fn spec_parse_service(&self) -> Arc<ContentParseService<P>> {
        self.parse_service
    }

    /// A use case bound to the given services: validation and fetching go
    /// through exactly the given fetch service; the parse service is kept
    /// for callers that post-process content. Construction performs no
    /// fetch and no I/O.
    pub fn new(
        fetch_service: Arc<ContentFetchService<F>>,
        parse_service: Arc<ContentParseService<P>>,
    ) -> (r: Self)
        ensures
            r.spec_fetch_service() == fetch_service,
            r.spec_parse_service() == parse_service,
    {
        FetchWebContentUseCase { fetch_service, parse_service }
    }

    /// The parse service this use case was built with.
    pub fn parse_service(&self) -> (r: &Arc<ContentParseService<P>>)
        ensures
            r == self.spec_parse_service(),
    {
        &self.parse_service
    }

    /// Fetches content for a REST caller: applies the defaults, validates,
    /// and fetches. A request that fails validation is rejected with
    /// `Invalid parameters: ` and the validator's message, without any
    /// fetch; a fetch failure is rendered as its REST message; and a
    /// returned content is exactly what the configured fetcher produced.
    pub fn execute_for_api(&self, request: FetchContentRequest) -> (r: Result<HtmlContent, String>)
        ensures
            r is Ok ==> spec_validate(
                request.url@,
                spec_timeout_or_default(request.timeout_seconds),
            ) is None,
            match spec_validate(request.url@, spec_timeout_or_default(request.timeout_seconds)) {
                Option::Some(v) => r matches Err(m) && m@ == "Invalid parameters: "@ + v,
                Option::None => match r {
                    Result::Err(m) => exists|e: ContentFetcherError|
                        m@ == spec_api_error_message(e),
                    Result::Ok(_) => true,
                },
            },
    {
        let processed = apply_defaults(request);
        match self.fetch_service.validate_request(&processed) {
            Err(validation_error) => {
                let mut m = String::from_str("Invalid parameters: ");
                m.append(validation_error.as_str());
                Err(m)
            },
            Ok(()) => {
                match self.fetch_service.fetch_and_process_content(processed) {
                    Ok(content) => Ok(content),
                    Err(e) => {
                        let ghost err = e;
                        let m = api_error_message(&e);
                        assert(m@ == spec_api_error_message(err));
                        Err(m)
                    },
                }
            },
        }
    }
}

} // verus!
