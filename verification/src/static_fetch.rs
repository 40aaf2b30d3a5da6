//! The verified part of the static (plain-HTTP) fetch path: what goes into
//! the request, how transport failures and statuses map to errors, and how
//! a successful response body becomes fetched content. The one network call
//! lives outside the library; these functions fix everything around it.

use vstd::prelude::*;
use vstd::string::*;
use crate::model::{ContentMetadata, FetchContentRequest, HtmlContent};
use crate::errors::ContentFetcherError;
use crate::html::{spec_extract_title, spec_extract_text, extract_title, extract_text_content};

verus! {

/// The user agent the plain-HTTP client is built with.
pub open spec fn spec_static_user_agent() -> Seq<char> {
    "html-mcp-reader/0.1.0"@
}

/// The Accept header every static fetch sends: HTML preferred.
pub open spec fn spec_accept_header() -> Seq<char> {
    "text/html,application/xhtml+xml,application/xml;q=0.9,*/*;q=0.8"@
}

/// Everything a transport needs to perform one static fetch: the URL, the
/// optional hard deadline, the optional per-request user agent, and the
/// Accept header value.
pub struct StaticRequestPlan {
    pub url: String,
    pub timeout_seconds: Option<u64>,
    pub user_agent: Option<String>,
    pub accept: String,
}

/// Lays out the one GET a request turns into: the request's URL and
/// timeout, its user agent if it names one (the client's own otherwise,
/// set once at client construction), and an Accept header favouring HTML.
pub fn plan_static_request(request: &FetchContentRequest) -> (p: StaticRequestPlan)
    ensures
        p.url == request.url,
        p.timeout_seconds == request.timeout_seconds,
        p.user_agent == request.user_agent,
        p.accept@ == spec_accept_header(),
{
    StaticRequestPlan {
        url: request.url.clone(),
        timeout_seconds: request.timeout_seconds,
        user_agent: match &request.user_agent {
            Some(ua) => Some(ua.clone()),
            None => None,
        },
        accept: String::from_str("text/html,application/xhtml+xml,application/xml;q=0.9,*/*;q=0.8"),
    }
}

/// The default user agent of the plain-HTTP client.
pub fn static_user_agent() -> (r: &'static str)
    ensures
        r@ == spec_static_user_agent(),
{
    "html-mcp-reader/0.1.0"
}

/// The deadline a timed-out static fetch reports: the request's own
/// timeout, or the 30 second default budget when the request named none.
pub open spec fn spec_reported_deadline(timeout_seconds: Option<u64>) -> u64 {
    match timeout_seconds {
        Option::Some(t) => t,
        Option::None => 30u64,
    }
}

/// Maps a transport failure to the fetch error taxonomy: a deadline that
/// ran out is a timeout carrying the request's own deadline in seconds (the
/// 30 second default when the request named none), a failure to connect is
/// a network error prefixed `Connection failed: `, anything else a network
/// error prefixed `Request failed: `.
pub fn static_transport_error(
    is_timeout: bool,
    is_connect: bool,
    detail: String,
    timeout_seconds: Option<u64>,
) -> (e: ContentFetcherError)
    ensures
        is_timeout ==> e == ContentFetcherError::Timeout(spec_reported_deadline(timeout_seconds)),
        !is_timeout && is_connect ==> (e matches ContentFetcherError::Network(m) && m@
            == "Connection failed: "@ + detail@),
        !is_timeout && !is_connect ==> (e matches ContentFetcherError::Network(m) && m@
            == "Request failed: "@ + detail@),
{
    if is_timeout {
        ContentFetcherError::Timeout(
            match timeout_seconds {
                Some(t) => t,
                None => 30,
            },
        )
    } else if is_connect {
        let mut m = String::from_str("Connection failed: ");
        m.append(detail.as_str());
        ContentFetcherError::Network(m)
    } else {
        let mut m = String::from_str("Request failed: ");
        m.append(detail.as_str());
        ContentFetcherError::Network(m)
    }
}

/// A status is a success exactly when it lies in the 2xx range.
pub open spec fn spec_status_success(status: u16) -> bool {
    200 <= status < 300
}

/// Accepts a 2xx status and turns any other into the HTTP error for that
/// status, carrying the status line's reason, or `Unknown` where the
/// transport reports none.
pub fn check_status(status: u16, reason: Option<String>) -> (r: Result<(), ContentFetcherError>)
    ensures
        spec_status_success(status) <==> r is Ok,
        !spec_status_success(status) ==> (r matches Err(e) && e matches ContentFetcherError::Http {
            status: s,
            message: m,
        } && s == status && (match reason {
            Option::Some(t) => m@ == t@,
            Option::None => m@ == "Unknown"@,
        })),
{
    if 200 <= status && status < 300 {
        Ok(())
    } else {
        let message = match reason {
            Some(t) => t,
            None => String::from_str("Unknown"),
        };
        Err(ContentFetcherError::Http { status, message })
    }
}

/// Builds the metadata of a static fetch from the response's header values:
/// the reported content type, `text/html` when none came back, and the
/// status, length and last-modified stamp as reported. The decision fields
/// stay unset here; the orchestrator fills them before anything is
/// returned.
pub fn make_static_metadata(
    content_type: Option<String>,
    status_code: u16,
    content_length: Option<usize>,
    last_modified: Option<String>,
) -> (m: ContentMetadata)
    ensures
        match content_type {
            Option::Some(t) => m.content_type == t,
            Option::None => m.content_type@ == "text/html"@,
        },
        m.status_code == status_code,
        m.content_length == content_length,
        m.last_modified == last_modified,
        m.charset is None,
        m.javascript_detected is None,
        m.fetch_method is None,
{
    ContentMetadata {
        content_type: match content_type {
            Some(t) => t,
            None => String::from_str("text/html"),
        },
        status_code,
        content_length,
        last_modified,
        charset: None,
        javascript_detected: None,
        fetch_method: None,
    }
}

/// Assembles fetched content out of a successful static response: the final
/// (post-redirect) URL, the verified title extraction over the body, the
/// body's visible text when text extraction was asked for — the raw body
/// otherwise — and the metadata built from the response headers.
pub fn build_static_content(
    final_url: String,
    raw_html: String,
    extract_text_only: bool,
    metadata: ContentMetadata,
) -> (c: HtmlContent)
    ensures
        c.url == final_url,
        c.title.deep_view() == spec_extract_title(raw_html@),
        extract_text_only ==> c.text_content@ == spec_extract_text(raw_html@),
        !extract_text_only ==> c.text_content@ == raw_html@,
        c.raw_html == raw_html,
        c.metadata == metadata,
{
    let title = extract_title(raw_html.as_str());
    let text_content: String = if extract_text_only {
        extract_text_content(raw_html.as_str())
    } else {
        raw_html.clone()
    };
    HtmlContent { url: final_url, title, text_content, raw_html, metadata }
}

} // verus!
