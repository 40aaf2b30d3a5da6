//! The data model shared by the fetch strategies: requests, fetched content
//! and its metadata, and the per-request browser options.

use vstd::prelude::*;

verus! {

/// How a page's content was obtained.
#[derive(Debug, Clone, PartialEq, Eq, Structural)]
pub enum FetchMethod {
    Static,
    Browser,
}

/// The kind of document a parser may be asked to handle.
#[derive(Debug, Clone, PartialEq, Eq, Structural)]
pub enum ContentType {
    Html,
    PlainText,
    Json,
    Xml,
}

impl Default for ContentType {
    /// HTML is the default document kind.
    fn default() -> (r: Self)
        ensures
            r == ContentType::Html,
    {
        ContentType::Html
    }
}

/// Metadata attached to fetched content. `javascript_detected` and
/// `fetch_method` are always filled in by the hybrid orchestrator before a
/// result is returned to a caller, whichever path produced the content.
#[derive(Debug, Clone)]
pub struct ContentMetadata {
    pub content_type: String,
    pub status_code: u16,
    pub content_length: Option<usize>,
    pub last_modified: Option<String>,
    pub charset: Option<String>,
    pub javascript_detected: Option<bool>,
    pub fetch_method: Option<FetchMethod>,
}

impl ContentMetadata {
    /// Both orchestrator-owned fields have been filled in.
    pub open spec fn finalized(&self) -> bool {
        &&& self.javascript_detected is Some
        &&& self.fetch_method is Some
    }
}

/// A fetched page: final URL, extracted title and text, the raw HTML, and
/// metadata describing how the page was obtained.
#[derive(Debug, Clone)]
pub struct HtmlContent {
    pub url: String,
    pub title: Option<String>,
    pub text_content: String,
    pub raw_html: String,
    pub metadata: ContentMetadata,
}

/// Per-request options for the browser-rendered fetch path.
#[derive(Debug, Clone)]
pub struct BrowserOptions {
    pub wait_for_js: bool,
    pub timeout_ms: u64,
    pub wait_for_selector: Option<String>,
    pub disable_images: bool,
    pub user_agent: Option<String>,
}

/// A caller's request: which URL to fetch and how.
#[derive(Debug, Clone)]
pub struct FetchContentRequest {
    pub url: String,
    pub extract_text_only: Option<bool>,
    pub follow_redirects: Option<bool>,
    pub timeout_seconds: Option<u64>,
    pub user_agent: Option<String>,
}

impl Default for FetchContentRequest {
    /// An empty URL with the standard defaults: extract text, follow
    /// redirects, a 30 second timeout, and the library's user agent.
    fn default() -> (r: Self)
        ensures
            r.url@ == Seq::<char>::empty(),
            r.extract_text_only == Some(true),
            r.follow_redirects == Some(true),
            r.timeout_seconds == Some(30u64),
            r.user_agent matches Some(ua) && ua@ == "html-api-reader/0.1.0"@,
    {
        FetchContentRequest {
            url: String::new(),
            extract_text_only: Some(true),
            follow_redirects: Some(true),
            timeout_seconds: Some(30),
            user_agent: Some(String::from_str("html-api-reader/0.1.0")),
        }
    }
}

/// The error body returned by the REST layer.
#[derive(Debug, Clone)]
pub struct ApiErrorResponse {
    pub error: String,
    pub message: String,
}

/// The health-check body returned by the REST layer.
#[derive(Debug, Clone)]
pub struct HealthResponse {
    pub status: String,
    pub version: String,
}

/// A fetch result wrapped for a caller: the content plus a success marker
/// and an optional human-readable message.
#[derive(Debug, Clone)]
pub struct FetchContentResponse {
    pub content: HtmlContent,
    pub success: bool,
    pub message: Option<String>,
}

} // verus!
