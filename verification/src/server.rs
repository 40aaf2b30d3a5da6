//! The verified cores of the two server fronts: the REST server's health
//! answer and the JSON-RPC server's request assembly. Routing and transport
//! live outside the library.

use vstd::prelude::*;
use vstd::string::*;
use std::sync::Arc;
use crate::model::{FetchContentRequest, HealthResponse};
use crate::ports::{ContentFetcher, ContentParser};
use crate::usecase::FetchWebContentUseCase;

verus! {

/// The REST front of the use case; the HTTP routing around it lives with
/// the embedding program.
pub struct ApiServer<F: ContentFetcher, P: ContentParser> {
    use_case: Arc<FetchWebContentUseCase<F, P>>,
}

impl<F: ContentFetcher, P: ContentParser> ApiServer<F, P> {
    /// A REST front over the given use case.
    pub fn new(use_case: Arc<FetchWebContentUseCase<F, P>>) -> (r: Self) {
        ApiServer { use_case }
    }

    /// The use case this server answers with.
    pub fn use_case(&self) -> &Arc<FetchWebContentUseCase<F, P>> {
        &self.use_case
    }
}

/// The JSON-RPC front of the use case; envelope parsing and the
/// stdin/stdout loop live with the embedding program.
pub struct McpServer<F: ContentFetcher, P: ContentParser> {
    fetch_use_case: Arc<FetchWebContentUseCase<F, P>>,
}

impl<F: ContentFetcher, P: ContentParser> McpServer<F, P> {
    /// A JSON-RPC front over the given use case.
    pub fn new(fetch_use_case: Arc<FetchWebContentUseCase<F, P>>) -> (r: Self) {
        McpServer { fetch_use_case }
    }

    /// The use case this server answers with.
    pub fn fetch_use_case(&self) -> &Arc<FetchWebContentUseCase<F, P>> {
        &self.fetch_use_case
    }
}

/// What the health check reports: a healthy service and its version.
pub fn health_response() -> (r: HealthResponse)
    ensures
        r.status@ == "healthy"@,
        r.version@ == "0.1.0"@,
{
    HealthResponse { status: String::from_str("healthy"), version: String::from_str("0.1.0") }
}

/// Assembles a fetch request out of the plain values a JSON-RPC tool call
/// carries: the URL is required — its absence is the fixed invalid-
/// parameters message — the two booleans default to true, and the timeout
/// and user agent pass through untouched.
pub fn fetch_request_from_values(
    url: Option<String>,
    extract_text_only: Option<bool>,
    follow_redirects: Option<bool>,
    timeout_seconds: Option<u64>,
    user_agent: Option<String>,
) -> (r: Result<FetchContentRequest, String>)
    ensures
        match url {
            Option::None => r matches Err(m) && m@ == "Missing required field: url"@,
            Option::Some(u) => r matches Ok(req) && {
                &&& req.url == u
                &&& req.extract_text_only == Some(
                    match extract_text_only {
                        Option::Some(b) => b,
                        Option::None => true,
                    },
                )
                &&& req.follow_redirects == Some(
                    match follow_redirects {
                        Option::Some(b) => b,
                        Option::None => true,
                    },
                )
                &&& req.timeout_seconds == timeout_seconds
                &&& req.user_agent == user_agent
            },
        },
{
    match url {
        None => Err(String::from_str("Missing required field: url")),
        Some(u) => Ok(
            FetchContentRequest {
                url: u,
                extract_text_only: Some(
                    match extract_text_only {
                        Some(b) => b,
                        None => true,
                    },
                ),
                follow_redirects: Some(
                    match follow_redirects {
                        Some(b) => b,
                        None => true,
                    },
                ),
                timeout_seconds,
                user_agent,
            },
        ),
    }
}

} // verus!
