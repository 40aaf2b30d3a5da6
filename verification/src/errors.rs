//! The error taxonomy of the fetch engine and the parser, with verified
//! human-readable rendering.

use vstd::prelude::*;
use vstd::string::*;
use crate::text::{dec_str, push_decimal};

verus! {

/// The outcome of a fetch.
pub type ContentFetcherResult<T> = Result<T, ContentFetcherError>;

/// The outcome of a parse.
pub type ContentParserResult<T> = Result<T, ContentParserError>;

/// Why a fetch failed: a transport-level failure (browser launch and
/// navigation failures included), a rejected URL, an exceeded deadline, a
/// non-success HTTP status, or an undecodable body.
#[derive(Debug, Clone)]
pub enum ContentFetcherError {
    Network(String),
    InvalidUrl(String),
    Timeout(u64),
    Http { status: u16, message: String },
    Parse(String),
}

impl ContentFetcherError {
    /// The rendered description of the error.
    pub open spec fn spec_message(&self) -> Seq<char> {
        match self {
            ContentFetcherError::Network(m) => "Network error: "@ + m@,
            ContentFetcherError::InvalidUrl(m) => "Invalid URL: "@ + m@,
            ContentFetcherError::Timeout(s) => "Timeout: Request timed out after "@ + dec_str(
                *s as nat,
            ) + " seconds"@,
            ContentFetcherError::Http { status, message } => "HTTP error: "@ + dec_str(
                *status as nat,
            ) + " - "@ + message@,
            ContentFetcherError::Parse(m) => "Parse error: "@ + m@,
        }
    }

    /// Renders the error as the line a log or a caller would show.
    pub fn message(&self) -> (r: String)
        ensures
            r@ == self.spec_message(),
    {
        match self {
            ContentFetcherError::Network(m) => {
                let mut r = String::from_str("Network error: ");
                r.append(m.as_str());
                r
            },
            ContentFetcherError::InvalidUrl(m) => {
                let mut r = String::from_str("Invalid URL: ");
                r.append(m.as_str());
                r
            },
            ContentFetcherError::Timeout(s) => {
                let mut r = String::from_str("Timeout: Request timed out after ");
                push_decimal(*s, &mut r);
                r.append(" seconds");
                r
            },
            ContentFetcherError::Http { status, message } => {
                let mut r = String::from_str("HTTP error: ");
                push_decimal(*status as u64, &mut r);
                r.append(" - ");
                r.append(message.as_str());
                r
            },
            ContentFetcherError::Parse(m) => {
                let mut r = String::from_str("Parse error: ");
                r.append(m.as_str());
                r
            },
        }
    }
}

/// Why parsing fetched content failed.
#[derive(Debug, Clone)]
pub enum ContentParserError {
    Parse(String),
    InvalidHtml(String),
    Encoding(String),
}

impl ContentParserError {
    /// The rendered description of the error.
    pub open spec fn spec_message(&self) -> Seq<char> {
        match self {
            ContentParserError::Parse(m) => "Parse error: "@ + m@,
            ContentParserError::InvalidHtml(m) => "Invalid HTML: "@ + m@,
            ContentParserError::Encoding(m) => "Encoding error: "@ + m@,
        }
    }

    /// Renders the error as the line a log or a caller would show.
    pub fn message(&self) -> (r: String)
        ensures
            r@ == self.spec_message(),
    {
        match self {
            ContentParserError::Parse(m) => {
                let mut r = String::from_str("Parse error: ");
                r.append(m.as_str());
                r
            },
            ContentParserError::InvalidHtml(m) => {
                let mut r = String::from_str("Invalid HTML: ");
                r.append(m.as_str());
                r
            },
            ContentParserError::Encoding(m) => {
                let mut r = String::from_str("Encoding error: ");
                r.append(m.as_str());
                r
            },
        }
    }
}

} // verus!
