use std::sync::Arc;

use html_mcp_reader::errors::{ContentFetcherError, ContentParserError};
use html_mcp_reader::html::{extract_text_content, extract_title};
use html_mcp_reader::model::{ContentMetadata, FetchContentRequest, HtmlContent};
use html_mcp_reader::parser::HtmlParserAdapter;
use html_mcp_reader::ports::{ContentFetcher, ContentParser};
use html_mcp_reader::server::{fetch_request_from_values, health_response};
use html_mcp_reader::service::{ContentFetchService, ContentParseService};
use html_mcp_reader::usecase::{api_error_message, mcp_error_code, FetchWebContentUseCase};

struct MockContentFetcher {
    return_error: Option<ContentFetcherError>,
}

impl MockContentFetcher {
    fn new_success() -> Self {
        Self { return_error: None }
    }

    fn new_with_error(error: ContentFetcherError) -> Self {
        Self { return_error: Some(error) }
    }
}

impl ContentFetcher for MockContentFetcher {
    fn fetch_content(
        &self,
        request: FetchContentRequest,
    ) -> Result<HtmlContent, ContentFetcherError> {
        match &self.return_error {
            None => Ok(HtmlContent {
                url: request.url,
                title: Some("Test Title".to_string()),
                text_content: "Test content".to_string(),
                raw_html: "<html><body>Test</body></html>".to_string(),
                metadata: ContentMetadata {
                    content_type: "text/html".to_string(),
                    status_code: 200,
                    content_length: Some(100),
                    last_modified: None,
                    charset: Some("utf-8".to_string()),
                    javascript_detected: None,
                    fetch_method: None,
                },
            }),
            Some(e) => Err(e.clone()),
        }
    }
}

fn request_for(url: &str, timeout_seconds: Option<u64>) -> FetchContentRequest {
    FetchContentRequest {
        url: url.to_string(),
        extract_text_only: Some(true),
        follow_redirects: Some(true),
        timeout_seconds,
        user_agent: Some("test".to_string()),
    }
}

fn service_with(fetcher: MockContentFetcher) -> ContentFetchService<MockContentFetcher> {
    ContentFetchService::new(Arc::new(fetcher))
}

#[test]
fn fetch_service_forwards_content() {
    let service = service_with(MockContentFetcher::new_success());
    let result = service.fetch_and_process_content(request_for("https://example.com", Some(30)));
    let content = result.unwrap();
    assert_eq!(content.url, "https://example.com");
    assert_eq!(content.title, Some("Test Title".to_string()));
}

#[test]
fn fetch_service_forwards_errors() {
    let service = service_with(MockContentFetcher::new_with_error(
        ContentFetcherError::Timeout(30),
    ));
    let result = service.fetch_and_process_content(request_for("https://example.com", Some(30)));
    assert_eq!(
        result.unwrap_err().message(),
        "Timeout: Request timed out after 30 seconds"
    );
}

#[test]
fn validation_rejects_empty_url() {
    let service = service_with(MockContentFetcher::new_success());
    let result = service.validate_request(&request_for("", Some(30)));
    assert_eq!(result.unwrap_err(), "URL cannot be empty");
}

#[test]
fn validation_rejects_non_http_scheme() {
    let service = service_with(MockContentFetcher::new_success());
    let result = service.validate_request(&request_for("ftp://example.com", Some(30)));
    assert_eq!(result.unwrap_err(), "URL must start with http:// or https://");
}

#[test]
fn validation_rejects_timeout_over_cap() {
    let service = service_with(MockContentFetcher::new_success());
    let result = service.validate_request(&request_for("https://example.com", Some(400)));
    assert_eq!(result.unwrap_err(), "Timeout cannot exceed 300 seconds");
}

#[test]
fn validation_accepts_reasonable_requests() {
    let service = service_with(MockContentFetcher::new_success());
    assert!(service.validate_request(&request_for("https://example.com", Some(30))).is_ok());
    assert!(service.validate_request(&request_for("http://example.com", Some(300))).is_ok());
    assert!(service.validate_request(&request_for("https://example.com", Some(0))).is_ok());
    assert!(service.validate_request(&request_for("https://example.com", None)).is_ok());
}

fn use_case_with(
    fetcher: MockContentFetcher,
) -> FetchWebContentUseCase<MockContentFetcher, HtmlParserAdapter> {
    let fetch_service = Arc::new(ContentFetchService::new(Arc::new(fetcher)));
    let parse_service = Arc::new(ContentParseService::new(Arc::new(HtmlParserAdapter::new())));
    FetchWebContentUseCase::new(fetch_service, parse_service)
}

#[test]
fn use_case_returns_fetched_content() {
    let use_case = use_case_with(MockContentFetcher::new_success());
    let content = use_case.execute_for_api(request_for("https://example.com", Some(30))).unwrap();
    assert_eq!(content.url, "https://example.com");
    assert_eq!(content.text_content, "Test content");
}

#[test]
fn use_case_rejects_invalid_requests_without_fetching() {
    let use_case = use_case_with(MockContentFetcher::new_with_error(
        ContentFetcherError::Network("must never be reached".to_string()),
    ));
    let message = use_case
        .execute_for_api(request_for("ftp://example.com", Some(30)))
        .unwrap_err();
    assert_eq!(message, "Invalid parameters: URL must start with http:// or https://");

    let message = use_case
        .execute_for_api(request_for("https://example.com", Some(400)))
        .unwrap_err();
    assert_eq!(message, "Invalid parameters: Timeout cannot exceed 300 seconds");
}

#[test]
fn use_case_defaults_missing_timeout() {
    let use_case = use_case_with(MockContentFetcher::new_success());
    let request = FetchContentRequest {
        url: "https://example.com".to_string(),
        extract_text_only: None,
        follow_redirects: None,
        timeout_seconds: None,
        user_agent: None,
    };
    assert!(use_case.execute_for_api(request).is_ok());
}

#[test]
fn use_case_renders_fetch_failures() {
    let use_case = use_case_with(MockContentFetcher::new_with_error(
        ContentFetcherError::Network("Connection refused".to_string()),
    ));
    let message = use_case
        .execute_for_api(request_for("https://example.com", Some(30)))
        .unwrap_err();
    assert_eq!(message, "Network error: Connection refused");
}

#[test]
fn api_error_messages_cover_the_taxonomy() {
    assert_eq!(
        api_error_message(&ContentFetcherError::Timeout(30)),
        "Request timeout after 30 seconds"
    );
    assert_eq!(
        api_error_message(&ContentFetcherError::Http {
            status: 404,
            message: "Not Found".to_string(),
        }),
        "HTTP 404: Not Found"
    );
    assert_eq!(
        api_error_message(&ContentFetcherError::InvalidUrl("not-a-url".to_string())),
        "Invalid URL: not-a-url"
    );
    assert_eq!(
        api_error_message(&ContentFetcherError::Parse("bad".to_string())),
        "Parse error: bad"
    );
}

#[test]
fn mcp_error_codes_cover_the_taxonomy() {
    assert_eq!(mcp_error_code(&ContentFetcherError::Network("x".to_string())), -32001);
    assert_eq!(mcp_error_code(&ContentFetcherError::Timeout(30)), -32002);
    assert_eq!(
        mcp_error_code(&ContentFetcherError::Http { status: 404, message: "x".to_string() }),
        -32003
    );
    assert_eq!(mcp_error_code(&ContentFetcherError::Parse("x".to_string())), -32004);
    assert_eq!(mcp_error_code(&ContentFetcherError::InvalidUrl("x".to_string())), -32602);
}

#[test]
fn health_reports_version() {
    let health = health_response();
    assert_eq!(health.status, "healthy");
    assert_eq!(health.version, "0.1.0");
}

#[test]
fn mcp_request_requires_url() {
    let missing = fetch_request_from_values(None, Some(true), None, None, None);
    assert_eq!(missing.unwrap_err(), "Missing required field: url");

    let built = fetch_request_from_values(
        Some("https://example.com".to_string()),
        None,
        Some(false),
        Some(60),
        Some("Custom Agent".to_string()),
    )
    .unwrap();
    assert_eq!(built.url, "https://example.com");
    assert_eq!(built.extract_text_only, Some(true));
    assert_eq!(built.follow_redirects, Some(false));
    assert_eq!(built.timeout_seconds, Some(60));
    assert_eq!(built.user_agent, Some("Custom Agent".to_string()));
}

#[test]
fn parser_adapter_reads_title_and_text() {
    let adapter = HtmlParserAdapter::new();
    let html = "<html><head><title>Test Page</title></head><body>Hello World</body></html>";

    let content = adapter.parse_html(html, "https://example.com").unwrap();
    assert_eq!(content.url, "https://example.com");
    assert_eq!(content.title, Some("Test Page".to_string()));
    assert!(content.text_content.contains("Hello World"));
    assert_eq!(content.raw_html, html);
    assert_eq!(content.metadata.content_type, "text/html");
    assert_eq!(content.metadata.status_code, 200);
}

#[test]
fn parser_adapter_title_edge_cases() {
    let adapter = HtmlParserAdapter::new();
    assert_eq!(
        adapter.extract_title_from_raw_html("<html><head><title>Test Title</title></head></html>"),
        Some("Test Title".to_string())
    );
    assert_eq!(adapter.extract_title_from_raw_html("<html><head></head></html>"), None);
    assert_eq!(
        adapter.extract_title_from_raw_html("<html><head><title></title></head></html>"),
        None
    );
    assert_eq!(
        adapter.extract_title_from_raw_html("<html><head><title>   </title></head></html>"),
        None
    );
}

#[test]
fn parser_adapter_cleans_text() {
    let adapter = HtmlParserAdapter::new();

    let text = "  Line 1  \n\n  \nLine 2\n   \n  Line 3  ".to_string();
    assert_eq!(adapter.clean_text_content(text), "Line 1\nLine 2\nLine 3");

    let text = "   \n\n  \n   ".to_string();
    assert_eq!(adapter.clean_text_content(text), "");

    let text = "Normal text".to_string();
    assert_eq!(adapter.clean_text_content(text), "Normal text");
}

#[test]
fn parser_adapter_extract_text_via_port() {
    let adapter = HtmlParserAdapter::new();
    let content = adapter
        .parse_html("<html><body><p>Test content</p></body></html>", "https://example.com")
        .unwrap();
    let text = ContentParser::extract_text(&adapter, &content).unwrap();
    assert!(text.contains("Test content"));
}

#[test]
fn title_extraction_decodes_entities() {
    let html = "<html><head><title> A &amp; B </title></head><body>x</body></html>";
    assert_eq!(extract_title(html), Some("A & B".to_string()));
}

#[test]
fn title_extraction_takes_first_complete_element() {
    let html = "<title>First Title</title><title>Second Title</title>";
    assert_eq!(extract_title(html), Some("First Title".to_string()));

    assert_eq!(extract_title("<html><body>no title</body></html>"), None);
    assert_eq!(extract_title("<title>   </title>"), None);
    assert_eq!(extract_title("<title class=\"x\">Attributed</title>"), Some("Attributed".to_string()));
    assert_eq!(extract_title("<title>unterminated"), None);
}

#[test]
fn text_extraction_strips_tags_and_collapses_whitespace() {
    let html = "<html><body><p>Hello</p> \n <div><span>wide   world</span></div></body></html>";
    assert_eq!(extract_text_content(html), "Hello wide world");
    assert_eq!(extract_text_content("<html><body></body></html>"), "");
}

#[test]
fn non_breaking_spaces_collapse_like_whitespace() {
    // scraper decodes &nbsp; into U+00A0 inside text nodes; the collapse
    // treats it as the whitespace it is.
    let html = "<html><body>a&nbsp;&nbsp;b</body></html>";
    assert_eq!(extract_text_content(html), "a b");

    // The adapter's title trimming strips it from both ends too.
    let adapter = HtmlParserAdapter::new();
    let title = adapter
        .extract_title_from_raw_html("<html><head><title>&nbsp;Spaced&nbsp;</title></head></html>");
    assert_eq!(title, Some("Spaced".to_string()));
}

#[test]
fn parse_error_surfaces_as_parser_error() {
    let e = ContentParserError::Parse("boom".to_string());
    assert_eq!(e.message(), "Parse error: boom");
    let e = ContentParserError::Encoding("bad utf-8".to_string());
    assert_eq!(e.message(), "Encoding error: bad utf-8");
    let e = ContentParserError::InvalidHtml("broken".to_string());
    assert_eq!(e.message(), "Invalid HTML: broken");
}
