use html_mcp_reader::errors::{
    ContentFetcherError, ContentFetcherResult, ContentParserError, ContentParserResult,
};
use html_mcp_reader::model::{ContentMetadata, HtmlContent};

#[test]
fn test_content_fetcher_error_network() {
    let error = ContentFetcherError::Network("Connection refused".to_string());
    assert_eq!(error.message(), "Network error: Connection refused");
}

#[test]
fn test_content_fetcher_error_invalid_url() {
    let error = ContentFetcherError::InvalidUrl("not-a-url".to_string());
    assert_eq!(error.message(), "Invalid URL: not-a-url");
}

#[test]
fn test_content_fetcher_error_timeout() {
    let error = ContentFetcherError::Timeout(30);
    assert_eq!(error.message(), "Timeout: Request timed out after 30 seconds");
}

#[test]
fn test_content_fetcher_error_http() {
    let error = ContentFetcherError::Http {
        status: 404,
        message: "Not Found".to_string(),
    };
    assert_eq!(error.message(), "HTTP error: 404 - Not Found");
}

#[test]
fn test_content_fetcher_error_parse() {
    let error = ContentFetcherError::Parse("Invalid JSON".to_string());
    assert_eq!(error.message(), "Parse error: Invalid JSON");
}

#[test]
fn test_content_fetcher_error_debug() {
    let error = ContentFetcherError::Network("test".to_string());
    let debug_str = format!("{:?}", error);
    assert!(debug_str.contains("Network"));
    assert!(debug_str.contains("test"));
}

#[test]
fn test_content_fetcher_result_ok() {
    let metadata = ContentMetadata {
        content_type: "text/html".to_string(),
        status_code: 200,
        content_length: Some(100),
        last_modified: None,
        charset: Some("utf-8".to_string()),
        javascript_detected: None,
        fetch_method: None,
    };

    let content = HtmlContent {
        url: "https://example.com".to_string(),
        title: Some("Test".to_string()),
        text_content: "Test content".to_string(),
        raw_html: "<html><body>Test</body></html>".to_string(),
        metadata,
    };

    let result: ContentFetcherResult<HtmlContent> = Ok(content);
    assert!(result.is_ok());
}

#[test]
fn test_content_fetcher_result_err() {
    let error = ContentFetcherError::Network("Connection failed".to_string());
    let result: ContentFetcherResult<HtmlContent> = Err(error);
    assert!(result.is_err());

    if let Err(err) = result {
        assert_eq!(err.message(), "Network error: Connection failed");
    }
}

#[test]
fn test_content_fetcher_error_zero_timeout() {
    let error = ContentFetcherError::Timeout(0);
    assert_eq!(error.message(), "Timeout: Request timed out after 0 seconds");
}

#[test]
fn test_content_fetcher_error_extreme_status() {
    let error = ContentFetcherError::Http {
        status: u16::MAX,
        message: "Unknown status".to_string(),
    };
    assert_eq!(error.message(), format!("HTTP error: {} - Unknown status", u16::MAX));
}

#[test]
fn test_content_fetcher_error_empty_strings() {
    let network_error = ContentFetcherError::Network("".to_string());
    assert_eq!(network_error.message(), "Network error: ");

    let url_error = ContentFetcherError::InvalidUrl("".to_string());
    assert_eq!(url_error.message(), "Invalid URL: ");

    let parse_error = ContentFetcherError::Parse("".to_string());
    assert_eq!(parse_error.message(), "Parse error: ");

    let http_error = ContentFetcherError::Http {
        status: 500,
        message: "".to_string(),
    };
    assert_eq!(http_error.message(), "HTTP error: 500 - ");
}

#[test]
fn test_content_parser_error_parse() {
    let error = ContentParserError::Parse("Failed to parse HTML".to_string());
    assert_eq!(error.message(), "Parse error: Failed to parse HTML");
}

#[test]
fn test_content_parser_error_invalid_html() {
    let error = ContentParserError::InvalidHtml("Malformed HTML tag".to_string());
    assert_eq!(error.message(), "Invalid HTML: Malformed HTML tag");
}

#[test]
fn test_content_parser_error_encoding() {
    let error = ContentParserError::Encoding("Invalid UTF-8 sequence".to_string());
    assert_eq!(error.message(), "Encoding error: Invalid UTF-8 sequence");
}

#[test]
fn test_content_parser_error_debug() {
    let error = ContentParserError::Parse("test".to_string());
    let debug_str = format!("{:?}", error);
    assert!(debug_str.contains("Parse"));
    assert!(debug_str.contains("test"));
}

#[test]
fn test_content_parser_result_ok() {
    let metadata = ContentMetadata {
        content_type: "text/html".to_string(),
        status_code: 200,
        content_length: Some(100),
        last_modified: None,
        charset: Some("utf-8".to_string()),
        javascript_detected: None,
        fetch_method: None,
    };

    let content = HtmlContent {
        url: "https://example.com".to_string(),
        title: Some("Test".to_string()),
        text_content: "Test content".to_string(),
        raw_html: "<html><body>Test</body></html>".to_string(),
        metadata,
    };

    let result: ContentParserResult<HtmlContent> = Ok(content);
    assert!(result.is_ok());
}

#[test]
fn test_content_parser_result_err() {
    let error = ContentParserError::Parse("Failed to parse".to_string());
    let result: ContentParserResult<String> = Err(error);
    assert!(result.is_err());

    if let Err(err) = result {
        assert_eq!(err.message(), "Parse error: Failed to parse");
    }
}

#[test]
fn test_content_parser_error_empty_strings() {
    let parse_error = ContentParserError::Parse("".to_string());
    assert_eq!(parse_error.message(), "Parse error: ");

    let html_error = ContentParserError::InvalidHtml("".to_string());
    assert_eq!(html_error.message(), "Invalid HTML: ");

    let encoding_error = ContentParserError::Encoding("".to_string());
    assert_eq!(encoding_error.message(), "Encoding error: ");
}

#[test]
fn test_content_parser_error_long_messages() {
    let long_message = "a".repeat(1000);

    let parse_error = ContentParserError::Parse(long_message.clone());
    assert_eq!(parse_error.message(), format!("Parse error: {}", long_message));

    let html_error = ContentParserError::InvalidHtml(long_message.clone());
    assert_eq!(html_error.message(), format!("Invalid HTML: {}", long_message));

    let encoding_error = ContentParserError::Encoding(long_message.clone());
    assert_eq!(encoding_error.message(), format!("Encoding error: {}", long_message));
}
