use html_mcp_reader::model::{
    ApiErrorResponse, BrowserOptions, ContentMetadata, ContentType, FetchContentRequest,
    FetchContentResponse, FetchMethod, HealthResponse, HtmlContent,
};

#[test]
fn test_html_content_creation() {
    let metadata = ContentMetadata {
        content_type: "text/html".to_string(),
        status_code: 200,
        content_length: Some(1024),
        last_modified: Some("Mon, 01 Jan 2024 00:00:00 GMT".to_string()),
        charset: Some("utf-8".to_string()),
        javascript_detected: None,
        fetch_method: None,
    };

    let content = HtmlContent {
        url: "https://example.com".to_string(),
        title: Some("Test Title".to_string()),
        text_content: "Test content".to_string(),
        raw_html: "<html><body>Test</body></html>".to_string(),
        metadata,
    };

    assert_eq!(content.url, "https://example.com");
    assert_eq!(content.title, Some("Test Title".to_string()));
    assert_eq!(content.text_content, "Test content");
    assert_eq!(content.raw_html, "<html><body>Test</body></html>");
    assert_eq!(content.metadata.status_code, 200);
}

#[test]
fn test_html_content_with_none_title() {
    let metadata = ContentMetadata {
        content_type: "text/html".to_string(),
        status_code: 404,
        content_length: None,
        last_modified: None,
        charset: None,
        javascript_detected: None,
        fetch_method: None,
    };

    let content = HtmlContent {
        url: "https://example.com/404".to_string(),
        title: None,
        text_content: "Not found".to_string(),
        raw_html: "<html><body>404</body></html>".to_string(),
        metadata,
    };

    assert_eq!(content.title, None);
    assert_eq!(content.metadata.content_length, None);
    assert_eq!(content.metadata.last_modified, None);
    assert_eq!(content.metadata.charset, None);
}

#[test]
fn test_content_metadata_edge_cases() {
    let metadata = ContentMetadata {
        content_type: "".to_string(),
        status_code: 0,
        content_length: Some(0),
        last_modified: Some("".to_string()),
        charset: Some("".to_string()),
        javascript_detected: None,
        fetch_method: None,
    };

    assert_eq!(metadata.content_type, "");
    assert_eq!(metadata.status_code, 0);
    assert_eq!(metadata.content_length, Some(0));
    assert_eq!(metadata.last_modified, Some("".to_string()));
    assert_eq!(metadata.charset, Some("".to_string()));
}

#[test]
fn test_content_type_default() {
    let default_type = ContentType::default();
    assert!(matches!(default_type, ContentType::Html));
}

#[test]
fn test_content_type_variants() {
    let html = ContentType::Html;
    let text = ContentType::PlainText;
    let json = ContentType::Json;
    let xml = ContentType::Xml;

    assert!(matches!(html, ContentType::Html));
    assert!(matches!(text, ContentType::PlainText));
    assert!(matches!(json, ContentType::Json));
    assert!(matches!(xml, ContentType::Xml));
}

#[test]
fn test_html_content_clone() {
    let metadata = ContentMetadata {
        content_type: "text/html".to_string(),
        status_code: 200,
        content_length: Some(1024),
        last_modified: Some("Mon, 01 Jan 2024 00:00:00 GMT".to_string()),
        charset: Some("utf-8".to_string()),
        javascript_detected: None,
        fetch_method: None,
    };

    let content = HtmlContent {
        url: "https://example.com".to_string(),
        title: Some("Test Title".to_string()),
        text_content: "Test content".to_string(),
        raw_html: "<html><body>Test</body></html>".to_string(),
        metadata,
    };

    let cloned = content.clone();
    assert_eq!(content.url, cloned.url);
    assert_eq!(content.title, cloned.title);
    assert_eq!(content.text_content, cloned.text_content);
    assert_eq!(content.raw_html, cloned.raw_html);
}

#[test]
fn test_large_content_handling() {
    let large_text = "a".repeat(1_000_000);
    let large_html = format!("<html><body>{}</body></html>", large_text);

    let metadata = ContentMetadata {
        content_type: "text/html".to_string(),
        status_code: 200,
        content_length: Some(large_html.len()),
        last_modified: None,
        charset: Some("utf-8".to_string()),
        javascript_detected: None,
        fetch_method: None,
    };

    let content = HtmlContent {
        url: "https://example.com/large".to_string(),
        title: Some("Large Content".to_string()),
        text_content: large_text.clone(),
        raw_html: large_html.clone(),
        metadata,
    };

    assert_eq!(content.text_content.len(), 1_000_000);
    assert_eq!(content.raw_html.len(), large_html.len());
    assert_eq!(content.metadata.content_length, Some(large_html.len()));
}

#[test]
fn content_test_browser_options_creation() {
    let options = BrowserOptions {
        wait_for_js: true,
        timeout_ms: 30000,
        wait_for_selector: Some("#main-content".to_string()),
        disable_images: true,
        user_agent: Some("Mozilla/5.0 test".to_string()),
    };

    assert_eq!(options.wait_for_js, true);
    assert_eq!(options.timeout_ms, 30000);
    assert_eq!(options.wait_for_selector, Some("#main-content".to_string()));
    assert_eq!(options.disable_images, true);
    assert_eq!(options.user_agent, Some("Mozilla/5.0 test".to_string()));
}

#[test]
fn test_fetch_method_variants() {
    let static_method = FetchMethod::Static;
    let browser_method = FetchMethod::Browser;

    assert!(matches!(static_method, FetchMethod::Static));
    assert!(matches!(browser_method, FetchMethod::Browser));
}

#[test]
fn test_content_metadata_with_browser_fields() {
    let metadata = ContentMetadata {
        content_type: "text/html".to_string(),
        status_code: 200,
        content_length: Some(1024),
        last_modified: None,
        charset: Some("utf-8".to_string()),
        javascript_detected: Some(true),
        fetch_method: Some(FetchMethod::Browser),
    };

    assert_eq!(metadata.javascript_detected, Some(true));
    assert!(matches!(metadata.fetch_method, Some(FetchMethod::Browser)));
}

#[test]
fn test_fetch_content_request_default() {
    let request = FetchContentRequest::default();

    assert_eq!(request.url, "");
    assert_eq!(request.extract_text_only, Some(true));
    assert_eq!(request.follow_redirects, Some(true));
    assert_eq!(request.timeout_seconds, Some(30));
    assert_eq!(request.user_agent, Some("html-api-reader/0.1.0".to_string()));
}

#[test]
fn test_fetch_content_request_custom() {
    let request = FetchContentRequest {
        url: "https://example.com".to_string(),
        extract_text_only: Some(false),
        follow_redirects: Some(false),
        timeout_seconds: Some(60),
        user_agent: Some("custom-agent/1.0".to_string()),
    };

    assert_eq!(request.url, "https://example.com");
    assert_eq!(request.extract_text_only, Some(false));
    assert_eq!(request.follow_redirects, Some(false));
    assert_eq!(request.timeout_seconds, Some(60));
    assert_eq!(request.user_agent, Some("custom-agent/1.0".to_string()));
}

#[test]
fn test_fetch_content_request_edge_cases() {
    let request = FetchContentRequest {
        url: "".to_string(),
        extract_text_only: None,
        follow_redirects: None,
        timeout_seconds: None,
        user_agent: None,
    };

    assert_eq!(request.url, "");
    assert_eq!(request.extract_text_only, None);
    assert_eq!(request.follow_redirects, None);
    assert_eq!(request.timeout_seconds, None);
    assert_eq!(request.user_agent, None);
}

#[test]
fn test_api_error_response() {
    let error = ApiErrorResponse {
        error: "INVALID_URL".to_string(),
        message: "The provided URL is not valid".to_string(),
    };

    assert_eq!(error.error, "INVALID_URL");
    assert_eq!(error.message, "The provided URL is not valid");
}

#[test]
fn test_health_response() {
    let health = HealthResponse {
        status: "healthy".to_string(),
        version: "0.1.0".to_string(),
    };

    assert_eq!(health.status, "healthy");
    assert_eq!(health.version, "0.1.0");
}

#[test]
fn test_fetch_content_request_minimal() {
    let request = FetchContentRequest {
        url: "https://example.com".to_string(),
        extract_text_only: None,
        follow_redirects: None,
        timeout_seconds: None,
        user_agent: None,
    };

    assert_eq!(request.url, "https://example.com");
    assert_eq!(request.extract_text_only, None);
    assert_eq!(request.follow_redirects, None);
    assert_eq!(request.timeout_seconds, None);
    assert_eq!(request.user_agent, None);
}

#[test]
fn test_fetch_content_response_success() {
    let metadata = ContentMetadata {
        content_type: "text/html".to_string(),
        status_code: 200,
        content_length: Some(100),
        last_modified: None,
        charset: Some("utf-8".to_string()),
        javascript_detected: None,
        fetch_method: None,
    };

    let content = HtmlContent {
        url: "https://example.com".to_string(),
        title: Some("Test Title".to_string()),
        text_content: "Test content".to_string(),
        raw_html: "<html><body>Test</body></html>".to_string(),
        metadata,
    };

    let response = FetchContentResponse {
        content,
        success: true,
        message: Some("Successfully fetched".to_string()),
    };

    assert!(response.success);
    assert_eq!(response.content.url, "https://example.com");
    assert_eq!(response.message, Some("Successfully fetched".to_string()));
}

#[test]
fn test_fetch_content_response_failure() {
    let metadata = ContentMetadata {
        content_type: "text/html".to_string(),
        status_code: 404,
        content_length: None,
        last_modified: None,
        charset: None,
        javascript_detected: None,
        fetch_method: None,
    };

    let content = HtmlContent {
        url: "https://example.com/404".to_string(),
        title: None,
        text_content: "".to_string(),
        raw_html: "".to_string(),
        metadata,
    };

    let response = FetchContentResponse {
        content,
        success: false,
        message: Some("Not found".to_string()),
    };

    assert!(!response.success);
    assert_eq!(response.content.url, "https://example.com/404");
    assert_eq!(response.message, Some("Not found".to_string()));
}

#[test]
fn test_empty_message_response() {
    let metadata = ContentMetadata {
        content_type: "text/html".to_string(),
        status_code: 200,
        content_length: Some(0),
        last_modified: None,
        charset: Some("utf-8".to_string()),
        javascript_detected: None,
        fetch_method: None,
    };

    let content = HtmlContent {
        url: "https://example.com".to_string(),
        title: None,
        text_content: "".to_string(),
        raw_html: "".to_string(),
        metadata,
    };

    let response = FetchContentResponse {
        content,
        success: true,
        message: None,
    };

    assert!(response.success);
    assert!(response.message.is_none());
    assert_eq!(response.content.text_content, "");
}
