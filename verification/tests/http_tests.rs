use std::time::Duration;

use paylio::http_client::{
    body_read_error, connection_error, invalid_json_response, parse_error_body, HttpClient,
    HttpMethod, RequestOptions, DEFAULT_BASE_URL, DEFAULT_TIMEOUT_SECS,
};
use paylio::json::JsonValue;
use paylio::PaylioError;

fn client(base_url: &str) -> HttpClient {
    HttpClient::new("sk_test", base_url, Duration::from_secs(DEFAULT_TIMEOUT_SECS))
}

fn error_for(status: u16, body: &str) -> PaylioError {
    client("http://127.0.0.1:8080").handle_response(status, body.to_string()).unwrap_err()
}

fn header<'a>(headers: &'a [(String, String)], name: &str) -> Option<&'a str> {
    headers.iter().find(|(k, _)| k == name).map(|(_, v)| v.as_str())
}

#[test]
fn test_default_constants() {
    assert_eq!(DEFAULT_BASE_URL, "https://api.paylio.pro/flying/v1");
    assert_eq!(Duration::from_secs(DEFAULT_TIMEOUT_SECS), Duration::from_secs(30));
}

#[test]
fn test_sends_correct_headers() {
    let c = HttpClient::new("sk_test_abc", "http://127.0.0.1:8080", Duration::from_secs(30));
    let req = c.prepare(HttpMethod::Get, "/test", None);
    assert_eq!(req.method, HttpMethod::Get);
    assert_eq!(req.url, "http://127.0.0.1:8080/test");
    assert_eq!(header(&req.headers, "X-API-Key"), Some("sk_test_abc"));
    assert_eq!(header(&req.headers, "Content-Type"), Some("application/json"));
    assert_eq!(header(&req.headers, "Accept"), Some("application/json"));
    assert!(req.json_body.is_none());
}

#[test]
fn test_user_agent_header() {
    let req = client("http://127.0.0.1:8080").prepare(HttpMethod::Get, "/test", None);
    assert_eq!(header(&req.headers, "User-Agent"), Some("paylio-rust/0.1.0"));
    assert_eq!(req.headers.len(), 4);
}

#[test]
fn test_success_passes_body_through() {
    let body = r#"{"id":"sub_1","status":"active"}"#;
    let r = client("http://x").handle_response(200, body.to_string());
    assert_eq!(r.unwrap(), body);
    let r = client("http://x").handle_response(299, "anything".to_string());
    assert_eq!(r.unwrap(), "anything");
}

#[test]
fn test_non_json_success_returns_api_error() {
    let body = client("http://x").handle_response(200, "not json".to_string()).unwrap();
    let err = invalid_json_response(200, body);
    assert!(err.is_api());
    assert_eq!(err.http_status(), Some(200));
    assert!(err.message().contains("not json"));
    assert_eq!(err.message(), "Invalid JSON response: not json");
    assert_eq!(err.http_body(), Some("not json"));
    assert_eq!(err.code(), None);
}

#[test]
fn test_error_status_401() {
    let err = error_for(401, r#"{"error":"Invalid API key"}"#);
    assert!(err.is_authentication());
    assert_eq!(err.http_status(), Some(401));
}

#[test]
fn test_error_status_400() {
    let err = error_for(400, r#"{"error":"Bad request"}"#);
    assert!(err.is_invalid_request());
}

#[test]
fn test_error_status_404() {
    let err = error_for(404, r#"{"error":"Not found"}"#);
    assert!(err.is_not_found());
}

#[test]
fn test_error_status_429() {
    let err = error_for(429, r#"{"error":"Rate limited"}"#);
    assert!(err.is_rate_limit());
}

#[test]
fn test_error_status_500() {
    let err = error_for(500, r#"{"error":"Internal server error"}"#);
    assert!(err.is_api());
    assert_eq!(err.http_status(), Some(500));
}

#[test]
fn test_error_status_below_200_and_redirects_are_api_errors() {
    let err = error_for(199, "early");
    assert!(err.is_api());
    assert_eq!(err.http_status(), Some(199));
    let err = error_for(302, "moved");
    assert!(err.is_api());
    assert_eq!(err.message(), "moved");
}

#[test]
fn test_error_format_v1_structured() {
    let err = error_for(400, r#"{"error":{"code":"invalid_param","message":"field is required"}}"#);
    assert!(err.is_invalid_request());
    assert_eq!(err.message(), "field is required");
    assert_eq!(err.code(), Some("invalid_param"));
}

#[test]
fn test_error_format_legacy_string() {
    let err = error_for(401, r#"{"error":"legacy error message"}"#);
    assert_eq!(err.message(), "legacy error message");
    assert_eq!(err.code(), None);
}

#[test]
fn test_error_format_fastapi_detail() {
    let err = error_for(400, r#"{"detail":"fastapi error message"}"#);
    assert_eq!(err.message(), "fastapi error message");
}

#[test]
fn test_error_non_json_fallback() {
    let err = error_for(500, "plain text error");
    assert!(err.is_api());
    assert_eq!(err.message(), "plain text error");
}

#[test]
fn test_error_preserves_http_body() {
    let body = r#"{"error":"test error"}"#;
    let err = error_for(500, body);
    assert!(err.http_body().unwrap().contains("test error"));
    assert_eq!(err.http_body(), Some(body));
}

#[test]
fn test_unrecognized_json_error_body() {
    let err = error_for(500, r#"{"unknown_key":"some value"}"#);
    assert!(err.is_api());
    // Message should be the raw body since no recognized format
    assert!(err.message().contains("unknown_key"));
    assert_eq!(err.message(), r#"{"unknown_key":"some value"}"#);
}

#[test]
fn test_v1_error_non_string_code() {
    let err = error_for(400, r#"{"error":{"code":123,"message":"bad input"}}"#);
    assert_eq!(err.message(), "bad input");
    assert_eq!(err.code(), None); // code is not a string
}

#[test]
fn test_v1_error_non_string_message() {
    let body = r#"{"error":{"code":"err","message":42}}"#;
    let err = error_for(400, body);
    // Falls back to raw body since message is not a string
    assert!(err.http_body().is_some());
    assert_eq!(err.message(), body);
    assert_eq!(err.code(), Some("err"));
}

#[test]
fn test_error_field_of_other_type_falls_through_to_detail() {
    let (message, code) = parse_error_body(r#"{"error":17,"detail":"from detail"}"#);
    assert_eq!(message, "from detail");
    assert_eq!(code, None);
    let (message, code) = parse_error_body(r#"{"error":null}"#);
    assert_eq!(message, r#"{"error":null}"#);
    assert_eq!(code, None);
}

#[test]
fn test_error_body_that_is_not_an_object() {
    let (message, code) = parse_error_body(r#"["error","detail"]"#);
    assert_eq!(message, r#"["error","detail"]"#);
    assert_eq!(code, None);
    let (message, _) = parse_error_body(r#""just a string""#);
    assert_eq!(message, r#""just a string""#);
}

#[test]
fn test_structured_error_without_message_uses_body() {
    let body = r#"{"error":{"code":"quota"}}"#;
    let (message, code) = parse_error_body(body);
    assert_eq!(message, body);
    assert_eq!(code, Some("quota".to_string()));
}

#[test]
fn test_get_with_query_params() {
    let opts = RequestOptions {
        params: Some(vec![
            ("page".to_string(), "2".to_string()),
            ("page_size".to_string(), "5".to_string()),
        ]),
        json_body: None,
    };
    let req = client("http://127.0.0.1:8080").prepare(
        HttpMethod::Get,
        "/users/user_1/subscriptions",
        Some(opts),
    );
    assert_eq!(req.url, "http://127.0.0.1:8080/users/user_1/subscriptions?page=2&page_size=5");
}

#[test]
fn test_empty_params_add_no_question_mark() {
    let opts = RequestOptions { params: Some(vec![]), json_body: None };
    let req = client("http://h").prepare(HttpMethod::Get, "/p", Some(opts));
    assert_eq!(req.url, "http://h/p");
}

#[test]
fn test_post_with_json_body() {
    let opts = RequestOptions {
        params: None,
        json_body: Some(JsonValue::Object(vec![(
            "cancel_at_period_end".to_string(),
            JsonValue::Bool(true),
        )])),
    };
    let req = client("http://h").prepare(HttpMethod::Post, "/subscription/sub_1/cancel", Some(opts));
    assert_eq!(req.method, HttpMethod::Post);
    assert_eq!(req.url, "http://h/subscription/sub_1/cancel");
    match req.json_body {
        Some(JsonValue::Object(members)) => {
            assert_eq!(members.len(), 1);
            assert_eq!(members[0].0, "cancel_at_period_end");
            assert!(matches!(members[0].1, JsonValue::Bool(true)));
        }
        _ => panic!("expected an object body"),
    }
}

#[test]
fn test_custom_base_url_trailing_slash() {
    let with = client("http://127.0.0.1:8080/").prepare(HttpMethod::Get, "/test", None);
    let without = client("http://127.0.0.1:8080").prepare(HttpMethod::Get, "/test", None);
    assert_eq!(with.url, "http://127.0.0.1:8080/test");
    assert_eq!(with.url, without.url);
    assert_eq!(client("http://h///").base_url(), "http://h");
}

#[test]
fn test_connection_error_carries_transport_message() {
    let err = connection_error("operation timed out".to_string());
    assert!(err.is_api_connection());
    assert_eq!(err.message(), "operation timed out");
    assert_eq!(err.http_status(), None);
}

#[test]
fn test_body_read_error_message() {
    let err = body_read_error("connection reset");
    assert!(err.is_api_connection());
    assert_eq!(err.message(), "Failed to read response body: connection reset");
}
