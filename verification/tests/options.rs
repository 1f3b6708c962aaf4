use std::time::Duration;

use blooio::config::ClientConfig;
use blooio::error::Error;
use blooio::options::RequestOptions;
use blooio::retry::RetryPolicy;

#[test]
fn base_url_trims_trailing_slashes() {
    let options = RequestOptions::new().base_url("https://example.com/v2/api///");
    assert_eq!(
        options.url_for(&ClientConfig::new(), "/me"),
        "https://example.com/v2/api/me"
    );
}

#[test]
fn url_for_falls_back_to_client_base_url() {
    let options = RequestOptions::new();
    let cfg = ClientConfig::new().with_base_url("https://example.com/api/");
    assert_eq!(options.url_for(&cfg, "/me"), "https://example.com/api/me");
}

#[test]
fn try_base_url_rejects_invalid_url() {
    let err = RequestOptions::new()
        .try_base_url("https://example.com/api?token=secret")
        .err()
        .unwrap();
    assert!(matches!(err, Error::Config(_)));
    assert!(!err.message().contains("secret"));
    assert_eq!(err.message(), "configuration error: request base URL is not a valid base URL");
}

#[test]
fn try_base_url_rejects_other_schemes() {
    let err = RequestOptions::new().try_base_url("ftp://example.com/api").err().unwrap();
    assert_eq!(
        err.message(),
        "configuration error: request base URL must start with http:// or https://"
    );
}

#[test]
fn try_base_url_accepts_and_trims() {
    let options = RequestOptions::new()
        .try_base_url("https://example.com/api/")
        .ok()
        .unwrap();
    assert_eq!(options.url_for(&ClientConfig::new(), "/x"), "https://example.com/api/x");
    assert!(options.validate_base_url().is_ok());
}

#[test]
fn unvalidated_base_url_is_checked_before_sending() {
    let options = RequestOptions::new().base_url("not a url");
    let err = options.validate_base_url().err().unwrap();
    assert_eq!(err.message(), "configuration error: request base URL is not a valid base URL");
}

#[test]
fn try_header_rejects_invalid_name() {
    let err = RequestOptions::new()
        .try_header("bad header", "value")
        .err()
        .unwrap();
    assert!(matches!(err, Error::Config(_)));
    assert_eq!(err.message(), "configuration error: invalid HTTP header name");
}

#[test]
fn try_header_rejects_invalid_value() {
    let err = RequestOptions::new()
        .try_header("x-ok", "bad\nvalue")
        .err()
        .unwrap();
    assert_eq!(err.message(), "configuration error: failed to parse header value");
}

#[test]
fn try_header_accepts_token_names() {
    let options = RequestOptions::new()
        .try_header("X-Request-Id", "req-123")
        .ok()
        .unwrap();
    assert_eq!(options.extra_headers().len(), 1);
    assert_eq!(options.extra_headers()[0].0, "X-Request-Id");
}

#[test]
fn debug_redacts_header_and_query_values() {
    let options = RequestOptions::new()
        .base_url("https://secret.example/v2/api")
        .header("x-api-key", "secret")
        .query("token", "also-secret");
    let dbg = options.debug_string();
    assert!(!dbg.contains("secret"));
    assert!(!dbg.contains("secret.example"));
    assert!(dbg.contains("REDACTED"));
    assert_eq!(
        dbg,
        "RequestOptions { base_url: Some([REDACTED]), timeout: None, retry: None, headers: [REDACTED; 1], query: [REDACTED; 1] }"
    );
}

#[test]
fn debug_shows_timeout_and_retry_overrides() {
    let options = RequestOptions::new()
        .timeout(Duration::from_millis(1500))
        .retry(RetryPolicy::none());
    assert_eq!(
        options.debug_string(),
        "RequestOptions { base_url: None, timeout: Some(1.5s), retry: Some(RetryPolicy { max_retries: 0, base_delay: 500ms, max_delay: 20s, jitter: true }), headers: [REDACTED; 0], query: [REDACTED; 0] }"
    );
}

#[test]
fn retry_or_prefers_request_policy() {
    let fallback = RetryPolicy::default();
    assert_eq!(RequestOptions::new().retry_or(fallback).max_retries, 2);
    let none = RequestOptions::new().no_retry();
    assert_eq!(none.retry_or(fallback).max_retries, 0);
    let five = RequestOptions::new().retry(RetryPolicy::default().with_max_retries(5));
    assert_eq!(five.retry_or(fallback).max_retries, 5);
}

#[test]
fn timeout_limit_and_label_are_kept() {
    let options = RequestOptions::new()
        .timeout(Duration::from_secs(5))
        .max_response_body_bytes(1024)
        .trace_label("checkout");
    assert_eq!(options.timeout_value(), Some(Duration::from_secs(5)));
    assert_eq!(options.body_limit_or(7), 1024);
    assert_eq!(RequestOptions::new().body_limit_or(7), 7);
    assert_eq!(options.trace_label_value(), Some("checkout"));
}
