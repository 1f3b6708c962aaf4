use std::time::Duration;

use blooio::config::{normalize_base_url, ClientConfig, DEFAULT_BASE_URL, DEFAULT_MAX_RESPONSE_BODY_BYTES};
use blooio::error::Error;

#[test]
fn new_uses_production_defaults() {
    let cfg = ClientConfig::new();
    assert_eq!(cfg.base_url, DEFAULT_BASE_URL);
    assert_eq!(cfg.timeout, Duration::from_secs(30));
    assert!(cfg.user_agent.starts_with("blooio-rs/"));
    assert_eq!(DEFAULT_MAX_RESPONSE_BODY_BYTES, 64 * 1024 * 1024);
}

#[test]
fn with_base_url_trims_trailing_slashes() {
    let one = ClientConfig::new().with_base_url("https://example.com/api/");
    assert_eq!(one.base_url, "https://example.com/api");
    let many = ClientConfig::new().with_base_url("https://example.com/api///");
    assert_eq!(many.base_url, "https://example.com/api");
    let none = ClientConfig::new().with_base_url("https://example.com/api");
    assert_eq!(none.base_url, "https://example.com/api");
}

#[test]
fn url_for_concatenates_base_and_path() {
    let cfg = ClientConfig::new().with_base_url("https://example.com/api");
    assert_eq!(cfg.url_for("/me"), "https://example.com/api/me");
    assert_eq!(cfg.url_for("/chats/c1/messages"), "https://example.com/api/chats/c1/messages");
}

#[test]
fn from_env_values_uses_defaults_without_base_url() {
    let cfg = ClientConfig::from_env_values(None).ok().unwrap();
    assert_eq!(cfg.base_url, DEFAULT_BASE_URL);
    let blank = ClientConfig::from_env_values(Some("   ".into())).ok().unwrap();
    assert_eq!(blank.base_url, DEFAULT_BASE_URL);
}

#[test]
fn from_env_values_uses_base_url_override() {
    let cfg = ClientConfig::from_env_values(Some("https://example.com/api/".into())).ok().unwrap();
    assert_eq!(cfg.base_url, "https://example.com/api");
}

#[test]
fn from_env_values_rejects_invalid_base_url() {
    let err = ClientConfig::from_env_values(Some("nope".into())).err().unwrap();
    assert!(matches!(err, Error::Config(_)));
}

#[test]
fn from_env_values_rejects_base_url_query() {
    let err = ClientConfig::from_env_values(Some("https://example.com/api?token=secret".into()))
        .err()
        .unwrap();
    assert!(matches!(err, Error::Config(_)));
    assert_eq!(err.message(), "configuration error: BLOOIO_BASE_URL is not a valid base URL");
}

#[test]
fn validate_rejects_programmatic_base_url_query() {
    let err = ClientConfig::new()
        .with_base_url("https://example.com/api?token=secret")
        .validate()
        .err()
        .unwrap();
    assert!(matches!(err, Error::Config(_)));
    assert!(!err.message().contains("secret"));
}

#[test]
fn validate_rejects_invalid_user_agent_without_reflecting_it() {
    let err = ClientConfig::new()
        .with_user_agent("bad\nsecret")
        .validate()
        .err()
        .unwrap();
    assert!(matches!(err, Error::Config(_)));
    assert!(!err.message().contains("secret"));
    assert_eq!(err.message(), "configuration error: user agent is not a valid HTTP header value");
}

#[test]
fn validate_accepts_defaults_and_rejects_padded_url() {
    assert!(ClientConfig::new().validate().is_ok());
    let err = ClientConfig::new().with_base_url(" https://example.com").validate().err().unwrap();
    assert_eq!(err.message(), "configuration error: client base URL is not a valid base URL");
    let err = ClientConfig::new().with_base_url("ftp://example.com").validate().err().unwrap();
    assert_eq!(err.message(), "configuration error: client base URL must start with http:// or https://");
}

#[test]
fn normalize_is_idempotent_on_examples() {
    let once = normalize_base_url("https://a.test//".to_owned());
    assert_eq!(once, "https://a.test");
    assert_eq!(normalize_base_url(once.clone()), once);
    assert_eq!(normalize_base_url("///".to_owned()), "");
}

#[test]
fn debug_string_prints_every_field() {
    let cfg = ClientConfig::new();
    assert_eq!(
        cfg.debug_string(),
        "ClientConfig { base_url: \"https://backend.blooio.com/v2/api\", timeout: 30s, user_agent: \"blooio-rs/0.1.0\", retry: RetryPolicy { max_retries: 2, base_delay: 500ms, max_delay: 20s, jitter: true }, sensitive_tracing: false }"
    );
    let dbg = cfg.with_user_agent("a\"b").with_sensitive_tracing().debug_string();
    assert!(dbg.contains("user_agent: \"a\\\"b\""));
    assert!(dbg.ends_with("sensitive_tracing: [REDACTED] }"));
}
