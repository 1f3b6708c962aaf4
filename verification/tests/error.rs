use std::time::Duration;

use blooio::error::codes;
use blooio::error::{ApiError, ApiErrorDetails, Error};
use blooio::response::{is_success, map_error, success_body, ApiErrorBody};

fn details_with(key: &str, value: serde_json::Value) -> serde_json::Map<String, serde_json::Value> {
    let mut fields = serde_json::Map::new();
    fields.insert(key.to_owned(), value);
    fields
}

#[test]
fn code_helpers_classify_documented_codes() {
    assert!(codes::is_quota_error(codes::NEW_CONVERSATION_LIMIT_REACHED));
    assert!(codes::is_reply_target_error(codes::REPLY_TARGET_DEVICE_MISMATCH));
    assert!(codes::is_inbound_only_error(codes::INBOUND_ONLY_NO_PRIOR_INBOUND));
    assert!(!codes::is_quota_error(codes::REPLY_TARGET_NOT_FOUND));
}

#[test]
fn decode_error_does_not_store_source_message() {
    let err = Error::decode("bad response contained sk-secret-123");
    assert!(!err.message().contains("sk-secret-123"));
    assert_eq!(err.message(), "failed to decode response body: failed to decode JSON body");
}

#[test]
fn api_error_accessors_and_predicates_work() {
    let api = ApiError::from_schema(
        429,
        Some(codes::OUTBOUND_LIMIT_REACHED.to_owned()),
        Some("rate_limited".to_owned()),
        Some("slow down".to_owned()),
        ApiErrorDetails::new(details_with("limit", serde_json::Value::from(10))),
        Some(Duration::from_secs(3)),
    );
    let err = Error::Api(api);

    assert_eq!(err.status(), Some(429));
    assert_eq!(err.code(), Some(codes::OUTBOUND_LIMIT_REACHED));
    assert_eq!(err.retry_after(), Some(Duration::from_secs(3)));
    assert!(err.is_quota_error());
    assert!(!err.is_retryable());
    let Error::Api(api) = err else {
        panic!("expected api error");
    };
    assert_eq!(api.error(), Some("rate_limited"));
    assert_eq!(api.server_message(), Some("slow down"));
    assert_eq!(api.details().get("limit"), Some(&serde_json::Value::from(10)));
}

#[test]
fn api_error_debug_redacts_server_message_and_detail_values() {
    let err = Error::Api(ApiError::from_schema(
        403,
        Some(codes::INBOUND_ONLY_NO_PRIOR_INBOUND.to_owned()),
        Some("forbidden".to_owned()),
        Some("contains sk-secret-123".to_owned()),
        ApiErrorDetails::new(details_with("external_id", serde_json::Value::from("secret-ish-context"))),
        None,
    ));
    let debug = err.debug_string();
    let display = err.message();
    assert!(!debug.contains("sk-secret-123"));
    assert!(!debug.contains("secret-ish-context"));
    assert!(!display.contains("sk-secret-123"));
    assert!(!display.contains("secret-ish-context"));
    assert!(err.is_inbound_only_error());
    assert!(!err.is_reply_target_error());
}

#[test]
fn maps_error_schema() {
    let body = ApiErrorBody {
        error: Some("rate_limited".into()),
        message: Some("slow down".into()),
        status: Some(429),
        code: Some("outbound_limit_reached".into()),
        details: {
            let mut m = details_with("limit", serde_json::Value::from(10));
            m.insert("current".into(), serde_json::Value::from(10));
            m
        },
    };
    let err = map_error(429, Some(body), None);
    match err {
        Error::Api(api) => {
            assert_eq!(api.status(), 429);
            assert_eq!(api.code(), Some("outbound_limit_reached"));
            assert_eq!(
                api.message(),
                "blooio api error (status 429, code outbound_limit_reached): HTTP 429 (outbound_limit_reached)"
            );
            assert_eq!(api.error(), Some("rate_limited"));
            assert_eq!(api.server_message(), Some("slow down"));
            assert_eq!(api.details().get("limit"), Some(&serde_json::Value::from(10)));
            assert_eq!(api.details().get("current"), Some(&serde_json::Value::from(10)));
        }
        _ => panic!("expected Api error"),
    }
}

#[test]
fn structured_error_message_does_not_reflect_server_prose() {
    let body = ApiErrorBody {
        error: None,
        message: Some("bad token sk-secret-123".into()),
        status: Some(400),
        code: Some("invalid_request".into()),
        details: serde_json::Map::new(),
    };
    let err = map_error(400, Some(body), None);
    assert!(!err.message().contains("sk-secret-123"));
    assert!(!err.debug_string().contains("sk-secret-123"));
    let Error::Api(api) = err else {
        panic!("expected Api error");
    };
    assert_eq!(api.server_message(), Some("bad token sk-secret-123"));
}

#[test]
fn structured_error_details_are_explicit_and_redacted_in_debug() {
    let mut details = details_with("plan_id", serde_json::Value::from("plan_123"));
    details.insert("cap".into(), serde_json::Value::from(50));
    details.insert("current".into(), serde_json::Value::from(50));
    let body = ApiErrorBody {
        error: None,
        message: Some("quota hit sk-secret-123".into()),
        status: Some(429),
        code: Some("new_conversation_limit_reached".into()),
        details,
    };
    let err = map_error(429, Some(body), None);
    let debug = err.debug_string();
    assert!(!debug.contains("plan_123"));
    assert!(!debug.contains("sk-secret-123"));
    assert!(!err.message().contains("plan_123"));
    assert!(!err.message().contains("sk-secret-123"));
    assert!(err.is_quota_error());
    let Error::Api(api) = err else {
        panic!("expected Api error");
    };
    assert_eq!(api.details().get("plan_id"), Some(&serde_json::Value::from("plan_123")));
    assert_eq!(api.details().get("cap"), Some(&serde_json::Value::from(50)));
    assert_eq!(api.details().as_object().len(), 3);
    assert!(!api.details().is_empty());
}

#[test]
fn maps_non_schema_error_body() {
    let err = map_error(500, None, Some(Duration::from_secs(1)));
    assert_eq!(err.status(), Some(500));
    assert_eq!(err.code(), None);
    assert_eq!(err.retry_after(), Some(Duration::from_secs(1)));
    assert!(err.is_retryable());
    assert_eq!(
        err.message(),
        "blooio api error (status 500): HTTP 500 (non-schema error body omitted)"
    );
}

#[test]
fn error_label_shows_when_no_code() {
    let err = Error::Api(ApiError::from_schema(
        404,
        None,
        Some("not_found".into()),
        None,
        ApiErrorDetails::default(),
        None,
    ));
    assert_eq!(err.message(), "blooio api error (status 404): HTTP 404 (not_found)");
    assert!(!err.is_retryable());
}

#[test]
fn every_error_variant_has_its_text() {
    assert_eq!(Error::transport("reset".into()).message(), "transport error: reset");
    assert_eq!(Error::encode("bad".into()).message(), "failed to encode request body: bad");
    assert_eq!(Error::config("x".into()).message(), "configuration error: x");
    assert_eq!(Error::RequestBuild.message(), "failed to build HTTP request");
    assert_eq!(
        Error::ResponseBodyTooLarge { limit: 1024 }.message(),
        "response body exceeded the limit of 1024 bytes"
    );
    assert!(Error::transport("t".into()).is_retryable());
    assert!(!Error::RequestBuild.is_retryable());
    assert_eq!(Error::config("x".into()).status(), None);
}

#[test]
fn transient_statuses_are_retryable() {
    for (status, code, expected) in [
        (408u16, None, true),
        (425, None, true),
        (429, None, true),
        (429, Some("temporarily_rate_limited"), true),
        (429, Some(codes::OUTBOUND_LIMIT_REACHED), false),
        (500, None, true),
        (599, None, true),
        (600, None, false),
        (400, None, false),
    ] {
        let err = Error::Api(ApiError::from_schema(
            status,
            code.map(str::to_owned),
            None,
            None,
            ApiErrorDetails::default(),
            None,
        ));
        assert_eq!(err.is_retryable(), expected, "status {status} code {code:?}");
    }
}

#[test]
fn success_statuses_and_empty_bodies() {
    assert!(is_success(200));
    assert!(is_success(299));
    assert!(!is_success(300));
    assert!(!is_success(199));
    assert_eq!(success_body(b""), b"null");
    assert_eq!(success_body(b"{}"), b"{}");
}

#[test]
fn api_error_debug_string_exact() {
    let mut details = details_with("plan_id", serde_json::Value::from("plan_123"));
    details.insert("cap".into(), serde_json::Value::from(50));
    let err = Error::Api(ApiError::from_schema(
        429,
        Some("new_conversation_limit_reached".to_owned()),
        None,
        Some("quota hit sk-secret-123".to_owned()),
        ApiErrorDetails::new(details),
        Some(Duration::from_secs(2)),
    ));
    assert_eq!(
        err.debug_string(),
        "Api(ApiError { status: 429, code: Some(\"new_conversation_limit_reached\"), error: None, server_message: Some(\"[REDACTED]\"), details: ApiErrorDetails { len: 2, keys: [\"cap\", \"plan_id\"], values: \"[REDACTED]\" }, retry_after: Some(2s), schema_body: true, summary: \"HTTP 429 (new_conversation_limit_reached)\" })"
    );
    let plain = Error::Api(ApiError::from_non_schema(502, None));
    assert_eq!(
        plain.debug_string(),
        "Api(ApiError { status: 502, code: None, error: None, server_message: None, details: ApiErrorDetails { len: 0, keys: [], values: \"[REDACTED]\" }, retry_after: None, schema_body: false, summary: \"HTTP 502 (non-schema error body omitted)\" })"
    );
}

#[test]
fn error_debug_string_names_the_variant() {
    assert_eq!(Error::transport("timed out".to_owned()).debug_string(), "Transport(\"timed out\")");
    assert_eq!(Error::RequestBuild.debug_string(), "RequestBuild");
    assert_eq!(
        Error::ResponseBodyTooLarge { limit: 64 }.debug_string(),
        "ResponseBodyTooLarge { limit: 64 }"
    );
    assert_eq!(
        Error::decode("sk-secret").debug_string(),
        "Decode(\"failed to decode JSON body\")"
    );
}

#[test]
fn api_error_debug_is_the_same_whatever_the_server_message() {
    let make = |message: &str| {
        Error::Api(ApiError::from_schema(
            400,
            Some("invalid_request".to_owned()),
            Some("bad_request".to_owned()),
            Some(message.to_owned()),
            ApiErrorDetails::new(details_with("field", serde_json::Value::from("to"))),
            None,
        ))
    };
    assert_eq!(make("token sk-one").debug_string(), make("other text").debug_string());
    assert_eq!(make("token sk-one").message(), make("other text").message());
}
