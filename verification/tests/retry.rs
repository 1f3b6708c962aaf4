use std::time::Duration;

use blooio::error::codes;
use blooio::error::{ApiError, ApiErrorDetails, Error};
use blooio::retry::{jittered, RetryPolicy};

fn api_err(status: u16, retry_after: Option<Duration>) -> Error {
    api_err_with_code(status, None, retry_after)
}

fn api_err_with_code(status: u16, code: Option<&str>, retry_after: Option<Duration>) -> Error {
    Error::Api(ApiError::from_schema(
        status,
        code.map(str::to_owned),
        None,
        None,
        ApiErrorDetails::default(),
        retry_after,
    ))
}

#[test]
fn does_not_retry_non_retryable() {
    let p = RetryPolicy::default();
    assert!(!p.should_retry(0, &api_err(400, None)));
    assert!(!p.should_retry(0, &Error::Decode("x".into())));
}

#[test]
fn retries_transient_within_budget() {
    let p = RetryPolicy::default().with_max_retries(2);
    assert!(p.should_retry(0, &api_err(429, None)));
    assert!(p.should_retry(1, &api_err(503, None)));
    assert!(!p.should_retry(2, &api_err(503, None)));
}

#[test]
fn does_not_retry_documented_quota_429_codes() {
    let p = RetryPolicy::default();
    assert!(!p.should_retry(0, &api_err_with_code(429, Some(codes::OUTBOUND_LIMIT_REACHED), None)));
    assert!(!p.should_retry(
        0,
        &api_err_with_code(429, Some(codes::NEW_CONVERSATION_LIMIT_REACHED), None)
    ));
}

#[test]
fn retries_unknown_429_codes() {
    let p = RetryPolicy::default();
    assert!(p.should_retry(0, &api_err_with_code(429, Some("temporarily_rate_limited"), None)));
}

#[test]
fn none_disables_retry() {
    let p = RetryPolicy::none();
    assert!(!p.should_retry(0, &api_err(503, None)));
}

#[test]
fn retry_after_hint_is_honored_and_clamped() {
    let p = RetryPolicy::default()
        .with_jitter(false)
        .with_max_delay(Duration::from_secs(5));
    let d = p.delay_for(0, &api_err(429, Some(Duration::from_secs(2))));
    assert_eq!(d, Duration::from_secs(2));
    let clamped = p.delay_for(0, &api_err(429, Some(Duration::from_secs(45))));
    assert_eq!(clamped, Duration::from_secs(5));
}

#[test]
fn backoff_grows_and_clamps_without_jitter() {
    let p = RetryPolicy::default()
        .with_jitter(false)
        .with_base_delay(Duration::from_millis(100))
        .with_max_delay(Duration::from_secs(1));
    assert_eq!(p.delay_for(0, &api_err(503, None)), Duration::from_millis(100));
    assert_eq!(p.delay_for(1, &api_err(503, None)), Duration::from_millis(200));
    assert_eq!(p.delay_for(2, &api_err(503, None)), Duration::from_millis(400));
    assert_eq!(p.delay_for(4, &api_err(503, None)), Duration::from_secs(1));
}

#[test]
fn backoff_saturates_for_huge_retry_counts() {
    let p = RetryPolicy::default()
        .with_jitter(false)
        .with_base_delay(Duration::from_secs(1))
        .with_max_delay(Duration::from_secs(60));
    assert_eq!(p.delay_for(40, &api_err(503, None)), Duration::from_secs(60));
    assert_eq!(p.delay_for(u32::MAX, &Error::transport("t".into())), Duration::from_secs(60));
}

#[test]
fn jitter_stays_within_bounds() {
    let p = RetryPolicy::default()
        .with_jitter(true)
        .with_base_delay(Duration::from_millis(100))
        .with_max_delay(Duration::from_secs(10));
    for _ in 0..1000 {
        let d = p.delay_for(1, &api_err(503, None));
        assert!(d <= Duration::from_millis(200), "jitter exceeded raw: {d:?}");
    }
}

#[test]
fn default_policy_values() {
    let p = RetryPolicy::default();
    assert_eq!(p.max_retries, 2);
    assert_eq!(p.base_delay, Duration::from_millis(500));
    assert_eq!(p.max_delay, Duration::from_secs(20));
    assert!(p.jitter);
}

#[test]
fn debug_string_matches_derived_debug() {
    let policy = RetryPolicy::default().with_max_retries(7).with_jitter(false);
    assert_eq!(
        policy.debug_string(),
        "RetryPolicy { max_retries: 7, base_delay: 500ms, max_delay: 20s, jitter: false }"
    );
    assert_eq!(policy.debug_string(), format!("{policy:?}"));
}

#[test]
fn jittered_scales_the_raw_delay_by_the_fraction() {
    assert_eq!(jittered(1_000, 500_000), Duration::from_nanos(500));
    assert_eq!(jittered(20_000_000_000, 999_999), Duration::from_nanos(19_999_980_000));
    assert_eq!(jittered(7, 0), Duration::ZERO);
    assert_eq!(jittered(3, 999_999), Duration::from_nanos(2));
}
