use std::time::Duration;

use blooio::ratelimit::{parse_header_u64, retry_after, Headers, RateLimit, ResponseMeta};

fn headers(pairs: &[(&str, &str)]) -> Headers {
    let mut h = Headers::new();
    for (k, v) in pairs {
        h.append(k, v.as_bytes());
    }
    h
}

#[test]
fn parses_x_ratelimit_headers() {
    let h = headers(&[
        ("x-ratelimit-limit", "100"),
        ("x-ratelimit-remaining", "0"),
        ("x-ratelimit-reset", "1700000000"),
    ]);
    let rl = RateLimit::from_headers(&h).unwrap();
    assert_eq!(rl.limit, Some(100));
    assert_eq!(rl.remaining, Some(0));
    assert_eq!(rl.reset, Some(1_700_000_000));
    assert!(rl.is_exhausted());
}

#[test]
fn parses_ietf_ratelimit_headers() {
    let h = headers(&[("ratelimit-remaining", "5")]);
    let rl = RateLimit::from_headers(&h).unwrap();
    assert_eq!(rl.remaining, Some(5));
    assert!(!rl.is_exhausted());
}

#[test]
fn no_headers_yields_none() {
    assert_eq!(RateLimit::from_headers(&Headers::new()), None);
}

#[test]
fn retry_after_parses_delta_seconds() {
    let h = headers(&[("retry-after", "30")]);
    assert_eq!(retry_after(&h), Some(Duration::from_secs(30)));
}

#[test]
fn retry_after_ignores_http_date() {
    let h = headers(&[("retry-after", "Wed, 21 Oct 2015 07:28:00 GMT")]);
    assert_eq!(retry_after(&h), None);
}

#[test]
fn meta_bundles_status_and_fields() {
    let h = headers(&[("x-ratelimit-remaining", "9"), ("retry-after", "2")]);
    let meta = ResponseMeta::from_headers(429, &h);
    assert_eq!(meta.status, 429);
    assert_eq!(meta.rate_limit.unwrap().remaining, Some(9));
    assert_eq!(meta.retry_after, Some(Duration::from_secs(2)));
}

#[test]
fn header_names_match_ignoring_case_and_first_wins() {
    let h = headers(&[("X-RateLimit-Limit", "7"), ("x-ratelimit-limit", "8")]);
    assert_eq!(RateLimit::from_headers(&h).unwrap().limit, Some(7));
    assert_eq!(h.get("X-RATELIMIT-LIMIT"), Some(&b"7"[..]));
    assert_eq!(h.len(), 2);
}

#[test]
fn unparsable_x_header_does_not_fall_back_to_ietf_name() {
    let h = headers(&[("x-ratelimit-limit", "lots"), ("ratelimit-limit", "3")]);
    assert_eq!(RateLimit::from_headers(&h), None);
}

#[test]
fn header_values_are_trimmed_and_may_carry_a_plus() {
    assert_eq!(parse_header_u64(b"  42 "), Some(42));
    assert_eq!(parse_header_u64(b"+5"), Some(5));
    assert_eq!(parse_header_u64(b""), None);
    assert_eq!(parse_header_u64(b"-1"), None);
    assert_eq!(parse_header_u64(b"18446744073709551615"), Some(u64::MAX));
    assert_eq!(parse_header_u64(b"18446744073709551616"), None);
    assert_eq!(parse_header_u64(b"1 2"), None);
}
