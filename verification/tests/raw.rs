use blooio::raw::RawResponse;
use bytes::Bytes;
use http::HeaderMap;

#[test]
fn raw_debug_redacts_headers_and_body() {
    let mut headers = HeaderMap::new();
    headers.insert("x-token", "secret-token".parse().unwrap());
    let raw = RawResponse::new(200, headers, Bytes::from_static(b"secret-body"));
    let dbg = raw.debug_string();
    assert!(!dbg.contains("secret-token"));
    assert!(!dbg.contains("secret-body"));
    assert!(dbg.contains("REDACTED"));
}

#[test]
fn raw_debug_counts_every_header_value_and_body_byte() {
    let mut headers = HeaderMap::new();
    headers.insert("x-a", "1".parse().unwrap());
    headers.append("x-a", "2".parse().unwrap());
    headers.insert("x-b", "3".parse().unwrap());
    let raw = RawResponse::new(429, headers, Bytes::from_static(b"{}"));
    assert_eq!(
        raw.debug_string(),
        "RawResponse { status: 429, headers: [REDACTED; 3], body: [REDACTED; 2 bytes] }"
    );
    let copy = raw.clone();
    assert_eq!(copy.debug_string(), raw.debug_string());
}
