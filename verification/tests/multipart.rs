use blooio::error::Error;
use blooio::multipart::{boundary_for, contains_bytes, escape_header_value, file_body, part_content_type};

#[test]
fn boundary_is_first_absent_candidate() {
    assert_eq!(boundary_for(b"hello"), "blooio-form-boundary-0");
    assert_eq!(
        boundary_for(b"xx blooio-form-boundary-0 yy blooio-form-boundary-1"),
        "blooio-form-boundary-2"
    );
    assert_eq!(boundary_for(b""), "blooio-form-boundary-0");
}

#[test]
fn boundary_is_never_in_payload() {
    let payload = b"blooio-form-boundary-0blooio-form-boundary-1blooio-form-boundary-2";
    let b = boundary_for(payload);
    assert!(!contains_bytes(payload, b.as_bytes()));
}

#[test]
fn contains_bytes_cases() {
    assert!(contains_bytes(b"abcdef", b"cde"));
    assert!(contains_bytes(b"abc", b"abc"));
    assert!(!contains_bytes(b"abc", b"abcd"));
    assert!(!contains_bytes(b"abc", b""));
    assert!(!contains_bytes(b"", b"a"));
}

#[test]
fn content_type_defaults_and_validates() {
    assert_eq!(part_content_type(None).ok().unwrap(), "application/octet-stream");
    assert_eq!(part_content_type(Some("image/png")).ok().unwrap(), "image/png");
    let err = part_content_type(Some("bad\r\nvalue")).err().unwrap();
    assert!(matches!(err, Error::Config(_)));
    assert_eq!(err.message(), "configuration error: failed to parse header value");
}

#[test]
fn header_values_are_escaped() {
    assert_eq!(escape_header_value(r#"a"b\c"#), r#"a\"b\\c"#);
    assert_eq!(escape_header_value("line\r\nbreak"), "line__break");
    assert_eq!(escape_header_value("plain.png"), "plain.png");
}

#[test]
fn file_body_layout() {
    let body = file_body("B", "file", b"DATA", Some("a\"b.png"), "image/png");
    let expected = b"--B\r\nContent-Disposition: form-data; name=\"file\"; filename=\"a\\\"b.png\"\r\nContent-Type: image/png\r\n\r\nDATA\r\n--B--\r\n";
    assert_eq!(body, expected.to_vec());
    let body = file_body("B", "f", b"", None, "text/plain");
    assert_eq!(
        body,
        b"--B\r\nContent-Disposition: form-data; name=\"f\"\r\nContent-Type: text/plain\r\n\r\n\r\n--B--\r\n".to_vec()
    );
}
