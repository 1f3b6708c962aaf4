use blooio::operation::{encode_path_segment, push_opt, push_opt_str, Method};

#[test]
fn encode_path_segment_leaves_unreserved_chars() {
    assert_eq!(encode_path_segment("abc-123._~"), "abc-123._~");
}

#[test]
fn encode_path_segment_escapes_reserved_and_unicode_bytes() {
    assert_eq!(
        encode_path_segment("+1555/a b?#☃"),
        "%2B1555%2Fa%20b%3F%23%E2%98%83"
    );
}

#[test]
fn encode_path_segment_escapes_query_sub_delims() {
    assert_eq!(encode_path_segment("!()*"), "%21%28%29%2A");
    assert_eq!(encode_path_segment(""), "");
}

#[test]
fn push_opt_pushes_only_present_values() {
    let mut q: Vec<(&'static str, String)> = Vec::new();
    push_opt(&mut q, "limit", Some(10u32));
    push_opt::<u32>(&mut q, "offset", None);
    push_opt(&mut q, "since", Some(-5i64));
    push_opt_str(&mut q, "q", &Some("x y".to_owned()));
    push_opt_str(&mut q, "sort", &None);
    assert_eq!(
        q,
        vec![("limit", "10".to_owned()), ("since", "-5".to_owned()), ("q", "x y".to_owned())]
    );
}

#[test]
fn method_names_and_safety() {
    assert_eq!(Method::Get.as_str(), "GET");
    assert_eq!(Method::Delete.as_str(), "DELETE");
    assert!(Method::Head.is_safe());
    assert!(Method::Options.is_safe());
    assert!(!Method::Patch.is_safe());
    assert!(!Method::Put.is_safe());
}
