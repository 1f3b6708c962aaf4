use blooio::credentials::BlooioCreds;
use blooio::error::Error;
use blooio::secret::Secret;

#[test]
fn debug_redacts_api_key() {
    let creds = BlooioCreds::new("super-secret-key");
    let debug = creds.debug_string();
    assert!(debug.contains("[REDACTED]"));
    assert!(!debug.contains("super-secret-key"));
}

#[test]
fn bearer_header_carries_key() {
    let creds = BlooioCreds::new("k-123".to_owned());
    assert_eq!(creds.bearer_header().expose(), "Bearer k-123");
}

#[test]
fn from_env_value_requires_a_key() {
    let err = BlooioCreds::from_env_value(None).err().unwrap();
    assert!(matches!(err, Error::Config(_)));
    assert_eq!(err.message(), "configuration error: BLOOIO_API_KEY is not set");
    let err = BlooioCreds::from_env_value(Some(" \t ".into())).err().unwrap();
    assert_eq!(err.message(), "configuration error: BLOOIO_API_KEY is not set");
    let creds = BlooioCreds::from_env_value(Some("abc".into())).ok().unwrap();
    assert_eq!(creds.bearer_header().expose(), "Bearer abc");
}

#[test]
fn debug_and_display_are_redacted() {
    let s = Secret::new("super-secret-key".to_owned());
    assert_eq!(s.redacted(), "[REDACTED]");
    assert!(!s.redacted().contains("super-secret"));
}

#[test]
fn expose_returns_inner() {
    let s = Secret::new("abc".to_owned());
    assert_eq!(s.expose(), "abc");
}
