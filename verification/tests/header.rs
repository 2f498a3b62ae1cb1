use axum::http::HeaderValue;
use connect4::utils::session_header::{SessionToken, SESSION_TOKEN_HEADER};

#[test]
fn the_header_is_named_x_session_token() {
    assert_eq!(SESSION_TOKEN_HEADER, "x-session-token");
}

#[test]
fn a_missing_value_is_invalid() {
    assert!(SessionToken::decode(None).is_err());
}

#[test]
fn a_visible_value_is_the_token() {
    let v = HeaderValue::from_static("abc-123 \tx");
    let t = SessionToken::decode(Some(&v)).ok().unwrap();
    assert_eq!(t.0, "abc-123 \tx");
}

#[test]
fn a_value_with_non_ascii_bytes_is_invalid() {
    let v = HeaderValue::from_bytes(&[b'a', 0xC3, 0xA9]).unwrap();
    assert!(SessionToken::decode(Some(&v)).is_err());
}

#[test]
fn tokens_are_encoded_as_their_bytes() {
    let t = SessionToken("tok en".to_string());
    assert!(t.is_encodable());
    assert_eq!(t.encode().as_bytes(), b"tok en");
    let back = SessionToken::decode(Some(&t.encode())).ok().unwrap();
    assert_eq!(back.0, "tok en");
    let accented = SessionToken("é".to_string());
    assert!(accented.is_encodable());
    assert_eq!(accented.encode().as_bytes(), "é".as_bytes());
    assert!(!SessionToken("a\nb".to_string()).is_encodable());
    assert!(!SessionToken("a\u{7f}".to_string()).is_encodable());
}
