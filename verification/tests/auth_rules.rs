use axum::http::{HeaderMap, HeaderValue};
use borer::auth::{creation_status, generate_token, token_from_bytes, validation_status, AuthService};

#[test]
fn token_format() {
    let token = token_from_bytes(&[0xab; 32]);
    assert_eq!(token, format!("borer_{}", "ab".repeat(32)));
    let mut bytes = [0u8; 32];
    bytes[0] = 0x0f;
    bytes[31] = 0xf0;
    let token = token_from_bytes(&bytes);
    assert!(token.starts_with("borer_0f00"));
    assert!(token.ends_with("00f0"));
    assert_eq!(token.len(), 70);
}

#[test]
fn generated_tokens_have_shape_and_differ() {
    let a = generate_token();
    let b = generate_token();
    for t in [&a, &b] {
        assert_eq!(t.len(), 70);
        assert!(t.starts_with("borer_"));
        assert!(t[6..].chars().all(|c| c.is_ascii_digit() || ('a'..='f').contains(&c)));
    }
    assert_ne!(a, b);
}

#[test]
fn master_token_check() {
    let svc = AuthService::new((), "master".to_string());
    assert!(svc.validate_master("master"));
    assert!(!svc.validate_master("Master"));
    assert!(!svc.validate_master(""));
    assert!(!svc.validate_master("master "));
}

#[test]
fn creation_refusals() {
    let svc = AuthService::new((), "master".to_string());
    assert_eq!(svc.creation_refusal(&None), Some(401));
    assert_eq!(svc.creation_refusal(&Some("nope".to_string())), Some(403));
    assert_eq!(svc.creation_refusal(&Some("master".to_string())), None);
    let mut headers = HeaderMap::new();
    assert_eq!(svc.authorize_creation(&headers), Some(401));
    headers.insert("authorization", HeaderValue::from_static("Bearer nope"));
    assert_eq!(svc.authorize_creation(&headers), Some(403));
    headers.insert("authorization", HeaderValue::from_static("Bearer master"));
    assert_eq!(svc.authorize_creation(&headers), None);
    assert_eq!(svc.pool(), &());
}

#[test]
fn validation_statuses() {
    assert_eq!(validation_status(None), 401);
    assert_eq!(validation_status(Some(Ok(true))), 200);
    assert_eq!(validation_status(Some(Ok(false))), 401);
    assert_eq!(validation_status(Some(Err(()))), 500);
    assert_eq!(creation_status(true), 200);
    assert_eq!(creation_status(false), 500);
}

#[test]
fn different_bytes_give_different_tokens() {
    let mut a = [7u8; 32];
    let b = a;
    a[17] = 8;
    assert_ne!(token_from_bytes(&a), token_from_bytes(&b));
    assert_eq!(token_from_bytes(&b), token_from_bytes(&[7u8; 32]));
}
