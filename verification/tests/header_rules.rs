use axum::http::{HeaderMap, HeaderValue};
use borer::headers::{bearer_token, get_token_from_header, header_pairs, header_value_str, header_value_text_or_empty};

#[test]
fn visible_ascii_reads_as_text() {
    assert_eq!(header_value_str(b"text/html; q=0.9"), Some("text/html; q=0.9".to_string()));
    assert_eq!(header_value_str(b"a\tb"), Some("a\tb".to_string()));
    assert_eq!(header_value_str(b""), Some(String::new()));
    assert_eq!(header_value_str(b"~ !"), Some("~ !".to_string()));
}

#[test]
fn other_bytes_do_not_read_as_text() {
    assert_eq!(header_value_str(b"caf\xc3\xa9"), None);
    assert_eq!(header_value_str(b"a\x7fb"), None);
    assert_eq!(header_value_str(b"a\x1fb"), None);
    assert_eq!(header_value_text_or_empty(b"\xff"), "");
    assert_eq!(header_value_text_or_empty(b"ok"), "ok");
}

#[test]
fn same_rule_as_http_crate() {
    for b in 0u8..=255 {
        let bytes = [b'x', b];
        let ours = header_value_str(&bytes);
        if let Ok(v) = HeaderValue::from_bytes(&bytes) {
            assert_eq!(ours.as_deref(), v.to_str().ok(), "byte {b}");
        }
    }
}

#[test]
fn header_pairs_keep_names_and_blank_bad_values() {
    let entries = vec![
        ("content-type".to_string(), b"text/plain".to_vec()),
        ("x-odd".to_string(), b"\xfe".to_vec()),
    ];
    assert_eq!(
        header_pairs(&entries),
        vec![
            ("content-type".to_string(), "text/plain".to_string()),
            ("x-odd".to_string(), String::new()),
        ]
    );
    assert_eq!(header_pairs(&vec![]), vec![]);
}

#[test]
fn bearer_token_rules() {
    assert_eq!(bearer_token(Some(b"Bearer abc")), Some("abc".to_string()));
    assert_eq!(bearer_token(Some(b"Bearer ")), Some(String::new()));
    assert_eq!(bearer_token(Some(b"bearer abc")), None);
    assert_eq!(bearer_token(Some(b"Basic abc")), None);
    assert_eq!(bearer_token(Some(b"Bearer")), None);
    assert_eq!(bearer_token(Some(b"Bearer ab\x01")), None);
    assert_eq!(bearer_token(None), None);
    // round trip: a visible token put after the scheme comes back unchanged
    let token = "borer_0123456789abcdef";
    let value = format!("Bearer {token}");
    assert_eq!(bearer_token(Some(value.as_bytes())), Some(token.to_string()));
}

#[test]
fn token_from_request_headers() {
    let mut headers = HeaderMap::new();
    assert_eq!(get_token_from_header(&headers), None);
    headers.insert("Authorization", HeaderValue::from_static("Bearer secret-1"));
    assert_eq!(get_token_from_header(&headers), Some("secret-1".to_string()));
    headers.insert("authorization", HeaderValue::from_static("Token secret-1"));
    assert_eq!(get_token_from_header(&headers), None);
    headers.insert("authorization", HeaderValue::from_bytes(b"Bearer \xe2\x82\xac").unwrap());
    assert_eq!(get_token_from_header(&headers), None);
}
