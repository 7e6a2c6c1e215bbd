use axum::http::{HeaderMap, HeaderValue};
use borer::client::{
    client_dispatch, client_frame_action, local_base_url, upstream_method, tunnel_ws_url, upstream_error_response,
    upstream_response, upstream_url, ClientDispatch, ClientFrameAction,
};
use borer::protocol::{server_frame_action, FrameKind, ServerFrameAction, TunnelHttpRequest, TunnelMessage};

fn request(path: &str, query: Option<&str>) -> TunnelHttpRequest {
    TunnelHttpRequest {
        id: "id-1".to_string(),
        method: "GET".to_string(),
        path: path.to_string(),
        query: query.map(|q| q.to_string()),
        headers: vec![],
        body: vec![],
    }
}

#[test]
fn addresses() {
    assert_eq!(tunnel_ws_url("example.com:3002", "borer_ab"), "ws://example.com:3002/ws?token=borer_ab");
    assert_eq!(local_base_url(8080), "http://localhost:8080");
    assert_eq!(local_base_url(0), "http://localhost:0");
    assert_eq!(local_base_url(65535), "http://localhost:65535");
    for port in [1u16, 9, 10, 99, 100, 1000, 3002, 10000, 40960] {
        assert_eq!(local_base_url(port), format!("http://localhost:{port}"));
    }
    let base = "http://localhost:8080";
    assert_eq!(upstream_url(base, &request("/a/b", Some("x=1&y=2"))), "http://localhost:8080/a/b?x=1&y=2");
    assert_eq!(upstream_url(base, &request("/a", None)), "http://localhost:8080/a");
    assert_eq!(upstream_url(base, &request("", Some(""))), "http://localhost:8080?");
}

#[test]
fn upstream_error_reply() {
    let resp = upstream_error_response("id-9".to_string(), "connection refused");
    assert_eq!(resp.id, "id-9");
    assert_eq!(resp.status, 502);
    assert!(resp.headers.is_empty());
    assert_eq!(resp.body, b"upstream error: connection refused".to_vec());
    let resp = upstream_error_response("x".to_string(), "é");
    assert_eq!(resp.body, "upstream error: é".as_bytes().to_vec());
}

#[test]
fn upstream_reply() {
    let mut headers = HeaderMap::new();
    headers.insert("content-type", HeaderValue::from_static("text/plain"));
    headers.insert("x-bin", HeaderValue::from_bytes(b"\xe9").unwrap());
    let resp = upstream_response("id-2".to_string(), 404, &headers, b"missing".to_vec());
    assert_eq!(resp.id, "id-2");
    assert_eq!(resp.status, 404);
    assert_eq!(resp.body, b"missing".to_vec());
    let mut h = resp.headers.clone();
    h.sort();
    assert_eq!(
        h,
        vec![("content-type".to_string(), "text/plain".to_string()), ("x-bin".to_string(), String::new())]
    );
}

#[test]
fn frame_actions() {
    assert_eq!(client_frame_action(FrameKind::Binary), ClientFrameAction::Decode);
    assert_eq!(client_frame_action(FrameKind::Close), ClientFrameAction::Stop);
    assert_eq!(client_frame_action(FrameKind::ReadError), ClientFrameAction::Fail);
    assert_eq!(client_frame_action(FrameKind::Other), ClientFrameAction::Skip);
    assert_eq!(server_frame_action(FrameKind::Binary), ServerFrameAction::Decode);
    assert_eq!(server_frame_action(FrameKind::Close), ServerFrameAction::Stop);
    assert_eq!(server_frame_action(FrameKind::ReadError), ServerFrameAction::Stop);
    assert_eq!(server_frame_action(FrameKind::Other), ServerFrameAction::Skip);
}

#[test]
fn agent_dispatch() {
    let req = request("/x", None);
    assert_eq!(client_dispatch(Some(TunnelMessage::HttpRequest(req.clone()))), ClientDispatch::Handle(req));
    let other = TunnelMessage::Error { message: "m".to_string() };
    assert_eq!(client_dispatch(Some(other.clone())), ClientDispatch::Unexpected(other));
    assert_eq!(client_dispatch(None), ClientDispatch::Fail);
}

#[test]
fn method_falls_back_to_get() {
    assert_eq!(upstream_method("POST"), "POST");
    assert_eq!(upstream_method("delete"), "delete");
    assert_eq!(upstream_method("PROPFIND"), "PROPFIND");
    assert_eq!(upstream_method(""), "GET");
    assert_eq!(upstream_method("GE T"), "GET");
    assert_eq!(upstream_method("PÖST"), "GET");
    assert_eq!(upstream_method("A(B"), "GET");
}

#[test]
fn method_rule_matches_http_crate() {
    for b in 0u8..128 {
        let text = format!("X{}", b as char);
        let ours = upstream_method(&text);
        let theirs = axum::http::Method::from_bytes(text.as_bytes());
        match theirs {
            Ok(m) => assert_eq!(ours, m.as_str(), "byte {b}"),
            Err(_) => assert_eq!(ours, "GET", "byte {b}"),
        }
    }
}
