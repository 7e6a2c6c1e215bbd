use borer::pending::PendingRequests;
use borer::protocol::{dispatch_server_message, ServerDispatch, TunnelHttpResponse, TunnelMessage};

fn text(id: u128) -> String {
    uuid::Uuid::from_u128(id).to_string()
}

fn reply(id: &str) -> TunnelHttpResponse {
    TunnelHttpResponse { id: id.to_string(), status: 200, headers: vec![], body: b"ok".to_vec() }
}

const A: u128 = 0x67e5_5044_10b1_426f_9247_bb68_0e5f_e0c8;
const B: u128 = 0x1234_5678_9abc_4def_8123_4567_89ab_cdef;

#[test]
fn reply_reaches_its_waiter() {
    let mut table = PendingRequests::new();
    assert_eq!(table.register(A, "waiter-a"), None);
    assert!(table.is_pending(A));
    assert_eq!(table.take_by_text(&text(A)), Some("waiter-a"));
    assert!(!table.is_pending(A));
    assert_eq!(table.len(), 0);
}

#[test]
fn no_second_delivery() {
    let mut table = PendingRequests::new();
    table.register(A, 1u8);
    assert_eq!(table.take_by_text(&text(A)), Some(1));
    assert_eq!(table.take_by_text(&text(A)), None);
}

#[test]
fn cleaned_up_request_gets_no_reply() {
    let mut table = PendingRequests::new();
    table.register(A, 1u8);
    table.cleanup(A);
    assert_eq!(table.take_by_text(&text(A)), None);
    assert_eq!(table.len(), 0);
}

#[test]
fn other_requests_keep_waiting() {
    let mut table = PendingRequests::new();
    table.register(A, "a");
    table.register(B, "b");
    assert_eq!(table.take(A), Some("a"));
    assert!(table.is_pending(B));
    assert_eq!(table.take_by_text(&text(B)), Some("b"));
}

#[test]
fn register_replaces_waiter() {
    let mut table = PendingRequests::new();
    assert_eq!(table.register(A, "old"), None);
    assert_eq!(table.register(A, "new"), Some("old"));
    assert_eq!(table.len(), 1);
    assert_eq!(table.take(A), Some("new"));
}

#[test]
fn text_must_be_canonical() {
    let mut table = PendingRequests::new();
    table.register(A, 1u8);
    assert_eq!(text(A), "67e55044-10b1-426f-9247-bb680e5fe0c8");
    // the same identifier written in other layouts does not match
    assert_eq!(table.take_by_text("67E55044-10B1-426F-9247-BB680E5FE0C8"), None);
    assert_eq!(table.take_by_text("67e5504410b1426f9247bb680e5fe0c8"), None);
    assert_eq!(table.take_by_text("{67e55044-10b1-426f-9247-bb680e5fe0c8}"), None);
    assert_eq!(table.take_by_text("not an id"), None);
    assert!(table.is_pending(A));
    assert_eq!(table.take_by_text("67e55044-10b1-426f-9247-bb680e5fe0c8"), Some(1));
}

#[test]
fn dispatch_delivers_reply() {
    let mut table = PendingRequests::new();
    table.register(A, "w");
    match dispatch_server_message(&mut table, Some(TunnelMessage::HttpResponse(reply(&text(A))))) {
        ServerDispatch::Deliver(w, resp) => {
            assert_eq!(w, "w");
            assert_eq!(resp, reply(&text(A)));
        }
        _ => panic!("expected delivery"),
    }
    assert_eq!(table.len(), 0);
}

#[test]
fn dispatch_unmatched_reply() {
    let mut table: PendingRequests<&str> = PendingRequests::new();
    table.register(A, "w");
    match dispatch_server_message(&mut table, Some(TunnelMessage::HttpResponse(reply(&text(B))))) {
        ServerDispatch::Unmatched(resp) => assert_eq!(resp.id, text(B)),
        _ => panic!("expected unmatched"),
    }
    assert!(table.is_pending(A));
}

#[test]
fn dispatch_other_messages() {
    let mut table: PendingRequests<&str> = PendingRequests::new();
    table.register(A, "w");
    let msg = TunnelMessage::Error { message: "boom".to_string() };
    match dispatch_server_message(&mut table, Some(msg.clone())) {
        ServerDispatch::Unexpected(m) => assert_eq!(m, msg),
        _ => panic!("expected unexpected"),
    }
    match dispatch_server_message(&mut table, None) {
        ServerDispatch::Invalid => {}
        _ => panic!("expected invalid"),
    }
    assert!(table.is_pending(A));
}
