use axum::http::{HeaderMap, HeaderValue};
use borer::protocol::TunnelMessage;
use borer::proxy::{begin_proxy, tunnel_path, ProxyAction, ProxyCall, ProxyEvent, ProxyStage};
use borer::proxy::ProxyEvent::{Built, Encoded, Registered, Replied, AgentFound, Sent};

fn call() -> ProxyCall {
    ProxyCall { id: 7, stage: ProxyStage::Encoding }
}

fn run(events: &[ProxyEvent]) -> (ProxyCall, Vec<ProxyAction>) {
    let mut c = call();
    let actions = events.iter().map(|e| c.step(*e)).collect();
    (c, actions)
}

#[test]
fn path_loses_route_prefix() {
    assert_eq!(tunnel_path("/proxy/api/items"), "/api/items");
    assert_eq!(tunnel_path("/proxy"), "");
    assert_eq!(tunnel_path("/proxy/"), "/");
}

#[test]
fn successful_request() {
    let (c, actions) = run(&[Encoded(true), Registered, AgentFound(true), Sent(true), Replied(true), Built(true)]);
    assert_eq!(
        actions,
        vec![
            ProxyAction::Register,
            ProxyAction::FindAgent,
            ProxyAction::Send,
            ProxyAction::AwaitReply,
            ProxyAction::BuildResponse,
            ProxyAction::ReturnResponse,
        ]
    );
    assert_eq!(c.stage, ProxyStage::Finished);
    assert_eq!(c.id, 7);
}

#[test]
fn encoding_failure_answers_500_without_cleanup() {
    let (c, actions) = run(&[Encoded(false)]);
    assert_eq!(actions, vec![ProxyAction::Respond { status: 500, cleanup: false }]);
    assert_eq!(c.stage, ProxyStage::Finished);
}

#[test]
fn no_agent_answers_503_with_cleanup() {
    let (_, actions) = run(&[Encoded(true), Registered, AgentFound(false)]);
    assert_eq!(actions.last(), Some(&ProxyAction::Respond { status: 503, cleanup: true }));
}

#[test]
fn send_failure_answers_503_with_cleanup() {
    let (_, actions) = run(&[Encoded(true), Registered, AgentFound(true), Sent(false)]);
    assert_eq!(actions.last(), Some(&ProxyAction::Respond { status: 503, cleanup: true }));
}

#[test]
fn timeout_answers_504_with_cleanup() {
    let (_, actions) = run(&[Encoded(true), Registered, AgentFound(true), Sent(true), Replied(false)]);
    assert_eq!(actions.last(), Some(&ProxyAction::Respond { status: 504, cleanup: true }));
}

#[test]
fn unbuildable_reply_answers_500() {
    let (_, actions) =
        run(&[Encoded(true), Registered, AgentFound(true), Sent(true), Replied(true), Built(false)]);
    assert_eq!(actions.last(), Some(&ProxyAction::Respond { status: 500, cleanup: false }));
}

#[test]
fn out_of_order_and_late_events_are_ignored() {
    let mut c = call();
    assert_eq!(c.step(Sent(true)), ProxyAction::Ignore);
    assert_eq!(c.stage, ProxyStage::Encoding);
    c.step(Encoded(false));
    assert_eq!(c.step(Replied(true)), ProxyAction::Ignore);
    assert_eq!(c.stage, ProxyStage::Finished);
}

#[test]
fn begin_builds_request_message() {
    let mut headers = HeaderMap::new();
    headers.insert("x-test", HeaderValue::from_static("yes"));
    let (c, msg) = begin_proxy(
        "POST".to_string(),
        "/proxy/items",
        Some("a=1".to_string()),
        &headers,
        b"body".to_vec(),
    );
    assert_eq!(c.stage, ProxyStage::Encoding);
    match msg {
        TunnelMessage::HttpRequest(req) => {
            assert_eq!(req.id, uuid::Uuid::from_u128(c.id).to_string());
            assert_eq!(uuid::Uuid::from_u128(c.id).get_version_num(), 4);
            assert_eq!(req.method, "POST");
            assert_eq!(req.path, "/items");
            assert_eq!(req.query.as_deref(), Some("a=1"));
            assert_eq!(req.headers, vec![("x-test".to_string(), "yes".to_string())]);
            assert_eq!(req.body, b"body".to_vec());
        }
        _ => panic!("expected a request"),
    }
}

#[test]
fn begin_draws_distinct_ids() {
    let headers = HeaderMap::new();
    let (a, _) = begin_proxy("GET".into(), "/proxy", None, &headers, vec![]);
    let (b, _) = begin_proxy("GET".into(), "/proxy", None, &headers, vec![]);
    assert_ne!(a.id, b.id);
}

/// Drives a request through the decisions, doing the table work they ask for,
/// with the agent's reply (when there is one) taken from the table as the
/// websocket handler does.
fn drive(events: &[ProxyEvent]) -> (ProxyStage, bool) {
    let mut table = borer::pending::PendingRequests::new();
    table.register(9, "other");
    let mut c = ProxyCall { id: 42, stage: ProxyStage::Encoding };
    for e in events {
        if *e == Replied(true) {
            assert_eq!(table.take(42), Some("waiter"));
        }
        match c.step(*e) {
            ProxyAction::Register => {
                table.register(42, "waiter");
            }
            ProxyAction::Respond { cleanup: true, .. } => table.cleanup(42),
            _ => {}
        }
    }
    // the other request's entry is never touched
    assert!(table.is_pending(9));
    assert_eq!(table.len(), if table.is_pending(42) { 2 } else { 1 });
    (c.stage, table.is_pending(42))
}

#[test]
fn finished_requests_leave_no_entry() {
    let runs: Vec<Vec<ProxyEvent>> = vec![
        vec![Encoded(false)],
        vec![Encoded(true), Registered, AgentFound(false)],
        vec![Encoded(true), Registered, AgentFound(true), Sent(false)],
        vec![Encoded(true), Registered, AgentFound(true), Sent(true), Replied(false)],
        vec![Encoded(true), Registered, AgentFound(true), Sent(true), Replied(true), Built(false)],
        vec![Encoded(true), Registered, AgentFound(true), Sent(true), Replied(true), Built(true)],
    ];
    for events in runs {
        assert_eq!(drive(&events), (ProxyStage::Finished, false), "{events:?}");
    }
    // while waiting, the request is in the table
    assert_eq!(drive(&[Encoded(true), Registered, AgentFound(true), Sent(true)]), (ProxyStage::Waiting, true));
}
