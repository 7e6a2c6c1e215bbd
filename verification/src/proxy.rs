//! The server side of one proxied request: turning the incoming HTTP request
//! into a tunnel message, and the decisions taken while it is forwarded to the
//! agent and its reply awaited.
//!
//! The outside work (encoding, locking, queueing for the agent, waiting with a deadline,
//! building the HTTP response) is done by the caller; after each piece of work
//! it reports the outcome to [`ProxyCall::step`], which says what to do next.

use axum::http::HeaderMap;
use vstd::prelude::*;
use vstd::string::StringSliceAdditionalSpecFns;
use vstd::utf8::{encode_utf8, is_char_boundary};

use crate::headers::{header_entries, header_map_entries, header_pairs, header_pairs_of};
use crate::protocol::{TunnelHttpRequest, TunnelMessage};
use crate::request_id::{fresh_uuid, uuid_text, uuid_to_text};

verus! {

/// Status answered when the request could not be encoded or the reply could
/// not be turned into an HTTP response.
pub const STATUS_INTERNAL_ERROR: u16 = 500;

/// Status answered when no agent is connected or its queue is closed.
pub const STATUS_UNAVAILABLE: u16 = 503;

/// Status answered when the agent's reply did not come in time.
pub const STATUS_GATEWAY_TIMEOUT: u16 = 504;

/// Length of the `"/proxy"` route prefix that is cut from forwarded paths.
pub const PROXY_PREFIX_LEN: usize = 6;

/// The path forwarded to the agent: the request path without its first six
/// bytes (the `"/proxy"` route prefix). The caller guarantees that byte six
/// starts a character, as slicing the path requires.
pub fn tunnel_path(raw_path: &str) -> (path: String)
    requires
        is_char_boundary(raw_path.spec_bytes(), 6),
    ensures
        encode_utf8(path@) == raw_path.spec_bytes().subrange(6, raw_path.spec_bytes().len() as int),
{
    let (_, rest) = raw_path.split_at(PROXY_PREFIX_LEN);
    rest.to_owned()
}

/// How far a proxied request has come.
#[derive(Debug, Clone, Copy, PartialEq, Eq)]
pub enum ProxyStage {
    /// The tunnel message is being encoded.
    Encoding,
    /// The request is being recorded as waiting for a reply.
    Registering,
    /// The connected agent's outgoing queue is being looked up.
    FindingAgent,
    /// The encoded request is being queued for the agent.
    Sending,
    /// The reply is awaited (with a deadline).
    Waiting,
    /// The reply is being turned into an HTTP response.
    Building,
    /// An answer has been decided.
    Finished,
}

/// The outcome of the work the caller was asked to do.
#[derive(Debug, Clone, Copy, PartialEq, Eq)]
pub enum ProxyEvent {
    /// Encoding the tunnel message succeeded or failed.
    Encoded(bool),
    /// The request was recorded in the pending table.
    Registered,
    /// An agent was connected (a handle to its outgoing queue obtained) or not.
    AgentFound(bool),
    /// Queueing the request for the agent succeeded, or failed because the
    /// agent's queue was closed.
    Sent(bool),
    /// The reply came (true), or the deadline passed or the waiter was dropped.
    Replied(bool),
    /// The HTTP response could be built from the reply, or not.
    Built(bool),
}

/// What the caller does next.
#[derive(Debug, Clone, Copy, PartialEq, Eq)]
pub enum ProxyAction {
    /// Record the request, with its waiter, in the pending table.
    Register,
    /// Look up the connected agent's outgoing queue; the queue stays shared, so
    /// concurrent requests do not wait for one another.
    FindAgent,
    /// Queue the encoded request on the agent's outgoing queue.
    Send,
    /// Await the reply.
    AwaitReply,
    /// Build the HTTP response from the reply.
    BuildResponse,
    /// Answer with this status; when `cleanup` is set, first remove the
    /// request from the pending table.
    Respond { status: u16, cleanup: bool },
    /// Answer with the response built from the reply.
    ReturnResponse,
    /// The event does not belong to the current stage: nothing to do.
    Ignore,
}

/// One proxied request on its way through the tunnel.
pub struct ProxyCall {
    /// The request's identifier, the key of its entry in the pending table.
    pub id: u128,
    /// How far the request has come.
    pub stage: ProxyStage,
}

/// The decision table of a proxied request.
pub open spec fn proxy_transition(stage: ProxyStage, event: ProxyEvent) -> (ProxyStage, ProxyAction) {
    match (stage, event) {
        (ProxyStage::Encoding, ProxyEvent::Encoded(false)) => (
            ProxyStage::Finished,
            ProxyAction::Respond { status: STATUS_INTERNAL_ERROR, cleanup: false },
        ),
        (ProxyStage::Encoding, ProxyEvent::Encoded(true)) => (
            ProxyStage::Registering,
            ProxyAction::Register,
        ),
        (ProxyStage::Registering, ProxyEvent::Registered) => (
            ProxyStage::FindingAgent,
            ProxyAction::FindAgent,
        ),
        (ProxyStage::FindingAgent, ProxyEvent::AgentFound(false)) => (
            ProxyStage::Finished,
            ProxyAction::Respond { status: STATUS_UNAVAILABLE, cleanup: true },
        ),
        (ProxyStage::FindingAgent, ProxyEvent::AgentFound(true)) => (
            ProxyStage::Sending,
            ProxyAction::Send,
        ),
        (ProxyStage::Sending, ProxyEvent::Sent(false)) => (
            ProxyStage::Finished,
            ProxyAction::Respond { status: STATUS_UNAVAILABLE, cleanup: true },
        ),
        (ProxyStage::Sending, ProxyEvent::Sent(true)) => (
            ProxyStage::Waiting,
            ProxyAction::AwaitReply,
        ),
        (ProxyStage::Waiting, ProxyEvent::Replied(false)) => (
            ProxyStage::Finished,
            ProxyAction::Respond { status: STATUS_GATEWAY_TIMEOUT, cleanup: true },
        ),
        (ProxyStage::Waiting, ProxyEvent::Replied(true)) => (
            ProxyStage::Building,
            ProxyAction::BuildResponse,
        ),
        (ProxyStage::Building, ProxyEvent::Built(false)) => (
            ProxyStage::Finished,
            ProxyAction::Respond { status: STATUS_INTERNAL_ERROR, cleanup: false },
        ),
        (ProxyStage::Building, ProxyEvent::Built(true)) => (
            ProxyStage::Finished,
            ProxyAction::ReturnResponse,
        ),
        _ => (stage, ProxyAction::Ignore),
    }
}

impl ProxyCall {
    /// Takes one outcome of outside work and says what to do next.
    pub fn step(&mut self, event: ProxyEvent) -> (action: ProxyAction)
        ensures
            final(self).id == old(self).id,
            (final(self).stage, action) == proxy_transition(old(self).stage, event),
    {
        let (next, action) = match (self.stage, event) {
            (ProxyStage::Encoding, ProxyEvent::Encoded(false)) => (
                ProxyStage::Finished,
                ProxyAction::Respond { status: STATUS_INTERNAL_ERROR, cleanup: false },
            ),
            (ProxyStage::Encoding, ProxyEvent::Encoded(true)) => (
                ProxyStage::Registering,
                ProxyAction::Register,
            ),
            (ProxyStage::Registering, ProxyEvent::Registered) => (
                ProxyStage::FindingAgent,
                ProxyAction::FindAgent,
            ),
            (ProxyStage::FindingAgent, ProxyEvent::AgentFound(false)) => (
                ProxyStage::Finished,
                ProxyAction::Respond { status: STATUS_UNAVAILABLE, cleanup: true },
            ),
            (ProxyStage::FindingAgent, ProxyEvent::AgentFound(true)) => (
                ProxyStage::Sending,
                ProxyAction::Send,
            ),
            (ProxyStage::Sending, ProxyEvent::Sent(false)) => (
                ProxyStage::Finished,
                ProxyAction::Respond { status: STATUS_UNAVAILABLE, cleanup: true },
            ),
            (ProxyStage::Sending, ProxyEvent::Sent(true)) => (
                ProxyStage::Waiting,
                ProxyAction::AwaitReply,
            ),
            (ProxyStage::Waiting, ProxyEvent::Replied(false)) => (
                ProxyStage::Finished,
                ProxyAction::Respond { status: STATUS_GATEWAY_TIMEOUT, cleanup: true },
            ),
            (ProxyStage::Waiting, ProxyEvent::Replied(true)) => (
                ProxyStage::Building,
                ProxyAction::BuildResponse,
            ),
            (ProxyStage::Building, ProxyEvent::Built(false)) => (
                ProxyStage::Finished,
                ProxyAction::Respond { status: STATUS_INTERNAL_ERROR, cleanup: false },
            ),
            (ProxyStage::Building, ProxyEvent::Built(true)) => (
                ProxyStage::Finished,
                ProxyAction::ReturnResponse,
            ),
            (stage, _) => (stage, ProxyAction::Ignore),
        };
        self.stage = next;
        action
    }
}

/// Starts a proxied request: draws a fresh identifier and builds the tunnel
/// message for the agent from the parts of the incoming HTTP request. The
/// identifier is random; everything else about the message is fixed by the
/// arguments (the header map is read through `header_entries`).
pub fn begin_proxy(
    method: String,
    raw_path: &str,
    query: Option<String>,
    headers: &HeaderMap,
    body: Vec<u8>,
) -> (started: (ProxyCall, TunnelMessage))
    requires
        is_char_boundary(raw_path.spec_bytes(), 6),
    ensures
        started.0.stage == ProxyStage::Encoding,
        (started.0.id >> 76u128) & 0xfu128 == 4,
        (started.0.id >> 62u128) & 0x3u128 == 2,
        started.1 matches TunnelMessage::HttpRequest(req) && {
            &&& req.id@ == uuid_text(started.0.id)
            &&& req.method == method
            &&& encode_utf8(req.path@) == raw_path.spec_bytes().subrange(
                6,
                raw_path.spec_bytes().len() as int,
            )
            &&& req.query == query
            &&& req.headers.deep_view() == header_pairs_of(header_map_entries(*headers))
            &&& req.body == body
        },
{
    let entries = header_entries(headers);
    let header_list = header_pairs(&entries);
    let path = tunnel_path(raw_path);
    let id = fresh_uuid();
    let id_text = uuid_to_text(id);
    let req = TunnelHttpRequest { id: id_text, method, path, query, headers: header_list, body };
    (ProxyCall { id, stage: ProxyStage::Encoding }, TunnelMessage::HttpRequest(req))
}

/// Whether the request's entry is in the pending table at a stage: from the
/// moment it is recorded until an answer is decided or the reply arrives.
pub open spec fn holds_entry(stage: ProxyStage) -> bool {
    match stage {
        ProxyStage::Registering | ProxyStage::FindingAgent | ProxyStage::Sending
        | ProxyStage::Waiting => true,
        _ => false,
    }
}

/// The pending table after the work asked for by `action` is done, for the
/// request `id` whose waiter is `waiter`: `Register` records it, a `Respond`
/// with cleanup removes it, and `BuildResponse` follows the reply's delivery,
/// which took the entry out of the table.
pub open spec fn table_after<W>(
    table: Map<u128, W>,
    id: u128,
    waiter: W,
    action: ProxyAction,
) -> Map<u128, W> {
    match action {
        ProxyAction::Register => table.insert(id, waiter),
        ProxyAction::Respond { status, cleanup } => if cleanup {
            table.remove(id)
        } else {
            table
        },
        ProxyAction::BuildResponse => table.remove(id),
        _ => table,
    }
}

/// The stage and the pending table after a run of events, starting from
/// `stage` and `table`, for the request `id` with waiter `waiter`.
pub open spec fn proxy_table_run<W>(
    stage: ProxyStage,
    table: Map<u128, W>,
    id: u128,
    waiter: W,
    events: Seq<ProxyEvent>,
) -> (ProxyStage, Map<u128, W>)
    decreases events.len(),
{
    if events.len() == 0 {
        (stage, table)
    } else {
        let (next, action) = proxy_transition(stage, events[0]);
        proxy_table_run(next, table_after(table, id, waiter, action), id, waiter, events.drop_first())
    }
}

/// The table as the request leaves it at a stage, given the table it found:
/// with its own entry added while it waits, unchanged otherwise.
pub open spec fn table_at_stage<W>(found: Map<u128, W>, id: u128, waiter: W, stage: ProxyStage) -> Map<u128, W> {
    if holds_entry(stage) {
        found.insert(id, waiter)
    } else {
        found
    }
}

proof fn lemma_table_run<W>(
    found: Map<u128, W>,
    stage: ProxyStage,
    table: Map<u128, W>,
    id: u128,
    waiter: W,
    events: Seq<ProxyEvent>,
)
    requires
        !found.contains_key(id),
        table == table_at_stage(found, id, waiter, stage),
    ensures
        proxy_table_run(stage, table, id, waiter, events).1 == table_at_stage(
            found,
            id,
            waiter,
            proxy_table_run(stage, table, id, waiter, events).0,
        ),
    decreases events.len(),
{
    if events.len() > 0 {
        let (next, action) = proxy_transition(stage, events[0]);
        let after = table_after(table, id, waiter, action);
        assert(found.insert(id, waiter).remove(id) =~= found);
        assert(found.remove(id) =~= found);
        assert(after == table_at_stage(found, id, waiter, next));
        lemma_table_run(found, next, after, id, waiter, events.drop_first());
    }
}

/// Whatever happens while a request is proxied, the pending table holds, at
/// every point, exactly the entries it held when the request began, plus the
/// request's own entry while it waits for its reply: no other key is ever
/// added or removed.
pub proof fn law_request_touches_only_its_own_entry<W>(
    table: Map<u128, W>,
    id: u128,
    waiter: W,
    events: Seq<ProxyEvent>,
)
    requires
        !table.contains_key(id),
    ensures
        proxy_table_run(ProxyStage::Encoding, table, id, waiter, events).1 == table_at_stage(
            table,
            id,
            waiter,
            proxy_table_run(ProxyStage::Encoding, table, id, waiter, events).0,
        ),
{
    lemma_table_run(table, ProxyStage::Encoding, table, id, waiter, events);
}

/// Whatever happens while a request is proxied, once an answer has been
/// decided the pending table is as the request found it: its own entry is
/// gone (removed by cleanup, or taken by the reply's delivery) and no other
/// key was added or removed.
pub proof fn law_finished_request_leaves_table_as_found<W>(
    table: Map<u128, W>,
    id: u128,
    waiter: W,
    events: Seq<ProxyEvent>,
)
    requires
        !table.contains_key(id),
        proxy_table_run(ProxyStage::Encoding, table, id, waiter, events).0 == ProxyStage::Finished,
    ensures
        proxy_table_run(ProxyStage::Encoding, table, id, waiter, events).1 == table,
        !proxy_table_run(ProxyStage::Encoding, table, id, waiter, events).1.contains_key(id),
{
    lemma_table_run(table, ProxyStage::Encoding, table, id, waiter, events);
}

/// A request that could not be encoded is answered 500 without ever being
/// recorded; one with no agent connected, or whose agent queue was closed, is answered
/// 503; one whose reply did not come is answered 504; the last three first
/// remove the request from the pending table.
pub proof fn law_refused_requests_are_answered()
    ensures
        proxy_transition(ProxyStage::Encoding, ProxyEvent::Encoded(false)).1 == (ProxyAction::Respond {
            status: 500,
            cleanup: false,
        }),
        proxy_transition(ProxyStage::FindingAgent, ProxyEvent::AgentFound(false)).1 == (ProxyAction::Respond {
            status: 503,
            cleanup: true,
        }),
        proxy_transition(ProxyStage::Sending, ProxyEvent::Sent(false)).1 == (ProxyAction::Respond {
            status: 503,
            cleanup: true,
        }),
        proxy_transition(ProxyStage::Waiting, ProxyEvent::Replied(false)).1 == (ProxyAction::Respond {
            status: 504,
            cleanup: true,
        }),
        proxy_transition(ProxyStage::Building, ProxyEvent::Built(false)).1 == (ProxyAction::Respond {
            status: 500,
            cleanup: false,
        }),
{
}

/// Once finished, a request ignores every further event.
pub proof fn law_finished_is_final(event: ProxyEvent)
    ensures
        proxy_transition(ProxyStage::Finished, event) == (ProxyStage::Finished, ProxyAction::Ignore),
{
}


/// A request that is forwarded and answered goes, step by step: encoded, then
/// recorded, then the agent found, then queued for it, then the reply awaited,
/// then the response built and returned; no step answers early.
pub proof fn law_forwarding_path()
    ensures
        proxy_transition(ProxyStage::Encoding, ProxyEvent::Encoded(true)) == (
            ProxyStage::Registering,
            ProxyAction::Register,
        ),
        proxy_transition(ProxyStage::Registering, ProxyEvent::Registered) == (
            ProxyStage::FindingAgent,
            ProxyAction::FindAgent,
        ),
        proxy_transition(ProxyStage::FindingAgent, ProxyEvent::AgentFound(true)) == (
            ProxyStage::Sending,
            ProxyAction::Send,
        ),
        proxy_transition(ProxyStage::Sending, ProxyEvent::Sent(true)) == (
            ProxyStage::Waiting,
            ProxyAction::AwaitReply,
        ),
        proxy_transition(ProxyStage::Waiting, ProxyEvent::Replied(true)) == (
            ProxyStage::Building,
            ProxyAction::BuildResponse,
        ),
        proxy_transition(ProxyStage::Building, ProxyEvent::Built(true)) == (
            ProxyStage::Finished,
            ProxyAction::ReturnResponse,
        ),
{
}

/// An event that does not belong to the current stage changes nothing.
pub proof fn law_out_of_turn_events_ignored(stage: ProxyStage, event: ProxyEvent)
    requires
        !(match (stage, event) {
            (ProxyStage::Encoding, ProxyEvent::Encoded(_)) => true,
            (ProxyStage::Registering, ProxyEvent::Registered) => true,
            (ProxyStage::FindingAgent, ProxyEvent::AgentFound(_)) => true,
            (ProxyStage::Sending, ProxyEvent::Sent(_)) => true,
            (ProxyStage::Waiting, ProxyEvent::Replied(_)) => true,
            (ProxyStage::Building, ProxyEvent::Built(_)) => true,
            _ => false,
        }),
    ensures
        proxy_transition(stage, event) == (stage, ProxyAction::Ignore),
{
}

} // verus!
