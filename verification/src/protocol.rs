//! The messages that travel over the tunnel between the server and the agent.

use vstd::prelude::*;

use crate::pending::{key_for_text, PendingRequests};

verus! {

/// An HTTP request received by the server and forwarded to the agent.
#[derive(Debug, Clone, PartialEq, Eq)]
pub struct TunnelHttpRequest {
    /// Text of the request identifier, echoed in the reply.
    pub id: String,
    pub method: String,
    pub path: String,
    pub query: Option<String>,
    pub headers: Vec<(String, String)>,
    pub body: Vec<u8>,
}

/// The agent's reply to a forwarded request.
#[derive(Debug, Clone, PartialEq, Eq)]
pub struct TunnelHttpResponse {
    /// Text of the identifier of the request this answers.
    pub id: String,
    pub status: u16,
    pub headers: Vec<(String, String)>,
    pub body: Vec<u8>,
}

/// A message of the tunnel protocol.
#[derive(Debug, Clone, PartialEq, Eq)]
pub enum TunnelMessage {
    HttpRequest(TunnelHttpRequest),
    HttpResponse(TunnelHttpResponse),
    Error { message: String },
}

/// The kind of a websocket frame, as far as the tunnel cares.
#[derive(Debug, Clone, Copy, PartialEq, Eq)]
pub enum FrameKind {
    Binary,
    Close,
    Other,
    ReadError,
}

/// What the server's reading loop does with a frame.
#[derive(Debug, Clone, Copy, PartialEq, Eq)]
pub enum ServerFrameAction {
    /// Decode the frame's bytes as a tunnel message.
    Decode,
    /// Leave the loop: the agent is gone.
    Stop,
    /// Ignore the frame and read the next one.
    Skip,
}

/// Binary frames carry messages; a close frame or a read error ends the
/// connection; every other frame is ignored.
pub fn server_frame_action(frame: FrameKind) -> (action: ServerFrameAction)
    ensures
        action == (match frame {
            FrameKind::Binary => ServerFrameAction::Decode,
            FrameKind::Close => ServerFrameAction::Stop,
            FrameKind::ReadError => ServerFrameAction::Stop,
            FrameKind::Other => ServerFrameAction::Skip,
        }),
{
    match frame {
        FrameKind::Binary => ServerFrameAction::Decode,
        FrameKind::Close => ServerFrameAction::Stop,
        FrameKind::ReadError => ServerFrameAction::Stop,
        FrameKind::Other => ServerFrameAction::Skip,
    }
}

/// What the server does with a message received from the agent.
pub enum ServerDispatch<W> {
    /// Hand the reply to the waiter of its request.
    Deliver(W, TunnelHttpResponse),
    /// A reply whose request no longer waits (or never did).
    Unmatched(TunnelHttpResponse),
    /// A message other than a reply.
    Unexpected(TunnelMessage),
    /// Bytes that did not decode as a message.
    Invalid,
}

/// Routes a message received from the agent. A reply is matched, by the text
/// of its identifier, with the request that waits for it; that request stops
/// waiting and its waiter is handed back together with the reply.
pub fn dispatch_server_message<W>(
    pending: &mut PendingRequests<W>,
    decoded: Option<TunnelMessage>,
) -> (dispatch: ServerDispatch<W>)
    ensures
        match decoded {
            None => dispatch is Invalid && final(pending)@ == old(pending)@,
            Some(TunnelMessage::HttpResponse(resp)) => match key_for_text(old(pending)@, resp.id@) {
                Some(k) => final(pending)@ == old(pending)@.remove(k) && dispatch == ServerDispatch::<
                    W,
                >::Deliver(old(pending)@[k], resp),
                None => final(pending)@ == old(pending)@ && dispatch == ServerDispatch::<
                    W,
                >::Unmatched(resp),
            },
            Some(other) => final(pending)@ == old(pending)@ && dispatch == ServerDispatch::<
                W,
            >::Unexpected(other),
        },
{
    match decoded {
        None => ServerDispatch::Invalid,
        Some(TunnelMessage::HttpResponse(resp)) => {
            match pending.take_by_text(resp.id.as_str()) {
                Some(waiter) => ServerDispatch::Deliver(waiter, resp),
                None => ServerDispatch::Unmatched(resp),
            }
        },
        Some(other) => ServerDispatch::Unexpected(other),
    }
}

} // verus!
