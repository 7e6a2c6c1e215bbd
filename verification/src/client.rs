//! The agent side of the tunnel: where it connects, where it forwards
//! requests, and how it answers them.

use axum::http::HeaderMap;
use vstd::prelude::*;
use vstd::string::StrSliceExecFns;
use vstd::utf8::encode_utf8;

use crate::headers::{header_entries, header_map_entries, header_pairs, header_pairs_of};
use crate::protocol::{FrameKind, TunnelHttpRequest, TunnelHttpResponse, TunnelMessage};

verus! {

/// Status of the reply when the local service could not be reached.
pub const STATUS_BAD_GATEWAY: u16 = 502;

/// The decimal digit for a value in `0..10`.
pub open spec fn digit_char(d: nat) -> char {
    (d + 48) as char
}

/// The decimal text of a number, without leading zeros.
pub open spec fn decimal_text(n: nat) -> Seq<char>
    decreases n,
{
    if n < 10 {
        seq![digit_char(n)]
    } else {
        decimal_text(n / 10).push(digit_char(n % 10))
    }
}

/// The one-character text of a decimal digit.
fn digit_str(d: u16) -> (text: &'static str)
    requires
        d < 10,
    ensures
        text@ == seq![digit_char(d as nat)],
{
    proof {
        reveal_strlit("0");
        reveal_strlit("1");
        reveal_strlit("2");
        reveal_strlit("3");
        reveal_strlit("4");
        reveal_strlit("5");
        reveal_strlit("6");
        reveal_strlit("7");
        reveal_strlit("8");
        reveal_strlit("9");
    }
    if d == 0 {
        "0"
    } else if d == 1 {
        "1"
    } else if d == 2 {
        "2"
    } else if d == 3 {
        "3"
    } else if d == 4 {
        "4"
    } else if d == 5 {
        "5"
    } else if d == 6 {
        "6"
    } else if d == 7 {
        "7"
    } else if d == 8 {
        "8"
    } else {
        "9"
    }
}

/// Appends the decimal text of `n` to `text`.
fn append_decimal(text: &mut String, n: u16)
    ensures
        final(text)@ == old(text)@ + decimal_text(n as nat),
    decreases n,
{
    if n >= 10 {
        append_decimal(text, n / 10);
    }
    text.append(digit_str(n % 10));
    proof {
        if n >= 10 {
            assert(decimal_text(n as nat) == decimal_text((n / 10) as nat).push(
                digit_char((n % 10) as nat),
            ));
        }
    }
}

/// The websocket address of the server's tunnel endpoint for a host and a
/// client token: `ws://{host}/ws?token={token}`.
pub fn tunnel_ws_url(host: &str, token: &str) -> (url: String)
    ensures
        url@ == "ws://"@ + host@ + "/ws?token="@ + token@,
{
    let mut url = String::new();
    url.append("ws://");
    url.append(host);
    url.append("/ws?token=");
    url.append(token);
    url
}

/// The base address of the local service on a port: `http://localhost:{port}`.
pub fn local_base_url(port: u16) -> (url: String)
    ensures
        url@ == "http://localhost:"@ + decimal_text(port as nat),
{
    let mut url = String::new();
    url.append("http://localhost:");
    append_decimal(&mut url, port);
    url
}

/// The address of the local service that a forwarded request goes to: the
/// base, the path, and `?` with the query when there is one.
pub open spec fn upstream_url_of(base: Seq<char>, path: Seq<char>, query: Option<Seq<char>>) -> Seq<char> {
    match query {
        Some(q) => base + path + "?"@ + q,
        None => base + path,
    }
}

/// The address of the local service that a forwarded request goes to.
pub fn upstream_url(base: &str, req: &TunnelHttpRequest) -> (url: String)
    ensures
        url@ == upstream_url_of(base@, req.path@, req.query.deep_view()),
{
    let mut url = String::new();
    url.append(base);
    url.append(req.path.as_str());
    match &req.query {
        Some(q) => {
            url.append("?");
            url.append(q.as_str());
        },
        None => {},
    }
    url
}

/// The reply sent back when the local service could not be reached: status
/// 502, no headers, and the body `upstream error: {error}` as UTF-8.
pub fn upstream_error_response(id: String, error: &str) -> (resp: TunnelHttpResponse)
    ensures
        resp.id == id,
        resp.status == STATUS_BAD_GATEWAY,
        resp.headers@.len() == 0,
        resp.body@ == encode_utf8("upstream error: "@ + error@),
{
    let mut text = String::new();
    text.append("upstream error: ");
    text.append(error);
    let body = text.as_str().as_bytes_vec();
    TunnelHttpResponse { id, status: STATUS_BAD_GATEWAY, headers: Vec::new(), body }
}

/// The reply carrying what the local service answered: the request's
/// identifier, the status, the headers as (name, text) pairs, and the body.
pub fn upstream_response(
    id: String,
    status: u16,
    headers: &HeaderMap,
    body: Vec<u8>,
) -> (resp: TunnelHttpResponse)
    ensures
        resp.id == id,
        resp.status == status,
        resp.headers.deep_view() == header_pairs_of(header_map_entries(*headers)),
        resp.body == body,
{
    let entries = header_entries(headers);
    let pairs = header_pairs(&entries);
    TunnelHttpResponse { id, status, headers: pairs, body }
}

/// A character that may stand in an HTTP method token: a letter, a digit, or
/// one of `!#$%&'*+-.^_`|~` (the character table of `http::Method`).
pub open spec fn method_char(c: char) -> bool {
    ('0' <= c <= '9') || ('A' <= c <= 'Z') || ('a' <= c <= 'z') || c == '!' || c == '#' || c == '$'
        || c == '%' || c == '&' || c == '\'' || c == '*' || c == '+' || c == '-' || c == '.' || c
        == '^' || c == '_' || c == '`' || c == '|' || c == '~'
}

/// Whether a text is an HTTP method token: non-empty, of method characters only.
pub open spec fn method_token(text: Seq<char>) -> bool {
    text.len() > 0 && forall|i: int| 0 <= i < text.len() ==> method_char(#[trigger] text[i])
}

/// The method used for a forwarded request: its own method when that is a
/// method token, and `GET` otherwise.
pub fn upstream_method(text: &str) -> (method: String)
    ensures
        method@ == (if method_token(text@) {
            text@
        } else {
            "GET"@
        }),
{
    let n = text.unicode_len();
    if n == 0 {
        return "GET".to_owned();
    }
    let mut i: usize = 0;
    while i < n
        invariant
            n == text@.len(),
            i <= n,
            forall|j: int| 0 <= j < i ==> method_char(#[trigger] text@[j]),
        decreases n - i,
    {
        let c = text.get_char(i);
        let ok = ('0' <= c && c <= '9') || ('A' <= c && c <= 'Z') || ('a' <= c && c <= 'z') || c
            == '!' || c == '#' || c == '$' || c == '%' || c == '&' || c == '\'' || c == '*' || c
            == '+' || c == '-' || c == '.' || c == '^' || c == '_' || c == '`' || c == '|' || c
            == '~';
        if !ok {
            assert(!method_char(text@[i as int]));
            return "GET".to_owned();
        }
        i = i + 1;
    }
    text.to_owned()
}

/// What the agent's reading loop does with a frame.
#[derive(Debug, Clone, Copy, PartialEq, Eq)]
pub enum ClientFrameAction {
    /// Decode the frame's bytes as a tunnel message.
    Decode,
    /// The server closed the connection: stop without error.
    Stop,
    /// Reading failed: stop with the error.
    Fail,
    /// Ignore the frame.
    Skip,
}

/// Binary frames carry messages; a close frame ends the session; a read error
/// ends it with that error; other frames are ignored.
pub fn client_frame_action(frame: FrameKind) -> (action: ClientFrameAction)
    ensures
        action == (match frame {
            FrameKind::Binary => ClientFrameAction::Decode,
            FrameKind::Close => ClientFrameAction::Stop,
            FrameKind::ReadError => ClientFrameAction::Fail,
            FrameKind::Other => ClientFrameAction::Skip,
        }),
{
    match frame {
        FrameKind::Binary => ClientFrameAction::Decode,
        FrameKind::Close => ClientFrameAction::Stop,
        FrameKind::ReadError => ClientFrameAction::Fail,
        FrameKind::Other => ClientFrameAction::Skip,
    }
}

/// What the agent does with a decoded frame.
#[derive(Debug, Clone, PartialEq, Eq)]
pub enum ClientDispatch {
    /// Forward the request to the local service and send back the reply.
    Handle(TunnelHttpRequest),
    /// A message that the agent does not act on.
    Unexpected(TunnelMessage),
    /// The bytes did not decode: the session ends with an error.
    Fail,
}

/// Requests are forwarded; any other message is reported and skipped; bytes
/// that do not decode end the session.
pub fn client_dispatch(decoded: Option<TunnelMessage>) -> (dispatch: ClientDispatch)
    ensures
        dispatch == (match decoded {
            None => ClientDispatch::Fail,
            Some(TunnelMessage::HttpRequest(req)) => ClientDispatch::Handle(req),
            Some(other) => ClientDispatch::Unexpected(other),
        }),
{
    match decoded {
        None => ClientDispatch::Fail,
        Some(TunnelMessage::HttpRequest(req)) => ClientDispatch::Handle(req),
        Some(other) => ClientDispatch::Unexpected(other),
    }
}


/// The value of a text of decimal digits, most significant first.
pub open spec fn decimal_value(text: Seq<char>) -> int
    decreases text.len(),
{
    if text.len() == 0 {
        0
    } else {
        decimal_value(text.drop_last()) * 10 + (text.last() as int - 48)
    }
}

/// The decimal text of a number is made of the digits `0`–`9`, starts with a
/// non-zero digit unless the number is zero, and reads back as the number.
pub proof fn law_decimal_text_reads_back(n: nat)
    ensures
        decimal_value(decimal_text(n)) == n,
        decimal_text(n).len() > 0,
        forall|i: int| 0 <= i < decimal_text(n).len() ==> '0' <= #[trigger] decimal_text(n)[i] <= '9',
        n > 0 ==> decimal_text(n)[0] != '0',
    decreases n,
{
    let t = decimal_text(n);
    if n >= 10 {
        law_decimal_text_reads_back(n / 10);
        assert(t.drop_last() == decimal_text(n / 10));
        assert(t[0] == decimal_text(n / 10)[0]);
        assert(t.last() as int == (n % 10) + 48);
        assert(n == (n / 10) * 10 + n % 10) by (nonlinear_arith);
    } else {
        assert(t.drop_last() =~= Seq::<char>::empty());
        assert(decimal_value(t.drop_last()) == 0);
        assert(t.last() as int == n + 48);
    }
}

/// Two ports with the same local address are the same port.
pub proof fn law_local_address_names_one_port(a: u16, b: u16)
    requires
        "http://localhost:"@ + decimal_text(a as nat) == "http://localhost:"@ + decimal_text(b as nat),
    ensures
        a == b,
{
    let p = "http://localhost:"@;
    assert(decimal_text(a as nat) =~= (p + decimal_text(a as nat)).skip(p.len() as int));
    assert(decimal_text(b as nat) =~= (p + decimal_text(b as nat)).skip(p.len() as int));
    law_decimal_text_reads_back(a as nat);
    law_decimal_text_reads_back(b as nat);
}

/// The upstream address is the base, then the path, then, when the request has
/// a query, `?` and the query, whatever the path (empty included); without a
/// query it is the base and the path.
pub proof fn law_upstream_url_keeps_every_part(base: Seq<char>, path: Seq<char>, query: Option<Seq<char>>)
    ensures
        query matches Some(q) ==> upstream_url_of(base, path, query) == base + path + seq!['?'] + q,
        query is None ==> upstream_url_of(base, path, query) == base + path,
{
    reveal_strlit("?");
    assert("?"@ =~= seq!['?']);
}

/// A text is a method token exactly when it is non-empty and each of its
/// characters is a letter, a digit or one of ``!#$%&'*+-.^_`|~``, whatever its length.
pub proof fn law_method_token(text: Seq<char>)
    ensures
        method_token(text) <==> (text.len() > 0 && forall|i: int|
            0 <= i < text.len() ==> {
                let c = #[trigger] text[i];
                ('0' <= c <= '9') || ('A' <= c <= 'Z') || ('a' <= c <= 'z') || c == '!' || c == '#'
                    || c == '$' || c == '%' || c == '&' || c == '\'' || c == '*' || c == '+' || c
                    == '-' || c == '.' || c == '^' || c == '_' || c == '`' || c == '|' || c == '~'
            }),
{
}

/// The standard methods are kept as they are.
pub proof fn law_standard_methods_kept()
    ensures
        method_token("GET"@),
        method_token("HEAD"@),
        method_token("POST"@),
        method_token("PUT"@),
        method_token("DELETE"@),
        method_token("CONNECT"@),
        method_token("OPTIONS"@),
        method_token("TRACE"@),
        method_token("PATCH"@),
{
    reveal_strlit("GET");
    reveal_strlit("HEAD");
    reveal_strlit("POST");
    reveal_strlit("PUT");
    reveal_strlit("DELETE");
    reveal_strlit("CONNECT");
    reveal_strlit("OPTIONS");
    reveal_strlit("TRACE");
    reveal_strlit("PATCH");
}

} // verus!
