//! Authentication rules of the server: the master token that may mint client
//! tokens, the format of minted tokens, and the statuses the auth routes answer.

use axum::http::HeaderMap;
use vstd::prelude::*;

use crate::headers::{bearer_token_of, first_value_named, get_token_from_header, header_map_entries};
use crate::request_id::{hex_char, hex_digit_value};

verus! {

/// The server's authentication service: a database pool for client tokens
/// (on the server, a Postgres pool) and the master token that is allowed to
/// create them.
#[derive(Clone)]
pub struct AuthService<P> {
    pool: P,
    master_token: String,
}

/// The lowercase hexadecimal text of some bytes: two digits per byte, the high
/// half first.
pub open spec fn hex_lower(bytes: Seq<u8>) -> Seq<char> {
    Seq::new(
        (2 * bytes.len()) as nat,
        |i: int|
            if i % 2 == 0 {
                hex_char(bytes[i / 2] as int / 16)
            } else {
                hex_char(bytes[i / 2] as int % 16)
            },
    )
}

/// The prefix of every client token: `"borer_"`.
pub open spec fn token_prefix() -> Seq<char> {
    seq!['b', 'o', 'r', 'e', 'r', '_']
}

/// The client token minted from 32 random bytes.
pub open spec fn token_text(bytes: Seq<u8>) -> Seq<char> {
    token_prefix() + hex_lower(bytes)
}

/// Calls `rand::random::<[u8; 32]>()`. The bytes are random: nothing is
/// stated of them.
#[verifier::external_body]
fn random_token_bytes() -> (bytes: [u8; 32]) {
    rand::random()
}

/// Calls `hex::encode`, documented to give two lowercase hexadecimal digits
/// per byte, the high half first.
#[verifier::external_body]
fn hex_encode(bytes: &[u8]) -> (text: String)
    ensures
        text@ == hex_lower(bytes@),
{
    hex::encode(bytes)
}

/// The client token for the given bytes: `"borer_"` followed by their
/// lowercase hexadecimal text.
pub fn token_from_bytes(bytes: &[u8; 32]) -> (token: String)
    ensures
        token@ == token_text(bytes@),
{
    let hex = hex_encode(bytes.as_slice());
    let mut token = String::new();
    token.append("borer_");
    token.append(hex.as_str());
    proof {
        reveal_strlit("borer_");
        assert("borer_"@ =~= token_prefix());
    }
    token
}

/// Mints a fresh client token from 32 random bytes.
pub fn generate_token() -> (token: String)
    ensures
        exists|bytes: Seq<u8>| bytes.len() == 32 && token@ == token_text(bytes),
{
    let bytes = random_token_bytes();
    token_from_bytes(&bytes)
}

/// Every minted token is 70 characters long, starts with `"borer_"`, and
/// continues with lowercase hexadecimal digits only.
pub proof fn law_token_shape(bytes: Seq<u8>)
    requires
        bytes.len() == 32,
    ensures
        token_text(bytes).len() == 70,
        token_text(bytes).subrange(0, 6) == token_prefix(),
        forall|i: int|
            6 <= i < 70 ==> {
                let c = #[trigger] token_text(bytes)[i];
                ('0' <= c <= '9') || ('a' <= c <= 'f')
            },
{
    let t = token_text(bytes);
    assert(t.subrange(0, 6) =~= token_prefix());
    assert forall|i: int| 6 <= i < 70 implies {
        let c = #[trigger] token_text(bytes)[i];
        ('0' <= c <= '9') || ('a' <= c <= 'f')
    } by {
        let j = i - 6;
        assert(t[i] == hex_lower(bytes)[j]);
        let b = bytes[j / 2] as int;
        assert(0 <= b / 16 < 16 && 0 <= b % 16 < 16);
    }
}

/// Different random bytes give different tokens.
pub proof fn law_token_injective(a: Seq<u8>, b: Seq<u8>)
    requires
        a.len() == 32,
        b.len() == 32,
        token_text(a) == token_text(b),
    ensures
        a == b,
{
    assert forall|k: int| 0 <= k < 32 implies a[k] == b[k] by {
        let ta = token_text(a);
        let tb = token_text(b);
        assert(ta[6 + 2 * k] == tb[6 + 2 * k]);
        assert(ta[7 + 2 * k] == tb[7 + 2 * k]);
        assert(ta[6 + 2 * k] == hex_lower(a)[2 * k]);
        assert(ta[7 + 2 * k] == hex_lower(a)[2 * k + 1]);
        assert(tb[6 + 2 * k] == hex_lower(b)[2 * k]);
        assert(tb[7 + 2 * k] == hex_lower(b)[2 * k + 1]);
        assert((2 * k) / 2 == k);
        assert((2 * k + 1) / 2 == k);
        assert((2 * k) % 2 == 0);
        assert((2 * k + 1) % 2 == 1);
        let x = a[k] as int;
        let y = b[k] as int;
        assert(hex_char(x / 16) == hex_char(y / 16));
        assert(hex_char(x % 16) == hex_char(y % 16));
        assert(x / 16 == y / 16);
        assert(x % 16 == y % 16);
        assert(x == 16 * (x / 16) + x % 16);
        assert(y == 16 * (y / 16) + y % 16);
    }
    assert(a =~= b);
}

/// Status of the token-creation route when the caller is refused: 401 when no
/// bearer token was given, 403 when it is not the master token.
pub open spec fn creation_refusal(master: Seq<char>, token: Option<Seq<char>>) -> Option<u16> {
    match token {
        None => Some(401),
        Some(t) => if t == master {
            None
        } else {
            Some(403)
        },
    }
}

/// Status of the token-validation route: 401 when the request carried no
/// bearer token (no lookup is made); otherwise, for the outcome of the token
/// lookup, 200 for a valid token, 401 for an unknown or revoked one, and 500
/// when the lookup failed.
pub open spec fn validation_status_of(lookup: Option<Result<bool, ()>>) -> u16 {
    match lookup {
        None => 401,
        Some(Ok(true)) => 200,
        Some(Ok(false)) => 401,
        Some(Err(_)) => 500,
    }
}

/// Status of the token-creation route once the caller was let through: 200
/// (with the new token) when storing it succeeded, 500 when it failed.
pub open spec fn creation_status_of(stored: bool) -> u16 {
    if stored {
        200
    } else {
        500
    }
}

impl<P> AuthService<P> {
    /// A service over the given pool, with the given master token.
    pub fn new(pool: P, master_token: String) -> (service: Self)
        ensures
            service.master_token() == master_token@,
            service.spec_pool() == pool,
    {
        Self { pool, master_token }
    }

    /// The master token.
    pub closed spec fn master_token(&self) -> Seq<char> {
        self.master_token@
    }

    /// The database pool.
    pub closed spec fn spec_pool(&self) -> P {
        self.pool
    }

    /// The database pool of client tokens.
    pub fn pool(&self) -> (pool: &P)
        ensures
            *pool == self.spec_pool(),
    {
        &self.pool
    }

    /// Whether `token` is the master token.
    pub fn validate_master(&self, token: &str) -> (valid: bool)
        ensures
            valid == (token@ == self.master_token()),
    {
        let given = token.to_owned();
        given == self.master_token
    }

    /// Decides whether a token-creation request may go ahead, given the bearer
    /// token it carried: `None` to go ahead, or the status to refuse it with.
    pub fn creation_refusal(&self, token: &Option<String>) -> (refusal: Option<u16>)
        ensures
            refusal == creation_refusal(self.master_token(), token.deep_view()),
    {
        match token {
            None => Some(401),
            Some(t) => if self.validate_master(t.as_str()) {
                None
            } else {
                Some(403)
            },
        }
    }

    /// Decides whether a token-creation request may go ahead, reading its
    /// bearer token from the headers (see `get_token_from_header`).
    pub fn authorize_creation(&self, headers: &HeaderMap) -> (refusal: Option<u16>)
        ensures
            refusal == creation_refusal(
                self.master_token(),
                bearer_token_of(first_value_named(header_map_entries(*headers), "authorization"@)),
            ),
    {
        let token = get_token_from_header(headers);
        self.creation_refusal(&token)
    }
}

/// Status of the token-validation route, given the outcome of the token
/// lookup, or `None` when the request carried no bearer token.
pub fn validation_status(lookup: Option<Result<bool, ()>>) -> (status: u16)
    ensures
        status == validation_status_of(lookup),
{
    match lookup {
        None => 401,
        Some(Ok(true)) => 200,
        Some(Ok(false)) => 401,
        Some(Err(_)) => 500,
    }
}

/// Status of the token-creation route once the caller was let through, given
/// whether the new token was stored.
pub fn creation_status(stored: bool) -> (status: u16)
    ensures
        status == creation_status_of(stored),
{
    if stored {
        200
    } else {
        500
    }
}


/// Token creation is refused with 401 when no bearer token was given; with a
/// token, it goes ahead exactly when the token equals the master token (no
/// other condition), and is refused with 403 otherwise.
pub proof fn law_creation_needs_exactly_the_master_token(master: Seq<char>, token: Seq<char>)
    ensures
        creation_refusal(master, None) == Some(401u16),
        creation_refusal(master, Some(token)) is None <==> token == master,
        token != master ==> creation_refusal(master, Some(token)) == Some(403u16),
{
}

/// The validation route answers 401 without a bearer token or for an unknown
/// or revoked token, 200 for a valid one, and 500 when the lookup failed; the
/// creation route answers 200 once the new token is stored and 500 otherwise.
pub proof fn law_route_statuses()
    ensures
        validation_status_of(None) == 401,
        validation_status_of(Some(Ok(true))) == 200,
        validation_status_of(Some(Ok(false))) == 401,
        validation_status_of(Some(Err(()))) == 500,
        creation_status_of(true) == 200,
        creation_status_of(false) == 500,
{
}

/// A minted token reads back as its bytes: after `"borer_"`, the two characters
/// at `6 + 2k` and `7 + 2k` are lowercase hexadecimal digits whose value, high
/// digit first, is byte `k`.
pub proof fn law_token_reads_back_as_its_bytes(bytes: Seq<u8>, k: int)
    requires
        bytes.len() == 32,
        0 <= k < 32,
    ensures
        token_text(bytes).len() == 70,
        token_text(bytes)[0] == 'b' && token_text(bytes)[1] == 'o' && token_text(bytes)[2] == 'r'
            && token_text(bytes)[3] == 'e' && token_text(bytes)[4] == 'r' && token_text(bytes)[5] == '_',
        ('0' <= token_text(bytes)[6 + 2 * k] <= '9') || ('a' <= token_text(bytes)[6 + 2 * k] <= 'f'),
        ('0' <= token_text(bytes)[7 + 2 * k] <= '9') || ('a' <= token_text(bytes)[7 + 2 * k] <= 'f'),
        hex_digit_value(token_text(bytes)[6 + 2 * k]) * 16 + hex_digit_value(token_text(bytes)[7 + 2 * k])
            == bytes[k] as int,
{
    let t = token_text(bytes);
    assert(t[6 + 2 * k] == hex_lower(bytes)[2 * k]);
    assert(t[7 + 2 * k] == hex_lower(bytes)[2 * k + 1]);
    assert((2 * k) / 2 == k);
    assert((2 * k + 1) / 2 == k);
    assert((2 * k) % 2 == 0);
    assert((2 * k + 1) % 2 == 1);
    let x = bytes[k] as int;
    assert(x == 16 * (x / 16) + x % 16);
}

} // verus!
