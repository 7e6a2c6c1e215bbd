//! HTTP header rules: which header values read as text, how header lists
//! travel through the tunnel, and how a bearer token is taken from the
//! `Authorization` header.

use axum::http::HeaderMap;
use vstd::prelude::*;
use vstd::slice::slice_subrange;

verus! {

#[verifier::external_type_specification]
#[verifier::external_body]
#[verifier::reject_recursive_types(T)]
pub struct ExHeaderMap<T>(axum::http::HeaderMap<T>);

/// `HeaderValue` is the default type argument of `HeaderMap`, so writing
/// `HeaderMap` in a signature names it too.
#[verifier::external_type_specification]
#[verifier::external_body]
pub struct ExHeaderValue(axum::http::HeaderValue);


/// A byte that may stand in a header value read as text: a visible ASCII
/// character, a space, or a horizontal tab.
pub open spec fn visible_ascii(b: u8) -> bool {
    (32 <= b && b < 127) || b == 9
}

/// The text of a header value, when every byte of it is visible ASCII.
pub open spec fn header_text(bytes: Seq<u8>) -> Option<Seq<char>> {
    if forall|i: int| 0 <= i < bytes.len() ==> visible_ascii(#[trigger] bytes[i]) {
        Some(bytes.map_values(|b: u8| b as char))
    } else {
        None
    }
}

/// The text of a header value, or the empty text when it does not read as text.
pub open spec fn header_text_or_empty(bytes: Seq<u8>) -> Seq<char> {
    match header_text(bytes) {
        Some(t) => t,
        None => Seq::empty(),
    }
}

/// The scheme word that precedes a bearer token: `"Bearer "`.
pub open spec fn bearer_prefix() -> Seq<char> {
    seq!['B', 'e', 'a', 'r', 'e', 'r', ' ']
}

/// The token carried by an `Authorization` header value, if any: the value
/// must read as text and start with `"Bearer "`; the token is the rest.
pub open spec fn bearer_token_of(value: Option<Seq<u8>>) -> Option<Seq<char>> {
    match value {
        None => None,
        Some(bytes) => match header_text(bytes) {
            None => None,
            Some(t) => if t.len() >= 7 && t.subrange(0, 7) == bearer_prefix() {
                Some(t.subrange(7, t.len() as int))
            } else {
                None
            },
        },
    }
}

/// Calls `String::from_utf8_lossy` on bytes that are all ASCII; for such
/// bytes std documents that the text has exactly one character per byte.
#[verifier::external_body]
fn ascii_to_string(bytes: &[u8]) -> (text: String)
    requires
        forall|i: int| 0 <= i < bytes@.len() ==> #[trigger] bytes@[i] < 128,
    ensures
        text@ == bytes@.map_values(|b: u8| b as char),
{
    String::from_utf8_lossy(bytes).into_owned()
}

/// Reads a header value as text, following the rule of `HeaderValue::to_str`:
/// the value reads as text exactly when every byte is visible ASCII.
pub fn header_value_str(bytes: &[u8]) -> (text: Option<String>)
    ensures
        text.deep_view() == header_text(bytes@),
{
    let n = bytes.len();
    let mut i: usize = 0;
    while i < n
        invariant
            n == bytes@.len(),
            i <= n,
            forall|j: int| 0 <= j < i ==> visible_ascii(#[trigger] bytes@[j]),
        decreases n - i,
    {
        let b = bytes[i];
        if !((32 <= b && b < 127) || b == 9) {
            assert(!visible_ascii(bytes@[i as int]));
            return None;
        }
        i = i + 1;
    }
    Some(ascii_to_string(bytes))
}

/// The text of a header value, or the empty text when it is not visible ASCII.
pub fn header_value_text_or_empty(bytes: &[u8]) -> (text: String)
    ensures
        text@ == header_text_or_empty(bytes@),
{
    match header_value_str(bytes) {
        Some(t) => t,
        None => String::new(),
    }
}

/// The header list of a message as (name, text) pairs, as the tunnel carries it:
/// each value that does not read as text becomes the empty text.
pub open spec fn header_pairs_of(entries: Seq<(Seq<char>, Seq<u8>)>) -> Seq<(Seq<char>, Seq<char>)> {
    entries.map_values(|e: (Seq<char>, Seq<u8>)| (e.0, header_text_or_empty(e.1)))
}

/// Turns (name, raw value) entries into the (name, text) pairs the tunnel carries.
pub fn header_pairs(entries: &Vec<(String, Vec<u8>)>) -> (pairs: Vec<(String, String)>)
    ensures
        pairs.deep_view() == header_pairs_of(entries.deep_view()),
{
    let mut pairs: Vec<(String, String)> = Vec::new();
    let n = entries.len();
    for i in 0..n
        invariant
            n == entries@.len(),
            pairs.deep_view() == header_pairs_of(entries.deep_view().take(i as int)),
    {
        let name = entries[i].0.clone();
        let text = header_value_text_or_empty(entries[i].1.as_slice());
        let ghost e = entries.deep_view()[i as int];
        assert(e.0 == name@ && e.1 == entries@[i as int].1@);
        let ghost before = pairs.deep_view();
        pairs.push((name, text));
        proof {
            let want = header_pairs_of(entries.deep_view().take(i + 1));
            assert(before.len() == i);
            assert(want.len() == i + 1);
            assert forall|j: int| 0 <= j < want.len() implies pairs.deep_view()[j] == want[j] by {
                if j < i {
                    assert(pairs.deep_view()[j] == before[j]);
                    assert(entries.deep_view().take(i + 1)[j] == entries.deep_view().take(
                        i as int,
                    )[j]);
                }
            }
            assert(pairs.deep_view() =~= want);
        }
    }
    assert(entries.deep_view().take(n as int) == entries.deep_view());
    pairs
}

/// The entries of a header map as (name text, value bytes), in the order in
/// which `HeaderMap::iter` yields them: each name once per value, the values
/// of one name in the order they were added.
pub uninterp spec fn header_map_entries(headers: HeaderMap) -> Seq<(Seq<char>, Seq<u8>)>;

/// The value of the first entry named `name`, if any.
pub open spec fn first_value_named(entries: Seq<(Seq<char>, Seq<u8>)>, name: Seq<char>) -> Option<Seq<u8>>
    decreases entries.len(),
{
    if entries.len() == 0 {
        None
    } else if entries[0].0 == name {
        Some(entries[0].1)
    } else {
        first_value_named(entries.drop_first(), name)
    }
}

/// Calls `HeaderMap::iter` and lists each entry as (name text, value bytes);
/// the list is the map's entries as named by `header_map_entries`.
#[verifier::external_body]
pub(crate) fn header_entries(headers: &HeaderMap) -> (entries: Vec<(String, Vec<u8>)>)
    ensures
        entries.deep_view() == header_map_entries(*headers),
{
    headers.iter().map(|(k, v)| (k.as_str().to_string(), v.as_bytes().to_vec())).collect()
}

/// Calls `HeaderMap::get("authorization")` and returns the value's bytes. The
/// `http` documentation states that `get` returns the first value added under
/// the name, which is the first entry with that name that `iter` yields.
#[verifier::external_body]
pub(crate) fn authorization_value(headers: &HeaderMap) -> (value: Option<Vec<u8>>)
    ensures
        value.deep_view() == first_value_named(header_map_entries(*headers), "authorization"@),
{
    headers.get("authorization").map(|v| v.as_bytes().to_vec())
}

/// The bearer token carried by an `Authorization` header value, if any.
pub fn bearer_token(value: Option<&[u8]>) -> (token: Option<String>)
    ensures
        token.deep_view() == bearer_token_of(match value {
            Some(v) => Some(v@),
            None => None,
        }),
{
    match value {
        None => None,
        Some(bytes) => {
            let text = header_value_str(bytes);
            match text {
                None => None,
                Some(_) => {
                    let n = bytes.len();
                    if n >= 7 && bytes[0] == 66 && bytes[1] == 101 && bytes[2] == 97 && bytes[3]
                        == 114 && bytes[4] == 101 && bytes[5] == 114 && bytes[6] == 32 {
                        let rest = slice_subrange(bytes, 7, n);
                        let t = header_value_str(rest);
                        proof {
                            let whole = bytes@.map_values(|b: u8| b as char);
                            assert(whole.subrange(0, 7) =~= bearer_prefix());
                            assert(whole.subrange(7, whole.len() as int) =~= rest@.map_values(
                                |b: u8| b as char,
                            ));
                            assert forall|i: int| 0 <= i < rest@.len() implies visible_ascii(
                                #[trigger] rest@[i],
                            ) by {
                                assert(rest@[i] == bytes@[i + 7]);
                            }
                        }
                        t
                    } else {
                        proof {
                            let whole = bytes@.map_values(|b: u8| b as char);
                            if n >= 7 && whole.subrange(0, 7) == bearer_prefix() {
                                assert(whole.subrange(0, 7)[0] == 'B');
                                assert(whole.subrange(0, 7)[1] == 'e');
                                assert(whole.subrange(0, 7)[2] == 'a');
                                assert(whole.subrange(0, 7)[3] == 'r');
                                assert(whole.subrange(0, 7)[4] == 'e');
                                assert(whole.subrange(0, 7)[5] == 'r');
                                assert(whole.subrange(0, 7)[6] == ' ');
                            }
                        }
                        None
                    }
                },
            }
        },
    }
}

/// Takes the bearer token from the `Authorization` header of a request: the
/// token read by `bearer_token` from the first value of that header.
pub fn get_token_from_header(headers: &HeaderMap) -> (token: Option<String>)
    ensures
        token.deep_view() == bearer_token_of(
            first_value_named(header_map_entries(*headers), "authorization"@),
        ),
{
    let value = authorization_value(headers);
    match &value {
        Some(v) => {
            assert(v.deep_view() =~= v@);
            bearer_token(Some(v.as_slice()))
        },
        None => bearer_token(None),
    }
}

/// A token written after `"Bearer "` in an `Authorization` value is read back
/// unchanged, as long as it is visible ASCII.
pub proof fn law_bearer_round_trip(token: Seq<u8>)
    requires
        forall|i: int| 0 <= i < token.len() ==> visible_ascii(#[trigger] token[i]),
    ensures
        bearer_token_of(Some(seq![66u8, 101u8, 97u8, 114u8, 101u8, 114u8, 32u8] + token)) == Some(
            token.map_values(|b: u8| b as char),
        ),
{
    let value = seq![66u8, 101u8, 97u8, 114u8, 101u8, 114u8, 32u8] + token;
    assert forall|i: int| 0 <= i < value.len() implies visible_ascii(#[trigger] value[i]) by {
        if i >= 7 {
            assert(value[i] == token[i - 7]);
        }
    }
    let t = value.map_values(|b: u8| b as char);
    assert(t.subrange(0, 7) =~= bearer_prefix());
    assert(t.subrange(7, t.len() as int) =~= token.map_values(|b: u8| b as char));
}


/// The bytes that read as header text are exactly tab (9) and 32 through 126.
pub proof fn law_visible_ascii_bytes(b: u8)
    ensures
        visible_ascii(b) <==> (b == 9 || (32 <= b && b <= 126)),
{
}

/// A header value made only of visible ASCII travels unchanged: the text
/// carried has one character per byte, each the byte read as a character
/// (no case folding, trimming or other rewriting).
pub proof fn law_visible_header_value_travels_unchanged(bytes: Seq<u8>)
    requires
        forall|i: int| 0 <= i < bytes.len() ==> (#[trigger] bytes[i] == 9 || (32 <= bytes[i] && bytes[i] <= 126)),
    ensures
        header_text(bytes) is Some,
        header_text_or_empty(bytes).len() == bytes.len(),
        forall|i: int| 0 <= i < bytes.len() ==> #[trigger] header_text_or_empty(bytes)[i] == bytes[i] as char,
        header_text(bytes) == Some(header_text_or_empty(bytes)),
{
    assert forall|i: int| 0 <= i < bytes.len() implies visible_ascii(#[trigger] bytes[i]) by {}
}

/// A header value holding any byte that is not visible ASCII travels as the
/// empty text.
pub proof fn law_other_header_value_travels_empty(bytes: Seq<u8>, i: int)
    requires
        0 <= i < bytes.len(),
        !(bytes[i] == 9 || (32 <= bytes[i] && bytes[i] <= 126)),
    ensures
        header_text(bytes) is None,
        header_text_or_empty(bytes) == Seq::<char>::empty(),
{
    assert(!visible_ascii(bytes[i]));
}

/// The header list carried through the tunnel has one pair per entry, in
/// order, with the entry's name unchanged; a value of visible ASCII is carried
/// as its bytes read as characters, any other value as the empty text.
pub proof fn law_header_pairs_carry_each_entry(entries: Seq<(Seq<char>, Seq<u8>)>, i: int)
    requires
        0 <= i < entries.len(),
    ensures
        header_pairs_of(entries).len() == entries.len(),
        header_pairs_of(entries)[i].0 == entries[i].0,
        (forall|j: int| 0 <= j < entries[i].1.len() ==> (#[trigger] entries[i].1[j] == 9 || (32 <= entries[i].1[j] && entries[i].1[j] <= 126)))
            ==> header_pairs_of(entries)[i].1 == entries[i].1.map_values(|b: u8| b as char),
        (exists|j: int| 0 <= j < entries[i].1.len() && !(#[trigger] entries[i].1[j] == 9 || (32 <= entries[i].1[j] && entries[i].1[j] <= 126)))
            ==> header_pairs_of(entries)[i].1 == Seq::<char>::empty(),
{
    let v = entries[i].1;
    if forall|j: int| 0 <= j < v.len() ==> (#[trigger] v[j] == 9 || (32 <= v[j] && v[j] <= 126)) {
        law_visible_header_value_travels_unchanged(v);
        assert(header_text_or_empty(v) =~= v.map_values(|b: u8| b as char));
    }
    if exists|j: int| 0 <= j < v.len() && !(#[trigger] v[j] == 9 || (32 <= v[j] && v[j] <= 126)) {
        let j = choose|j: int| 0 <= j < v.len() && !(#[trigger] v[j] == 9 || (32 <= v[j] && v[j] <= 126));
        law_other_header_value_travels_empty(v, j);
    }
}

/// A bearer token is read only from a value that starts with the bytes of
/// `"Bearer "` (capital B, one space) and is visible ASCII throughout; the token
/// is the rest of the value, byte for byte.
pub proof fn law_bearer_token_is_rest_of_value(value: Seq<u8>)
    requires
        bearer_token_of(Some(value)) is Some,
    ensures
        value.len() >= 7,
        value[0] == 66 && value[1] == 101 && value[2] == 97 && value[3] == 114 && value[4] == 101
            && value[5] == 114 && value[6] == 32,
        bearer_token_of(Some(value)).unwrap().len() == value.len() - 7,
        forall|i: int|
            0 <= i < value.len() - 7 ==> #[trigger] bearer_token_of(Some(value)).unwrap()[i] == value[i + 7] as char,
{
    let t = value.map_values(|b: u8| b as char);
    assert(t.subrange(0, 7) == bearer_prefix());
    assert(t.subrange(0, 7)[0] == 'B');
    assert(t.subrange(0, 7)[1] == 'e');
    assert(t.subrange(0, 7)[2] == 'a');
    assert(t.subrange(0, 7)[3] == 'r');
    assert(t.subrange(0, 7)[4] == 'e');
    assert(t.subrange(0, 7)[5] == 'r');
    assert(t.subrange(0, 7)[6] == ' ');
    assert(forall|i: int| 0 <= i < value.len() ==> visible_ascii(#[trigger] value[i]));
    assert(value[0] as char == 'B');
    assert(value[1] as char == 'e');
    assert(value[2] as char == 'a');
    assert(value[3] as char == 'r');
    assert(value[4] as char == 'e');
    assert(value[5] as char == 'r');
    assert(value[6] as char == ' ');
}


/// The value looked up under a name is that of the first entry with the name:
/// there is one exactly when some entry has the name, and then it is the value
/// of the entry at the smallest such position.
pub proof fn law_first_value_is_earliest(entries: Seq<(Seq<char>, Seq<u8>)>, name: Seq<char>)
    ensures
        first_value_named(entries, name) is None <==> (forall|i: int|
            0 <= i < entries.len() ==> #[trigger] entries[i].0 != name),
        first_value_named(entries, name) is Some ==> exists|i: int|
            0 <= i < entries.len() && #[trigger] entries[i].0 == name && first_value_named(entries, name)
                == Some(entries[i].1) && forall|j: int| 0 <= j < i ==> #[trigger] entries[j].0 != name,
    decreases entries.len(),
{
    if entries.len() > 0 {
        let rest = entries.drop_first();
        law_first_value_is_earliest(rest, name);
        assert forall|i: int| 0 < i < entries.len() implies #[trigger] entries[i] == rest[i - 1] by {}
        if entries[0].0 != name {
            if first_value_named(rest, name) is Some {
                let i = choose|i: int|
                    0 <= i < rest.len() && #[trigger] rest[i].0 == name && first_value_named(rest, name)
                        == Some(rest[i].1) && forall|j: int| 0 <= j < i ==> #[trigger] rest[j].0 != name;
                assert(entries[i + 1] == rest[i]);
                assert forall|j: int| 0 <= j < i + 1 implies #[trigger] entries[j].0 != name by {
                    if j > 0 {
                        assert(entries[j] == rest[j - 1]);
                    }
                }
            } else {
                assert forall|i: int| 0 <= i < entries.len() implies #[trigger] entries[i].0 != name by {
                    if i > 0 {
                        assert(entries[i] == rest[i - 1]);
                    }
                }
            }
        }
    }
}

} // verus!
