//! Request identifiers: random version-4 UUIDs, held as `u128` values and
//! sent over the tunnel in their hyphenated lowercase text form.

use vstd::prelude::*;

verus! {

/// The lowercase hexadecimal digit for a value in `0..16`.
pub open spec fn hex_char(d: int) -> char {
    if d < 10 {
        (d + 48) as char
    } else {
        (d + 87) as char
    }
}

/// The `n` lowest base-16 digits of `x`, most significant first.
pub open spec fn hex_digits(x: nat, n: nat) -> Seq<int>
    decreases n,
{
    if n == 0 {
        Seq::empty()
    } else {
        hex_digits(x / 16, (n - 1) as nat).push((x % 16) as int)
    }
}

/// The 32 lowercase hexadecimal characters of a 128-bit value.
pub open spec fn uuid_simple(x: u128) -> Seq<char> {
    hex_digits(x as nat, 32).map_values(|d: int| hex_char(d))
}

/// The hyphenated lowercase text of a UUID (8-4-4-4-12 hexadecimal groups).
pub open spec fn uuid_text(x: u128) -> Seq<char> {
    let h = uuid_simple(x);
    h.subrange(0, 8) + seq!['-'] + h.subrange(8, 12) + seq!['-'] + h.subrange(12, 16) + seq!['-']
        + h.subrange(16, 20) + seq!['-'] + h.subrange(20, 32)
}

/// Calls `uuid::Uuid::new_v4` and returns the identifier as a `u128`.
/// The value is random; the trusted contract only states the version (4)
/// and variant (RFC 4122) bits that `new_v4` always sets.
#[verifier::external_body]
pub(crate) fn fresh_uuid() -> (id: u128)
    ensures
        (id >> 76u128) & 0xfu128 == 4,
        (id >> 62u128) & 0x3u128 == 2,
{
    uuid::Uuid::new_v4().as_u128()
}

/// Calls `Display` of `uuid::Uuid` (via `to_string`) on `Uuid::from_u128(id)`.
/// The trusted contract states the documented hyphenated lowercase format.
#[verifier::external_body]
pub(crate) fn uuid_to_text(id: u128) -> (text: String)
    ensures
        text@ == uuid_text(id),
{
    uuid::Uuid::from_u128(id).to_string()
}

/// What `uuid::Uuid::parse_str` returns for a text, as a `u128`.
pub uninterp spec fn uuid_parse(text: Seq<char>) -> Option<u128>;

/// Calls `uuid::Uuid::parse_str` and returns the parsed value as a `u128`.
/// The parser accepts several layouts (simple, hyphenated, braced, URN, either
/// case); that full grammar is left to the name `uuid_parse`. The trusted
/// contract also states the documented fact that the hyphenated text of a
/// UUID parses back to that UUID.
#[verifier::external_body]
pub(crate) fn parse_uuid(text: &str) -> (id: Option<u128>)
    ensures
        id == uuid_parse(text@),
        forall|x: u128| #[trigger] uuid_text(x) == text@ ==> id == Some(x),
{
    uuid::Uuid::parse_str(text).ok().map(|u| u.as_u128())
}

/// `16` to the power `n`.
pub open spec fn pow16(n: nat) -> nat
    decreases n,
{
    if n == 0 {
        1
    } else {
        16 * pow16((n - 1) as nat)
    }
}

proof fn lemma_hex_digits_len_and_range(x: nat, n: nat)
    ensures
        hex_digits(x, n).len() == n,
        forall|i: int| 0 <= i < n ==> 0 <= #[trigger] hex_digits(x, n)[i] < 16,
    decreases n,
{
    if n > 0 {
        lemma_hex_digits_len_and_range(x / 16, (n - 1) as nat);
    }
}

proof fn lemma_hex_digits_injective(x: nat, y: nat, n: nat)
    requires
        x < pow16(n),
        y < pow16(n),
        hex_digits(x, n) == hex_digits(y, n),
    ensures
        x == y,
    decreases n,
{
    if n > 0 {
        let dx = hex_digits(x, n);
        let dy = hex_digits(y, n);
        lemma_hex_digits_len_and_range(x / 16, (n - 1) as nat);
        assert(dx.drop_last() == hex_digits(x / 16, (n - 1) as nat));
        assert(dy.drop_last() == hex_digits(y / 16, (n - 1) as nat));
        assert(dx.last() == dy.last());
        let p = pow16((n - 1) as nat);
        assert(x / 16 < p) by (nonlinear_arith)
            requires
                x < 16 * p,
        ;
        assert(y / 16 < p) by (nonlinear_arith)
            requires
                y < 16 * p,
        ;
        lemma_hex_digits_injective(x / 16, y / 16, (n - 1) as nat);
        assert(x == 16 * (x / 16) + x % 16) by (nonlinear_arith);
        assert(y == 16 * (y / 16) + y % 16) by (nonlinear_arith);
    }
}

proof fn lemma_u128_below_pow16(x: u128)
    ensures
        (x as nat) < pow16(32),
{
    reveal_with_fuel(pow16, 33);
    assert(pow16(32) == 0x1_0000_0000_0000_0000_0000_0000_0000_0000nat);
}

/// Distinct identifiers have distinct texts.
pub proof fn lemma_uuid_text_injective(x: u128, y: u128)
    requires
        uuid_text(x) == uuid_text(y),
    ensures
        x == y,
{
    let hx = uuid_simple(x);
    let hy = uuid_simple(y);
    lemma_hex_digits_len_and_range(x as nat, 32);
    lemma_hex_digits_len_and_range(y as nat, 32);
    let tx = uuid_text(x);
    let ty = uuid_text(y);
    assert(hx.subrange(0, 8) == tx.subrange(0, 8));
    assert(hy.subrange(0, 8) == ty.subrange(0, 8));
    assert(hx.subrange(8, 12) == tx.subrange(9, 13));
    assert(hy.subrange(8, 12) == ty.subrange(9, 13));
    assert(hx.subrange(12, 16) == tx.subrange(14, 18));
    assert(hy.subrange(12, 16) == ty.subrange(14, 18));
    assert(hx.subrange(16, 20) == tx.subrange(19, 23));
    assert(hy.subrange(16, 20) == ty.subrange(19, 23));
    assert(hx.subrange(20, 32) == tx.subrange(24, 36));
    assert(hy.subrange(20, 32) == ty.subrange(24, 36));
    assert(hx =~= hx.subrange(0, 8) + hx.subrange(8, 12) + hx.subrange(12, 16) + hx.subrange(16, 20)
        + hx.subrange(20, 32));
    assert(hy =~= hy.subrange(0, 8) + hy.subrange(8, 12) + hy.subrange(12, 16) + hy.subrange(16, 20)
        + hy.subrange(20, 32));
    assert(hx == hy);
    let dx = hex_digits(x as nat, 32);
    let dy = hex_digits(y as nat, 32);
    assert forall|i: int| 0 <= i < 32 implies dx[i] == dy[i] by {
        assert(hx[i] == hex_char(dx[i]));
        assert(hy[i] == hex_char(dy[i]));
    }
    assert(dx =~= dy);
    lemma_u128_below_pow16(x);
    lemma_u128_below_pow16(y);
    lemma_hex_digits_injective(x as nat, y as nat, 32);
}


/// The value of a lowercase hexadecimal digit.
pub open spec fn hex_digit_value(c: char) -> int {
    if '0' <= c <= '9' {
        c as int - 48
    } else {
        c as int - 87
    }
}

/// The value of a text of hexadecimal digits, most significant first.
pub open spec fn hex_text_value(text: Seq<char>) -> int
    decreases text.len(),
{
    if text.len() == 0 {
        0
    } else {
        hex_text_value(text.drop_last()) * 16 + hex_digit_value(text.last())
    }
}

/// Each value below 16 has a lowercase hexadecimal digit that reads back as it.
pub proof fn law_hex_char_reads_back(d: int)
    requires
        0 <= d < 16,
    ensures
        ('0' <= hex_char(d) <= '9') || ('a' <= hex_char(d) <= 'f'),
        hex_digit_value(hex_char(d)) == d,
        d < 10 ==> hex_char(d) as int == 48 + d,
        d >= 10 ==> hex_char(d) as int == 97 + (d - 10),
{
}

proof fn lemma_simple_reads_back(x: nat, n: nat)
    requires
        x < pow16(n),
    ensures
        hex_text_value(hex_digits(x, n).map_values(|d: int| hex_char(d))) == x,
    decreases n,
{
    if n > 0 {
        let p = pow16((n - 1) as nat);
        assert(x / 16 < p) by (nonlinear_arith)
            requires
                x < 16 * p,
        ;
        lemma_simple_reads_back(x / 16, (n - 1) as nat);
        lemma_hex_digits_len_and_range(x / 16, (n - 1) as nat);
        let s = hex_digits(x, n).map_values(|d: int| hex_char(d));
        assert(s.drop_last() =~= hex_digits(x / 16, (n - 1) as nat).map_values(|d: int| hex_char(d)));
        law_hex_char_reads_back((x % 16) as int);
        assert(x == 16 * (x / 16) + x % 16) by (nonlinear_arith);
    } else {
        assert(x == 0);
    }
}

/// The text of an identifier is 36 characters: lowercase hexadecimal digits in
/// groups of 8, 4, 4, 4 and 12 separated by `-`; the 32 digits, read most
/// significant first, give back the identifier.
pub proof fn law_uuid_text_reads_back(x: u128)
    ensures
        uuid_text(x).len() == 36,
        uuid_text(x)[8] == '-' && uuid_text(x)[13] == '-' && uuid_text(x)[18] == '-' && uuid_text(x)[23]
            == '-',
        forall|i: int|
            0 <= i < 36 && i != 8 && i != 13 && i != 18 && i != 23 ==> ('0' <= #[trigger] uuid_text(x)[i]
                <= '9') || ('a' <= uuid_text(x)[i] <= 'f'),
        hex_text_value(
            uuid_text(x).subrange(0, 8) + uuid_text(x).subrange(9, 13) + uuid_text(x).subrange(14, 18)
                + uuid_text(x).subrange(19, 23) + uuid_text(x).subrange(24, 36),
        ) == x,
{
    let t = uuid_text(x);
    let h = uuid_simple(x);
    lemma_hex_digits_len_and_range(x as nat, 32);
    assert(t.subrange(0, 8) + t.subrange(9, 13) + t.subrange(14, 18) + t.subrange(19, 23) + t.subrange(24, 36)
        =~= h);
    assert forall|i: int| 0 <= i < 32 implies ('0' <= #[trigger] h[i] <= '9') || ('a' <= h[i] <= 'f') by {
        law_hex_char_reads_back(hex_digits(x as nat, 32)[i]);
    }
    assert forall|i: int|
        0 <= i < 36 && i != 8 && i != 13 && i != 18 && i != 23 implies ('0' <= #[trigger] t[i] <= '9')
        || ('a' <= t[i] <= 'f') by {
        if i < 8 {
            assert(t[i] == h[i]);
        } else if i < 13 {
            assert(t[i] == h[i - 1]);
        } else if i < 18 {
            assert(t[i] == h[i - 2]);
        } else if i < 23 {
            assert(t[i] == h[i - 3]);
        } else {
            assert(t[i] == h[i - 4]);
        }
    }
    lemma_u128_below_pow16(x);
    lemma_simple_reads_back(x as nat, 32);
}

} // verus!
