//! Account identifiers: UUIDs, held as the 128-bit number they stand for.

use vstd::prelude::*;

verus! {

/// The lower-case hexadecimal digit for `d`, where `d < 16`.
pub open spec fn hex_digit(d: nat) -> char {
    if d < 10 {
        (d + 48) as char
    } else {
        (d + 87) as char
    }
}

/// The last `n` hexadecimal digits of `x`, most significant first.
pub open spec fn hex_digits(x: nat, n: nat) -> Seq<char>
    decreases n,
{
    if n == 0 {
        Seq::empty()
    } else {
        hex_digits(x / 16, (n - 1) as nat).push(hex_digit(x % 16))
    }
}

/// The hyphenated lower-case text of a UUID: its 32 hexadecimal digits,
/// most significant first, in groups of 8, 4, 4, 4 and 12 joined by `-`.
pub open spec fn uuid_hyphenated(id: u128) -> Seq<char> {
    let h = hex_digits(id as nat, 32);
    h.subrange(0, 8) + seq!['-'] + h.subrange(8, 12) + seq!['-'] + h.subrange(12, 16) + seq!['-']
        + h.subrange(16, 20) + seq!['-'] + h.subrange(20, 32)
}

/// Each of the sixteen digits is written by its own character.
proof fn lemma_hex_digit_injective(a: nat, b: nat)
    requires
        a < 16,
        b < 16,
        hex_digit(a) == hex_digit(b),
    ensures
        a == b,
{
    assert(hex_digit(a) as int == if a < 10 { a + 48 } else { a + 87 });
    assert(hex_digit(b) as int == if b < 10 { b + 48 } else { b + 87 });
}

/// Sixteen to the power `n`.
pub open spec fn pow16(n: nat) -> nat
    decreases n,
{
    if n == 0 {
        1
    } else {
        16 * pow16((n - 1) as nat)
    }
}

/// `hex_digits` writes `n` characters.
proof fn lemma_hex_digits_len(x: nat, n: nat)
    ensures
        hex_digits(x, n).len() == n,
    decreases n,
{
    if n > 0 {
        lemma_hex_digits_len(x / 16, (n - 1) as nat);
    }
}

/// Below `16^n`, numbers with the same `n` hexadecimal digits are equal.
proof fn lemma_hex_digits_injective(x: nat, y: nat, n: nat)
    requires
        x < pow16(n),
        y < pow16(n),
        hex_digits(x, n) == hex_digits(y, n),
    ensures
        x == y,
    decreases n,
{
    if n > 0 {
        let m = (n - 1) as nat;
        let hx = hex_digits(x, n);
        let hy = hex_digits(y, n);
        lemma_hex_digits_len(x / 16, m);
        lemma_hex_digits_len(y / 16, m);
        assert(hx.last() == hex_digit(x % 16));
        assert(hy.last() == hex_digit(y % 16));
        lemma_hex_digit_injective(x % 16, y % 16);
        assert(hx.drop_last() =~= hex_digits(x / 16, m));
        assert(hy.drop_last() =~= hex_digits(y / 16, m));
        lemma_hex_digits_injective(x / 16, y / 16, m);
    } else {
        assert(x == 0 && y == 0);
    }
}

/// Two UUIDs with the same hyphenated text are the same UUID.
pub proof fn lemma_uuid_text_injective(a: u128, b: u128)
    requires
        uuid_hyphenated(a) == uuid_hyphenated(b),
    ensures
        a == b,
{
    let ha = hex_digits(a as nat, 32);
    let hb = hex_digits(b as nat, 32);
    lemma_hex_digits_len(a as nat, 32);
    lemma_hex_digits_len(b as nat, 32);
    let t = uuid_hyphenated(a);
    assert(ha =~= t.subrange(0, 8) + t.subrange(9, 13) + t.subrange(14, 18) + t.subrange(19, 23)
        + t.subrange(24, 36));
    assert(hb =~= t.subrange(0, 8) + t.subrange(9, 13) + t.subrange(14, 18) + t.subrange(19, 23)
        + t.subrange(24, 36));
    reveal_with_fuel(pow16, 33);
    assert(pow16(32) == 0x1_0000_0000_0000_0000_0000_0000_0000_0000);
    lemma_hex_digits_injective(a as nat, b as nat, 32);
}

/// What `uuid::Uuid::parse_str` makes of a text: the UUID's number, or
/// nothing where the text is no UUID.
pub uninterp spec fn uuid_parse(text: Seq<char>) -> Option<u128>;

/// Calls `uuid::Uuid::parse_str` and takes the number of the UUID it reads.
/// Trusted: the result is `uuid_parse` of the text, whatever that is.
#[verifier::external_body]
pub(crate) fn parse_uuid(text: &str) -> (r: Option<u128>)
    ensures
        r == uuid_parse(text@),
{
    match uuid::Uuid::parse_str(text) {
        Ok(u) => Some(u.as_u128()),
        Err(_) => None,
    }
}

/// Calls `uuid::Uuid::from_u128` and then `to_string`, which writes the
/// hyphenated lower-case form. Trusted: the text is `uuid_hyphenated(id)`,
/// and `Uuid::parse_str` reads it back as the same UUID.
#[verifier::external_body]
pub(crate) fn uuid_text(id: u128) -> (r: String)
    ensures
        r@ == uuid_hyphenated(id),
        uuid_parse(r@) == Some(id),
{
    uuid::Uuid::from_u128(id).to_string()
}

/// The number of a version-4 (random) UUID: the version digit is 4 and the
/// variant bits are `10`.
pub open spec fn is_v4_uuid(id: u128) -> bool {
    id & 0x0000_0000_0000_f000_c000_0000_0000_0000u128 == 0x0000_0000_0000_4000_8000_0000_0000_0000u128
}

/// Calls `uuid::Uuid::new_v4`, a random UUID, and takes its number.
/// Trusted: it is a version-4 UUID, as `new_v4` masks in the version and
/// variant bits. Which one it is, is chance.
#[verifier::external_body]
pub(crate) fn fresh_uuid() -> (r: u128)
    ensures
        is_v4_uuid(r),
{
    uuid::Uuid::new_v4().as_u128()
}

} // verus!
