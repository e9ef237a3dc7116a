//! Identifiers: UUIDs are held as the 128-bit integer they stand for, and
//! the `uuid` crate renders, parses and draws them.

use vstd::prelude::*;

verus! {

/// The lowercase hexadecimal digit for `n` (`0 <= n < 16`).
pub open spec fn hex_digit(n: int) -> char {
    seq!['0', '1', '2', '3', '4', '5', '6', '7', '8', '9', 'a', 'b', 'c', 'd', 'e', 'f'][n]
}

/// The `k`-th hexadecimal digit (from the most significant) of a 128-bit value.
pub open spec fn nibble(v: u128, k: int) -> int {
    ((v >> ((124 - 4 * k) as u128)) & 15u128) as int
}

/// Which digit of the value the character at position `p` of the hyphenated form shows.
pub open spec fn digit_index(p: int) -> int {
    if p < 8 {
        p
    } else if p < 13 {
        p - 1
    } else if p < 18 {
        p - 2
    } else if p < 23 {
        p - 3
    } else {
        p - 4
    }
}

/// The hyphenated lowercase form of a UUID, `xxxxxxxx-xxxx-xxxx-xxxx-xxxxxxxxxxxx`,
/// digits from the most significant one.
pub open spec fn uuid_hyphenated(v: u128) -> Seq<char> {
    Seq::new(
        36,
        |p: int|
            if p == 8 || p == 13 || p == 18 || p == 23 {
                '-'
            } else {
                hex_digit(nibble(v, digit_index(p)))
            },
    )
}

/// What `uuid::Uuid::parse_str` reads from a text: the UUID's value, or `None`
/// when the text is refused.
pub uninterp spec fn uuid_parse_result(s: Seq<char>) -> Option<u128>;

/// Renders a UUID with `uuid::Uuid`'s `Display`, which writes the hyphenated
/// lowercase form (`fmt::LowerHex` of `as_hyphenated`).
#[verifier::external_body]
pub(crate) fn uuid_to_string(id: u128) -> (res: String)
    ensures
        res@ == uuid_hyphenated(id),
{
    uuid::Uuid::from_u128(id).to_string()
}

/// Parses a UUID with `uuid::Uuid::parse_str`. The result is named by
/// `uuid_parse_result`; as the crate documents, every form that it writes, the
/// hyphenated one among them, is read back to the same value.
#[verifier::external_body]
pub(crate) fn uuid_parse(s: &str) -> (res: Option<u128>)
    ensures
        res == uuid_parse_result(s@),
        forall|v: u128| #[trigger] uuid_hyphenated(v) == s@ ==> res == Some(v),
{
    match uuid::Uuid::parse_str(s) {
        Ok(u) => Some(u.as_u128()),
        Err(_) => None,
    }
}

/// Whether a UUID has the shape of a random (version 4) UUID of the RFC 4122
/// variant: its 13th hexadecimal digit is `4`, and its 17th is one of `8`, `9`,
/// `a`, `b`.
pub open spec fn is_uuid_v4(v: u128) -> bool {
    nibble(v, 12) == 4 && 8 <= nibble(v, 16) < 12
}

/// Draws a random (version 4) UUID with `uuid::Uuid::new_v4`. The value comes
/// from the system's random source; what holds of every outcome is its
/// version and variant bits, which `new_v4` sets by masking the random value
/// (`& 0xFFFFFFFFFFFF4FFFBFFFFFFFFFFFFFFF | 0x40008000000000000000`).
#[verifier::external_body]
pub(crate) fn uuid_new_v4() -> (res: u128)
    ensures
        is_uuid_v4(res),
{
    uuid::Uuid::new_v4().as_u128()
}

/// Reads a UUID from its text (any form that `uuid` accepts); `None` when the
/// text is none. The hyphenated form of a value is read back to that value.
pub fn parse_uuid(text: &str) -> (res: Option<u128>)
    ensures
        res == uuid_parse_result(text@),
        forall|v: u128| #[trigger] uuid_hyphenated(v) == text@ ==> res == Some(v),
{
    uuid_parse(text)
}

/// The hyphenated lowercase text of a UUID.
pub fn uuid_text(id: u128) -> (res: String)
    ensures
        res@ == uuid_hyphenated(id),
{
    uuid_to_string(id)
}

} // verus!
