//! Identifiers.

use vstd::prelude::*;

verus! {

/// The kind of an identifier: the four bits that hold its version.
pub open spec fn version(id: u128) -> u128 {
    (id >> 76) & 0xf
}

/// The layout of an identifier: the two bits that hold its variant.
pub open spec fn variant(id: u128) -> u128 {
    (id >> 62) & 3
}

/// `Uuid::new_v4` with `Uuid::as_u128`: a random identifier, of version 4 and of the
/// variant of RFC 4122. The other 122 bits are up to chance. It does not return where the
/// system has no source of random numbers.
#[verifier::external_body]
fn new_id() -> (id: u128)
    ensures
        version(id) == 4,
        variant(id) == 2,
{
    uuid::Uuid::new_v4().as_u128()
}

/// The identifier can be one that was drawn at random just now.
pub closed spec fn drawn(id: u128) -> bool {
    call_ensures(new_id, (), id)
}

/// A drawn identifier is what the random source gave, and nothing else is.
proof fn law_drawn(id: u128)
    ensures
        drawn(id) <==> call_ensures(new_id, (), id),
        drawn(id) ==> (id >> 76) & 0xf == 4 && (id >> 62) & 3 == 2,
{
}

/// Draws a random identifier.
pub(crate) fn draw_id() -> (id: u128)
    ensures
        drawn(id),
        version(id) == 4,
        variant(id) == 2,
{
    let id: u128 = new_id();
    assert(drawn(id));
    id
}

/// A hexadecimal digit, in lower case.
pub open spec fn hex_digit(n: int) -> char {
    if n < 10 {
        (n + 48) as char
    } else {
        (n + 87) as char
    }
}

/// Hexadecimal digit `k` of an identifier, counted from the most significant one.
pub open spec fn nibble(id: u128, k: int) -> int {
    ((id >> ((124 - 4 * k) as u128)) & 0xf) as int
}

/// The hyphens that stand before place `i` of an identifier's text.
pub open spec fn hyphens_before(i: int) -> int {
    if i <= 8 {
        0
    } else if i <= 13 {
        1
    } else if i <= 18 {
        2
    } else if i <= 23 {
        3
    } else {
        4
    }
}

/// The text of an identifier: its 32 hexadecimal digits in groups of 8, 4, 4, 4 and 12,
/// with hyphens between the groups.
pub open spec fn id_chars(id: u128) -> Seq<char> {
    Seq::new(
        36,
        |i: int|
            if i == 8 || i == 13 || i == 18 || i == 23 {
                '-'
            } else {
                hex_digit(nibble(id, i - hyphens_before(i)))
            },
    )
}

/// `Uuid::from_u128` with `Uuid::to_string`: the hyphenated text of an identifier, in
/// lower case.
#[verifier::external_body]
pub(crate) fn id_text(id: u128) -> (text: String)
    ensures
        text@ == id_chars(id),
{
    uuid::Uuid::from_u128(id).to_string()
}

} // verus!
