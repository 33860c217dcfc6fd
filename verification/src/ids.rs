//! Identifiers of users, tokens, orders and windows.
use vstd::prelude::*;
use vstd::arithmetic::power::pow;

verus! {

/// A UUID, held as its 128-bit big-endian value (`uuid::Uuid::as_u128`).
#[derive(Clone, Copy, Debug, PartialEq, Eq, Hash, Structural)]
pub struct Uuid {
    pub value: u128,
}

/// The lower-case hexadecimal digit of `d` (0 to 15).
pub open spec fn hex_digit(d: int) -> char {
    if d < 10 {
        ('0' as int + d) as char
    } else {
        ('a' as int + (d - 10)) as char
    }
}

/// The `k`-th hexadecimal digit of `value`, counted from the most
/// significant of its 32.
pub open spec fn nibble(value: u128, k: int) -> int {
    (value as int / pow(16, (31 - k) as nat)) % 16
}

/// Whether position `i` of the hyphenated form holds a hyphen.
pub open spec fn is_hyphen_position(i: int) -> bool {
    i == 8 || i == 13 || i == 18 || i == 23
}

/// How many hyphens the hyphenated form holds before position `i`.
pub open spec fn hyphens_before(i: int) -> int {
    if i > 23 {
        4
    } else if i > 18 {
        3
    } else if i > 13 {
        2
    } else if i > 8 {
        1
    } else {
        0
    }
}

/// The hyphenated lower-case form of the UUID of value `value`, as
/// `uuid::Uuid`'s `Display` writes it: its 32 hexadecimal digits, most
/// significant first, in groups of 8, 4, 4, 4 and 12 joined by hyphens.
pub open spec fn uuid_text(value: u128) -> Seq<char> {
    Seq::new(
        36,
        |i: int|
            if is_hyphen_position(i) {
                '-'
            } else {
                hex_digit(nibble(value, i - hyphens_before(i)))
            },
    )
}

/// Calls `uuid::Uuid::from_u128(..).to_string()`, the hyphenated form.
#[verifier::external_body]
pub(crate) fn uuid_to_string(id: Uuid) -> (s: String)
    ensures
        s@ == uuid_text(id.value),
{
    uuid::Uuid::from_u128(id.value).to_string()
}

/// The version and variant bits of a random (version 4, RFC 4122) UUID.
pub open spec fn is_random_v4(value: u128) -> bool {
    value & 0x0000_0000_0000_f000_c000_0000_0000_0000u128
        == 0x0000_0000_0000_4000_8000_0000_0000_0000u128
}

/// Calls `uuid::Uuid::new_v4`: a fresh random UUID, of which only its
/// version and variant bits are known.
#[verifier::external_body]
pub(crate) fn new_v4() -> (id: Uuid)
    ensures
        is_random_v4(id.value),
{
    Uuid { value: uuid::Uuid::new_v4().as_u128() }
}

} // verus!
