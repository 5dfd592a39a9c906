//! Identifiers as UUID values, made through the `uuid` crate.

use vstd::prelude::*;

verus! {

/// The 128-bit value of the UUID whose high 64 bits are `high` and whose low
/// 64 bits are `low`.
pub open spec fn pair_value(high: u64, low: u64) -> int {
    high as int * 0x1_0000_0000_0000_0000 + low as int
}

/// The version field of a UUID's 128-bit value (bits 76 to 79).
pub open spec fn version_of(id: u128) -> u128 {
    (id >> 76u128) & 0xfu128
}

/// Relies on `uuid::Uuid::from_u64_pair` and `Uuid::as_u128`: the UUID whose
/// value is `(high << 64) | low`, read back as that value.
#[verifier::external_body]
pub(crate) fn uuid_from_u64_pair(high: u64, low: u64) -> (r: u128)
    ensures
        r as int == pair_value(high, low),
{
    uuid::Uuid::from_u64_pair(high, low).as_u128()
}

/// Relies on `uuid::Uuid::new_v4`: a random UUID whose version field is 4.
#[verifier::external_body]
pub(crate) fn random_uuid() -> (r: u128)
    ensures
        version_of(r) == 4,
{
    uuid::Uuid::new_v4().as_u128()
}

/// A UUID of version 4 is never the nil UUID.
pub proof fn random_uuid_is_not_nil(id: u128)
    requires
        version_of(id) == 4,
    ensures
        id != 0,
{
    assert(((id >> 76u128) & 0xfu128) == 4 ==> id != 0) by (bit_vector);
}

/// The lowercase hexadecimal digit of value `d`, for `0 <= d < 16`.
pub open spec fn hex_digit(d: int) -> char {
    "0123456789abcdef"@[d]
}

/// The `k`-th hexadecimal digit of a UUID's value, counted from the most
/// significant one (`0 <= k < 32`).
pub open spec fn uuid_digit(id: u128, k: int) -> int {
    (id >> (4 * (31 - k)) as u128) as int % 16
}

/// How many of the hyphens of a UUID's text stand before position `i`.
pub open spec fn hyphens_before(i: int) -> int {
    if i < 8 {
        0
    } else if i < 13 {
        1
    } else if i < 18 {
        2
    } else if i < 23 {
        3
    } else {
        4
    }
}

/// A UUID as text: its 32 hexadecimal digits in lowercase, most significant
/// first, in groups of 8, 4, 4, 4 and 12 separated by hyphens.
pub open spec fn uuid_text(id: u128) -> Seq<char> {
    Seq::new(
        36,
        |i: int|
            if i == 8 || i == 13 || i == 18 || i == 23 {
                '-'
            } else {
                hex_digit(uuid_digit(id, i - hyphens_before(i)))
            },
    )
}

/// The decimal digit of value `d`, for `0 <= d < 10`.
pub open spec fn decimal_digit(d: nat) -> char {
    "0123456789"@[d as int]
}

/// A number in decimal, without leading zeros.
pub open spec fn decimal_text(n: nat) -> Seq<char>
    decreases n,
{
    if n < 10 {
        seq![decimal_digit(n)]
    } else {
        decimal_text(n / 10) + seq![decimal_digit(n % 10)]
    }
}

/// Relies on `uuid::Uuid::from_u128` and the `Display` of `uuid::Uuid`, which
/// writes the hyphenated form in lowercase.
#[verifier::external_body]
pub(crate) fn format_uuid(id: u128) -> (r: String)
    ensures
        r@ == uuid_text(id),
{
    uuid::Uuid::from_u128(id).to_string()
}

/// Relies on `u32::to_string`: the number in decimal.
#[verifier::external_body]
pub(crate) fn format_u32(n: u32) -> (r: String)
    ensures
        r@ == decimal_text(n as nat),
{
    n.to_string()
}

} // verus!
