//! What the kernel takes from its surroundings: fresh random identifiers, the
//! clock, and the text form of identifiers.

use vstd::prelude::*;
use vstd::arithmetic::power2::pow2;

verus! {

#[verifier::external_type_specification]
#[verifier::external_body]
pub struct ExInstant(std::time::Instant);

/// Whether the 128 bits of an identifier are those of a random UUID: the
/// version field (bits 76 to 79) holds 4 and the variant field (bits 62 and
/// 63) holds the RFC 4122 variant `10`.
pub open spec fn is_random_uuid(bits: u128) -> bool {
    &&& bits & 0xF000_0000_0000_0000_0000u128 == 0x4000_0000_0000_0000_0000u128
    &&& bits & 0xC000_0000_0000_0000u128 == 0x8000_0000_0000_0000u128
}

/// Calls `uuid::Uuid::new_v4` and hands back the 128 bits of the fresh
/// random identifier. The value is random; the contract claims only what
/// `new_v4` fixes of every identifier it makes: the version and variant
/// bits of a random UUID.
#[verifier::external_body]
pub(crate) fn fresh_uuid_bits() -> (r: u128)
    ensures
        is_random_uuid(r),
{
    uuid::Uuid::new_v4().as_u128()
}

/// The lower-case hexadecimal digit of a value below 16.
pub open spec fn hex_char(n: int) -> char {
    if n < 10 {
        ('0' as int + n) as char
    } else {
        ('a' as int + n - 10) as char
    }
}

/// The `k`-th four-bit group of `bits`, counted from the most significant.
pub open spec fn nibble(bits: u128, k: int) -> int {
    (bits as int / pow2((4 * (31 - k)) as nat) as int) % 16
}

/// How many hyphens the hyphenated form of an identifier holds before
/// position `i`: one after each of the first 8, 12, 16 and 20 digits.
pub open spec fn hyphens_before(i: int) -> int {
    if i < 8 {
        0
    } else if i < 13 {
        1
    } else if i < 18 {
        2
    } else if i < 23 {
        3
    } else {
        4
    }
}

/// The canonical text of the identifier whose 128 bits are `bits`: its 32
/// hexadecimal digits in lower case, most significant first, in groups of
/// 8, 4, 4, 4 and 12 separated by hyphens (36 characters in all).
pub open spec fn uuid_text(bits: u128) -> Seq<char> {
    Seq::new(
        36,
        |i: int|
            if i == 8 || i == 13 || i == 18 || i == 23 {
                '-'
            } else {
                hex_char(nibble(bits, i - hyphens_before(i)))
            },
    )
}

/// Calls `uuid::Uuid::from_u128(bits)` and formats the identifier with its
/// `Display` impl, which writes the hyphenated lower-case form that
/// [`uuid_text`] spells out.
#[verifier::external_body]
pub(crate) fn uuid_string(bits: u128) -> (r: String)
    ensures
        r@ == uuid_text(bits),
{
    uuid::Uuid::from_u128(bits).to_string()
}

/// A point in time in UTC, to the nanosecond: the whole seconds since the
/// Unix epoch and the nanoseconds past them (more than 999,999,999 only
/// within a leap second).
#[derive(Debug, Clone, Copy, PartialEq, Eq, Structural)]
pub struct UtcTime {
    pub secs: i64,
    pub nanos: u32,
}

/// Calls `chrono::Utc::now` and takes the time apart with
/// `DateTime::timestamp` and `DateTime::timestamp_subsec_nanos`. Nothing is
/// promised of the value: it is the clock.
#[verifier::external_body]
pub(crate) fn now_utc() -> UtcTime {
    let t = chrono::Utc::now();
    UtcTime { secs: t.timestamp(), nanos: t.timestamp_subsec_nanos() }
}

/// Calls `std::time::Instant::now`. Nothing is promised of the value.
#[verifier::external_body]
pub(crate) fn instant_now() -> std::time::Instant {
    std::time::Instant::now()
}

/// Calls `Instant::elapsed` on `start` and returns the whole milliseconds
/// elapsed, truncated to 64 bits as `as u64` does. Nothing is promised of the
/// value: it is the clock.
#[verifier::external_body]
pub(crate) fn elapsed_millis(start: &std::time::Instant) -> u64 {
    start.elapsed().as_millis() as u64
}

} // verus!
