//! Identities and timestamps.
//!
//! Both are held as plain integers, so that equality and order are those
//! of the integers. Fresh identities, the clock and the textual form of an
//! identity come from `bson`.

use vstd::prelude::*;
use vstd::arithmetic::power::pow;

verus! {

/// A 128-bit entity identity. `value` is the big-endian reading of the 16
/// bytes of the UUID, so the order of the integers is the order of the UUIDs.
#[derive(Clone, Copy, Debug, PartialEq, Eq, Structural, Hash)]
pub struct Uuid {
    pub value: u128,
}

/// A point in time, in milliseconds since the Unix epoch.
#[derive(Clone, Copy, Debug, PartialEq, Eq, Structural, Hash)]
pub struct Timestamp {
    pub millis: i64,
}

/// The lower-case hexadecimal digit for a value below sixteen.
pub open spec fn hex_digit(nibble: int) -> char {
    seq!['0', '1', '2', '3', '4', '5', '6', '7', '8', '9', 'a', 'b', 'c', 'd', 'e', 'f'][nibble]
}

/// The hexadecimal digit of `value` at `position`, where position 0 is the
/// most significant of the 32 digits.
pub open spec fn digit_at(value: u128, position: int) -> int {
    (value as int / pow(16, (31 - position) as nat)) % 16
}

/// The hyphenated lower-case text of the identity with the given integer
/// value: its 32 hexadecimal digits, most significant first, in groups of
/// 8, 4, 4, 4 and 12 with a hyphen between groups.
pub open spec fn uuid_text(value: u128) -> Seq<char> {
    Seq::new(
        36,
        |i: int|
            if i == 8 || i == 13 || i == 18 || i == 23 {
                '-'
            } else if i < 8 {
                hex_digit(digit_at(value, i))
            } else if i < 13 {
                hex_digit(digit_at(value, i - 1))
            } else if i < 18 {
                hex_digit(digit_at(value, i - 2))
            } else if i < 23 {
                hex_digit(digit_at(value, i - 3))
            } else {
                hex_digit(digit_at(value, i - 4))
            },
    )
}

/// Calls `bson::Uuid::new`, which draws a random version-4 UUID from the
/// operating system. Nothing is claimed of the value drawn.
#[verifier::external_body]
fn random_uuid() -> (id: Uuid) {
    Uuid { value: u128::from_be_bytes(bson::Uuid::new().bytes()) }
}

/// Calls `bson::DateTime::now`, which reads the system clock. Nothing is
/// claimed of the time read.
#[verifier::external_body]
fn current_time() -> (now: Timestamp) {
    Timestamp { millis: bson::DateTime::now().timestamp_millis() }
}

/// Calls the `Display` implementation of `bson::Uuid` on the UUID whose 16
/// bytes are the big-endian bytes of the identity. The contract claims
/// that it writes the hyphenated lower-case form: each byte as two
/// hexadecimal digits, high nibble first, with hyphens after the 4th, 6th,
/// 8th and 10th byte.
#[verifier::external_body]
fn display_uuid(id: Uuid) -> (text: String)
    ensures
        text@ == uuid_text(id.value),
{
    bson::Uuid::from_bytes(id.value.to_be_bytes()).to_string()
}

impl Uuid {
    /// A fresh random identity.
    pub fn new() -> (id: Uuid) {
        random_uuid()
    }

    /// The identity with the given integer value.
    pub fn from_u128(value: u128) -> (id: Uuid)
        ensures
            id.value == value,
    {
        Uuid { value }
    }

    /// The hyphenated lower-case text of the identity.
    pub fn to_text(&self) -> (text: String)
        ensures
            text@ == uuid_text(self.value),
    {
        display_uuid(*self)
    }
}

impl Timestamp {
    /// The current time.
    pub fn now() -> (now: Timestamp) {
        current_time()
    }

    /// The time `millis` milliseconds after the Unix epoch.
    pub fn from_millis(millis: i64) -> (at: Timestamp)
        ensures
            at.millis == millis,
    {
        Timestamp { millis }
    }
}

} // verus!
