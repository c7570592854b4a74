//! 128-bit identifiers (UUIDs) and their canonical text form.

use vstd::prelude::*;

verus! {

/// A UUID, held as its 128-bit value (most significant byte first).
#[derive(Clone, Copy, Debug, PartialEq, Eq, Structural, Hash)]
pub struct Uuid {
    pub bits: u128,
}

/// Lower-case hexadecimal digit for a value below 16.
pub open spec fn hex_lower(d: int) -> char {
    if d < 10 {
        (('0' as int) + d) as char
    } else {
        (('a' as int) + d - 10) as char
    }
}

/// The `k`-th hexadecimal digit of a 128-bit value, counting from the most significant one.
pub open spec fn nibble(bits: u128, k: int) -> int {
    (bits as int / vstd::arithmetic::power::pow(16, (31 - k) as nat)) % 16
}

/// Position among the 32 hex digits of the character at position `i` of the hyphenated form.
pub open spec fn digit_index(i: int) -> int {
    if i < 8 {
        i
    } else if i < 13 {
        i - 1
    } else if i < 18 {
        i - 2
    } else if i < 23 {
        i - 3
    } else {
        i - 4
    }
}

/// The hyphenated lower-case form `xxxxxxxx-xxxx-xxxx-xxxx-xxxxxxxxxxxx` of a UUID value.
pub open spec fn hyphenated_text(bits: u128) -> Seq<char> {
    Seq::new(
        36,
        |i: int|
            if i == 8 || i == 13 || i == 18 || i == 23 {
                '-'
            } else {
                hex_lower(nibble(bits, digit_index(i)))
            },
    )
}

/// Formats a UUID value with `uuid::Uuid`'s `Display`, which writes the hyphenated lower-case form.
#[verifier::external_body]
fn uuid_display(bits: u128) -> (s: String)
    ensures
        s@ == hyphenated_text(bits),
{
    uuid::Uuid::from_u128(bits).to_string()
}

/// Draws a random version-4 UUID with `uuid::Uuid::new_v4`. The value is random; the crate sets
/// the version digit to 4 and the two variant bits to `10`.
#[verifier::external_body]
fn uuid_random_v4() -> (bits: u128)
    ensures
        nibble(bits, 12) == 4,
        (bits as int / vstd::arithmetic::power::pow(2, 62)) % 4 == 2,
{
    uuid::Uuid::new_v4().as_u128()
}

impl Uuid {
    pub fn from_u128(bits: u128) -> (r: Uuid)
        ensures
            r.bits == bits,
    {
        Uuid { bits }
    }

    pub fn as_u128(&self) -> (r: u128)
        ensures
            r == self.bits,
    {
        self.bits
    }

    /// A fresh random version-4 UUID.
    pub fn new_v4() -> (r: Uuid)
        ensures
            nibble(r.bits, 12) == 4,
            (r.bits as int / vstd::arithmetic::power::pow(2, 62)) % 4 == 2,
    {
        Uuid { bits: uuid_random_v4() }
    }

    /// The hyphenated lower-case text of the UUID.
    pub fn to_string(&self) -> (s: String)
        ensures
            s@ == hyphenated_text(self.bits),
    {
        uuid_display(self.bits)
    }
}

} // verus!
