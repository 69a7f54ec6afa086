//! 128-bit identifiers: payload type identities and handshake nonces.

use vstd::prelude::*;

verus! {

/// A 128-bit identifier, held as the big-endian packing of its 16 bytes.
#[derive(Clone, Copy, Debug, PartialEq, Eq, Structural, Hash)]
pub struct Uuid {
    pub bits: u128,
}

impl View for Uuid {
    type V = u128;

    open spec fn view(&self) -> u128 {
        self.bits
    }
}

/// The value that `uuid::Uuid::parse_str` reads out of a text, as a 128-bit
/// number, or `None` where it rejects the text.
pub uninterp spec fn uuid_text_value(text: Seq<char>) -> Option<u128>;

/// Bits that every version 4 identifier carries: version 4, variant `10`.
pub open spec fn is_random_version(bits: u128) -> bool {
    bits & 0xF000_C000_0000_0000_0000u128 == 0x4000_8000_0000_0000_0000u128
}

/// Calls `uuid::Uuid::new_v4` and packs the result with `as_u128`. The value
/// is random; only the version and variant bits are fixed.
#[verifier::external_body]
fn random_bits() -> (bits: u128)
    ensures
        is_random_version(bits),
{
    uuid::Uuid::new_v4().as_u128()
}

/// Calls `uuid::Uuid::parse_str` and packs an accepted value with `as_u128`.
#[verifier::external_body]
fn parse_bits(text: &str) -> (r: Option<u128>)
    ensures
        r == uuid_text_value(text@),
{
    match uuid::Uuid::parse_str(text) {
        Ok(id) => Some(id.as_u128()),
        Err(_) => None,
    }
}

impl Uuid {
    /// The identifier with the given 128-bit value.
    pub fn from_u128(bits: u128) -> (id: Uuid)
        ensures
            id@ == bits,
    {
        Uuid { bits }
    }

    /// The 128-bit value of this identifier.
    pub fn as_u128(&self) -> (bits: u128)
        ensures
            bits == self@,
    {
        self.bits
    }

    /// A fresh random identifier.
    pub fn new_v4() -> (id: Uuid)
        ensures
            is_random_version(id@),
    {
        Uuid { bits: random_bits() }
    }

    /// Reads an identifier from its textual form: `Some` exactly for the
    /// texts that have a value.
    pub fn parse_str(text: &str) -> (r: Option<Uuid>)
        ensures
            r is Some <==> uuid_text_value(text@) is Some,
            r matches Some(id) ==> uuid_text_value(text@) == Some(id@),
    {
        match parse_bits(text) {
            Some(bits) => Some(Uuid { bits }),
            None => None,
        }
    }
}

} // verus!
