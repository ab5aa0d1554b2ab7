//! The identifier type and its two metadata fields.

use vstd::prelude::*;

verus! {

/// The variant that every generated identifier carries: the two bits `10`.
pub const RFC_VARIANT: u128 = 0b10;

/// The version field of a 128-bit identifier value: bits 76 to 79, the high
/// half of the seventh byte.
pub open spec fn version_field(value: u128) -> u128 {
    (value >> 76) & 0xf
}

/// The variant field of a 128-bit identifier value: bits 62 and 63, the two
/// highest bits of the ninth byte.
pub open spec fn variant_field(value: u128) -> u128 {
    (value >> 62) & 0x3
}

/// The bits of an identifier value outside its version and variant fields.
pub const PAYLOAD_MASK: u128 = 0xffffffff_ffff_0fff_3fff_ffffffffffff;

/// The value with `version` written into its version field and the variant
/// `10` written into its variant field; the other 122 bits stay.
pub open spec fn with_version_and_variant(value: u128, version: u128) -> u128 {
    (value & PAYLOAD_MASK) | (version << 76) | (RFC_VARIANT << 62)
}

/// Writing the two fields sets them, and changes no other bit.
pub proof fn lemma_with_version_and_variant(value: u128, version: u128)
    by (bit_vector)
    requires
        version < 16,
    ensures
        version_field(with_version_and_variant(value, version)) == version,
        variant_field(with_version_and_variant(value, version)) == RFC_VARIANT,
        with_version_and_variant(value, version) & PAYLOAD_MASK == value & PAYLOAD_MASK,
{
}

/// A 128-bit identifier. Its view is the value that its sixteen bytes spell
/// when read most significant byte first.
#[derive(Clone, Copy, Debug, PartialEq, Eq, Hash, Structural)]
pub struct Uuid {
    value: u128,
}

impl View for Uuid {
    type V = u128;

    closed spec fn view(&self) -> u128 {
        self.value
    }
}

impl Uuid {
    /// The identifier whose bytes, most significant first, spell `value`.
    pub fn from_u128(value: u128) -> (u: Uuid)
        ensures
            u@ == value,
    {
        Uuid { value }
    }

    /// The 128-bit value of the identifier.
    pub fn as_u128(&self) -> (value: u128)
        ensures
            value == self@,
    {
        self.value
    }

    /// The number in the version field.
    pub fn get_version_num(&self) -> (n: usize)
        ensures
            n == version_field(self@),
    {
        let v: u128 = self.value;
        let field: u128 = (v >> 76) & 0xf;
        assert(field < 16) by (bit_vector)
            requires
                field == (v >> 76) & 0xf,
        ;
        field as usize
    }

    /// The two bits of the variant field.
    pub fn get_variant_bits(&self) -> (n: u8)
        ensures
            n == variant_field(self@),
    {
        let v: u128 = self.value;
        let field: u128 = (v >> 62) & 0x3;
        assert(field < 4) by (bit_vector)
            requires
                field == (v >> 62) & 0x3,
        ;
        field as u8
    }
}

} // verus!
