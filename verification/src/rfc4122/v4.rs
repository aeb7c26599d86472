//! The random algorithm (version 4): 128 bits drawn from the system's
//! entropy source, re-tagged with version 4 and the RFC 4122 variant, so
//! that 122 bits stay free. An entropy source that cannot be read is
//! surfaced as an error rather than replaced with fixed bits, which would
//! produce valid-looking but non-unique identifiers.

use vstd::prelude::*;

use crate::layout::{spec_tagged, Layout};
use crate::sys;
use crate::{DecodeError, GenerationError, Variant, Version, UUID};

verus! {

/// Byte `i` of the little-endian rendering of `x`.
pub open spec fn spec_u128_byte(x: u128, i: int) -> u8 {
    if i == 0 {
        x as u8
    } else if i == 1 {
        (x >> 8u128) as u8
    } else if i == 2 {
        (x >> 16u128) as u8
    } else if i == 3 {
        (x >> 24u128) as u8
    } else if i == 4 {
        (x >> 32u128) as u8
    } else if i == 5 {
        (x >> 40u128) as u8
    } else if i == 6 {
        (x >> 48u128) as u8
    } else if i == 7 {
        (x >> 56u128) as u8
    } else if i == 8 {
        (x >> 64u128) as u8
    } else if i == 9 {
        (x >> 72u128) as u8
    } else if i == 10 {
        (x >> 80u128) as u8
    } else if i == 11 {
        (x >> 88u128) as u8
    } else if i == 12 {
        (x >> 96u128) as u8
    } else if i == 13 {
        (x >> 104u128) as u8
    } else if i == 14 {
        (x >> 112u128) as u8
    } else {
        (x >> 120u128) as u8
    }
}

/// The 16 little-endian bytes of `x`.
pub open spec fn spec_u128_bytes(x: u128) -> Seq<u8> {
    Seq::new(16, |i: int| spec_u128_byte(x, i))
}

/// The layout built from 128 bits: their bytes re-tagged with version 4
/// and the RFC 4122 variant.
pub open spec fn spec_v4(bits: u128) -> Layout {
    spec_tagged(spec_u128_bytes(bits), Version::RAND)
}

impl Layout {
    /// Spreads 128 caller-supplied bits over the sub-fields and tags them
    /// as the random version; exact for every value of `bits`, however it
    /// was drawn.
    pub fn from_random_bits(bits: u128) -> (r: Layout)
        ensures
            r == spec_v4(bits),
            r.spec_version() == Ok::<Version, DecodeError>(Version::RAND),
            r.spec_variant() == Ok::<Variant, DecodeError>(Variant::RFC4122),
    {
        let bytes: [u8; 16] = [
            bits as u8,
            (bits >> 8u128) as u8,
            (bits >> 16u128) as u8,
            (bits >> 24u128) as u8,
            (bits >> 32u128) as u8,
            (bits >> 40u128) as u8,
            (bits >> 48u128) as u8,
            (bits >> 56u128) as u8,
            (bits >> 64u128) as u8,
            (bits >> 72u128) as u8,
            (bits >> 80u128) as u8,
            (bits >> 88u128) as u8,
            (bits >> 96u128) as u8,
            (bits >> 104u128) as u8,
            (bits >> 112u128) as u8,
            (bits >> 120u128) as u8,
        ];
        proof {
            assert(bytes@ =~= spec_u128_bytes(bits));
        }
        Layout::tagged(bytes, Version::RAND)
    }
}

impl UUID {
    /// Builds the layout of a random identifier: 128 bits from the system
    /// entropy source, tagged with version 4 and the RFC 4122 variant.
    /// Whatever bits the source returned, the tags hold; a source that
    /// cannot be read is reported, never papered over.
    pub fn v4() -> (r: Result<Layout, GenerationError>)
        ensures
            (match r {
                Ok(l) => l.spec_version() == Ok::<Version, DecodeError>(Version::RAND)
                    && l.spec_variant() == Ok::<Variant, DecodeError>(Variant::RFC4122),
                Err(e) => e == GenerationError::EntropySourceUnavailable,
            }),
    {
        match sys::entropy_u128() {
            Some(bits) => Ok(Layout::from_random_bits(bits)),
            None => Err(GenerationError::EntropySourceUnavailable),
        }
    }
}

} // verus!
