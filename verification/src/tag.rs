//! The version/variant tagger: encodes the 4-bit version code into the high
//! nibble of `time_hi_and_version`, the RFC 4122 variant pattern into the
//! high bits of `clock_seq_hi_and_reserved`, and decodes both again.

use vstd::prelude::*;

use crate::{DecodeError, Variant, Version};

verus! {

/// The numeric code of a version tag.
pub open spec fn spec_version_number(v: Version) -> u16 {
    match v {
        Version::TIME => 1,
        Version::DCE => 2,
        Version::MD5 => 3,
        Version::RAND => 4,
        Version::SHA1 => 5,
    }
}

/// The version named by a 4-bit code, if any.
pub open spec fn spec_version_of(nibble: u8) -> Result<Version, DecodeError> {
    if nibble == 1 {
        Ok(Version::TIME)
    } else if nibble == 2 {
        Ok(Version::DCE)
    } else if nibble == 3 {
        Ok(Version::MD5)
    } else if nibble == 4 {
        Ok(Version::RAND)
    } else if nibble == 5 {
        Ok(Version::SHA1)
    } else {
        Err(DecodeError::UnrecognizedVersion)
    }
}

/// `time_hi_and_version` with its top four bits replaced by the code of `v`.
pub open spec fn spec_set_version(field: u16, v: Version) -> u16 {
    (field & 0x0fff) | (spec_version_number(v) << 12)
}

/// The version a `time_hi_and_version` value is tagged with, if any.
pub open spec fn spec_get_version(field: u16) -> Result<Version, DecodeError> {
    spec_version_of((field >> 12) as u8)
}

/// The variant named by the leading bits of `clock_seq_hi_and_reserved`:
/// `0xx` NCS, `10x` RFC 4122, `110` Microsoft, `111` future. The three
/// leading bits cover every case, so classification is total.
pub open spec fn spec_variant_of(b: u8) -> Result<Variant, DecodeError> {
    let n = b >> 5;
    if n <= 3 {
        Ok(Variant::NCS)
    } else if n <= 5 {
        Ok(Variant::RFC4122)
    } else if n == 6 {
        Ok(Variant::MS)
    } else {
        Ok(Variant::FUT)
    }
}

/// `clock_seq_hi_and_reserved` with its top two bits replaced by the
/// RFC 4122 variant pattern, binary `10`.
pub open spec fn spec_set_variant(b: u8) -> u8 {
    (b & 0x3f) | 0x80
}

/// The numeric code of a version tag.
pub fn version_number(v: Version) -> (n: u16)
    ensures
        n == spec_version_number(v),
{
    match v {
        Version::TIME => 1,
        Version::DCE => 2,
        Version::MD5 => 3,
        Version::RAND => 4,
        Version::SHA1 => 5,
    }
}

/// Clears the top four bits of `field` and ORs in the code of `v`.
pub fn set_version(field: u16, v: Version) -> (r: u16)
    ensures
        r == spec_set_version(field, v),
{
    (field & 0x0fff) | (version_number(v) << 12u16)
}

/// Reads the version tag from the top four bits of `field`.
pub fn get_version(field: u16) -> (r: Result<Version, DecodeError>)
    ensures
        r == spec_get_version(field),
{
    match (field >> 12u16) as u8 {
        1 => Ok(Version::TIME),
        2 => Ok(Version::DCE),
        3 => Ok(Version::MD5),
        4 => Ok(Version::RAND),
        5 => Ok(Version::SHA1),
        _ => Err(DecodeError::UnrecognizedVersion),
    }
}

/// Tagging law: reading the version back from a freshly tagged
/// `time_hi_and_version` field returns the version that was set, whatever
/// stood in the field before.
pub proof fn lemma_set_version_get(field: u16, v: Version)
    ensures
        spec_get_version(spec_set_version(field, v)) == Ok::<Version, DecodeError>(v),
{
    match v {
        Version::TIME => {
            assert((((field & 0x0fff) | (1u16 << 12u16)) >> 12u16) as u8 == 1) by (bit_vector);
        },
        Version::DCE => {
            assert((((field & 0x0fff) | (2u16 << 12u16)) >> 12u16) as u8 == 2) by (bit_vector);
        },
        Version::MD5 => {
            assert((((field & 0x0fff) | (3u16 << 12u16)) >> 12u16) as u8 == 3) by (bit_vector);
        },
        Version::RAND => {
            assert((((field & 0x0fff) | (4u16 << 12u16)) >> 12u16) as u8 == 4) by (bit_vector);
        },
        Version::SHA1 => {
            assert((((field & 0x0fff) | (5u16 << 12u16)) >> 12u16) as u8 == 5) by (bit_vector);
        },
    }
}

/// Tagging law: a freshly tagged `clock_seq_hi_and_reserved` byte always
/// classifies as the RFC 4122 variant, whatever stood in the byte before.
pub proof fn lemma_set_variant_get(b: u8)
    ensures
        spec_variant_of(spec_set_variant(b)) == Ok::<Variant, DecodeError>(Variant::RFC4122),
{
    assert(((b & 0x3f) | 0x80) >> 5u8 == 4 || ((b & 0x3f) | 0x80) >> 5u8 == 5) by (bit_vector);
}

/// Clears the top two bits of `b` and ORs in the RFC 4122 variant pattern.
pub fn set_variant(b: u8) -> (r: u8)
    ensures
        r == spec_set_variant(b),
{
    (b & 0x3f) | 0x80
}

/// Classifies `b` by its three leading bits. Every pattern names a variant,
/// so the error case of the result type is never produced; it stays for
/// defensive callers.
pub fn get_variant(b: u8) -> (r: Result<Variant, DecodeError>)
    ensures
        r == spec_variant_of(b),
{
    match b >> 5u8 {
        0 | 1 | 2 | 3 => Ok(Variant::NCS),
        4 | 5 => Ok(Variant::RFC4122),
        6 => Ok(Variant::MS),
        _ => {
            proof {
                assert(b >> 5u8 <= 7) by (bit_vector);
            }
            Ok(Variant::FUT)
        },
    }
}

} // verus!
