//! Universally unique identifiers in the RFC 4122 binary layout: 16-byte
//! values carrying a timestamp, clock sequence and node address (or hash or
//! random bits, depending on the generation algorithm), with the version and
//! variant tags multiplexed into reserved bit positions.
//!
//! The crate is organised around three pure cores. The bit-field codec
//! ([`Layout`]) packs the five RFC-defined sub-fields into the canonical
//! 16-byte representation and unpacks them again. The tagger ([`tag`])
//! encodes and decodes the version and variant bits. The string codec
//! ([`text`]) renders and parses the canonical hyphenated hex form. The
//! five generation algorithms in [`rfc4122`] are built on those cores;
//! system collaborators (clock, entropy, network address) sit behind the
//! narrow trusted layer in [`sys`].

use vstd::prelude::*;

pub mod clock;
pub mod layout;
pub mod rfc4122;
pub mod sys;
pub mod tag;
pub mod text;

verus! {

broadcast use vstd::array::group_array_axioms;

/// The `IEEE-802` network address.
#[derive(Debug, PartialEq, Eq, Clone, Copy)]
pub struct Node(pub [u8; 6]);

impl From<[u8; 6]> for Node {
    fn from(node: [u8; 6]) -> (r: Self) {
        Node(node)
    }
}

impl vstd::std_specs::convert::FromSpecImpl<[u8; 6]> for Node {
    open spec fn obeys_from_spec() -> bool {
        true
    }

    open spec fn from_spec(node: [u8; 6]) -> Self {
        Node(node)
    }
}

/// A coordinated universal time (UTC) reading, counted in 100-nanosecond
/// ticks since the Gregorian reform date (1582-10-15), held in a 64-bit
/// container whose top four bits stay clear.
#[derive(Debug, Copy, Clone, PartialEq, Eq)]
pub enum Timestamp {
    UTC(u64),
}

/// Number of 100-nanosecond ticks between 1582-10-15 and 1970-01-01.
pub const GREGORIAN_UNIX_OFFSET_TICKS: u64 = 0x01B2_1DD2_1381_4000;

/// Upper bound (exclusive) of a 60-bit timestamp.
pub const TIMESTAMP_LIMIT: u64 = 0x1000_0000_0000_0000;

impl Timestamp {
    /// The tick count held by this reading.
    pub open spec fn spec_get(&self) -> u64 {
        match *self {
            Timestamp::UTC(t) => t,
        }
    }

    /// Returns the [`Timestamp`] value.
    pub fn get(&self) -> (r: u64)
        ensures
            r == self.spec_get(),
    {
        match self {
            Timestamp::UTC(t) => *t,
        }
    }

    /// Converts a nanosecond count since the Unix epoch into the RFC tick
    /// scale: 100-nanosecond units since 1582-10-15. The result always fits
    /// in the 60 bits the layout reserves for it.
    pub fn from_unix_nanos(nanos: u64) -> (r: Timestamp)
        ensures
            r.spec_get() == nanos / 100 + GREGORIAN_UNIX_OFFSET_TICKS,
            r.spec_get() < TIMESTAMP_LIMIT,
    {
        Timestamp::UTC(nanos / 100 + GREGORIAN_UNIX_OFFSET_TICKS)
    }

    /// Reads the wall clock and converts it to the RFC tick scale. Returns
    /// `None` when the platform clock stands before the Unix epoch or its
    /// count does not fit the nanosecond container; no reading aborts.
    pub fn now() -> (r: Option<Timestamp>)
        ensures
            r is Some ==> r->0.spec_get() < TIMESTAMP_LIMIT,
    {
        match sys::unix_nanos_now() {
            Some(n) => Some(Timestamp::from_unix_nanos(n)),
            None => None,
        }
    }
}

/// A universally unique identifier: exactly 16 bytes, multi-byte fields in
/// network (big-endian) byte order. Equality and ordering are exact
/// byte-wise comparisons.
#[derive(Debug, PartialEq, Eq, PartialOrd, Ord, Hash, Clone, Copy)]
pub struct UUID(pub [u8; 16]);

impl View for UUID {
    type V = Seq<u8>;

    open spec fn view(&self) -> Seq<u8> {
        self.0@
    }
}

/// The fixed bytes of the DNS namespace identifier (RFC 4122 appendix C).
pub open spec fn spec_namespace_dns() -> UUID {
    UUID(
        [0x6bu8, 0xa7u8, 0xb8u8, 0x10u8, 0x9du8, 0xadu8, 0x11u8, 0xd1u8, 0x80u8, 0xb4u8, 0x00u8,
            0xc0u8, 0x4fu8, 0xd4u8, 0x30u8, 0xc8u8],
    )
}

/// The fixed bytes of the OID namespace identifier (RFC 4122 appendix C).
pub open spec fn spec_namespace_oid() -> UUID {
    UUID(
        [0x6bu8, 0xa7u8, 0xb8u8, 0x12u8, 0x9du8, 0xadu8, 0x11u8, 0xd1u8, 0x80u8, 0xb4u8, 0x00u8,
            0xc0u8, 0x4fu8, 0xd4u8, 0x30u8, 0xc8u8],
    )
}

/// The fixed bytes of the URL namespace identifier (RFC 4122 appendix C).
pub open spec fn spec_namespace_url() -> UUID {
    UUID(
        [0x6bu8, 0xa7u8, 0xb8u8, 0x11u8, 0x9du8, 0xadu8, 0x11u8, 0xd1u8, 0x80u8, 0xb4u8, 0x00u8,
            0xc0u8, 0x4fu8, 0xd4u8, 0x30u8, 0xc8u8],
    )
}

/// The fixed bytes of the X.500 namespace identifier (RFC 4122 appendix C).
pub open spec fn spec_namespace_x500() -> UUID {
    UUID(
        [0x6bu8, 0xa7u8, 0xb8u8, 0x14u8, 0x9du8, 0xadu8, 0x11u8, 0xd1u8, 0x80u8, 0xb4u8, 0x00u8,
            0xc0u8, 0x4fu8, 0xd4u8, 0x30u8, 0xc8u8],
    )
}

impl UUID {
    /// UUID namespace for domain name system (DNS) names.
    pub fn namespace_dns() -> (r: UUID)
        ensures
            r == spec_namespace_dns(),
    {
        UUID(
            [0x6b, 0xa7, 0xb8, 0x10, 0x9d, 0xad, 0x11, 0xd1, 0x80, 0xb4, 0x00, 0xc0, 0x4f, 0xd4,
                0x30, 0xc8],
        )
    }

    /// UUID namespace for ISO object identifiers (OIDs).
    pub fn namespace_oid() -> (r: UUID)
        ensures
            r == spec_namespace_oid(),
    {
        UUID(
            [0x6b, 0xa7, 0xb8, 0x12, 0x9d, 0xad, 0x11, 0xd1, 0x80, 0xb4, 0x00, 0xc0, 0x4f, 0xd4,
                0x30, 0xc8],
        )
    }

    /// UUID namespace for uniform resource locators (URLs).
    pub fn namespace_url() -> (r: UUID)
        ensures
            r == spec_namespace_url(),
    {
        UUID(
            [0x6b, 0xa7, 0xb8, 0x11, 0x9d, 0xad, 0x11, 0xd1, 0x80, 0xb4, 0x00, 0xc0, 0x4f, 0xd4,
                0x30, 0xc8],
        )
    }

    /// UUID namespace for X.500 distinguished names (DNs).
    pub fn namespace_x500() -> (r: UUID)
        ensures
            r == spec_namespace_x500(),
    {
        UUID(
            [0x6b, 0xa7, 0xb8, 0x14, 0x9d, 0xad, 0x11, 0xd1, 0x80, 0xb4, 0x00, 0xc0, 0x4f, 0xd4,
                0x30, 0xc8],
        )
    }

    /// The version tag held in the top nibble of byte 6, if it names one.
    pub open spec fn spec_version(&self) -> Result<Version, DecodeError> {
        tag::spec_version_of(self@[6] >> 4u8)
    }

    /// The variant named by the leading bits of byte 8.
    pub open spec fn spec_variant(&self) -> Result<Variant, DecodeError> {
        tag::spec_variant_of(self@[8])
    }

    /// Returns the algorithm number of this identifier, read from the top
    /// nibble of byte 6.
    ///
    /// See [`Version`].
    pub fn get_version(&self) -> (r: Result<Version, DecodeError>)
        ensures
            r == self.spec_version(),
    {
        match self.0[6] >> 4u8 {
            1 => Ok(Version::TIME),
            2 => Ok(Version::DCE),
            3 => Ok(Version::MD5),
            4 => Ok(Version::RAND),
            5 => Ok(Version::SHA1),
            _ => Err(DecodeError::UnrecognizedVersion),
        }
    }

    /// Returns the type field of this identifier, classified by the
    /// leading bits of byte 8.
    ///
    /// See [`Variant`].
    pub fn get_variant(&self) -> (r: Result<Variant, DecodeError>)
        ensures
            r == self.spec_variant(),
    {
        tag::get_variant(self.0[8])
    }

    /// Returns the node field: the last six bytes.
    ///
    /// See [`Node`].
    pub fn get_node(&self) -> (r: Node)
        ensures
            r.0@ == self@.subrange(10, 16),
    {
        let n = &self.0;
        let r = Node([n[10], n[11], n[12], n[13], n[14], n[15]]);
        proof {
            assert(r.0@ =~= self@.subrange(10, 16));
        }
        r
    }
}

impl Default for UUID {
    /// The nil identifier: all 16 bytes zero.
    fn default() -> (r: Self)
        ensures
            forall|i: int| 0 <= i < 16 ==> r@[i] == 0u8,
    {
        UUID([0u8; 16])
    }
}

impl From<[u8; 16]> for UUID {
    fn from(bytes: [u8; 16]) -> (r: Self) {
        UUID(bytes)
    }
}

impl vstd::std_specs::convert::FromSpecImpl<[u8; 16]> for UUID {
    open spec fn obeys_from_spec() -> bool {
        true
    }

    open spec fn from_spec(bytes: [u8; 16]) -> Self {
        UUID(bytes)
    }
}

impl From<UUID> for [u8; 16] {
    fn from(uuid: UUID) -> (r: Self) {
        uuid.0
    }
}

impl vstd::std_specs::convert::FromSpecImpl<UUID> for [u8; 16] {
    open spec fn obeys_from_spec() -> bool {
        true
    }

    open spec fn from_spec(uuid: UUID) -> Self {
        uuid.0
    }
}

/// The algorithm that built an identifier, read from the most significant
/// four bits of `time_hi_and_version`.
#[derive(Debug, Eq, PartialEq, Clone, Copy)]
pub enum Version {
    /// The time-based version (1).
    TIME,
    /// The DCE-security version (2), with an embedded POSIX id.
    DCE,
    /// The name-based legacy-hash slot (3).
    MD5,
    /// The randomly generated version (4).
    RAND,
    /// The name-based hash slot (5).
    SHA1,
}

/// The specification family an identifier belongs to, read from the leading
/// bits of `clock_seq_hi_and_reserved`. This crate only ever produces
/// [`Variant::RFC4122`].
#[derive(Debug, Eq, PartialEq, Clone, Copy)]
pub enum Variant {
    /// Reserved, NCS backward compatibility (leading bits `0xx`).
    NCS,
    /// The variant of the RFC 4122 document (leading bits `10x`).
    RFC4122,
    /// Reserved, Microsoft backward compatibility (leading bits `110`).
    MS,
    /// Reserved for future definition (leading bits `111`).
    FUT,
}

/// A packed value whose reserved bits name no known version or variant.
#[derive(Debug, Eq, PartialEq, Clone, Copy)]
pub enum DecodeError {
    /// The version nibble is outside 1..=5.
    UnrecognizedVersion,
    /// The variant bits match no known pattern.
    UnrecognizedVariant,
    /// The domain byte of a DCE-security identifier is outside 0..=2.
    UnrecognizedDomain,
}

/// A string rejected by the canonical-form parser.
#[derive(Debug, Eq, PartialEq, Clone, Copy)]
pub enum ParseError {
    /// After whitespace is stripped, the text is neither 36 nor 32 bytes.
    InvalidLength,
    /// A separator stands where a digit belongs, or a digit where a
    /// separator belongs.
    InvalidCharacter,
    /// A character in a digit slot is not a hexadecimal digit.
    InvalidHexDigit,
}

/// A generation algorithm that could not obtain what it needs from the
/// platform.
#[derive(Debug, Eq, PartialEq, Clone, Copy)]
pub enum GenerationError {
    /// The platform cannot supply the id a DCE-security domain calls for.
    UnsupportedPlatform,
    /// The random source could not be read.
    EntropySourceUnavailable,
}

} // verus!
