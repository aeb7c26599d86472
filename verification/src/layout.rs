//! The bit-field codec: the five RFC-defined sub-fields of an identifier
//! and the pure packing/unpacking between them and the canonical 16-byte
//! representation. Multi-byte fields sit at fixed byte offsets (0-3, 4-5,
//! 6-7, 8, 9, 10-15) in network (big-endian) byte order.

use vstd::prelude::*;

use crate::tag;
use crate::{DecodeError, Node, Timestamp, Variant, Version, UUID};

verus! {

broadcast use vstd::array::group_array_axioms;

/// The decomposed view of an identifier: five logical sub-fields, any
/// combination of which is a valid (if semantically meaningless) layout.
#[derive(Debug, PartialEq, Eq, Clone, Copy)]
pub struct Layout {
    /// Low 32 bits of the timestamp, or hash/random/id bits.
    pub time_low: u32,
    /// Mid 16 bits of the timestamp, or hash/random bits.
    pub time_mid: u16,
    /// High 12 bits of the timestamp plus the 4-bit version tag on top.
    pub time_hi_and_version: u16,
    /// High bits of the clock sequence, with the variant tag on top.
    pub clock_seq_hi_and_reserved: u8,
    /// Low byte of the clock sequence, or the DCE domain tag.
    pub clock_seq_low: u8,
    /// The node address, or hash/random bits.
    pub node: Node,
}

/// The byte at offset `i` of the packed form of `l`.
pub open spec fn spec_byte_at(l: Layout, i: int) -> u8 {
    if i == 0 {
        (l.time_low >> 24) as u8
    } else if i == 1 {
        (l.time_low >> 16) as u8
    } else if i == 2 {
        (l.time_low >> 8) as u8
    } else if i == 3 {
        l.time_low as u8
    } else if i == 4 {
        (l.time_mid >> 8) as u8
    } else if i == 5 {
        l.time_mid as u8
    } else if i == 6 {
        (l.time_hi_and_version >> 8) as u8
    } else if i == 7 {
        l.time_hi_and_version as u8
    } else if i == 8 {
        l.clock_seq_hi_and_reserved
    } else if i == 9 {
        l.clock_seq_low
    } else {
        l.node.0[i - 10]
    }
}

/// The packed 16-byte form of `l`.
pub open spec fn spec_pack(l: Layout) -> Seq<u8> {
    Seq::new(16, |i: int| spec_byte_at(l, i))
}

/// The field tuple read back from 16 packed bytes.
pub open spec fn spec_unpack(b: Seq<u8>) -> Layout
    recommends
        b.len() == 16,
{
    Layout {
        time_low: ((b[0] as u32) << 24 | (b[1] as u32) << 16 | (b[2] as u32) << 8 | (
        b[3] as u32)) as u32,
        time_mid: ((b[4] as u16) << 8 | (b[5] as u16)) as u16,
        time_hi_and_version: ((b[6] as u16) << 8 | (b[7] as u16)) as u16,
        clock_seq_hi_and_reserved: b[8],
        clock_seq_low: b[9],
        node: Node([b[10], b[11], b[12], b[13], b[14], b[15]]),
    }
}

impl Layout {
    /// The packed 16-byte form of this layout.
    pub open spec fn spec_bytes(&self) -> Seq<u8> {
        spec_pack(*self)
    }

    /// The 60-bit timestamp spread over the three time fields, the version
    /// nibble excluded.
    pub open spec fn spec_timestamp(&self) -> u64 {
        (self.time_low as u64) | (self.time_mid as u64) << 32 | (((self.time_hi_and_version
            & 0x0fff) as u64) << 48) as u64
    }

    /// The version tag of this layout, if the nibble names one.
    pub open spec fn spec_version(&self) -> Result<Version, DecodeError> {
        tag::spec_get_version(self.time_hi_and_version)
    }

    /// The variant named by the leading bits of the clock-sequence high
    /// byte.
    pub open spec fn spec_variant(&self) -> Result<Variant, DecodeError> {
        tag::spec_variant_of(self.clock_seq_hi_and_reserved)
    }

    /// Packs the five sub-fields into an identifier, each at its fixed
    /// offset, multi-byte fields in big-endian order.
    pub fn new(&self) -> (r: UUID)
        ensures
            r@ == self.spec_bytes(),
    {
        let r = UUID(
            [
                (self.time_low >> 24u32) as u8,
                (self.time_low >> 16u32) as u8,
                (self.time_low >> 8u32) as u8,
                self.time_low as u8,
                (self.time_mid >> 8u16) as u8,
                self.time_mid as u8,
                (self.time_hi_and_version >> 8u16) as u8,
                self.time_hi_and_version as u8,
                self.clock_seq_hi_and_reserved,
                self.clock_seq_low,
                self.node.0[0],
                self.node.0[1],
                self.node.0[2],
                self.node.0[3],
                self.node.0[4],
                self.node.0[5],
            ],
        );
        proof {
            assert(r@ =~= self.spec_bytes());
        }
        r
    }

    /// Unpacks an identifier into its field tuple; the inverse of
    /// [`Layout::new`].
    pub fn from_raw_bytes(uuid: UUID) -> (r: Layout)
        ensures
            r == spec_unpack(uuid@),
    {
        let b = &uuid.0;
        Layout {
            time_low: (b[0] as u32) << 24u32 | (b[1] as u32) << 16u32 | (b[2] as u32) << 8u32 | (
            b[3] as u32),
            time_mid: (b[4] as u16) << 8u16 | (b[5] as u16),
            time_hi_and_version: (b[6] as u16) << 8u16 | (b[7] as u16),
            clock_seq_hi_and_reserved: b[8],
            clock_seq_low: b[9],
            node: Node([b[10], b[11], b[12], b[13], b[14], b[15]]),
        }
    }

    /// Reassembles the 60-bit timestamp from the three time fields,
    /// dropping the version nibble.
    pub fn get_timestamp(&self) -> (r: u64)
        ensures
            r == self.spec_timestamp(),
    {
        (self.time_low as u64) | (self.time_mid as u64) << 32u64 | ((self.time_hi_and_version
            & 0x0fff) as u64) << 48u64
    }

    /// Reads the version tag from the top nibble of `time_hi_and_version`.
    pub fn get_version(&self) -> (r: Result<Version, DecodeError>)
        ensures
            r == self.spec_version(),
    {
        tag::get_version(self.time_hi_and_version)
    }

    /// Classifies the variant bits of `clock_seq_hi_and_reserved`.
    pub fn get_variant(&self) -> (r: Result<Variant, DecodeError>)
        ensures
            r == self.spec_variant(),
    {
        tag::get_variant(self.clock_seq_hi_and_reserved)
    }
}

impl From<UUID> for Layout {
    /// Unpacking, as a conversion.
    fn from(uuid: UUID) -> (r: Self) {
        Layout::from_raw_bytes(uuid)
    }
}

impl vstd::std_specs::convert::FromSpecImpl<UUID> for Layout {
    open spec fn obeys_from_spec() -> bool {
        true
    }

    open spec fn from_spec(uuid: UUID) -> Self {
        spec_unpack(uuid@)
    }
}

impl From<Timestamp> for Layout {
    /// A layout holding only a timestamp, split over the three time fields;
    /// version, clock sequence and node stay clear.
    fn from(ts: Timestamp) -> (r: Self) {
        let t = ts.get();
        Layout {
            time_low: t as u32,
            time_mid: (t >> 32u64) as u16,
            time_hi_and_version: ((t >> 48u64) as u16) & 0x0fff,
            clock_seq_hi_and_reserved: 0,
            clock_seq_low: 0,
            node: Node([0u8, 0u8, 0u8, 0u8, 0u8, 0u8]),
        }
    }
}

impl vstd::std_specs::convert::FromSpecImpl<Timestamp> for Layout {
    open spec fn obeys_from_spec() -> bool {
        true
    }

    open spec fn from_spec(ts: Timestamp) -> Self {
        Layout {
            time_low: ts.spec_get() as u32,
            time_mid: (ts.spec_get() >> 32u64) as u16,
            time_hi_and_version: ((ts.spec_get() >> 48u64) as u16) & 0x0fff,
            clock_seq_hi_and_reserved: 0,
            clock_seq_low: 0,
            node: Node([0u8, 0u8, 0u8, 0u8, 0u8, 0u8]),
        }
    }
}

impl From<Node> for Layout {
    /// A layout holding only a node address; every other field stays clear.
    fn from(node: Node) -> (r: Self) {
        Layout {
            time_low: 0,
            time_mid: 0,
            time_hi_and_version: 0,
            clock_seq_hi_and_reserved: 0,
            clock_seq_low: 0,
            node,
        }
    }
}

impl vstd::std_specs::convert::FromSpecImpl<Node> for Layout {
    open spec fn obeys_from_spec() -> bool {
        true
    }

    open spec fn from_spec(node: Node) -> Self {
        Layout {
            time_low: 0,
            time_mid: 0,
            time_hi_and_version: 0,
            clock_seq_hi_and_reserved: 0,
            clock_seq_low: 0,
            node,
        }
    }
}

/// The layout holding 16 hash or random bytes with the version and variant
/// bits re-tagged: the bytes sit at their packing offsets, except that the
/// top nibble of byte 6 becomes the code of `v` and the top two bits of
/// byte 8 become the RFC 4122 variant pattern.
pub open spec fn spec_tagged(h: Seq<u8>, v: Version) -> Layout
    recommends
        h.len() == 16,
{
    Layout {
        time_low: ((h[0] as u32) << 24u32 | (h[1] as u32) << 16u32 | (h[2] as u32) << 8u32 | (
        h[3] as u32)) as u32,
        time_mid: ((h[4] as u16) << 8u16 | (h[5] as u16)) as u16,
        time_hi_and_version: tag::spec_set_version(
            ((h[6] as u16) << 8u16 | (h[7] as u16)) as u16,
            v,
        ),
        clock_seq_hi_and_reserved: tag::spec_set_variant(h[8]),
        clock_seq_low: h[9],
        node: Node([h[10], h[11], h[12], h[13], h[14], h[15]]),
    }
}

impl Layout {
    /// Spreads 16 hash or random bytes over the five sub-fields and tags
    /// them with the version `v` and the RFC 4122 variant.
    pub fn tagged(h: [u8; 16], v: Version) -> (r: Layout)
        ensures
            r == spec_tagged(h@, v),
            r.spec_version() == Ok::<Version, DecodeError>(v),
            r.spec_variant() == Ok::<Variant, DecodeError>(Variant::RFC4122),
    {
        let r = Layout {
            time_low: (h[0] as u32) << 24u32 | (h[1] as u32) << 16u32 | (h[2] as u32) << 8u32 | (
            h[3] as u32),
            time_mid: (h[4] as u16) << 8u16 | (h[5] as u16),
            time_hi_and_version: tag::set_version((h[6] as u16) << 8u16 | (h[7] as u16), v),
            clock_seq_hi_and_reserved: tag::set_variant(h[8]),
            clock_seq_low: h[9],
            node: Node([h[10], h[11], h[12], h[13], h[14], h[15]]),
        };
        proof {
            tag::lemma_set_version_get(((h@[6] as u16) << 8u16 | (h@[7] as u16)) as u16, v);
            tag::lemma_set_variant_get(h@[8]);
        }
        r
    }
}

/// Round-trip law: unpacking a packed layout returns the original field
/// tuple, for every field tuple.
pub proof fn lemma_pack_unpack(l: Layout)
    ensures
        spec_unpack(spec_pack(l)) == l,
{
    let tl = l.time_low;
    assert((((tl >> 24) as u8) as u32) << 24 | (((tl >> 16) as u8) as u32) << 16 | (((tl
        >> 8) as u8) as u32) << 8 | ((tl as u8) as u32) == tl) by (bit_vector);
    let tm = l.time_mid;
    assert((((tm >> 8) as u8) as u16) << 8 | ((tm as u8) as u16) == tm) by (bit_vector);
    let th = l.time_hi_and_version;
    assert((((th >> 8) as u8) as u16) << 8 | ((th as u8) as u16) == th) by (bit_vector);
    assert(spec_unpack(spec_pack(l)).node.0 =~= l.node.0);
}

/// Round-trip law, the other way: packing the field tuple read from any
/// 16 bytes returns those bytes, so the codec is a bijection.
pub proof fn lemma_unpack_pack(b: Seq<u8>)
    requires
        b.len() == 16,
    ensures
        spec_pack(spec_unpack(b)) == b,
{
    let x0 = b[0];
    let x1 = b[1];
    let x2 = b[2];
    let x3 = b[3];
    let tl = ((x0 as u32) << 24 | (x1 as u32) << 16 | (x2 as u32) << 8 | (x3 as u32)) as u32;
    assert((tl >> 24) as u8 == x0 && (tl >> 16) as u8 == x1 && (tl >> 8) as u8 == x2 && tl as u8
        == x3) by (bit_vector)
        requires
            tl == ((x0 as u32) << 24 | (x1 as u32) << 16 | (x2 as u32) << 8 | (x3 as u32)) as u32,
    ;
    let x4 = b[4];
    let x5 = b[5];
    let tm = ((x4 as u16) << 8 | (x5 as u16)) as u16;
    assert((tm >> 8) as u8 == x4 && tm as u8 == x5) by (bit_vector)
        requires
            tm == ((x4 as u16) << 8 | (x5 as u16)) as u16,
    ;
    let x6 = b[6];
    let x7 = b[7];
    let th = ((x6 as u16) << 8 | (x7 as u16)) as u16;
    assert((th >> 8) as u8 == x6 && th as u8 == x7) by (bit_vector)
        requires
            th == ((x6 as u16) << 8 | (x7 as u16)) as u16,
    ;
    assert(spec_pack(spec_unpack(b)) =~= b);
}

/// Tag-transparency law: an identifier holding the packed bytes of a
/// layout carries the layout's own version and variant, read from the
/// nibble of byte 6 and the leading bits of byte 8.
pub proof fn lemma_pack_preserves_tags(l: Layout, u: UUID)
    requires
        u@ == spec_pack(l),
    ensures
        u.spec_version() == l.spec_version(),
        u.spec_variant() == l.spec_variant(),
{
    let th = l.time_hi_and_version;
    assert(((th >> 8) as u8) >> 4 == (th >> 12) as u8) by (bit_vector);
}

} // verus!
