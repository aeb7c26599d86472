//! The time-based algorithm (version 1): a 60-bit timestamp split over the
//! three time fields, a clock-sequence draw, and the node address.

use vstd::prelude::*;

use crate::clock::{ClockSeq, CLOCK_SEQ_LIMIT};
use crate::layout::Layout;
use crate::tag;
use crate::{DecodeError, Node, Timestamp, Variant, Version, UUID};

verus! {

/// Mask of the 60 timestamp bits.
pub const TIMESTAMP_MASK: u64 = 0x0fff_ffff_ffff_ffff;

/// The layout of a time-based identifier built from a timestamp, a node
/// address and a clock-sequence value.
pub open spec fn spec_v1(ts: Timestamp, node: Node, cs: u16) -> Layout {
    Layout {
        time_low: ts.spec_get() as u32,
        time_mid: (ts.spec_get() >> 32) as u16,
        time_hi_and_version: tag::spec_set_version((ts.spec_get() >> 48) as u16, Version::TIME),
        clock_seq_hi_and_reserved: tag::spec_set_variant((cs >> 8) as u8),
        clock_seq_low: cs as u8,
        node,
    }
}

impl UUID {
    /// Builds the layout of a time-based identifier: `ts` split over the
    /// three time fields with the version tag on top, a value drawn from
    /// `clock` in the clock-sequence bytes with the variant tag on top, and
    /// `node` in the node field. The 60 timestamp bits survive unchanged.
    pub fn v1(ts: Timestamp, node: Node, clock: &mut ClockSeq) -> (r: Layout)
        ensures
            final(clock).count() == (old(clock).count() + 1) % (CLOCK_SEQ_LIMIT as int),
            r == spec_v1(ts, node, old(clock).count()),
            r.spec_version() == Ok::<Version, DecodeError>(Version::TIME),
            r.spec_variant() == Ok::<Variant, DecodeError>(Variant::RFC4122),
            r.spec_timestamp() == ts.spec_get() & TIMESTAMP_MASK,
    {
        let t = ts.get();
        let cs = clock.next();
        let r = Layout {
            time_low: t as u32,
            time_mid: (t >> 32u64) as u16,
            time_hi_and_version: tag::set_version((t >> 48u64) as u16, Version::TIME),
            clock_seq_hi_and_reserved: tag::set_variant((cs >> 8u16) as u8),
            clock_seq_low: cs as u8,
            node,
        };
        proof {
            tag::lemma_set_version_get((t >> 48u64) as u16, Version::TIME);
            tag::lemma_set_variant_get((cs >> 8u16) as u8);
            assert((t as u32) as u64 | (((t >> 32u64) as u16) as u64) << 32u64 | ((((((t
                >> 48u64) as u16) & 0x0fff) | (1u16 << 12u16)) & 0x0fff) as u64) << 48u64 == t
                & 0x0fff_ffff_ffff_ffff) by (bit_vector);
        }
        r
    }
}

} // verus!
