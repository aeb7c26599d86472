//! The DCE-security algorithm (version 2): a time-based layout whose
//! `time_low` slot carries a 32-bit system id and whose `clock_seq_low`
//! byte carries the domain tag saying which kind of id it is. The id
//! itself (user, group or organisation) is supplied by the caller; looking
//! it up is a platform concern outside this crate.

use vstd::prelude::*;

use crate::clock::{ClockSeq, CLOCK_SEQ_LIMIT};
use crate::layout::Layout;
use crate::tag;
use crate::{DecodeError, Node, Timestamp, Variant, Version, UUID};

verus! {

/// The kind of system id a DCE-security identifier embeds, stored in
/// `clock_seq_low`.
#[derive(Debug, Copy, Clone, PartialEq, Eq)]
pub enum Domain {
    /// The slot holds a POSIX user id.
    PERSON,
    /// The slot holds a POSIX group id.
    GROUP,
    /// The slot holds a caller-supplied organisation id.
    ORG,
}

/// The tag byte of a domain.
pub open spec fn spec_domain_num(d: Domain) -> u8 {
    match d {
        Domain::PERSON => 0,
        Domain::GROUP => 1,
        Domain::ORG => 2,
    }
}

/// The domain named by a tag byte, if any.
pub open spec fn spec_domain_of(b: u8) -> Result<Domain, DecodeError> {
    if b == 0 {
        Ok(Domain::PERSON)
    } else if b == 1 {
        Ok(Domain::GROUP)
    } else if b == 2 {
        Ok(Domain::ORG)
    } else {
        Err(DecodeError::UnrecognizedDomain)
    }
}

/// The layout of a DCE-security identifier: a time-based layout with `id`
/// in place of the low timestamp bits and the domain tag in place of the
/// low clock-sequence byte.
pub open spec fn spec_v2(domain: Domain, id: u32, ts: Timestamp, node: Node, cs: u16) -> Layout {
    Layout {
        time_low: id,
        time_mid: (ts.spec_get() >> 32u64) as u16,
        time_hi_and_version: tag::spec_set_version((ts.spec_get() >> 48u64) as u16, Version::DCE),
        clock_seq_hi_and_reserved: tag::spec_set_variant((cs >> 8u16) as u8),
        clock_seq_low: spec_domain_num(domain),
        node,
    }
}

impl UUID {
    /// Returns the domain tag of a DCE-security identifier, read from
    /// byte 9 (the `clock_seq_low` slot).
    ///
    /// See [`Domain`].
    pub fn get_domain(&self) -> (r: Result<Domain, DecodeError>)
        ensures
            r == spec_domain_of(self@[9]),
    {
        match self.0[9] {
            0 => Ok(Domain::PERSON),
            1 => Ok(Domain::GROUP),
            2 => Ok(Domain::ORG),
            _ => Err(DecodeError::UnrecognizedDomain),
        }
    }

    /// Builds the layout of a DCE-security identifier: `id` replaces the
    /// low 32 timestamp bits, the tag of `domain` replaces the low
    /// clock-sequence byte, and version and variant are tagged as always.
    /// Reading the domain back from the packed bytes returns `domain`.
    pub fn v2(domain: Domain, id: u32, ts: Timestamp, node: Node, clock: &mut ClockSeq) -> (r:
        Layout)
        ensures
            final(clock).count() == (old(clock).count() + 1) % (CLOCK_SEQ_LIMIT as int),
            r == spec_v2(domain, id, ts, node, old(clock).count()),
            r.spec_version() == Ok::<Version, DecodeError>(Version::DCE),
            r.spec_variant() == Ok::<Variant, DecodeError>(Variant::RFC4122),
            spec_domain_of(r.clock_seq_low) == Ok::<Domain, DecodeError>(domain),
    {
        let t = ts.get();
        let cs = clock.next();
        let tag_byte = match domain {
            Domain::PERSON => 0,
            Domain::GROUP => 1,
            Domain::ORG => 2,
        };
        let r = Layout {
            time_low: id,
            time_mid: (t >> 32u64) as u16,
            time_hi_and_version: tag::set_version((t >> 48u64) as u16, Version::DCE),
            clock_seq_hi_and_reserved: tag::set_variant((cs >> 8u16) as u8),
            clock_seq_low: tag_byte,
            node,
        };
        proof {
            tag::lemma_set_version_get((t >> 48u64) as u16, Version::DCE);
            tag::lemma_set_variant_get((cs >> 8u16) as u8);
        }
        r
    }
}

} // verus!
