//! The clock sequence generator: a 14-bit counter that disambiguates
//! identifiers generated within one clock tick or after the clock moves
//! backwards. It is an explicitly owned object handed to the time-based
//! generation calls, seeded from entropy and incremented modulo 2^14 on
//! every draw.

use vstd::prelude::*;

use crate::sys;
use crate::GenerationError;

verus! {

/// Upper bound (exclusive) of the 14-bit clock sequence.
pub const CLOCK_SEQ_LIMIT: u16 = 0x4000;

/// Ensures uniqueness of identifiers generated in one clock tick.
pub struct ClockSeq {
    counter: u16,
}

impl ClockSeq {
    /// The current counter value.
    pub closed spec fn count(&self) -> u16 {
        self.counter
    }

    /// The counter always fits in 14 bits.
    #[verifier::type_invariant]
    spec fn inv(&self) -> bool {
        self.counter < CLOCK_SEQ_LIMIT
    }

    /// A generator whose counter is seeded from the system entropy source.
    /// A failed entropy read is surfaced rather than masked with a fixed
    /// seed, which would invite cross-process collisions.
    pub fn new() -> (r: Result<Self, GenerationError>)
        ensures
            (match r {
                Ok(c) => c.count() < CLOCK_SEQ_LIMIT,
                Err(e) => e == GenerationError::EntropySourceUnavailable,
            }),
    {
        match sys::entropy_u128() {
            Some(bits) => Ok(Self::from_seed(bits as u16)),
            None => Err(GenerationError::EntropySourceUnavailable),
        }
    }

    /// A generator whose counter starts at `seed`, masked to 14 bits; use
    /// it where reproducible draws are wanted.
    pub fn from_seed(seed: u16) -> (r: Self)
        ensures
            r.count() == seed & 0x3fff,
            r.count() < CLOCK_SEQ_LIMIT,
    {
        proof {
            assert(seed & 0x3fff < 0x4000) by (bit_vector);
        }
        ClockSeq { counter: seed & 0x3fff }
    }

    /// Hands out the current value and steps the counter, wrapping modulo
    /// 2^14: consecutive draws are pairwise distinct within a window of
    /// 2^14 calls (see [`lemma_clock_seq_distinct`]).
    pub fn next(&mut self) -> (r: u16)
        ensures
            r == old(self).count(),
            r < CLOCK_SEQ_LIMIT,
            final(self).count() == (old(self).count() + 1) % (CLOCK_SEQ_LIMIT as int),
    {
        proof {
            use_type_invariant(&*self);
        }
        let r = self.counter;
        self.counter = (self.counter + 1) % CLOCK_SEQ_LIMIT;
        r
    }

    /// The counter as two little-endian bytes.
    pub fn to_le_bytes(&self) -> (r: [u8; 2])
        ensures
            r@[0] == self.count() as u8,
            r@[1] == (self.count() >> 8) as u8,
    {
        [self.counter as u8, (self.counter >> 8u16) as u8]
    }
}

impl Default for ClockSeq {
    /// A generator whose counter starts at zero.
    fn default() -> (r: Self)
        ensures
            r.count() == 0,
    {
        proof {
            assert(0u16 & 0x3fff == 0) by (bit_vector);
        }
        Self::from_seed(0)
    }
}

/// Distinctness law: within a window of 2^14 consecutive draws the clock
/// sequence never hands out the same value twice. The `i`-th draw after a
/// counter value `start` returns `(start + i) % 2^14`, so two draws at
/// distinct offsets below 2^14 differ.
pub proof fn lemma_clock_seq_distinct(start: u16, i: u16, j: u16)
    requires
        start < CLOCK_SEQ_LIMIT,
        i < j,
        j < CLOCK_SEQ_LIMIT,
    ensures
        (start + i) % (CLOCK_SEQ_LIMIT as int) != (start + j) % (CLOCK_SEQ_LIMIT as int),
{
    assert((start + i) % 0x4000 != (start + j) % 0x4000) by (bit_vector)
        requires
            start < 0x4000,
            i < j,
            j < 0x4000,
    ;
}

} // verus!
