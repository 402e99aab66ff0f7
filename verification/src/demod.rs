//! Integer groundwork of the demodulation pipeline.
//!
//! The sample math itself is floating point and lives outside; what is
//! verified here is everything discrete about the pipeline: how byte pairs
//! index the I/Q table and which exact levels that table holds, how many
//! samples decimation leaves, and how often the signal power is published.

use vstd::prelude::*;

verus! {

/// The table index of an interleaved byte pair: the in-phase byte in the
/// low bits, the quadrature byte in the high bits.
pub fn iq_index(lo: u8, hi: u8) -> (r: u16)
    ensures
        r == lo + 256 * (hi as int),
{
    lo as u16 + 256 * (hi as u16)
}

/// The pair index is the two bytes packed as a little-endian word.
pub proof fn lemma_iq_index_packs(lo: u8, hi: u8)
    ensures
        lo + 256 * (hi as int) == (lo as u16) | ((hi as u16) << 8),
{
    assert((lo as u16) + 256 * (hi as u16) == (lo as u16) | ((hi as u16) << 8)) by (bit_vector);
}

/// The exact level a sample byte maps to, as a fraction over 255: a byte
/// `b` becomes the level `(2·b − 255) / 255`, which is `(b − 127.5) /
/// 127.5` written without halves.
pub fn iq_level_numer(b: u8) -> (r: i32)
    ensures
        r == 2 * (b as int) - 255,
        -255 <= r <= 255,
{
    2 * (b as i32) - 255
}

/// Number of samples decimation leaves from a block: one per full factor.
pub fn decimated_len(n: usize, factor: usize) -> (r: usize)
    requires
        factor > 0,
    ensures
        r == n as int / factor as int,
{
    n / factor
}

/// Publishes at a fraction of the rate it is asked: one tick in every
/// period fires, starting with the first.
pub struct Throttler {
    /// Ticks per firing.
    pub period: u32,
    /// Ticks since the last firing.
    pub count: u32,
}

impl Throttler {
    /// A throttler that fires on its first tick and every `period`-th tick
    /// after.
    pub fn new(period: u32) -> (r: Throttler)
        requires
            period > 0,
        ensures
            r == (Throttler { period, count: 0u32 }),
    {
        Throttler { period, count: 0 }
    }

    /// Record one tick; fires exactly when a whole period has passed since
    /// the last firing (or at the very first tick).
    pub fn tick(&mut self) -> (fire: bool)
        requires
            old(self).count < old(self).period,
        ensures
            fire == (old(self).count == 0),
            final(self).period == old(self).period,
            final(self).count == ((old(self).count + 1) as u32) % old(self).period,
            final(self).count < final(self).period,
    {
        let fire = self.count == 0;
        self.count = (self.count + 1) % self.period;
        fire
    }
}

} // verus!
