//! Deterministic random deviates for the simulation.
//!
//! Every draw in the pipeline is a 64-bit word of a ChaCha8 stream,
//! identified by the stream's seed and the word's position. A
//! [`RandomSource`] is just that pair, so verified code knows exactly
//! which word each draw returns and the whole simulation is a pure
//! function of its seed. Each simulated unit of work owns its own
//! source; sources are never shared.

use vstd::prelude::*;
use rand_chacha::ChaCha8Rng;
use rand_chacha::rand_core::{RngCore, SeedableRng};

verus! {

/// The 64-bit word at position `pos` of the ChaCha8 stream for `seed`.
/// ChaCha8 is a deterministic cipher: the word depends on the seed and
/// the position alone, on every machine and in every process.
pub uninterp spec fn stream_word(seed: u64, pos: u64) -> u64;

/// The draw at `pos` reduced to `[0, n)`.
pub open spec fn sw_below(seed: u64, pos: u64, n: u64) -> int {
    stream_word(seed, pos) as int % (n as int)
}

/// The draw at `pos` mapped to the inclusive range `[lo, hi]`.
pub open spec fn sw_range(seed: u64, pos: u64, lo: u64, hi: u64) -> int {
    lo + stream_word(seed, pos) as int % (hi - lo + 1)
}

/// The draw at `pos` as a symmetric noise term in `[-spread, +spread]`.
pub open spec fn sw_noise(seed: u64, pos: u64, spread: u64) -> int {
    stream_word(seed, pos) as int % (2 * spread + 1) - spread
}

/// Relies on `rand_core::SeedableRng::seed_from_u64` (documented as a
/// value-stable seeding algorithm), `rand_chacha::ChaCha8Rng::set_word_pos`
/// and `rand_core::RngCore::next_u64`: together they return the 64-bit
/// word of the seeded ChaCha8 stream at the given 64-bit-word offset,
/// a pure function of `seed` and `pos`.
#[verifier::external_body]
fn chacha_word_at(seed: u64, pos: u64) -> (r: u64)
    ensures
        r == stream_word(seed, pos),
{
    let mut rng = ChaCha8Rng::seed_from_u64(seed);
    rng.set_word_pos((pos as u128) * 2);
    rng.next_u64()
}

/// A seedable source of uniform deviates: a ChaCha8 stream seed plus the
/// position of the next unread 64-bit word.
pub struct RandomSource {
    /// Seed of the underlying ChaCha8 stream.
    pub seed: u64,
    /// Position (in 64-bit words) of the next draw.
    pub pos: u64,
}

impl RandomSource {
    /// A fresh source at the start of the stream for `seed`.
    pub fn new(seed: u64) -> (r: RandomSource)
        ensures
            r.seed == seed,
            r.pos == 0,
    {
        RandomSource { seed, pos: 0 }
    }

    /// Draw the next raw 64-bit word and advance the position.
    pub fn next_u64(&mut self) -> (r: u64)
        requires
            old(self).pos < u64::MAX,
        ensures
            r == stream_word(old(self).seed, old(self).pos),
            final(self).seed == old(self).seed,
            final(self).pos == old(self).pos + 1,
    {
        let w = chacha_word_at(self.seed, self.pos);
        self.pos = self.pos + 1;
        w
    }

    /// Draw a uniform value in `[0, n)` by reducing the next word.
    pub fn next_below(&mut self, n: u64) -> (r: u64)
        requires
            n >= 1,
            old(self).pos < u64::MAX,
        ensures
            r == sw_below(old(self).seed, old(self).pos, n),
            r < n,
            final(self).seed == old(self).seed,
            final(self).pos == old(self).pos + 1,
    {
        let w = self.next_u64();
        w % n
    }

    /// Draw a uniform value in the inclusive range `[lo, hi]`.
    pub fn next_range(&mut self, lo: u64, hi: u64) -> (r: u64)
        requires
            lo <= hi,
            hi - lo < u64::MAX,
            old(self).pos < u64::MAX,
        ensures
            r == sw_range(old(self).seed, old(self).pos, lo, hi),
            lo <= r <= hi,
            final(self).seed == old(self).seed,
            final(self).pos == old(self).pos + 1,
    {
        let span = hi - lo + 1;
        let w = self.next_below(span);
        lo + w
    }

    /// Draw a multiplicative jitter in milli-units, uniform over
    /// `[1000 - spread, 1000 + spread]` (1000 = a factor of exactly 1).
    pub fn next_jitter_milli(&mut self, spread: u64) -> (r: u64)
        requires
            spread <= 1000,
            old(self).pos < u64::MAX,
        ensures
            r == sw_range(old(self).seed, old(self).pos, (1000 - spread) as u64, (1000 + spread) as u64),
            1000 - spread <= r <= 1000 + spread,
            final(self).seed == old(self).seed,
            final(self).pos == old(self).pos + 1,
    {
        self.next_range(1000 - spread, 1000 + spread)
    }

    /// Draw a probability roll in parts-per-million, uniform over
    /// `[0, 1_000_000)`; a Bernoulli event with probability `p` ppm
    /// occurs when the roll is below `p`.
    pub fn next_roll_ppm(&mut self) -> (r: u64)
        requires
            old(self).pos < u64::MAX,
        ensures
            r == sw_below(old(self).seed, old(self).pos, 1_000_000),
            r < 1_000_000,
            final(self).seed == old(self).seed,
            final(self).pos == old(self).pos + 1,
    {
        self.next_below(1_000_000)
    }

    /// Draw a symmetric, bounded noise term: uniform over
    /// `[-spread, +spread]`. Stands in for the unbounded noise of the
    /// telemetry model; symmetry and the bound are all the consumers rely on.
    pub fn next_noise(&mut self, spread: u64) -> (r: i64)
        requires
            spread <= 1_000_000,
            old(self).pos < u64::MAX,
        ensures
            r == sw_noise(old(self).seed, old(self).pos, spread),
            -(spread as int) <= r <= spread as int,
            final(self).seed == old(self).seed,
            final(self).pos == old(self).pos + 1,
    {
        let w = self.next_below(2 * spread + 1);
        (w as i64) - (spread as i64)
    }
}

} // verus!
