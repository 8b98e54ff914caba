//! The small linear congruential generator the simulator draws from.
use vstd::prelude::*;

verus! {

pub const LCG_MULTIPLIER: u64 = 6364136223846793005;

/// The generator state after mixing in `seed`: `state * multiplier + seed`, modulo 2^64.
pub open spec fn lcg_next(state: u64, seed: u64) -> u64 {
    vstd::wrapping::u64_specs::wrapping_add(
        vstd::wrapping::u64_specs::wrapping_mul(state, LCG_MULTIPLIER),
        seed,
    )
}

/// Nanoseconds since the Unix epoch from `SystemTime::now()`, or `None` when
/// the clock reads before the epoch. Nothing is claimed of the value.
#[verifier::external_body]
fn clock_nanos() -> (r: Option<u64>) {
    match std::time::SystemTime::now().duration_since(std::time::UNIX_EPOCH) {
        Ok(d) => Some(d.as_nanos() as u64),
        Err(_) => None,
    }
}

/// The clock reading used as a seed (0 for a clock before the epoch). Every
/// `u64` is a possible reading, so no clause constrains the result.
fn clock_seed() -> u64 {
    match clock_nanos() {
        Some(n) => n,
        None => 0,
    }
}

/// A value in `start..end` from a seed: `start + seed % (end - start)` on the
/// low 32 bits of the seed.
pub fn in_range_u32(seed: u64, start: u32, end: u32) -> (r: u32)
    requires
        start < end,
    ensures
        r == start + (seed as u32) % ((end - start) as u32),
        start <= r < end,
{
    let span = end - start;
    start + (seed as u32) % span
}

/// A value in `start..end` from the low 16 bits of a seed.
pub fn in_range_u16(seed: u64, start: u16, end: u16) -> (r: u16)
    requires
        start < end,
    ensures
        r == start + (seed as u16) % ((end - start) as u16),
        start <= r < end,
{
    let span = end - start;
    start + (seed as u16) % span
}

/// A value in `start..end` from a seed taken as a `usize`.
pub fn in_range_usize(seed: u64, start: usize, end: usize) -> (r: usize)
    requires
        start < end,
    ensures
        r == start + (seed as usize) % ((end - start) as usize),
        start <= r < end,
{
    let span = end - start;
    start + (seed as usize) % span
}

/// Generator state.
#[derive(Debug, Clone, Copy)]
pub struct Rng {
    pub state: u64,
}

/// A generator seeded from the clock; as with the seed itself, any state
/// is a possible outcome.
pub fn thread_rng() -> (r: Rng) {
    Rng { state: clock_seed() }
}

impl Rng {
    /// Mixes `seed` into the state.
    pub fn advance(&mut self, seed: u64)
        ensures
            final(self).state == lcg_next(old(self).state, seed),
    {
        self.state = self.state.wrapping_mul(LCG_MULTIPLIER).wrapping_add(seed);
    }

    /// Mixes the clock into the state and draws a value in `start..end`.
    pub fn gen_range_u32(&mut self, start: u32, end: u32) -> (r: u32)
        requires
            start < end,
        ensures
            exists|seed: u64| #[trigger] lcg_next(old(self).state, seed) == final(self).state,
            r == start + (final(self).state as u32) % ((end - start) as u32),
            start <= r < end,
    {
        let seed = clock_seed();
        self.advance(seed);
        in_range_u32(self.state, start, end)
    }

    /// Mixes the clock into the state and draws a value in `start..end`.
    pub fn gen_range_u16(&mut self, start: u16, end: u16) -> (r: u16)
        requires
            start < end,
        ensures
            exists|seed: u64| #[trigger] lcg_next(old(self).state, seed) == final(self).state,
            r == start + (final(self).state as u16) % ((end - start) as u16),
            start <= r < end,
    {
        let seed = clock_seed();
        self.advance(seed);
        in_range_u16(self.state, start, end)
    }

    /// Mixes the clock into the state and draws a value in `start..end`.
    pub fn gen_range_usize(&mut self, start: usize, end: usize) -> (r: usize)
        requires
            start < end,
        ensures
            exists|seed: u64| #[trigger] lcg_next(old(self).state, seed) == final(self).state,
            r == start + (final(self).state as usize) % ((end - start) as usize),
            start <= r < end,
    {
        let seed = clock_seed();
        self.advance(seed);
        in_range_usize(self.state, start, end)
    }
}

} // verus!
