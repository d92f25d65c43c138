//! A worker's private pseudo-random source.
//!
//! Each worker owns one generator, seeded from its worker index alone, so a
//! worker replays the same operation stream on every run. The generator is
//! modelled by the history of events it has served: the seeding and every
//! draw, in order. Each value drawn is a pure function of that history, which
//! is what makes the generated workload reproducible.

use vstd::prelude::*;

verus! {

/// Marks the seeding of the generator in a draw history.
pub const EVENT_SEED: u64 = 0;

/// Marks one bounded integer draw in a draw history.
pub const EVENT_DRAW: u64 = 1;

/// Marks one buffer fill in a draw history.
pub const EVENT_BYTES: u64 = 2;

#[verifier::external_type_specification]
#[verifier::external_body]
pub struct ExStdRng(rand::rngs::StdRng);

/// The value a bounded integer draw returns, for a given draw history and
/// bound.
pub uninterp spec fn draw_of(h: Seq<(u64, u64)>, bound: u64) -> u64;

/// The bytes a buffer fill returns, for a given draw history and length.
pub uninterp spec fn bytes_of(h: Seq<(u64, u64)>, len: u64) -> Seq<u8>;

/// A worker's private pseudo-random source, with the history of the events it
/// has served: the seeding first, then every draw in order.
pub struct WorkerRng {
    inner: rand::rngs::StdRng,
    history: Ghost<Seq<(u64, u64)>>,
}

impl WorkerRng {
    /// The seed event followed by every draw served so far.
    pub closed spec fn history(self) -> Seq<(u64, u64)> {
        self.history@
    }

    /// Relies on rand's SeedableRng::seed_from_u64 for StdRng: the generator
    /// state it builds is a pure function of the seed, so every value drawn
    /// later is determined by the draw history alone.
    #[verifier::external_body]
    fn seeded(seed: u64) -> rand::rngs::StdRng {
        rand::SeedableRng::seed_from_u64(seed)
    }

    /// The generator of one worker: seeded from the worker's index alone, so
    /// that workers never share a stream and each stream is reproducible.
    pub fn for_worker(worker_index: u64) -> (r: WorkerRng)
        ensures
            r.history() == seq![(EVENT_SEED, worker_index)],
    {
        let ghost h: Seq<(u64, u64)> = seq![(EVENT_SEED, worker_index)];
        WorkerRng { inner: WorkerRng::seeded(worker_index), history: Ghost(h) }
    }

    /// Relies on rand's Rng::gen_range on the range 0..bound of u64: the
    /// result lies below the bound and is a pure function of the generator
    /// state. The bound must be positive: gen_range panics on an empty range.
    #[verifier::external_body]
    pub(crate) fn gen_below(&mut self, bound: u64) -> (r: u64)
        requires
            bound >= 1,
        ensures
            r < bound,
            r == draw_of(old(self).history(), bound),
            final(self).history() == old(self).history().push((EVENT_DRAW, bound)),
    {
        rand::Rng::gen_range(&mut self.inner, 0..bound)
    }

    /// Relies on rand's RngCore::fill_bytes for StdRng: it fills the whole
    /// buffer, with bytes that are a pure function of the generator state.
    #[verifier::external_body]
    pub(crate) fn gen_bytes(&mut self, len: usize) -> (v: Vec<u8>)
        ensures
            v@.len() == len,
            v@ == bytes_of(old(self).history(), len as u64),
            final(self).history() == old(self).history().push((EVENT_BYTES, len as u64)),
    {
        let mut buf = vec![0u8; len];
        rand::RngCore::fill_bytes(&mut self.inner, &mut buf);
        buf
    }
}

} // verus!
