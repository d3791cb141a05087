use rand::rngs::SmallRng;
use rand::Rng;
use rand::SeedableRng;
use std::ops::Range;
use std::ops::RangeInclusive;
use vstd::prelude::*;

verus! {

#[verifier::external_type_specification]
#[verifier::external_body]
pub struct ExSmallRng(SmallRng);

/// One call that advances a generator.
#[derive(Debug, Clone, Copy, PartialEq, Eq)]
pub enum Draw {
    /// A `u32` over its whole range.
    U32,
    /// A `u64` over its whole range.
    U64,
    /// A `u64` in the half-open range `start..end`.
    Range { start: u64, end: u64 },
    /// A `u64` in the closed range `start..=end`.
    RangeInclusive { start: u64, end: u64 },
}

// `SmallRng` is deterministic: once built for a target (Xoshiro256++ where
// pointers are 64 bits wide, Xoshiro128++ elsewhere), what it returns depends
// only on its seed and on the draws made since. The names below stand for
// those values.

/// The `u32` that a `SmallRng` seeded from `seed` gives after the draws `past`.
pub uninterp spec fn u32_drawn(seed: u64, past: Seq<Draw>) -> u32;

/// The `u64` that a `SmallRng` seeded from `seed` gives after the draws `past`.
pub uninterp spec fn u64_drawn(seed: u64, past: Seq<Draw>) -> u64;

/// The value in `start..end` that a `SmallRng` seeded from `seed` gives after
/// the draws `past`.
pub uninterp spec fn range_drawn(seed: u64, past: Seq<Draw>, start: u64, end: u64) -> u64;

/// The value in `start..=end` that a `SmallRng` seeded from `seed` gives
/// after the draws `past`.
pub uninterp spec fn range_inclusive_drawn(seed: u64, past: Seq<Draw>, start: u64, end: u64) -> u64;

/// What a generator is: the seed it was made from and the draws made since.
pub struct SeedView {
    pub seed: u64,
    pub past: Seq<Draw>,
}

impl SeedView {
    /// The value that the draw `d` returns from this state (a `u32` widened).
    pub open spec fn output(self, d: Draw) -> u64 {
        match d {
            Draw::U32 => u32_drawn(self.seed, self.past) as u64,
            Draw::U64 => u64_drawn(self.seed, self.past),
            Draw::Range { start, end } => range_drawn(self.seed, self.past, start, end),
            Draw::RangeInclusive { start, end } => range_inclusive_drawn(
                self.seed,
                self.past,
                start,
                end,
            ),
        }
    }

    /// The state after the draw `d`.
    pub open spec fn after(self, d: Draw) -> SeedView {
        SeedView { seed: self.seed, past: self.past.push(d) }
    }

    /// The state after the draws `calls`, made in order.
    pub open spec fn after_all(self, calls: Seq<Draw>) -> SeedView {
        SeedView { seed: self.seed, past: self.past + calls }
    }

    /// The values that the draws `calls`, made in order, return from this state.
    pub open spec fn outputs(self, calls: Seq<Draw>) -> Seq<u64>
        decreases calls.len(),
    {
        if calls.len() == 0 {
            Seq::empty()
        } else {
            let before = calls.drop_last();
            self.outputs(before).push(self.after_all(before).output(calls.last()))
        }
    }
}

impl Draw {
    /// The draw can be made: a range to draw from holds a value.
    pub open spec fn valid(self) -> bool {
        match self {
            Draw::Range { start, end } => start < end,
            Draw::RangeInclusive { start, end } => start <= end,
            _ => true,
        }
    }
}

/// A fast, non-cryptographic pseudo-random generator that keeps the seed it
/// was made from, so that its sequence can be replayed.
///
/// Draws are of `u32` and `u64` over their whole range, and of `u64` in a
/// half-open or closed range; the inner generator is not handed out, so
/// other integer widths and floating-point ranges cannot be drawn from it.
pub struct Seed {
    seed: u64,
    rng: SmallRng,
    past: Ghost<Seq<Draw>>,
}

impl View for Seed {
    type V = SeedView;

    closed spec fn view(&self) -> SeedView {
        SeedView { seed: self.seed, past: self.past@ }
    }
}

impl Clone for Seed {
    /// A generator in the same state, which gives the same draws as this one.
    fn clone(&self) -> (r: Seed)
        ensures
            r@ == self@,
    {
        self.copy_seed()
    }
}

impl Seed {
    /// Relies on `SeedableRng::seed_from_u64` for `SmallRng`: the generator
    /// built from `seed`, with no draws made on it yet. This and the items
    /// below are the only places that build or advance the inner generator,
    /// so `seed` and `past` always describe it.
    #[verifier::external_body]
    fn seeded(seed: u64) -> (s: Seed)
        ensures
            s@ == (SeedView { seed, past: Seq::empty() }),
    {
        Seed { seed, rng: SmallRng::seed_from_u64(seed), past: Ghost(Seq::empty()) }
    }

    /// Relies on the derived `Clone` of `SmallRng`: a copy of the generator's
    /// state, which then gives the same draws as the original.
    #[verifier::external_body]
    fn copy_seed(&self) -> (r: Seed)
        ensures
            r@ == self@,
    {
        Seed { seed: self.seed, rng: self.rng.clone(), past: Ghost(self.past@) }
    }

    /// Relies on `Rng::gen::<u32>` on the inner `SmallRng`: the algorithm is
    /// deterministic, so the value depends on the seed and the draws made since;
    /// the call is one more draw on the generator.
    #[verifier::external_body]
    fn draw_u32(&mut self) -> (r: u32)
        ensures
            r == u32_drawn(old(self).seed, old(self).past@),
            final(self)@ == old(self)@.after(Draw::U32),
    {
        self.rng.gen()
    }

    /// Relies on `Rng::gen::<u64>` on the inner `SmallRng`: the algorithm is
    /// deterministic, so the value depends on the seed and the draws made since;
    /// the call is one more draw on the generator.
    #[verifier::external_body]
    fn draw_u64(&mut self) -> (r: u64)
        ensures
            r == u64_drawn(old(self).seed, old(self).past@),
            final(self)@ == old(self)@.after(Draw::U64),
    {
        self.rng.gen()
    }

    /// Relies on `Rng::gen_range` with a `Range<u64>` on the inner `SmallRng`:
    /// it panics on an empty range, else returns a value inside it, which
    /// depends on the seed, the draws made since and the bounds; the call is
    /// one more draw on the generator.
    #[verifier::external_body]
    fn draw_range(&mut self, range: Range<u64>) -> (r: u64)
        requires
            range.start < range.end,
        ensures
            range.start <= r < range.end,
            r == range_drawn(old(self).seed, old(self).past@, range.start, range.end),
            final(self)@ == old(self)@.after(Draw::Range { start: range.start, end: range.end }),
    {
        self.rng.gen_range(range)
    }

    /// Relies on `Rng::gen_range` with a `RangeInclusive<u64>` on the inner
    /// `SmallRng`: it panics when the start exceeds the end, else returns a
    /// value inside the range, which depends on the seed, the draws made since
    /// and the bounds; the call is one more draw on the generator.
    #[verifier::external_body]
    fn draw_range_inclusive(&mut self, range: RangeInclusive<u64>) -> (r: u64)
        requires
            range@.start <= range@.end,
        ensures
            range@.start <= r <= range@.end,
            r == range_inclusive_drawn(old(self).seed, old(self).past@, range@.start, range@.end),
            final(self)@ == old(self)@.after(
                Draw::RangeInclusive { start: range@.start, end: range@.end },
            ),
    {
        self.rng.gen_range(range)
    }

    /// A generator seeded from `seed`.
    pub fn from_seed(seed: u64) -> (s: Seed)
        ensures
            s@ == (SeedView { seed, past: Seq::empty() }),
    {
        Self::seeded(seed)
    }

    /// A generator seeded from a time given in nanoseconds since the Unix
    /// epoch, truncated to its low 64 bits.
    pub fn new(nanos_since_epoch: u128) -> (s: Seed)
        ensures
            s@ == (SeedView { seed: (nanos_since_epoch % 0x1_0000_0000_0000_0000) as u64, past: Seq::empty() }),
    {
        let seed = nanos_since_epoch as u64;
        assert(seed == nanos_since_epoch % 0x1_0000_0000_0000_0000) by (bit_vector)
            requires
                seed == nanos_since_epoch as u64,
        ;
        Self::from_seed(seed)
    }

    /// The seed this generator was made from.
    pub fn seed(&self) -> (r: u64)
        ensures
            r == self@.seed,
    {
        self.seed
    }

    /// Advances the generator and returns a `u32` over its whole range.
    pub fn next_u32(&mut self) -> (r: u32)
        ensures
            r as u64 == old(self)@.output(Draw::U32),
            final(self)@ == old(self)@.after(Draw::U32),
    {
        self.draw_u32()
    }

    /// Advances the generator and returns a `u64` over its whole range.
    pub fn next_u64(&mut self) -> (r: u64)
        ensures
            r == old(self)@.output(Draw::U64),
            final(self)@ == old(self)@.after(Draw::U64),
    {
        self.draw_u64()
    }

    /// Advances the generator and returns a value in the half-open range
    /// `range`, which must not be empty.
    pub fn gen_range(&mut self, range: Range<u64>) -> (r: u64)
        requires
            range.start < range.end,
        ensures
            range.start <= r < range.end,
            r == old(self)@.output(Draw::Range { start: range.start, end: range.end }),
            final(self)@ == old(self)@.after(Draw::Range { start: range.start, end: range.end }),
    {
        self.draw_range(range)
    }

    /// Advances the generator and returns a value in the closed range
    /// `range`, whose start must not exceed its end.
    pub fn gen_range_inclusive(&mut self, range: RangeInclusive<u64>) -> (r: u64)
        requires
            range@.start <= range@.end,
        ensures
            range@.start <= r <= range@.end,
            r == old(self)@.output(Draw::RangeInclusive { start: range@.start, end: range@.end }),
            final(self)@ == old(self)@.after(
                Draw::RangeInclusive { start: range@.start, end: range@.end },
            ),
    {
        self.draw_range_inclusive(range)
    }

    /// Advances the generator by the draw `d` and returns its value, a
    /// `u32` widened to `u64`.
    pub fn draw(&mut self, d: Draw) -> (r: u64)
        requires
            d.valid(),
        ensures
            r == old(self)@.output(d),
            final(self)@ == old(self)@.after(d),
    {
        match d {
            Draw::U32 => self.next_u32() as u64,
            Draw::U64 => self.next_u64(),
            Draw::Range { start, end } => self.gen_range(start..end),
            Draw::RangeInclusive { start, end } => self.gen_range_inclusive(start..=end),
        }
    }

    /// Makes the draws `calls` in order and returns their values.
    pub fn replay(&mut self, calls: &Vec<Draw>) -> (r: Vec<u64>)
        requires
            forall|k: int| 0 <= k < calls.len() ==> (#[trigger] calls[k]).valid(),
        ensures
            r@ == old(self)@.outputs(calls@),
            final(self)@ == old(self)@.after_all(calls@),
    {
        let ghost start = self@;
        let mut r: Vec<u64> = Vec::new();
        let mut k: usize = 0;
        assert(start.after_all(calls@.take(0)) == start) by {
            assert(start.past + calls@.take(0) =~= start.past);
        }
        while k < calls.len()
            invariant
                k <= calls.len(),
                forall|j: int| 0 <= j < calls.len() ==> (#[trigger] calls[j]).valid(),
                r@ == start.outputs(calls@.take(k as int)),
                self@ == start.after_all(calls@.take(k as int)),
            decreases calls.len() - k,
        {
            let v = self.draw(calls[k]);
            r.push(v);
            proof {
                let next = calls@.take(k + 1);
                assert(next.drop_last() =~= calls@.take(k as int));
                assert(start.past + next =~= (start.past + calls@.take(k as int)).push(calls[k as int]));
            }
            k = k + 1;
        }
        assert(calls@.take(k as int) =~= calls@);
        r
    }

    /// Advances the generator and returns a value in the half-open range
    /// `range`; returns `None` and leaves the generator as it was when the
    /// range is empty.
    pub fn try_gen_range(&mut self, range: Range<u64>) -> (r: Option<u64>)
        ensures
            r is None <==> range.start >= range.end,
            r is None ==> final(self)@ == old(self)@,
            r matches Some(v) ==> range.start <= v < range.end && v == old(self)@.output(
                Draw::Range { start: range.start, end: range.end },
            ) && final(self)@ == old(self)@.after(Draw::Range { start: range.start, end: range.end }),
    {
        if range.start < range.end {
            Some(self.gen_range(range))
        } else {
            None
        }
    }

    /// Advances the generator and returns a value in the closed range
    /// `start..=end`; returns `None` and leaves the generator as it was when
    /// `start` exceeds `end`.
    pub fn try_gen_range_inclusive(&mut self, start: u64, end: u64) -> (r: Option<u64>)
        ensures
            r is None <==> start > end,
            r is None ==> final(self)@ == old(self)@,
            r matches Some(v) ==> start <= v <= end && v == old(self)@.output(
                Draw::RangeInclusive { start, end },
            ) && final(self)@ == old(self)@.after(Draw::RangeInclusive { start, end }),
    {
        if start <= end {
            Some(self.gen_range_inclusive(start..=end))
        } else {
            None
        }
    }
}

/// Two generators in the same state return the same values for any sequence
/// of draws; in particular two made from the same seed do.
pub proof fn same_seed_same_draws(a: Seed, b: Seed, calls: Seq<Draw>)
    requires
        a@.seed == b@.seed,
        a@.past == b@.past,
    ensures
        a@.outputs(calls) == b@.outputs(calls),
{
    assert(a@ == b@);
}

/// Two different times before the 64-bit nanosecond count wraps give
/// generators with different seeds.
pub proof fn distinct_times_distinct_seeds(a: u128, b: u128)
    requires
        a != b,
        a < 0x1_0000_0000_0000_0000,
        b < 0x1_0000_0000_0000_0000,
    ensures
        (a % 0x1_0000_0000_0000_0000) as u64 != (b % 0x1_0000_0000_0000_0000) as u64,
{
}

} // verus!
