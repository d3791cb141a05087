use crate::seed::{Draw, Seed, SeedView};
use vstd::prelude::*;

verus! {

/// Number of (foreground, background) pairs in the table.
pub const PALETTE_LENGTH: usize = 6;

/// The table of packed `0xRRGGBB` color pairs, as (foreground, background).
pub open spec fn palette_pair(index: int) -> (u32, u32) {
    if index == 0 {
        (0xEA2F20, 0x130825)
    } else if index == 1 {
        (0x93C2AB, 0x09474D)
    } else if index == 2 {
        (0x09474D, 0x93C2AB)
    } else if index == 3 {
        (0x6974CC, 0x0D040F)
    } else if index == 4 {
        (0x90A3AD, 0x0F2B15)
    } else {
        (0x8A8092, 0x3E0416)
    }
}

/// The red channel of a packed color.
pub open spec fn red(color: u32) -> int {
    ((color >> 16u32) & 0xFFu32) as int
}

/// The green channel of a packed color.
pub open spec fn green(color: u32) -> int {
    ((color >> 8u32) & 0xFFu32) as int
}

/// The blue channel of a packed color.
pub open spec fn blue(color: u32) -> int {
    (color & 0xFFu32) as int
}

/// The red, green and blue channels of a packed color, in that order.
pub open spec fn channels(color: u32) -> Seq<u8> {
    seq![red(color) as u8, green(color) as u8, blue(color) as u8]
}

/// What a palette holds: the channels of its foreground and background.
pub struct PaletteView {
    pub fg: Seq<u8>,
    pub bg: Seq<u8>,
}

/// The palette that the table holds at `index`.
pub open spec fn palette_at(index: int) -> PaletteView {
    PaletteView { fg: channels(palette_pair(index).0), bg: channels(palette_pair(index).1) }
}

/// The draw that picks a palette at random.
pub open spec fn palette_draw() -> Draw {
    Draw::Range { start: 0, end: PALETTE_LENGTH as u64 }
}

/// The palette `p` is one of those the table holds.
pub open spec fn in_table(p: PaletteView) -> bool {
    exists|i: int| 0 <= i < PALETTE_LENGTH && p == palette_at(i)
}

/// `n` palette draws in a row.
pub open spec fn palette_draws(n: nat) -> Seq<Draw> {
    Seq::new(n, |i: int| palette_draw())
}

/// The palettes that `n` calls of `Palette::random` pick, one after the
/// other, from a generator in the state `s`.
pub open spec fn random_run(s: SeedView, n: nat) -> Seq<PaletteView>
    decreases n,
{
    if n == 0 {
        Seq::empty()
    } else {
        let k = (n - 1) as nat;
        random_run(s, k).push(palette_at(s.after_all(palette_draws(k)).output(palette_draw()) as int))
    }
}

proof fn random_run_len(s: SeedView, n: nat)
    ensures
        random_run(s, n).len() == n,
    decreases n,
{
    if n > 0 {
        random_run_len(s, (n - 1) as nat);
    }
}

/// Two generators seeded alike pick the same palettes, in the same order,
/// over any number of calls of `Palette::random`.
pub proof fn random_is_reproducible(a: SeedView, b: SeedView, n: nat)
    requires
        a.seed == b.seed,
        a.past == b.past,
    ensures
        random_run(a, n) == random_run(b, n),
{
    assert(a == b);
}

/// A foreground/background color pair taken from the table, each color as
/// its red, green and blue channels (0 to 255).
#[derive(Debug, Clone, Copy, PartialEq, Eq)]
pub struct Palette {
    fg: [u8; 3],
    bg: [u8; 3],
}

impl View for Palette {
    type V = PaletteView;

    closed spec fn view(&self) -> PaletteView {
        PaletteView { fg: self.fg@, bg: self.bg@ }
    }
}

/// Each channel of a packed color is a byte, and the three channels of a
/// 24-bit color put back together give that color.
pub proof fn channels_are_bytes(color: u32)
    requires
        color <= 0xFFFFFF,
    ensures
        0 <= red(color) <= 255,
        0 <= green(color) <= 255,
        0 <= blue(color) <= 255,
        red(color) * 65536 + green(color) * 256 + blue(color) == color,
{
    assert(((color >> 16u32) & 0xFFu32) <= 0xFFu32) by (bit_vector);
    assert(((color >> 8u32) & 0xFFu32) <= 0xFFu32) by (bit_vector);
    assert((color & 0xFFu32) <= 0xFFu32) by (bit_vector);
    assert(color <= 0xFFFFFF ==> ((color >> 16u32) & 0xFFu32) * 65536u32 + ((color >> 8u32)
        & 0xFFu32) * 256u32 + (color & 0xFFu32) == color) by (bit_vector);
}

impl Palette {
    /// The packed (foreground, background) pair at `index` of the table.
    fn table_entry(index: usize) -> (r: (u32, u32))
        requires
            index < PALETTE_LENGTH,
        ensures
            r == palette_pair(index as int),
    {
        match index {
            0 => (0xEA2F20, 0x130825),
            1 => (0x93C2AB, 0x09474D),
            2 => (0x09474D, 0x93C2AB),
            3 => (0x6974CC, 0x0D040F),
            4 => (0x90A3AD, 0x0F2B15),
            _ => (0x8A8092, 0x3E0416),
        }
    }

    /// Splits a packed `0xRRGGBB` color into its red, green and blue channels.
    pub fn normalize(color: u32) -> (r: [u8; 3])
        ensures
            r@ == channels(color),
            r[0] as int == red(color),
            r[1] as int == green(color),
            r[2] as int == blue(color),
    {
        let red_byte = ((color >> 16u32) & 0xFFu32) as u8;
        let green_byte = ((color >> 8u32) & 0xFFu32) as u8;
        let blue_byte = (color & 0xFFu32) as u8;
        proof {
            assert(((color >> 16u32) & 0xFFu32) <= 0xFFu32) by (bit_vector);
            assert(((color >> 8u32) & 0xFFu32) <= 0xFFu32) by (bit_vector);
            assert((color & 0xFFu32) <= 0xFFu32) by (bit_vector);
        }
        let r = [red_byte, green_byte, blue_byte];
        assert(r@ =~= channels(color));
        r
    }

    /// The palette at `index` of the table.
    pub fn pick(index: usize) -> (p: Palette)
        requires
            index < PALETTE_LENGTH,
        ensures
            p@ == palette_at(index as int),
    {
        let (fg, bg) = Self::table_entry(index);
        Palette { fg: Self::normalize(fg), bg: Self::normalize(bg) }
    }

    /// Draws an index in `0..PALETTE_LENGTH` from `rng` and returns the
    /// palette at that index.
    pub fn random(rng: &mut Seed) -> (p: Palette)
        ensures
            old(rng)@.output(palette_draw()) < PALETTE_LENGTH,
            p@ == palette_at(old(rng)@.output(palette_draw()) as int),
            final(rng)@ == old(rng)@.after(palette_draw()),
    {
        let index = rng.gen_range(0..PALETTE_LENGTH as u64);
        Self::pick(index as usize)
    }

    /// Calls `random` `n` times on `rng` and returns the palettes in the
    /// order they were picked.
    pub fn random_many(rng: &mut Seed, n: usize) -> (r: Vec<Palette>)
        ensures
            r.len() == n,
            forall|k: int| 0 <= k < n ==> (#[trigger] r[k])@ == random_run(old(rng)@, n as nat)[k],
            forall|k: int| 0 <= k < n ==> in_table(#[trigger] r[k]@),
            final(rng)@ == old(rng)@.after_all(palette_draws(n as nat)),
    {
        let ghost start = rng@;
        let mut r: Vec<Palette> = Vec::new();
        let mut k: usize = 0;
        let ghost mut idxs: Seq<int> = Seq::empty();
        assert(start.past + palette_draws(0) =~= start.past);
        while k < n
            invariant
                k <= n,
                r.len() == k,
                forall|j: int| 0 <= j < k ==> (#[trigger] r[j])@ == random_run(start, k as nat)[j],
                idxs.len() == k,
                forall|j: int|
                    0 <= j < k ==> 0 <= #[trigger] idxs[j] < PALETTE_LENGTH && r[j]@ == palette_at(idxs[j]),
                rng@ == start.after_all(palette_draws(k as nat)),
            decreases n - k,
        {
            let ghost before = rng@;
            let p = Self::random(rng);
            r.push(p);
            proof {
                assert(start.past + palette_draws((k + 1) as nat) =~= (start.past + palette_draws(
                    k as nat,
                )).push(palette_draw()));
                random_run_len(start, k as nat);
                random_run_len(start, (k + 1) as nat);
                let idx = before.output(palette_draw()) as int;
                assert(0 <= idx < PALETTE_LENGTH && r[k as int]@ == palette_at(idx));
                idxs = idxs.push(idx);
                assert forall|j: int| 0 <= j < k + 1 implies (#[trigger] r[j])@ == random_run(
                    start,
                    (k + 1) as nat,
                )[j] by {
                    if j < k {
                        assert(random_run(start, (k + 1) as nat)[j] == random_run(start, k as nat)[j]);
                    }
                }
            }
            k = k + 1;
        }
        proof {
            random_run_len(start, n as nat);
        }
        assert forall|j: int| 0 <= j < n implies in_table(#[trigger] r[j]@) by {
            assert(0 <= idxs[j] < PALETTE_LENGTH && r[j]@ == palette_at(idxs[j]));
        }
        r
    }

    /// The foreground's red, green and blue channels.
    pub fn fg(&self) -> (r: [u8; 3])
        ensures
            r@ == self@.fg,
    {
        self.fg
    }

    /// The background's red, green and blue channels.
    pub fn bg(&self) -> (r: [u8; 3])
        ensures
            r@ == self@.bg,
    {
        self.bg
    }
}

} // verus!
