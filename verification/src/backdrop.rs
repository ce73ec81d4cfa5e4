//! The far background: the stars and the dim row of distant buildings,
//! both drawn from generators with fixed seeds so that they stay put.

use vstd::prelude::*;
use rand::rngs::StdRng;
use rand::{Rng, SeedableRng};
use crate::skyline::{sat_sub, sat_add_u16, roof_row, Area};
use crate::paint::{Backdrop, CellWrite, Ink, ThemeSlot};

verus! {

/// The seedable generator of `rand`.
#[verifier::external_type_specification]
#[verifier::external_body]
pub struct ExStdRng(StdRng);

/// One draw from a generator, as `(kind, a, b)`: kind 0 is an `i32` range
/// `a..b`, kind 1 a `u16` range `a..b`, kind 2 a chance of `a` in `b`.
pub type DrawRecord = (int, int, int);

/// What `Rng::gen_range` returns on the `i32` range `low..high` from a
/// generator seeded with `state.0` that has already made the draws
/// `state.1`.
pub uninterp spec fn seeded_i32(state: (u64, Seq<DrawRecord>), low: i32, high: i32) -> i32;

/// What `Rng::gen_range` returns on the `u16` range `low..high` from a
/// generator seeded with `state.0` that has already made the draws
/// `state.1`.
pub uninterp spec fn seeded_u16(state: (u64, Seq<DrawRecord>), low: u16, high: u16) -> u16;

/// What `Rng::gen_ratio(numerator, denominator)` returns from a generator
/// seeded with `state.0` that has already made the draws `state.1`.
pub uninterp spec fn seeded_ratio(state: (u64, Seq<DrawRecord>), numerator: u32, denominator: u32) -> bool;

/// A generator of `rand` seeded with a `u64`, together with its seed and
/// the draws it has made, which decide what it draws next.
struct SeededRng {
    rng: StdRng,
    seed: Ghost<u64>,
    history: Ghost<Seq<DrawRecord>>,
}

impl View for SeededRng {
    type V = (u64, Seq<DrawRecord>);

    closed spec fn view(&self) -> (u64, Seq<DrawRecord>) {
        (self.seed@, self.history@)
    }
}

/// Calls `StdRng::seed_from_u64`: a generator seeded with `seed` that has
/// drawn nothing yet.
#[verifier::external_body]
fn seeded(seed: u64) -> (g: SeededRng)
    ensures
        g@ == (seed, Seq::<DrawRecord>::empty()),
{
    SeededRng { rng: StdRng::seed_from_u64(seed), seed: Ghost(seed), history: Ghost(Seq::empty()) }
}

/// Calls `Rng::gen_range` on the `i32` range `low..high`, which panics on
/// an empty range: the result lies in the range, is the name `seeded_i32`
/// of the generator's seed and earlier draws, and the draw is recorded.
#[verifier::external_body]
fn draw_i32(g: &mut SeededRng, low: i32, high: i32) -> (r: i32)
    requires
        low < high,
    ensures
        low <= r < high,
        r == seeded_i32(old(g)@, low, high),
        final(g)@ == (old(g)@.0, old(g)@.1.push((0int, low as int, high as int))),
{
    g.rng.gen_range(low..high)
}

/// Calls `Rng::gen_range` on the `u16` range `low..high`, which panics on
/// an empty range: the result lies in the range, is the name `seeded_u16`
/// of the generator's seed and earlier draws, and the draw is recorded.
#[verifier::external_body]
fn draw_u16(g: &mut SeededRng, low: u16, high: u16) -> (r: u16)
    requires
        low < high,
    ensures
        low <= r < high,
        r == seeded_u16(old(g)@, low, high),
        final(g)@ == (old(g)@.0, old(g)@.1.push((1int, low as int, high as int))),
{
    g.rng.gen_range(low..high)
}

/// Calls `Rng::gen_ratio`, which panics unless `0 < denominator` and
/// `numerator <= denominator`: true with a chance of `numerator` in
/// `denominator`; always true when they are equal, always false when
/// `numerator` is 0; the result is the name `seeded_ratio` of the
/// generator's seed and earlier draws, and the draw is recorded.
#[verifier::external_body]
fn draw_ratio(g: &mut SeededRng, numerator: u32, denominator: u32) -> (r: bool)
    requires
        0 < denominator,
        numerator <= denominator,
    ensures
        numerator == denominator ==> r,
        numerator == 0 ==> !r,
        r == seeded_ratio(old(g)@, numerator, denominator),
        final(g)@ == (old(g)@.0, old(g)@.1.push((2int, numerator as int, denominator as int))),
{
    g.rng.gen_ratio(numerator, denominator)
}

/// Whether the window whose seed is `seed` is lit: one window in four is,
/// as the first draw of a generator seeded with `seed` decides, so that a
/// window keeps its light from frame to frame.
pub fn window_lit(seed: u64) -> (lit: bool)
    ensures
        lit == seeded_ratio((seed, Seq::<DrawRecord>::empty()), 1, 4),
{
    let mut rng = seeded(seed);
    draw_ratio(&mut rng, 1, 4)
}

/// A distant building: its top-left cell and its size.
#[derive(Clone, Copy)]
pub struct Block {
    pub col: u16,
    pub row: u16,
    pub width: u16,
    pub height: u16,
}

/// Number of distant buildings in an area `width` wide: one every 15 columns.
pub open spec fn block_count(width: int) -> int {
    (width + 14) / 15
}

/// Seed of the generator of the distant buildings.
pub const BLOCK_SEED: u64 = 12345;

/// The draws made before the `k`-th distant building of an area `height`
/// tall: a width and a height for each building before it.
pub open spec fn block_draws(k: int, height: int) -> Seq<DrawRecord>
    decreases k,
{
    if k <= 0 {
        seq![]
    } else {
        block_draws(k - 1, height) + seq![(0int, 6int, 15int), (1int, height / 5, height / 2)]
    }
}

/// The `k`-th distant building of `area`: it starts 15 columns after the
/// one before it and stands on the street; its width is the next draw from
/// 6..15 and its height the draw after that, from a fifth to half the
/// area's height, of the generator seeded with `BLOCK_SEED`.
pub open spec fn block_spec(area: Area, k: int) -> Block {
    let h = area.height as int;
    let width = seeded_i32((BLOCK_SEED, block_draws(k, h)), 6, 15) as u16;
    let height = seeded_u16(
        (BLOCK_SEED, block_draws(k, h).push((0int, 6int, 15int))),
        (h / 5) as u16,
        (h / 2) as u16,
    );
    Block {
        col: sat_add_u16(area.x as int, 15 * k) as u16,
        row: roof_row(h, height as int) as u16,
        width,
        height,
    }
}

/// The `k`-th distant building of `area` has a width of 6 to 14 columns and
/// a height from a fifth to under half of the area's.
pub open spec fn block_ok(area: Area, k: int, b: Block) -> bool {
    &&& 6 <= b.width < 15
    &&& area.height / 5 <= b.height < area.height / 2
}

/// The distant buildings of `area`, from left to right.  They depend on
/// the area alone: every call on the same area gives the same buildings.
pub fn background_blocks(area: Area) -> (blocks: Vec<Block>)
    requires
        area.width > 0 ==> area.height >= 2,
    ensures
        blocks@.len() == block_count(area.width as int),
        forall|k: int| 0 <= k < blocks@.len() ==> #[trigger] blocks@[k] == block_spec(area, k),
        forall|k: int| 0 <= k < blocks@.len() ==> #[trigger] block_ok(area, k, blocks@[k]),
{
    let mut rng = seeded(BLOCK_SEED);
    let ground_y = area.height.saturating_sub(3);
    let mut blocks: Vec<Block> = Vec::new();
    let mut x_bg: u32 = 0;
    let mut k: usize = 0;
    while x_bg < area.width as u32
        invariant
            x_bg == 15 * k,
            k == 0 || 15 * (k - 1) < area.width,
            k <= block_count(area.width as int),
            area.width > 0 ==> area.height >= 2,
            ground_y == sat_sub(area.height as int, 3),
            rng@ == (BLOCK_SEED, block_draws(k as int, area.height as int)),
            blocks@.len() == k,
            forall|j: int| 0 <= j < k ==> #[trigger] blocks@[j] == block_spec(area, j),
            forall|j: int| 0 <= j < k ==> #[trigger] block_ok(area, j, blocks@[j]),
        decreases block_count(area.width as int) - k,
    {
        let bw = draw_i32(&mut rng, 6, 15) as u16;
        let bh = draw_u16(&mut rng, area.height / 5, area.height / 2);
        let start_x = area.x.saturating_add(x_bg as u16);
        let start_y = ground_y.saturating_sub(bh);
        blocks.push(Block { col: start_x, row: start_y, width: bw, height: bh });
        proof {
            assert(rng@.1 =~= block_draws(k + 1, area.height as int));
        }
        k = k + 1;
        x_bg = x_bg + 15;
    }
    blocks
}

/// The write of cell `(c, r)` of distant building `b`, if it falls inside
/// the area: a space in the terminal's colour on the darkened colour of the
/// distant buildings.
pub open spec fn block_cell_write(area: Area, b: Block, c: int, r: int) -> Option<CellWrite> {
    let dx = sat_add_u16(b.col as int, c);
    let dy = sat_add_u16(b.row as int, r);
    if dx < area.x + area.width && dy < area.y + area.height {
        Some(CellWrite {
            col: dx as u16,
            row: dy as u16,
            glyph: ' ',
            fg: Ink::Reset,
            bg: Backdrop::Paint { ink: Ink::Darkened { slot: ThemeSlot::BuildingFar } },
        })
    } else {
        None
    }
}

/// The writes of the first `n` cells of row `r` of building `b`.
pub open spec fn block_row_writes(area: Area, b: Block, r: int, n: int) -> Seq<CellWrite>
    decreases n,
{
    if n <= 0 {
        seq![]
    } else {
        block_row_writes(area, b, r, n - 1) + match block_cell_write(area, b, n - 1, r) {
            Some(w) => seq![w],
            None => seq![],
        }
    }
}

/// The writes of the first `m` rows of building `b`.
pub open spec fn block_writes_spec(area: Area, b: Block, m: int) -> Seq<CellWrite>
    decreases m,
{
    if m <= 0 {
        seq![]
    } else {
        block_writes_spec(area, b, m - 1) + block_row_writes(area, b, m - 1, b.width as int)
    }
}

/// The writes that paint distant building `b`, row by row from its top,
/// each row from its left, leaving out cells outside the area.
pub fn block_writes(area: Area, b: Block) -> (writes: Vec<CellWrite>)
    ensures
        writes@ == block_writes_spec(area, b, b.height as int),
{
    let mut writes: Vec<CellWrite> = Vec::new();
    let mut r: u16 = 0;
    while r < b.height
        invariant
            r <= b.height,
            writes@ == block_writes_spec(area, b, r as int),
        decreases b.height - r,
    {
        let ghost before = writes@;
        let mut c: u16 = 0;
        while c < b.width
            invariant
                c <= b.width,
                r < b.height,
                writes@ == before + block_row_writes(area, b, r as int, c as int),
            decreases b.width - c,
        {
            let dx = b.col.saturating_add(c);
            let dy = b.row.saturating_add(r);
            if (dx as u32) < area.x as u32 + area.width as u32 && (dy as u32) < area.y as u32 + area.height as u32 {
                writes.push(CellWrite {
                    col: dx,
                    row: dy,
                    glyph: ' ',
                    fg: Ink::Reset,
                    bg: Backdrop::Paint { ink: Ink::Darkened { slot: ThemeSlot::BuildingFar } },
                });
            }
            proof {
                assert(writes@ =~= before + block_row_writes(area, b, r as int, c + 1));
            }
            c = c + 1;
        }
        r = r + 1;
    }
    writes
}

/// A star: its cell and which of the four kinds it is.
#[derive(Clone, Copy)]
pub struct Star {
    pub col: u16,
    pub row: u16,
    pub kind: u8,
}

/// Number of stars in the sky.
pub const STAR_COUNT: usize = 25;

/// The glyph of a star of kind `kind`.
pub open spec fn star_glyph_spec(kind: int) -> char {
    if kind == 0 {
        '.'
    } else if kind == 1 {
        '·'
    } else if kind == 2 {
        '*'
    } else {
        '+'
    }
}

/// The glyph of a star.
pub fn star_glyph(kind: u8) -> (glyph: char)
    ensures
        glyph == star_glyph_spec(kind as int),
{
    match kind {
        0 => '.',
        1 => '·',
        2 => '*',
        _ => '+',
    }
}

/// Seed of the generator of the stars' positions.
pub const STAR_SEED: u64 = 42;

/// The draws made before the position of star `i` in an area `width` by
/// `height`: a column and a row for each star before it.
pub open spec fn star_draws(i: int, width: int, height: int) -> Seq<DrawRecord>
    decreases i,
{
    if i <= 0 {
        seq![]
    } else {
        star_draws(i - 1, width, height) + seq![(1int, 0int, width), (1int, 0int, height / 2)]
    }
}

/// Star `i` of `area`: its column and row are the next two draws of the
/// generator seeded with `STAR_SEED`, over the area's width and the upper
/// half of its height; its kind is the first draw from 0..4 of a generator
/// seeded with `i`.
pub open spec fn star_spec(area: Area, i: int) -> Star {
    let w = area.width as int;
    let h = area.height as int;
    Star {
        col: (area.x + seeded_u16((STAR_SEED, star_draws(i, w, h)), 0, area.width)) as u16,
        row: (area.y + seeded_u16(
            (STAR_SEED, star_draws(i, w, h).push((1int, 0int, w))),
            0,
            (h / 2) as u16,
        )) as u16,
        kind: seeded_i32((i as u64, Seq::<DrawRecord>::empty()), 0, 4) as u8,
    }
}

/// The stars of `area`: `STAR_COUNT` of them, each in the upper half of the
/// area.  They depend on the area alone: every call on the same area gives
/// the same stars.
pub fn star_field(area: Area) -> (stars: Vec<Star>)
    requires
        area.width > 0,
        area.height >= 2,
        area.x + area.width <= u16::MAX,
        area.y + area.height <= u16::MAX,
    ensures
        stars@.len() == STAR_COUNT,
        forall|i: int| 0 <= i < stars@.len() ==> #[trigger] stars@[i] == star_spec(area, i),
        forall|i: int|
            0 <= i < stars@.len() ==> {
                &&& area.x <= #[trigger] stars@[i].col < area.x + area.width
                &&& area.y <= stars@[i].row < area.y + area.height / 2
                &&& stars@[i].kind < 4
            },
{
    let mut star_rng = seeded(STAR_SEED);
    let mut stars: Vec<Star> = Vec::new();
    let mut i: u64 = 0;
    while i < 25
        invariant
            i <= 25,
            stars@.len() == i,
            area.width > 0,
            area.height >= 2,
            area.x + area.width <= u16::MAX,
            area.y + area.height <= u16::MAX,
            star_rng@ == (STAR_SEED, star_draws(i as int, area.width as int, area.height as int)),
            forall|j: int| 0 <= j < i ==> #[trigger] stars@[j] == star_spec(area, j),
            forall|j: int|
                0 <= j < i ==> {
                    &&& area.x <= #[trigger] stars@[j].col < area.x + area.width
                    &&& area.y <= stars@[j].row < area.y + area.height / 2
                    &&& stars@[j].kind < 4
                },
        decreases 25 - i,
    {
        let x = draw_u16(&mut star_rng, 0, area.width);
        let y = draw_u16(&mut star_rng, 0, area.height / 2);
        let mut p_rng = seeded(i);
        let kind = draw_i32(&mut p_rng, 0, 4) as u8;
        stars.push(Star { col: area.x + x, row: area.y + y, kind });
        proof {
            assert(star_rng@.1 =~= star_draws(i + 1, area.width as int, area.height as int));
        }
        i = i + 1;
    }
    stars
}

/// The sky, the distant buildings and the window lights stay put from
/// frame to frame: they depend on the area (and a window's seed) alone, so
/// any two results for the same area, or the same seed, are equal.
pub proof fn lemma_backdrop_stays_put(
    area: Area,
    stars1: Seq<Star>,
    stars2: Seq<Star>,
    blocks1: Seq<Block>,
    blocks2: Seq<Block>,
    seed: u64,
    lit1: bool,
    lit2: bool,
)
    requires
        stars1.len() == STAR_COUNT,
        stars2.len() == STAR_COUNT,
        forall|i: int| 0 <= i < STAR_COUNT ==> #[trigger] stars1[i] == star_spec(area, i),
        forall|i: int| 0 <= i < STAR_COUNT ==> #[trigger] stars2[i] == star_spec(area, i),
        blocks1.len() == block_count(area.width as int),
        blocks2.len() == block_count(area.width as int),
        forall|k: int| 0 <= k < blocks1.len() ==> #[trigger] blocks1[k] == block_spec(area, k),
        forall|k: int| 0 <= k < blocks2.len() ==> #[trigger] blocks2[k] == block_spec(area, k),
        lit1 == seeded_ratio((seed, Seq::<DrawRecord>::empty()), 1, 4),
        lit2 == seeded_ratio((seed, Seq::<DrawRecord>::empty()), 1, 4),
    ensures
        stars1 == stars2,
        blocks1 == blocks2,
        lit1 == lit2,
{
    assert(stars1 =~= stars2);
    assert(blocks1 =~= blocks2);
}

} // verus!
