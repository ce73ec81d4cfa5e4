//! What each cell of a foreground tower shows: logo, wall, edges, windows
//! and the door, with the sign and antenna that a tower carries.

use vstd::prelude::*;
use crate::skyline::{sat_sub, sat_add_u16, roof_row, tower_origin, Area, Tower};
use crate::paint::{writes_symbol, Backdrop, CellWrite, Ink, SymbolWrite, ThemeSlot};
use crate::backdrop::{seeded_ratio, window_lit, DrawRecord};

verus! {

/// Rows of the distribution logo on the monolith.
pub const LOGO_ROWS: u16 = 20;

/// Columns of the distribution logo on the monolith.
pub const LOGO_COLS: u16 = 32;

/// Which cells of the monolith's logo hold a glyph, row by row
/// (`LOGO_ROWS` rows of `LOGO_COLS` cells), whether the logo is a compact
/// one, and whether the distribution is drawn with the four-pane window logo.
pub struct LogoMask {
    pub cells: Vec<bool>,
    pub compact: bool,
    pub window_panes: bool,
}

/// The mask has one entry per logo cell.
pub open spec fn logo_mask_wf(logo: &LogoMask) -> bool {
    logo.cells@.len() == LOGO_ROWS * LOGO_COLS
}

/// The logo cell in `row` and `col` holds a glyph.
pub open spec fn logo_glyph_at(cells: Seq<bool>, row: int, col: int) -> bool {
    0 <= row < LOGO_ROWS && 0 <= col < LOGO_COLS && cells[row * LOGO_COLS + col]
}

/// What a cell of a tower's facade shows.
#[derive(PartialEq, Eq, Structural, Clone, Copy, Debug)]
pub enum FacadeCell {
    /// The logo's own glyph at this cell of the logo.
    LogoPixel,
    /// Plain wall in the tower's colour.
    Wall,
    /// The tower's side edge.
    Edge,
    /// A window; `window_lit(seed)` tells whether it is lit.
    Window { seed: u64 },
    /// The lintel above the door, in the main neon colour or the first accent.
    DoorLintel { main_neon: bool },
    /// The door's step.
    DoorStep,
    /// The small light beside the door, red or green.
    DoorLight { red: bool },
}

/// A glyph of the logo lies in the 3 by 3 block of cells around `(col, row)`.
pub open spec fn near_logo_glyph(cells: Seq<bool>, col: int, row: int) -> bool {
    exists|r: int, c: int|
        row - 1 <= r <= row + 1 && col - 1 <= c <= col + 1 && #[trigger] logo_glyph_at(cells, r, c)
}

/// The cell lies in the logo box of the monolith (slot 1).
pub open spec fn in_logo_box(slot: int, col: int, row: int) -> bool {
    slot == 1 && row < LOGO_ROWS && col < LOGO_COLS
}

/// The logo keeps the cell for itself: it shows a logo glyph there, or the
/// cell belongs to the pane logo's frame, or to the band that a full-size
/// logo keeps clear.
pub open spec fn logo_claims(slot: int, logo: &LogoMask, col: int, row: int) -> bool {
    &&& in_logo_box(slot, col, row)
    &&& {
        ||| logo_glyph_at(logo.cells@, row, col)
        ||| (logo.window_panes && 6 <= col <= 26 && 3 <= row <= 14)
        ||| (!logo.compact && 4 < col < 28)
    }
}

/// Seed of the generator that decides whether the window at screen cell
/// `(dx, dy)` is lit: `dx * 100 + dy + window_seed`, wrapping at 2^64.
pub open spec fn window_seed_spec(dx: int, dy: int, window_seed: int) -> int {
    (dx * 100 + dy + window_seed) % 0x1_0000_0000_0000_0000
}

/// Column of the door's centre.
pub open spec fn door_col(width: int) -> int {
    width / 2
}

/// The cell lies in the door's three columns, on or below the lintel row.
pub open spec fn in_doorway(t: Tower, col: int, row: int) -> bool {
    &&& row >= sat_sub(t.height as int, 3)
    &&& sat_sub(door_col(t.width as int), 1) <= col <= door_col(t.width as int) + 1
}

/// The tower carries a sign on its right side.
pub open spec fn has_sign(t: Tower) -> bool {
    t.slot % 2 == 1 && t.height > 12
}

/// A window may sit at `(col, row)`: every third row between the third row
/// and the four bottom rows, off the edges (and off the sign's column), away
/// from the logo, outside the doorway, on every fourth screen diagonal.
pub open spec fn window_at(t: Tower, logo: &LogoMask, col: int, row: int, dx: int, dy: int) -> bool {
    let clearance = if has_sign(t) { sat_sub(t.width as int, 2) } else { sat_sub(t.width as int, 1) };
    &&& !(t.slot == 1 && near_logo_glyph(logo.cells@, col, row))
    &&& row > 2 && row < sat_sub(t.height as int, 4) && row % 3 == 0
    &&& col > 0 && col < clearance
    &&& (dx + dy) % 4 == 0
    &&& !in_doorway(t, col, row)
}

/// What the facade of tower `t` shows at `(col, row)` (relative to the
/// tower's top-left cell), drawn at screen cell `(dx, dy)` in frame `frame`.
pub open spec fn facade_spec(
    t: Tower,
    logo: &LogoMask,
    col: int,
    row: int,
    dx: int,
    dy: int,
    frame: int,
    window_seed: int,
) -> FacadeCell {
    if in_logo_box(t.slot as int, col, row) && logo_glyph_at(logo.cells@, row, col) {
        FacadeCell::LogoPixel
    } else if logo_claims(t.slot as int, logo, col, row) {
        FacadeCell::Wall
    } else {
        let base = if col == 0 || col == sat_sub(t.width as int, 1) {
            FacadeCell::Edge
        } else {
            FacadeCell::Wall
        };
        let lit = if window_at(t, logo, col, row, dx, dy) {
            FacadeCell::Window { seed: window_seed_spec(dx, dy, window_seed) as u64 }
        } else {
            base
        };
        let door = if in_doorway(t, col, row) {
            if row == sat_sub(t.height as int, 3) {
                FacadeCell::DoorLintel { main_neon: t.slot % 2 == 1 }
            } else {
                FacadeCell::DoorStep
            }
        } else {
            lit
        };
        if row >= sat_sub(t.height as int, 3) && col == door_col(t.width as int) + 2 && row
            == sat_sub(t.height as int, 2) {
            FacadeCell::DoorLight { red: frame % 20 < 10 }
        } else {
            door
        }
    }
}

/// A full-size logo keeps its band clear: on the monolith with a logo that
/// is not compact, every cell of the logo box between columns 5 and 27
/// shows the logo's glyph or plain wall, never a window, an edge or a door.
pub proof fn lemma_full_logo_band_clear(
    t: Tower,
    logo: &LogoMask,
    col: int,
    row: int,
    dx: int,
    dy: int,
    frame: int,
    window_seed: int,
)
    requires
        t.slot == 1,
        !logo.compact,
        0 <= row < LOGO_ROWS,
        4 < col < 28,
    ensures
        facade_spec(t, logo, col, row, dx, dy, frame, window_seed) == FacadeCell::LogoPixel
            || facade_spec(t, logo, col, row, dx, dy, frame, window_seed) == FacadeCell::Wall,
{
}

/// The logo is never covered: wherever the monolith's logo has a glyph,
/// the facade shows it.
pub proof fn lemma_logo_always_shows(
    t: Tower,
    logo: &LogoMask,
    col: int,
    row: int,
    dx: int,
    dy: int,
    frame: int,
    window_seed: int,
)
    requires
        t.slot == 1,
        logo_glyph_at(logo.cells@, row, col),
    ensures
        facade_spec(t, logo, col, row, dx, dy, frame, window_seed) == FacadeCell::LogoPixel,
{
}

/// Windows keep their distance: every window lies off the tower's side
/// edges, outside the doorway, above the four bottom rows, on every third
/// row, and never beside a glyph of the logo.
pub proof fn lemma_window_placement(
    t: Tower,
    logo: &LogoMask,
    col: int,
    row: int,
    dx: int,
    dy: int,
    frame: int,
    window_seed: int,
)
    requires
        facade_spec(t, logo, col, row, dx, dy, frame, window_seed) is Window,
    ensures
        0 < col < sat_sub(t.width as int, 1),
        !in_doorway(t, col, row),
        2 < row < sat_sub(t.height as int, 4),
        row % 3 == 0,
        !(t.slot == 1 && near_logo_glyph(logo.cells@, col, row)),
{
}

/// The towers' wall colour.
pub open spec fn base_ink() -> Ink {
    Ink::Theme { slot: ThemeSlot::BuildingBase }
}

/// The write of facade cell `cell` at screen cell `(col, row)`;
/// `logo_glyph` is the logo's glyph there, shown by a logo pixel:
/// - a logo pixel: that glyph in the logo's colour on its own background;
/// - wall: a space in the wall colour on the wall colour;
/// - edge: `┃` in dark blue-grey on the wall colour;
/// - window: `▄` lit or unlit, as `window_lit` of its seed says, on the dark
///   window colour;
/// - lintel: `━` in the main neon or the first accent;
/// - step: `░` in the unlit window colour;
/// - door light: `·` in red or green, door cells on the wall colour.
pub open spec fn facade_write_spec(cell: FacadeCell, col: u16, row: u16, logo_glyph: char) -> CellWrite {
    match cell {
        FacadeCell::LogoPixel => CellWrite {
            col,
            row,
            glyph: logo_glyph,
            fg: Ink::LogoGlyph,
            bg: Backdrop::Paint { ink: Ink::LogoGlyphBack },
        },
        FacadeCell::Wall => CellWrite { col, row, glyph: ' ', fg: base_ink(), bg: Backdrop::Paint { ink: base_ink() } },
        FacadeCell::Edge => CellWrite {
            col,
            row,
            glyph: '┃',
            fg: Ink::Rgb { r: 30, g: 30, b: 50 },
            bg: Backdrop::Paint { ink: base_ink() },
        },
        FacadeCell::Window { seed } => CellWrite {
            col,
            row,
            glyph: '▄',
            fg: if seeded_ratio((seed, Seq::<DrawRecord>::empty()), 1, 4) {
                Ink::Theme { slot: ThemeSlot::WindowLit }
            } else {
                Ink::Theme { slot: ThemeSlot::WindowUnlit }
            },
            bg: Backdrop::Paint { ink: Ink::Theme { slot: ThemeSlot::WindowDark } },
        },
        FacadeCell::DoorLintel { main_neon } => CellWrite {
            col,
            row,
            glyph: '━',
            fg: if main_neon { Ink::Theme { slot: ThemeSlot::NeonMain } } else { Ink::Theme { slot: ThemeSlot::NeonSub1 } },
            bg: Backdrop::Paint { ink: base_ink() },
        },
        FacadeCell::DoorStep => CellWrite {
            col,
            row,
            glyph: '░',
            fg: Ink::Theme { slot: ThemeSlot::WindowUnlit },
            bg: Backdrop::Paint { ink: base_ink() },
        },
        FacadeCell::DoorLight { red } => CellWrite {
            col,
            row,
            glyph: '·',
            fg: if red { Ink::Red } else { Ink::Green },
            bg: Backdrop::Paint { ink: base_ink() },
        },
    }
}

/// The write of facade cell `cell` at screen cell `(col, row)`.
pub fn facade_write(cell: FacadeCell, col: u16, row: u16, logo_glyph: char) -> (w: CellWrite)
    ensures
        w == facade_write_spec(cell, col, row, logo_glyph),
{
    let base = Ink::Theme { slot: ThemeSlot::BuildingBase };
    match cell {
        FacadeCell::LogoPixel => CellWrite {
            col,
            row,
            glyph: logo_glyph,
            fg: Ink::LogoGlyph,
            bg: Backdrop::Paint { ink: Ink::LogoGlyphBack },
        },
        FacadeCell::Wall => CellWrite { col, row, glyph: ' ', fg: base, bg: Backdrop::Paint { ink: base } },
        FacadeCell::Edge => CellWrite {
            col,
            row,
            glyph: '┃',
            fg: Ink::Rgb { r: 30, g: 30, b: 50 },
            bg: Backdrop::Paint { ink: base },
        },
        FacadeCell::Window { seed } => {
            let fg = if window_lit(seed) {
                Ink::Theme { slot: ThemeSlot::WindowLit }
            } else {
                Ink::Theme { slot: ThemeSlot::WindowUnlit }
            };
            CellWrite { col, row, glyph: '▄', fg, bg: Backdrop::Paint { ink: Ink::Theme { slot: ThemeSlot::WindowDark } } }
        },
        FacadeCell::DoorLintel { main_neon } => CellWrite {
            col,
            row,
            glyph: '━',
            fg: if main_neon { Ink::Theme { slot: ThemeSlot::NeonMain } } else { Ink::Theme { slot: ThemeSlot::NeonSub1 } },
            bg: Backdrop::Paint { ink: base },
        },
        FacadeCell::DoorStep => CellWrite {
            col,
            row,
            glyph: '░',
            fg: Ink::Theme { slot: ThemeSlot::WindowUnlit },
            bg: Backdrop::Paint { ink: base },
        },
        FacadeCell::DoorLight { red } => CellWrite {
            col,
            row,
            glyph: '·',
            fg: if red { Ink::Red } else { Ink::Green },
            bg: Backdrop::Paint { ink: base },
        },
    }
}

/// The logo's glyphs hold one glyph per logo cell.
pub open spec fn logo_glyphs_wf(glyphs: Seq<char>) -> bool {
    glyphs.len() == LOGO_ROWS * LOGO_COLS
}

/// The logo's glyph at `(col, row)` of the monolith, a space outside the logo.
pub open spec fn logo_glyph_char(glyphs: Seq<char>, col: int, row: int) -> char {
    if 0 <= row < LOGO_ROWS && 0 <= col < LOGO_COLS {
        glyphs[row * LOGO_COLS + col]
    } else {
        ' '
    }
}

/// The write of cell `(col, row)` of tower `t`, if it falls inside the area.
pub open spec fn placed_write(
    area: Area,
    t: Tower,
    logo: &LogoMask,
    glyphs: Seq<char>,
    col: int,
    row: int,
    frame: int,
    window_seed: int,
) -> Option<CellWrite> {
    match placed_facade(area, t, logo, col, row, frame, window_seed) {
        Some(cell) => Some(facade_write_spec(
            cell,
            sat_add_u16(sat_add_u16(area.x as int, t.offset as int), col) as u16,
            sat_add_u16(roof_row(area.height as int, t.height as int), row) as u16,
            logo_glyph_char(glyphs, col, row),
        )),
        None => None,
    }
}

/// The writes of the first `n` cells of row `row` of tower `t`, left to
/// right, leaving out cells outside the area.
pub open spec fn row_writes(
    area: Area,
    t: Tower,
    logo: &LogoMask,
    glyphs: Seq<char>,
    row: int,
    n: int,
    frame: int,
    window_seed: int,
) -> Seq<CellWrite>
    decreases n,
{
    if n <= 0 {
        seq![]
    } else {
        row_writes(area, t, logo, glyphs, row, n - 1, frame, window_seed) + match placed_write(
            area,
            t,
            logo,
            glyphs,
            n - 1,
            row,
            frame,
            window_seed,
        ) {
            Some(w) => seq![w],
            None => seq![],
        }
    }
}

/// The writes of the first `m` rows of tower `t`, from its roof down.
pub open spec fn tower_writes_spec(
    area: Area,
    t: Tower,
    logo: &LogoMask,
    glyphs: Seq<char>,
    m: int,
    frame: int,
    window_seed: int,
) -> Seq<CellWrite>
    decreases m,
{
    if m <= 0 {
        seq![]
    } else {
        tower_writes_spec(area, t, logo, glyphs, m - 1, frame, window_seed) + row_writes(
            area,
            t,
            logo,
            glyphs,
            m - 1,
            t.width as int,
            frame,
            window_seed,
        )
    }
}

/// The writes that paint `tower`, in drawing order: row by row from its
/// roof down, each row from its left edge, leaving untouched every cell
/// that falls outside the area.  `glyphs` holds the logo's glyphs.
pub fn tower_writes(
    area: Area,
    tower: Tower,
    logo: &LogoMask,
    glyphs: &Vec<char>,
    frame: u64,
    window_seed: u64,
) -> (writes: Vec<CellWrite>)
    requires
        logo_mask_wf(logo),
        logo_glyphs_wf(glyphs@),
    ensures
        writes@ == tower_writes_spec(
            area,
            tower,
            logo,
            glyphs@,
            tower.height as int,
            frame as int,
            window_seed as int,
        ),
{
    let grid = tower_facade(area, tower, logo, frame, window_seed);
    let (start_x, start_y) = tower_origin(area, tower);
    let mut writes: Vec<CellWrite> = Vec::new();
    let mut r: u16 = 0;
    while r < tower.height
        invariant
            r <= tower.height,
            logo_glyphs_wf(glyphs@),
            start_x == sat_add_u16(area.x as int, tower.offset as int),
            start_y == roof_row(area.height as int, tower.height as int),
            grid@.len() == tower.height,
            forall|i: int| 0 <= i < tower.height ==> #[trigger] grid@[i]@.len() == tower.width,
            forall|i: int, c: int|
                0 <= i < tower.height && 0 <= c < tower.width ==> #[trigger] grid@[i]@[c] == placed_facade(
                    area,
                    tower,
                    logo,
                    c,
                    i,
                    frame as int,
                    window_seed as int,
                ),
            writes@ == tower_writes_spec(area, tower, logo, glyphs@, r as int, frame as int, window_seed as int),
        decreases tower.height - r,
    {
        let ghost before = writes@;
        let mut c: u16 = 0;
        while c < tower.width
            invariant
                c <= tower.width,
                r < tower.height,
                logo_glyphs_wf(glyphs@),
                start_x == sat_add_u16(area.x as int, tower.offset as int),
                start_y == roof_row(area.height as int, tower.height as int),
                grid@.len() == tower.height,
                grid@[r as int]@.len() == tower.width,
                forall|cc: int|
                    0 <= cc < tower.width ==> #[trigger] grid@[r as int]@[cc] == placed_facade(
                        area,
                        tower,
                        logo,
                        cc,
                        r as int,
                        frame as int,
                        window_seed as int,
                    ),
                writes@ == before + row_writes(area, tower, logo, glyphs@, r as int, c as int, frame as int, window_seed as int),
            decreases tower.width - c,
        {
            let ghost prev = writes@;
            match grid[r as usize][c as usize] {
                Some(cell) => {
                    let dx = start_x.saturating_add(c);
                    let dy = start_y.saturating_add(r);
                    let glyph = if r < LOGO_ROWS && c < LOGO_COLS {
                        glyphs[(r * 32 + c) as usize]
                    } else {
                        ' '
                    };
                    writes.push(facade_write(cell, dx, dy, glyph));
                },
                None => {},
            }
            proof {
                assert(writes@ =~= before + row_writes(area, tower, logo, glyphs@, r as int, c + 1, frame as int, window_seed as int));
            }
            c = c + 1;
        }
        r = r + 1;
    }
    writes
}

/// `w` lies inside the area and at or right of and below the top-left cell
/// of tower `t`.
pub open spec fn write_within(area: Area, t: Tower, w: CellWrite) -> bool {
    &&& w.col < area.x + area.width
    &&& w.row < area.y + area.height
    &&& sat_add_u16(area.x as int, t.offset as int) <= w.col
    &&& w.col < sat_add_u16(area.x as int, t.offset as int) + t.width
    &&& roof_row(area.height as int, t.height as int) <= w.row
}

proof fn lemma_row_writes_within(
    area: Area,
    t: Tower,
    logo: &LogoMask,
    glyphs: Seq<char>,
    row: int,
    n: int,
    frame: int,
    window_seed: int,
)
    requires
        0 <= row,
        n <= t.width,
    ensures
        forall|k: int|
            0 <= k < row_writes(area, t, logo, glyphs, row, n, frame, window_seed).len() ==> write_within(
                area,
                t,
                #[trigger] row_writes(area, t, logo, glyphs, row, n, frame, window_seed)[k],
            ),
    decreases n,
{
    if n > 0 {
        lemma_row_writes_within(area, t, logo, glyphs, row, n - 1, frame, window_seed);
        let prev = row_writes(area, t, logo, glyphs, row, n - 1, frame, window_seed);
        let all = row_writes(area, t, logo, glyphs, row, n, frame, window_seed);
        assert forall|k: int| 0 <= k < all.len() implies write_within(area, t, #[trigger] all[k]) by {
            if k < prev.len() {
                assert(all[k] == prev[k]);
            }
        }
    }
}

proof fn lemma_tower_writes_within_upto(
    area: Area,
    t: Tower,
    logo: &LogoMask,
    glyphs: Seq<char>,
    m: int,
    frame: int,
    window_seed: int,
)
    ensures
        forall|k: int|
            0 <= k < tower_writes_spec(area, t, logo, glyphs, m, frame, window_seed).len() ==> write_within(
                area,
                t,
                #[trigger] tower_writes_spec(area, t, logo, glyphs, m, frame, window_seed)[k],
            ),
    decreases m,
{
    if m > 0 {
        lemma_tower_writes_within_upto(area, t, logo, glyphs, m - 1, frame, window_seed);
        lemma_row_writes_within(area, t, logo, glyphs, m - 1, t.width as int, frame, window_seed);
        let prev = tower_writes_spec(area, t, logo, glyphs, m - 1, frame, window_seed);
        let rw = row_writes(area, t, logo, glyphs, m - 1, t.width as int, frame, window_seed);
        let all = tower_writes_spec(area, t, logo, glyphs, m, frame, window_seed);
        assert forall|k: int| 0 <= k < all.len() implies write_within(area, t, #[trigger] all[k]) by {
            if k < prev.len() {
                assert(all[k] == prev[k]);
            } else {
                assert(all[k] == rw[k - prev.len()]);
            }
        }
    }
}

/// A tower paints only its own cells: every write of its facade lies in
/// the area, in the tower's columns and at or below its roof.
pub proof fn lemma_tower_writes_within(
    area: Area,
    t: Tower,
    logo: &LogoMask,
    glyphs: Seq<char>,
    frame: int,
    window_seed: int,
)
    ensures
        forall|k: int|
            0 <= k < tower_writes_spec(area, t, logo, glyphs, t.height as int, frame, window_seed).len()
                ==> write_within(
                area,
                t,
                #[trigger] tower_writes_spec(area, t, logo, glyphs, t.height as int, frame, window_seed)[k],
            ),
{
    lemma_tower_writes_within_upto(area, t, logo, glyphs, t.height as int, frame, window_seed);
}

/// Whether a logo glyph lies in the 3 by 3 block around `(col, row)`.
fn near_logo(logo: &LogoMask, col: u16, row: u16) -> (near: bool)
    requires
        logo_mask_wf(logo),
    ensures
        near == near_logo_glyph(logo.cells@, col as int, row as int),
{
    let mut dy_off: i32 = -1;
    while dy_off <= 1
        invariant
            -1 <= dy_off <= 2,
            logo_mask_wf(logo),
            forall|r: int, c: int|
                row - 1 <= r < row + dy_off && col - 1 <= c <= col + 1 ==> !#[trigger] logo_glyph_at(
                    logo.cells@,
                    r,
                    c,
                ),
        decreases 2 - dy_off,
    {
        let mut dx_off: i32 = -1;
        while dx_off <= 1
            invariant
                -1 <= dx_off <= 2,
                -1 <= dy_off <= 1,
                logo_mask_wf(logo),
                forall|c: int|
                    col - 1 <= c < col + dx_off ==> !#[trigger] logo_glyph_at(
                        logo.cells@,
                        row + dy_off,
                        c,
                    ),
            decreases 2 - dx_off,
        {
            let check_y: i32 = row as i32 + dy_off;
            let check_x: i32 = col as i32 + dx_off;
            if 0 <= check_y && check_y < 20 && 0 <= check_x && check_x < 32 {
                let k = (check_y * 32 + check_x) as usize;
                if logo.cells[k] {
                    assert(logo_glyph_at(logo.cells@, check_y as int, check_x as int));
                    return true;
                }
            }
            dx_off = dx_off + 1;
        }
        dy_off = dy_off + 1;
    }
    false
}

/// What the facade of tower `tower` shows at `(col, row)`, drawn at screen
/// cell `(dx, dy)` in frame `frame` of a city whose windows are seeded with
/// `window_seed`.
pub fn facade_cell(
    tower: Tower,
    logo: &LogoMask,
    col: u16,
    row: u16,
    dx: u16,
    dy: u16,
    frame: u64,
    window_seed: u64,
) -> (cell: FacadeCell)
    requires
        logo_mask_wf(logo),
    ensures
        cell == facade_spec(
            tower,
            logo,
            col as int,
            row as int,
            dx as int,
            dy as int,
            frame as int,
            window_seed as int,
        ),
{
    let bw = tower.width;
    let bh = tower.height;
    let i = tower.slot;
    let mut is_logo_pixel = false;
    if i == 1 && row < LOGO_ROWS && col < LOGO_COLS {
        let pixel = logo.cells[(row * 32 + col) as usize];
        if pixel {
            return FacadeCell::LogoPixel;
        } else if logo.window_panes && col >= 6 && col <= 26 && row >= 3 && row <= 14 {
            is_logo_pixel = true;
        } else if !logo.compact && col > 4 && col < 28 {
            is_logo_pixel = true;
        }
    }
    if is_logo_pixel {
        return FacadeCell::Wall;
    }
    let mut cell = FacadeCell::Wall;
    if col == 0 || col == bw.saturating_sub(1) {
        cell = FacadeCell::Edge;
    }
    let sign = i % 2 == 1 && bh > 12;
    let is_win_row = row > 2 && row < bh.saturating_sub(4) && row % 3 == 0;
    let x_clearance = if sign { bw.saturating_sub(2) } else { bw.saturating_sub(1) };
    let mut close_to_logo = false;
    if i == 1 {
        close_to_logo = near_logo(logo, col, row);
    }
    if !close_to_logo && is_win_row && col > 0 && col < x_clearance && (dx.wrapping_add(dy)) % 4 == 0 {
        let door_x = bw / 2;
        if !(row >= bh.saturating_sub(3) && col >= door_x.saturating_sub(1) && col <= door_x + 1) {
            let seed = (dx as u64).wrapping_mul(100).wrapping_add(dy as u64).wrapping_add(window_seed);
            cell = FacadeCell::Window { seed };
        }
    }
    if row >= bh.saturating_sub(3) {
        let door_x = bw / 2;
        if col >= door_x.saturating_sub(1) && col <= door_x + 1 {
            if row == bh.saturating_sub(3) {
                cell = FacadeCell::DoorLintel { main_neon: i % 2 != 0 };
            } else {
                cell = FacadeCell::DoorStep;
            }
        }
        if col == door_x + 2 && row == bh.saturating_sub(2) {
            cell = FacadeCell::DoorLight { red: frame % 20 < 10 };
        }
    }
    cell
}

/// Screen cell `(dx, dy)` lies inside `area`.
pub open spec fn cell_visible(area: Area, dx: int, dy: int) -> bool {
    dx < area.x + area.width && dy < area.y + area.height
}

/// What tower `t` shows at `(col, row)` of its facade: nothing where that
/// cell falls outside the area, else its facade cell.
pub open spec fn placed_facade(
    area: Area,
    t: Tower,
    logo: &LogoMask,
    col: int,
    row: int,
    frame: int,
    window_seed: int,
) -> Option<FacadeCell> {
    let dx = sat_add_u16(sat_add_u16(area.x as int, t.offset as int), col);
    let dy = sat_add_u16(roof_row(area.height as int, t.height as int), row);
    if cell_visible(area, dx, dy) {
        Some(facade_spec(t, logo, col, row, dx, dy, frame, window_seed))
    } else {
        None
    }
}

/// The whole facade of `tower`, row by row from its roof down, each row
/// from its left edge: every cell's content, or `None` where the cell falls
/// outside the area.
pub fn tower_facade(
    area: Area,
    tower: Tower,
    logo: &LogoMask,
    frame: u64,
    window_seed: u64,
) -> (rows: Vec<Vec<Option<FacadeCell>>>)
    requires
        logo_mask_wf(logo),
    ensures
        rows@.len() == tower.height,
        forall|r: int| 0 <= r < tower.height ==> #[trigger] rows@[r]@.len() == tower.width,
        forall|r: int, c: int|
            0 <= r < tower.height && 0 <= c < tower.width ==> #[trigger] rows@[r]@[c] == placed_facade(
                area,
                tower,
                logo,
                c,
                r,
                frame as int,
                window_seed as int,
            ),
{
    let (start_x, start_y) = tower_origin(area, tower);
    let mut rows: Vec<Vec<Option<FacadeCell>>> = Vec::new();
    let mut y_rel: u16 = 0;
    while y_rel < tower.height
        invariant
            y_rel <= tower.height,
            logo_mask_wf(logo),
            start_x == sat_add_u16(area.x as int, tower.offset as int),
            start_y == roof_row(area.height as int, tower.height as int),
            rows@.len() == y_rel,
            forall|r: int| 0 <= r < y_rel ==> #[trigger] rows@[r]@.len() == tower.width,
            forall|r: int, c: int|
                0 <= r < y_rel && 0 <= c < tower.width ==> #[trigger] rows@[r]@[c] == placed_facade(
                    area,
                    tower,
                    logo,
                    c,
                    r,
                    frame as int,
                    window_seed as int,
                ),
        decreases tower.height - y_rel,
    {
        let mut line: Vec<Option<FacadeCell>> = Vec::new();
        let mut x_rel: u16 = 0;
        while x_rel < tower.width
            invariant
                x_rel <= tower.width,
                y_rel < tower.height,
                logo_mask_wf(logo),
                start_x == sat_add_u16(area.x as int, tower.offset as int),
                start_y == roof_row(area.height as int, tower.height as int),
                line@.len() == x_rel,
                forall|c: int|
                    0 <= c < x_rel ==> #[trigger] line@[c] == placed_facade(
                        area,
                        tower,
                        logo,
                        c,
                        y_rel as int,
                        frame as int,
                        window_seed as int,
                    ),
            decreases tower.width - x_rel,
        {
            let dx = start_x.saturating_add(x_rel);
            let dy = start_y.saturating_add(y_rel);
            if (dx as u32) < area.x as u32 + area.width as u32 && (dy as u32) < area.y as u32
                + area.height as u32 {
                line.push(Some(facade_cell(tower, logo, x_rel, y_rel, dx, dy, frame, window_seed)));
            } else {
                line.push(None);
            }
            x_rel = x_rel + 1;
        }
        rows.push(line);
        y_rel = y_rel + 1;
    }
    rows
}

/// What a tower's sign shows.
#[derive(PartialEq, Eq, Structural, Clone, Copy, Debug)]
pub enum SignText {
    /// The monolith's own sign text.
    Monolith,
    /// The name of the top process at this index.
    Process { index: usize },
    /// The placeholder `NULL`, shown while no process is known.
    Null,
}

/// The colour of a tower's sign.
#[derive(PartialEq, Eq, Structural, Clone, Copy, Debug)]
pub enum SignColor {
    /// The monolith's custom colour where one is set, else the main neon.
    Monolith,
    /// The theme's first accent neon.
    Accent1,
    /// The theme's second accent neon.
    Accent2,
    /// The theme's third accent neon.
    Accent3,
}

/// A sign hung on the right edge of a tower.
#[derive(Clone, Copy)]
pub struct SignPlan {
    pub col: u16,
    pub row: u16,
    pub text: SignText,
    pub color: SignColor,
}

/// The process shown by the sign of the tower in `slot`, among
/// `process_count` processes.
pub open spec fn sign_text_spec(slot: int, process_count: int) -> SignText {
    if slot == 1 {
        SignText::Monolith
    } else if process_count == 0 {
        SignText::Null
    } else {
        SignText::Process { index: (sat_sub(slot / 2, 1) % process_count) as usize }
    }
}

/// The sign colour of the tower in `slot`.
pub open spec fn sign_color_spec(slot: int) -> SignColor {
    if slot == 1 {
        SignColor::Monolith
    } else if (slot / 2) % 3 == 0 {
        SignColor::Accent1
    } else if (slot / 2) % 3 == 1 {
        SignColor::Accent2
    } else {
        SignColor::Accent3
    }
}

/// The colours of the process signs cycle through the three accents with
/// every second slot: a slot whose half leaves remainder 0, 1 or 2 by 3
/// carries the first, second or third accent (so the tower of slot 3 is in
/// the second), and only the monolith's sign takes its own colour.
pub proof fn lemma_sign_colors_cycle(slot: int)
    ensures
        slot == 1 ==> sign_color_spec(slot) == SignColor::Monolith,
        slot != 1 && (slot / 2) % 3 == 0 ==> sign_color_spec(slot) == SignColor::Accent1,
        slot != 1 && (slot / 2) % 3 == 1 ==> sign_color_spec(slot) == SignColor::Accent2,
        slot != 1 && (slot / 2) % 3 == 2 ==> sign_color_spec(slot) == SignColor::Accent3,
        sign_color_spec(3) == SignColor::Accent2,
{
}

/// The sign of `tower`, if it carries one: on its last column, five rows
/// below its roof.
pub fn tower_sign(area: Area, tower: Tower, process_count: usize) -> (sign: Option<SignPlan>)
    requires
        has_sign(tower) ==> sat_add_u16(area.x as int, tower.offset as int) + sat_sub(
            tower.width as int,
            1,
        ) <= u16::MAX,
    ensures
        sign is Some <==> has_sign(tower),
        sign matches Some(p) ==> {
            &&& p.col == sat_add_u16(area.x as int, tower.offset as int) + sat_sub(tower.width as int, 1)
            &&& p.row == sat_add_u16(roof_row(area.height as int, tower.height as int), 5)
            &&& p.text == sign_text_spec(tower.slot as int, process_count as int)
            &&& p.color == sign_color_spec(tower.slot as int)
        },
{
    let i = tower.slot;
    if i % 2 == 1 && tower.height > 12 {
        let (start_x, start_y) = tower_origin(area, tower);
        let text;
        let color;
        if i == 1 {
            text = SignText::Monolith;
            color = SignColor::Monolith;
        } else {
            let count = if process_count > 1 { process_count } else { 1 };
            let p_idx = (i / 2).saturating_sub(1) % count;
            proof {
                if process_count > 0 {
                    vstd::arithmetic::div_mod::lemma_mod_twice(
                        sat_sub(i as int / 2, 1),
                        process_count as int,
                    );
                }
            }
            text = if process_count == 0 {
                SignText::Null
            } else {
                SignText::Process { index: p_idx % process_count }
            };
            color = match (i / 2) % 3 {
                0 => SignColor::Accent1,
                1 => SignColor::Accent2,
                _ => SignColor::Accent3,
            };
        }
        Some(SignPlan { col: start_x + tower.width.saturating_sub(1), row: start_y.saturating_add(5), text, color })
    } else {
        None
    }
}

/// The kind of rooftop fixture a tower carries.
#[derive(PartialEq, Eq, Structural, Clone, Copy, Debug)]
pub enum AntennaKind {
    /// A mast: its foot, a pole above where the area leaves room, and a
    /// beacon on top where there is room for it too.
    Mast { pole: bool, beacon: bool, beacon_red: bool },
    /// A satellite dish.
    Dish,
    /// Roof vents.
    Vents,
}

/// A rooftop fixture anchored at `(col, row)`.
#[derive(Clone, Copy)]
pub struct Antenna {
    pub col: u16,
    pub row: u16,
    pub kind: AntennaKind,
}

/// Column of a tower's rooftop fixture.
pub open spec fn antenna_col(area: Area, t: Tower) -> int {
    sat_add_u16(sat_add_u16(area.x as int, t.offset as int), 2)
}

/// Row of a tower's rooftop fixture: just above its roof.
pub open spec fn antenna_row(area: Area, t: Tower) -> int {
    sat_add_u16(area.y as int, sat_sub(roof_row(area.height as int, t.height as int), 1))
}

/// The rooftop fixture of `t` in frame `frame`, on a screen buffer
/// `buffer_width` by `buffer_height`: none on the monolith and on the tower
/// of slot 3, nor where the fixture would fall off the buffer; else a mast,
/// a dish or vents as the slot's remainder by 3 says.
pub open spec fn antenna_spec(area: Area, t: Tower, buffer_width: int, buffer_height: int, frame: int) -> Option<Antenna> {
    let col = antenna_col(area, t);
    let row = antenna_row(area, t);
    if t.slot == 1 || t.slot == 3 || col >= buffer_width || row >= buffer_height {
        None
    } else {
        let kind = if t.slot % 3 == 0 {
            AntennaKind::Mast { pole: row > area.y, beacon: row > area.y + 1, beacon_red: frame % 30 < 15 }
        } else if t.slot % 3 == 1 {
            AntennaKind::Dish
        } else {
            AntennaKind::Vents
        };
        Some(Antenna { col: col as u16, row: row as u16, kind })
    }
}

/// The rooftop fixture of `tower`, if it carries one.
pub fn tower_antenna(area: Area, tower: Tower, buffer_width: u16, buffer_height: u16, frame: u64) -> (antenna: Option<Antenna>)
    ensures
        antenna == antenna_spec(area, tower, buffer_width as int, buffer_height as int, frame as int),
{
    let i = tower.slot;
    if i != 1 && i != 3 {
        let (start_x, _start_y) = tower_origin(area, tower);
        let ground_y = area.height.saturating_sub(3);
        let start_y = ground_y.saturating_sub(tower.height);
        let ant_x = start_x.saturating_add(2);
        if ant_x < buffer_width {
            let ant_y = area.y.saturating_add(start_y.saturating_sub(1));
            if ant_y < buffer_height {
                let kind = match i % 3 {
                    0 => AntennaKind::Mast {
                        pole: ant_y > area.y,
                        beacon: ant_y as u32 > area.y as u32 + 1,
                        beacon_red: frame % 30 < 15,
                    },
                    1 => AntennaKind::Dish,
                    _ => AntennaKind::Vents,
                };
                return Some(Antenna { col: ant_x, row: ant_y, kind });
            }
        }
    }
    None
}

/// What a rooftop fixture draws, bottom up, each symbol keeping the cell's
/// background: a mast is `┷` in grey-blue, with a `┃` pole above it in a
/// darker grey where it has a pole and a `*` beacon above that, red or dark
/// red, where it has one; a dish is `📡` in light grey-blue; vents are
/// `▝▘` in dark grey-blue.
pub open spec fn antenna_parts(a: Antenna) -> Seq<(int, int, Seq<char>, Ink)> {
    match a.kind {
        AntennaKind::Mast { pole, beacon, beacon_red } => {
            let foot = seq![(a.col as int, a.row as int, "┷"@, Ink::Rgb { r: 60, g: 60, b: 80 })];
            let stem = if pole {
                seq![(a.col as int, a.row - 1, "┃"@, Ink::Rgb { r: 50, g: 50, b: 70 })]
            } else {
                seq![]
            };
            let top = if pole && beacon {
                seq![(a.col as int, a.row - 2, "*"@, if beacon_red { Ink::Red } else { Ink::Rgb { r: 60, g: 0, b: 0 } })]
            } else {
                seq![]
            };
            foot + stem + top
        },
        AntennaKind::Dish => seq![(a.col as int, a.row as int, "📡"@, Ink::Rgb { r: 100, g: 100, b: 120 })],
        AntennaKind::Vents => seq![(a.col as int, a.row as int, "▝▘"@, Ink::Rgb { r: 40, g: 40, b: 50 })],
    }
}

/// The symbol writes of a rooftop fixture, in drawing order.
pub fn antenna_writes(a: Antenna) -> (writes: Vec<SymbolWrite>)
    requires
        a.kind matches AntennaKind::Mast { pole, beacon, .. } ==> (pole ==> a.row >= 1) && (pole
            && beacon ==> a.row >= 2),
    ensures
        writes@.len() == antenna_parts(a).len(),
        forall|k: int|
            0 <= k < writes@.len() ==> #[trigger] writes_symbol(
                writes@[k],
                antenna_parts(a)[k].0,
                antenna_parts(a)[k].1,
                antenna_parts(a)[k].2,
                antenna_parts(a)[k].3,
                Backdrop::Keep,
            ),
{
    let mut writes: Vec<SymbolWrite> = Vec::new();
    match a.kind {
        AntennaKind::Mast { pole, beacon, beacon_red } => {
            writes.push(SymbolWrite { col: a.col, row: a.row, symbol: String::from_str("┷"), fg: Ink::Rgb { r: 60, g: 60, b: 80 }, bg: Backdrop::Keep });
            if pole {
                writes.push(SymbolWrite { col: a.col, row: a.row - 1, symbol: String::from_str("┃"), fg: Ink::Rgb { r: 50, g: 50, b: 70 }, bg: Backdrop::Keep });
                if beacon {
                    let fg = if beacon_red { Ink::Red } else { Ink::Rgb { r: 60, g: 0, b: 0 } };
                    writes.push(SymbolWrite { col: a.col, row: a.row - 2, symbol: String::from_str("*"), fg, bg: Backdrop::Keep });
                }
            }
        },
        AntennaKind::Dish => {
            writes.push(SymbolWrite { col: a.col, row: a.row, symbol: String::from_str("📡"), fg: Ink::Rgb { r: 100, g: 100, b: 120 }, bg: Backdrop::Keep });
        },
        AntennaKind::Vents => {
            writes.push(SymbolWrite { col: a.col, row: a.row, symbol: String::from_str("▝▘"), fg: Ink::Rgb { r: 40, g: 40, b: 50 }, bg: Backdrop::Keep });
        },
    }
    writes
}

} // verus!
