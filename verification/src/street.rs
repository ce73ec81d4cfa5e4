//! Street level: pedestrians, vehicles, lamps and weather glyphs.

use vstd::prelude::*;
use crate::paint::{writes_symbol, writes_text, Backdrop, CellWrite, Ink, SymbolWrite, TextWrite, ThemeSlot};
use crate::skyline::{
    is_skyline, is_tower_at, lemma_slot_has_tower, lemma_slot_in_area, slot_of, tower_count, Tower,
    sat_sub, slot_count, skipped_slot, slot_offset, tower_width_at, roof_row, ground_row, Area,
};

verus! {

/// Height of the tower in slot `i` as pedestrians see it when deciding
/// whether they walk in front of it: the monolith leaves 8 rows, the tower
/// of slot 3 leaves 6, the others are a third of the area plus up to 10.
pub open spec fn pedestrian_tower_height(i: int, height: int) -> int {
    if i == 1 {
        sat_sub(height, 8)
    } else if i == 3 {
        sat_sub(height, 6)
    } else {
        height / 3 + slot_offset(i) % 11
    }
}

/// A tower stands behind the screen cell `(col, row)`: the column lies in
/// its span and the row at or below its roof (rows counted from
/// `buffer_top`).
pub open spec fn tower_behind(area: Area, buffer_top: int, col: int, row: int) -> bool {
    exists|i: int|
        0 <= i < slot_count(area.width as int) && !skipped_slot(i) && area.x + slot_offset(i) <= col
            < area.x + slot_offset(i) + #[trigger] tower_width_at(i) && row >= buffer_top + roof_row(
            area.height as int,
            pedestrian_tower_height(i, area.height as int),
        )
}

/// With the buffer starting at the area's top row, a tower stands behind a
/// pedestrian in the street exactly when the pedestrian's column lies in
/// the span of one of the skyline's towers.
pub proof fn lemma_pedestrian_backdrop_matches_skyline(area: Area, towers: Seq<Tower>, c: int)
    requires
        is_skyline(towers, area.width as int, area.height as int),
        0 <= c,
    ensures
        tower_behind(area, area.y as int, area.x + c, feet_row(area)) <==> exists|k: int|
            0 <= k < towers.len() && #[trigger] towers[k].offset <= c < towers[k].offset + towers[k].width,
{
    let w = area.width as int;
    let h = area.height as int;
    if tower_behind(area, area.y as int, area.x + c, feet_row(area)) {
        let i = choose|i: int|
            0 <= i < slot_count(w) && !skipped_slot(i) && area.x + slot_offset(i) <= area.x + c
                < area.x + slot_offset(i) + #[trigger] tower_width_at(i) && feet_row(area) >= area.y
                + roof_row(h, pedestrian_tower_height(i, h));
        lemma_slot_has_tower(i, w);
        let k = choose|k: int| 0 <= k < tower_count(slot_count(w)) && #[trigger] slot_of(k) == i;
        assert(is_tower_at(towers[k], slot_of(k), h));
        assert(towers[k].offset <= c < towers[k].offset + towers[k].width);
    }
    if exists|k: int| 0 <= k < towers.len() && #[trigger] towers[k].offset <= c < towers[k].offset + towers[k].width {
        let k = choose|k: int| 0 <= k < towers.len() && #[trigger] towers[k].offset <= c < towers[k].offset + towers[k].width;
        lemma_slot_in_area(k, w);
        assert(is_tower_at(towers[k], slot_of(k), h));
        let i = slot_of(k);
        assert(tower_width_at(i) == towers[k].width);
        assert(feet_row(area) >= area.y + roof_row(h, pedestrian_tower_height(i, h)));
    }
}

/// Where a pedestrian is drawn and whether a tower stands behind it.
#[derive(Clone, Copy)]
pub struct PedestrianCells {
    pub head_row: u16,
    pub feet_row: u16,
    pub tower_behind: bool,
}

/// The row of a pedestrian's feet: the street row of the area.
pub open spec fn feet_row(area: Area) -> int {
    area.y + ground_row(area.height as int)
}

/// The cells of a pedestrian standing in screen column `col`: none where it
/// falls outside the area; else its head and feet rows, and whether a
/// tower stands behind its feet.
pub fn pedestrian_cells(area: Area, buffer_top: u16, col: u16) -> (cells: Option<PedestrianCells>)
    requires
        feet_row(area) <= u16::MAX,
    ensures
        cells is Some <==> (col < area.x + area.width && feet_row(area) < area.y + area.height),
        cells matches Some(c) ==> {
            &&& c.feet_row == feet_row(area)
            &&& c.head_row == sat_sub(feet_row(area), 1)
            &&& c.tower_behind == tower_behind(area, buffer_top as int, col as int, feet_row(area))
        },
{
    let ground_y = area.height.saturating_sub(3);
    let py_l = area.y + ground_y;
    let py_h = py_l.saturating_sub(1);
    if !((col as u32) < area.x as u32 + area.width as u32 && (py_l as u32) < area.y as u32
        + area.height as u32) {
        return None;
    }
    let mut behind = false;
    let mut s_skip = false;
    let mut idx: usize = 0;
    let mut xb: u32 = 0;
    while xb < area.width as u32
        invariant_except_break
            !behind,
            s_skip == skipped_slot(idx as int),
        invariant
            xb == slot_offset(idx as int),
            idx <= slot_count(area.width as int),
            idx == 0 || slot_offset(idx - 1) < area.width,
            ground_y == ground_row(area.height as int),
            py_l == feet_row(area),
            forall|i: int|
                0 <= i < idx && !skipped_slot(i) ==> !(area.x + slot_offset(i) <= col < area.x
                    + slot_offset(i) + #[trigger] tower_width_at(i) && py_l >= buffer_top
                    + roof_row(area.height as int, pedestrian_tower_height(i, area.height as int))),
        ensures
            behind == tower_behind(area, buffer_top as int, col as int, py_l as int),
        decreases slot_count(area.width as int) - idx,
    {
        if s_skip {
            s_skip = false;
        } else {
            let mut bw: u32 = 8 + xb % 7;
            if idx == 1 {
                bw = 32;
                s_skip = true;
            }
            if idx == 3 {
                bw = 28;
                s_skip = true;
            }
            let tower_h: u16 = if idx == 1 {
                area.height.saturating_sub(8)
            } else if idx == 3 {
                area.height.saturating_sub(6)
            } else {
                area.height / 3 + (xb % 11) as u16
            };
            let roof = ground_y.saturating_sub(tower_h);
            assert(tower_width_at(idx as int) == bw);
            assert(roof == roof_row(area.height as int, pedestrian_tower_height(idx as int, area.height as int)));
            if col as u32 >= area.x as u32 + xb && (col as u32) < area.x as u32 + xb + bw
                && py_l as u32 >= buffer_top as u32 + roof as u32 {
                assert(tower_width_at(idx as int) == bw);
                behind = true;
                break;
            }
        }
        idx = idx + 1;
        xb = xb + 20;
    }
    Some(PedestrianCells { head_row: py_h, feet_row: py_l, tower_behind: behind })
}

/// The walking phase of a pedestrian: standing still (phase 1) while it
/// pauses at a door it enters, else the phase advances every four frames
/// through 0, 1, 2.
pub open spec fn gait_spec(frame: int, id_offset: int, entering: bool, pause_timer: int) -> int {
    if entering && pause_timer > 0 {
        1
    } else {
        ((frame + id_offset) / 4) % 3
    }
}

/// The glyph of a pedestrian's legs in a walking phase.
pub open spec fn legs_glyph(gait: int) -> char {
    if gait == 0 {
        'Λ'
    } else if gait == 1 {
        '|'
    } else {
        'λ'
    }
}

/// The glyph of a pedestrian's legs in frame `frame`.
pub fn pedestrian_legs(frame: u64, id_offset: u64, entering: bool, pause_timer: u64) -> (legs: char)
    requires
        !(entering && pause_timer > 0) ==> frame + id_offset <= u64::MAX,
    ensures
        legs == legs_glyph(gait_spec(frame as int, id_offset as int, entering, pause_timer as int)),
{
    let gait: u64 = if entering && pause_timer > 0 {
        1
    } else {
        ((frame + id_offset) / 4) % 3
    };
    match gait {
        0 => 'Λ',
        1 => '|',
        _ => 'λ',
    }
}

/// The two writes of a pedestrian standing in screen column `col` in
/// frame `frame`: none where it falls outside the area; else its head `o`
/// on the head row and its legs on the feet row, both in the pedestrian's
/// colour, on the wall colour where a tower stands behind it and on the
/// terminal's own colour elsewhere.
pub fn pedestrian_writes(
    area: Area,
    buffer_top: u16,
    col: u16,
    frame: u64,
    id_offset: u64,
    entering: bool,
    pause_timer: u64,
) -> (writes: Option<(CellWrite, CellWrite)>)
    requires
        feet_row(area) <= u16::MAX,
        !(entering && pause_timer > 0) ==> frame + id_offset <= u64::MAX,
    ensures
        writes is Some <==> (col < area.x + area.width && feet_row(area) < area.y + area.height),
        writes matches Some(w) ==> {
            let bg = Backdrop::Paint {
                ink: if tower_behind(area, buffer_top as int, col as int, feet_row(area)) {
                    Ink::Theme { slot: ThemeSlot::BuildingBase }
                } else {
                    Ink::Reset
                },
            };
            &&& w.0 == (CellWrite { col, row: sat_sub(feet_row(area), 1) as u16, glyph: 'o', fg: Ink::Person, bg })
            &&& w.1 == (CellWrite {
                col,
                row: feet_row(area) as u16,
                glyph: legs_glyph(gait_spec(frame as int, id_offset as int, entering, pause_timer as int)),
                fg: Ink::Person,
                bg,
            })
        },
{
    match pedestrian_cells(area, buffer_top, col) {
        None => None,
        Some(c) => {
            let legs = pedestrian_legs(frame, id_offset, entering, pause_timer);
            let ink = if c.tower_behind { Ink::Theme { slot: ThemeSlot::BuildingBase } } else { Ink::Reset };
            let bg = Backdrop::Paint { ink };
            Some((
                CellWrite { col, row: c.head_row, glyph: 'o', fg: Ink::Person, bg },
                CellWrite { col, row: c.feet_row, glyph: legs, fg: Ink::Person, bg },
            ))
        },
    }
}

/// The kinds of vehicle in the sky lanes.
#[derive(PartialEq, Eq, Structural, Clone, Copy, Debug)]
pub enum VehicleType {
    Spinner,
    Shuttle,
    Police,
}

/// The colour of the light trail behind a vehicle.
#[derive(PartialEq, Eq, Structural, Clone, Copy, Debug)]
pub enum TrailColor {
    PoliceRed,
    MainNeon,
}

/// The glyphs of a vehicle's body from left to right; a shuttle of
/// `length` cells is a cab, `length - 2` body cells and a nose.
pub open spec fn vehicle_body_spec(kind: VehicleType, length: int) -> Seq<char> {
    match kind {
        VehicleType::Spinner => seq!['◢', '■', '◣'],
        VehicleType::Shuttle => seq!['▓'] + Seq::new(sat_sub(length, 2) as nat, |k: int| '█') + seq!['▶'],
        VehicleType::Police => seq!['◤', '█', '◥'],
    }
}

/// The glyphs of a vehicle's body.
pub fn vehicle_body(kind: VehicleType, length: usize) -> (body: Vec<char>)
    ensures
        body@ == vehicle_body_spec(kind, length as int),
{
    match kind {
        VehicleType::Spinner => vec!['◢', '■', '◣'],
        VehicleType::Shuttle => {
            let mut b: Vec<char> = Vec::new();
            b.push('▓');
            let n = length.saturating_sub(2);
            let mut k: usize = 0;
            while k < n
                invariant
                    k <= n,
                    b@ =~= seq!['▓'] + Seq::new(k as nat, |j: int| '█'),
                decreases n - k,
            {
                b.push('█');
                k = k + 1;
            }
            b.push('▶');
            proof {
                assert(b@ =~= vehicle_body_spec(kind, length as int));
            }
            b
        },
        VehicleType::Police => vec!['◤', '█', '◥'],
    }
}

/// The trail a vehicle leaves: police cars leave none.
pub fn vehicle_trail(kind: VehicleType) -> (trail: Option<TrailColor>)
    ensures
        trail == match kind {
            VehicleType::Spinner => Some(TrailColor::PoliceRed),
            VehicleType::Shuttle => Some(TrailColor::MainNeon),
            VehicleType::Police => None::<TrailColor>,
        },
{
    match kind {
        VehicleType::Spinner => Some(TrailColor::PoliceRed),
        VehicleType::Shuttle => Some(TrailColor::MainNeon),
        VehicleType::Police => None,
    }
}

/// A police car's body cell at `offset` is white, except the middle cell
/// (offset 1), which is dark grey.
pub fn police_body_white(offset: usize) -> (white: bool)
    ensures
        white == (offset != 1),
{
    offset != 1
}

/// Which of a police car's two roof lights is on in frame `frame`: the
/// blue (left) one on even pairs of frames, the red (right) one on odd.
pub fn police_blue_on(frame: u64) -> (blue: bool)
    ensures
        blue == ((frame / 2) % 2 == 0),
{
    (frame / 2) % 2 == 0
}

/// The ink of a vehicle's body cell at `offset`: a police car is white
/// with a dark grey middle, every other vehicle is in its own colour.
pub open spec fn body_ink(kind: VehicleType, offset: int) -> Ink {
    if kind == VehicleType::Police {
        if offset == 1 {
            Ink::Rgb { r: 60, g: 60, b: 70 }
        } else {
            Ink::White
        }
    } else {
        Ink::Vehicle
    }
}

/// Only a police car has fixed body colours: every body cell of any other
/// vehicle is drawn in the vehicle's own colour, and a police car is white
/// but for its dark grey middle.
pub proof fn lemma_body_inks(kind: VehicleType, offset: int)
    ensures
        kind != VehicleType::Police ==> body_ink(kind, offset) == Ink::Vehicle,
        kind == VehicleType::Police ==> body_ink(kind, offset) == (if offset == 1 {
            Ink::Rgb { r: 60, g: 60, b: 70 }
        } else {
            Ink::White
        }),
{
}

/// The glyphs and inks of a vehicle's body from left to right; each cell is
/// written over what lies behind it (`Backdrop::Blend`).
pub fn vehicle_body_cells(kind: VehicleType, length: usize) -> (cells: Vec<(char, Ink)>)
    ensures
        cells@.len() == vehicle_body_spec(kind, length as int).len(),
        forall|j: int|
            0 <= j < cells@.len() ==> #[trigger] cells@[j] == (
                vehicle_body_spec(kind, length as int)[j],
                body_ink(kind, j),
            ),
{
    let body = vehicle_body(kind, length);
    let mut cells: Vec<(char, Ink)> = Vec::new();
    let mut j: usize = 0;
    while j < body.len()
        invariant
            j <= body@.len(),
            body@ == vehicle_body_spec(kind, length as int),
            cells@.len() == j,
            forall|i: int| 0 <= i < j ==> #[trigger] cells@[i] == (body@[i], body_ink(kind, i)),
        decreases body@.len() - j,
    {
        let ink = if kind == VehicleType::Police {
            if j == 1 { Ink::Rgb { r: 60, g: 60, b: 70 } } else { Ink::White }
        } else {
            Ink::Vehicle
        };
        cells.push((body[j], ink));
        j = j + 1;
    }
    cells
}

/// A blended write of `glyph` in `fg` at `(col, row)`.
pub open spec fn blended(col: int, row: int, glyph: char, fg: Ink) -> CellWrite {
    CellWrite { col: col as u16, row: row as u16, glyph, fg, bg: Backdrop::Blend }
}

/// The colour of an unlit police roof light.
pub open spec fn unlit_light() -> Ink {
    Ink::Rgb { r: 40, g: 40, b: 60 }
}

/// The roof lights of a police car on row `vy` whose lights stand in
/// columns `left_col` and `right_col`: none when the car is on the area's
/// top row or above; else `═` one row up in each of the two columns that
/// lies left of the area's right edge, the left one blue and the right one
/// red when lit, as `police_blue_on` alternates them.
pub open spec fn police_lights_spec(area: Area, vy: int, left_col: int, right_col: int, frame: int) -> Seq<CellWrite> {
    if vy <= area.y {
        seq![]
    } else {
        let blue = (frame / 2) % 2 == 0;
        let left = if left_col < area.x + area.width {
            seq![blended(left_col, vy - 1, '═', if blue { Ink::Theme { slot: ThemeSlot::PoliceBlue } } else { unlit_light() })]
        } else {
            seq![]
        };
        let right = if right_col < area.x + area.width {
            seq![blended(right_col, vy - 1, '═', if !blue { Ink::Theme { slot: ThemeSlot::PoliceRed } } else { unlit_light() })]
        } else {
            seq![]
        };
        left + right
    }
}

/// The roof light writes of a police car, in drawing order.
pub fn police_lights(area: Area, vy: u16, left_col: u16, right_col: u16, frame: u64) -> (writes: Vec<CellWrite>)
    ensures
        writes@ == police_lights_spec(area, vy as int, left_col as int, right_col as int, frame as int),
{
    let mut writes: Vec<CellWrite> = Vec::new();
    if vy > area.y {
        let sy = vy - 1;
        let flash = police_blue_on(frame);
        let edge = area.x as u32 + area.width as u32;
        if (left_col as u32) < edge {
            let fg = if flash { Ink::Theme { slot: ThemeSlot::PoliceBlue } } else { Ink::Rgb { r: 40, g: 40, b: 60 } };
            writes.push(CellWrite { col: left_col, row: sy, glyph: '═', fg, bg: Backdrop::Blend });
        }
        if (right_col as u32) < edge {
            let fg = if !flash { Ink::Theme { slot: ThemeSlot::PoliceRed } } else { Ink::Rgb { r: 40, g: 40, b: 60 } };
            writes.push(CellWrite { col: right_col, row: sy, glyph: '═', fg, bg: Backdrop::Blend });
        }
        proof {
            assert(writes@ =~= police_lights_spec(area, vy as int, left_col as int, right_col as int, frame as int));
        }
    }
    writes
}

/// The trail behind a vehicle whose rearmost trail cell is column `tx` of
/// row `row`: a shuttle leaves `:` and then `·` in the main neon, a spinner
/// `·` in police red and then `·` in cyan, a police car nothing; the second
/// cell, one column further left, only where it stays inside the area.
pub open spec fn trail_spec(kind: VehicleType, area: Area, tx: int, row: int) -> Seq<CellWrite> {
    let second_fits = tx >= area.x + 1;
    match kind {
        VehicleType::Police => seq![],
        VehicleType::Shuttle => seq![blended(tx, row, ':', Ink::Theme { slot: ThemeSlot::NeonMain })] + if second_fits {
            seq![blended(tx - 1, row, '·', Ink::Theme { slot: ThemeSlot::NeonMain })]
        } else {
            seq![]
        },
        VehicleType::Spinner => seq![blended(tx, row, '·', Ink::Theme { slot: ThemeSlot::PoliceRed })] + if second_fits {
            seq![blended(tx - 1, row, '·', Ink::Rgb { r: 85, g: 255, b: 255 })]
        } else {
            seq![]
        },
    }
}

/// The trail writes of a vehicle, in drawing order; `tx` is the column
/// just behind it, which the caller passes only where it lies on screen.
pub fn trail_writes(kind: VehicleType, area: Area, tx: u16, row: u16) -> (writes: Vec<CellWrite>)
    ensures
        writes@ == trail_spec(kind, area, tx as int, row as int),
{
    let mut writes: Vec<CellWrite> = Vec::new();
    match kind {
        VehicleType::Police => {},
        VehicleType::Shuttle => {
            writes.push(CellWrite { col: tx, row, glyph: ':', fg: Ink::Theme { slot: ThemeSlot::NeonMain }, bg: Backdrop::Blend });
            if tx as u32 >= area.x as u32 + 1 {
                writes.push(CellWrite { col: tx - 1, row, glyph: '·', fg: Ink::Theme { slot: ThemeSlot::NeonMain }, bg: Backdrop::Blend });
            }
        },
        VehicleType::Spinner => {
            writes.push(CellWrite { col: tx, row, glyph: '·', fg: Ink::Theme { slot: ThemeSlot::PoliceRed }, bg: Backdrop::Blend });
            if tx as u32 >= area.x as u32 + 1 {
                writes.push(CellWrite { col: tx - 1, row, glyph: '·', fg: Ink::Rgb { r: 85, g: 255, b: 255 }, bg: Backdrop::Blend });
            }
        },
    }
    proof {
        assert(writes@ =~= trail_spec(kind, area, tx as int, row as int));
    }
    writes
}

/// The glyph is one of the solid blocks `█ ▓ ▆ ▄`.
pub open spec fn solid_glyph(sym: Seq<char>) -> bool {
    sym == "█"@ || sym == "▓"@ || sym == "▆"@ || sym == "▄"@
}

/// Whether `sym` is one of the solid block glyphs, whose foreground colour
/// is what shows behind a vehicle drawn over it.
pub fn is_solid_glyph(sym: &str) -> (solid: bool)
    ensures
        solid == solid_glyph(sym@),
{
    let s = sym.to_owned();
    s == "█".to_owned() || s == "▓".to_owned() || s == "▆".to_owned() || s == "▄".to_owned()
}

/// The background a blended write gives a cell that showed `old_symbol`
/// in `old_fg` on `old_bg`: what shows behind the new glyph, the old
/// foreground over a solid block, else the old background.
pub fn backdrop_of<C: Copy>(old_symbol: &str, old_fg: C, old_bg: C) -> (bg: C)
    ensures
        bg == (if solid_glyph(old_symbol@) { old_fg } else { old_bg }),
{
    if is_solid_glyph(old_symbol) {
        old_fg
    } else {
        old_bg
    }
}

/// A street lamp: its pole stands on the street row, its bulb `(O)` three
/// rows up, one column left of the pole.
#[derive(Clone, Copy)]
pub struct LampFixture {
    pub col: u16,
    pub street_row: u16,
    pub bulb_col: u16,
    pub bulb_row: u16,
    pub dimmed: bool,
}

/// The lamp standing in column `x_lamp` of `area` in frame `frame`; its
/// bulb flickers dim for two frames in every forty, each lamp at its own
/// moment.
pub fn lamp_fixture(area: Area, x_lamp: u16, frame: u64) -> (lamp: LampFixture)
    requires
        area.x + x_lamp <= u16::MAX,
        area.y + area.height <= u16::MAX,
        area.y + area.height >= 3,
        frame + area.x + x_lamp <= u64::MAX,
    ensures
        lamp.col == area.x + x_lamp,
        lamp.street_row == area.y + area.height - 3,
        lamp.bulb_col == sat_sub(lamp.col as int, 1),
        lamp.bulb_row == sat_sub(lamp.street_row as int, 3),
        lamp.dimmed == ((frame + lamp.col) % 40 < 2),
{
    let lx = area.x + x_lamp;
    let ground_y = area.y + area.height - 3;
    let dimmed = (frame + lx as u64) % 40 < 2;
    LampFixture {
        col: lx,
        street_row: ground_y,
        bulb_col: lx.saturating_sub(1),
        bulb_row: ground_y.saturating_sub(3),
        dimmed,
    }
}

/// What a street lamp draws: its pole, from the street row up.
pub struct LampWrites {
    pub poles: Vec<SymbolWrite>,
    pub bulb: TextWrite,
}

/// The writes of lamp `l`, in drawing order: `┃` in the ground colour on the
/// street row and the two rows above it (held at the top row), keeping the
/// backgrounds, then `(O)` from the bulb's cell, dim or lit.
pub fn lamp_writes(l: LampFixture) -> (w: LampWrites)
    ensures
        w.poles@.len() == 3,
        forall|k: int|
            0 <= k < 3 ==> #[trigger] writes_symbol(
                w.poles@[k],
                l.col as int,
                sat_sub(l.street_row as int, k),
                "┃"@,
                Ink::Theme { slot: ThemeSlot::Ground },
                Backdrop::Keep,
            ),
        writes_text(
            w.bulb,
            l.bulb_col as int,
            l.bulb_row as int,
            "(O)"@,
            if l.dimmed { Ink::Theme { slot: ThemeSlot::StreetLampDim } } else { Ink::Theme { slot: ThemeSlot::StreetLampLit } },
        ),
{
    let ground = Ink::Theme { slot: ThemeSlot::Ground };
    let mut poles: Vec<SymbolWrite> = Vec::new();
    poles.push(SymbolWrite { col: l.col, row: l.street_row, symbol: String::from_str("┃"), fg: ground, bg: Backdrop::Keep });
    poles.push(SymbolWrite { col: l.col, row: l.street_row.saturating_sub(1), symbol: String::from_str("┃"), fg: ground, bg: Backdrop::Keep });
    poles.push(SymbolWrite { col: l.col, row: l.street_row.saturating_sub(2), symbol: String::from_str("┃"), fg: ground, bg: Backdrop::Keep });
    let bulb_c = if l.dimmed {
        Ink::Theme { slot: ThemeSlot::StreetLampDim }
    } else {
        Ink::Theme { slot: ThemeSlot::StreetLampLit }
    };
    let w = LampWrites { poles, bulb: TextWrite { col: l.bulb_col, row: l.bulb_row, text: String::from_str("(O)"), fg: bulb_c } };
    proof {
        assert(writes_symbol(w.poles@[0], l.col as int, sat_sub(l.street_row as int, 0), "┃"@, ground, Backdrop::Keep));
        assert(writes_symbol(w.poles@[1], l.col as int, sat_sub(l.street_row as int, 1), "┃"@, ground, Backdrop::Keep));
        assert(writes_symbol(w.poles@[2], l.col as int, sat_sub(l.street_row as int, 2), "┃"@, ground, Backdrop::Keep));
    }
    w
}

/// The glyph of a rain drop: `|` in the front layer (z-index 1), `:` behind.
pub fn rain_glyph(z_index: u8) -> (glyph: char)
    ensures
        glyph == (if z_index == 1 { '|' } else { ':' }),
{
    if z_index == 1 { '|' } else { ':' }
}

/// The glyph of a snow flake in column `x` in frame `frame`: each flake
/// cycles through `*`, `·` and `❄` over thirty frames.
pub open spec fn snow_glyph_spec(frame: int, x: int) -> char {
    let phase = (frame + x) % 30;
    if phase <= 10 {
        '*'
    } else if phase <= 20 {
        '·'
    } else {
        '❄'
    }
}

/// The glyph of a snow flake.
pub fn snow_glyph(frame: u64, x: u64) -> (glyph: char)
    requires
        frame + x <= u64::MAX,
    ensures
        glyph == snow_glyph_spec(frame as int, x as int),
{
    let phase = (frame + x) % 30;
    if phase <= 10 {
        '*'
    } else if phase <= 20 {
        '·'
    } else {
        '❄'
    }
}

/// The glyph of settled snow in screen column `col`: a dip every seventh
/// column, the pattern shifting one column every hundred frames.
pub fn snow_ground_glyph(col: u16, frame: u64) -> (glyph: char)
    ensures
        glyph == (if (col + frame / 100) % 7 == 0 { '▆' } else { '█' }),
{
    if (col as u64 + frame / 100) % 7 == 0 { '▆' } else { '█' }
}

/// The glyph of the street's reflection `dist` rows below the street:
/// fading from `█` through `▓` to `▒`.
pub fn reflection_glyph(dist: u16) -> (glyph: char)
    ensures
        glyph == (if dist == 1 { '█' } else if dist == 2 { '▓' } else { '▒' }),
{
    if dist == 1 {
        '█'
    } else if dist == 2 {
        '▓'
    } else {
        '▒'
    }
}

/// A rain drop at `(col, row)`: `|` in the theme's rain colour in the front
/// layer (z-index 1), `:` in its background rain colour behind; the cell
/// keeps its background.
pub fn rain_drop(col: u16, row: u16, z_index: u8) -> (w: CellWrite)
    ensures
        w == (CellWrite {
            col,
            row,
            glyph: if z_index == 1 { '|' } else { ':' },
            fg: if z_index == 1 { Ink::Theme { slot: ThemeSlot::Rain } } else { Ink::Theme { slot: ThemeSlot::RainBg } },
            bg: Backdrop::Keep,
        }),
{
    let fg = if z_index == 1 { Ink::Theme { slot: ThemeSlot::Rain } } else { Ink::Theme { slot: ThemeSlot::RainBg } };
    CellWrite { col, row, glyph: rain_glyph(z_index), fg, bg: Backdrop::Keep }
}

/// A snow flake at `(col, row)` whose column is `x`: its glyph cycles with
/// the frame; it is in the theme's snow colour in the front layer (z-index
/// 1), darkened behind; the cell keeps its background.
pub fn snow_flake(col: u16, row: u16, frame: u64, x: u64, z_index: u8) -> (w: CellWrite)
    requires
        frame + x <= u64::MAX,
    ensures
        w == (CellWrite {
            col,
            row,
            glyph: snow_glyph_spec(frame as int, x as int),
            fg: if z_index == 1 { Ink::Theme { slot: ThemeSlot::Snow } } else { Ink::Darkened { slot: ThemeSlot::Snow } },
            bg: Backdrop::Keep,
        }),
{
    let fg = if z_index == 1 { Ink::Theme { slot: ThemeSlot::Snow } } else { Ink::Darkened { slot: ThemeSlot::Snow } };
    CellWrite { col, row, glyph: snow_glyph(frame, x), fg, bg: Backdrop::Keep }
}

/// Row of the street in the weather layers: three rows above the area's
/// bottom edge.
pub open spec fn weather_ground(area: Area) -> int {
    area.y + area.height - 3
}

/// The settled snow in column `k` of `area`: the glyph of settled snow on
/// the first row below the street, a solid block on the second, both in the
/// theme's snow colour, keeping the backgrounds.
pub open spec fn snow_ground_pair(area: Area, frame: int, k: int) -> (CellWrite, CellWrite) {
    let col = area.x + k;
    let g = weather_ground(area);
    (
        CellWrite {
            col: col as u16,
            row: (g + 1) as u16,
            glyph: if (col + frame / 100) % 7 == 0 { '▆' } else { '█' },
            fg: Ink::Theme { slot: ThemeSlot::Snow },
            bg: Backdrop::Keep,
        },
        CellWrite {
            col: col as u16,
            row: (g + 2) as u16,
            glyph: '█',
            fg: Ink::Theme { slot: ThemeSlot::Snow },
            bg: Backdrop::Keep,
        },
    )
}

/// The settled snow of `area`, column by column from the left, the upper
/// row's write before the lower one's.
pub fn snow_ground(area: Area, frame: u64) -> (writes: Vec<CellWrite>)
    requires
        area.y + area.height >= 3,
        area.y + area.height <= u16::MAX,
        area.width > 0 ==> area.x + area.width <= u16::MAX + 1,
    ensures
        writes@.len() == 2 * area.width,
        forall|k: int|
            0 <= k < area.width ==> #[trigger] writes@[2 * k] == snow_ground_pair(area, frame as int, k).0
                && writes@[2 * k + 1] == snow_ground_pair(area, frame as int, k).1,
{
    let ground_y: u16 = (area.y as u32 + area.height as u32 - 3) as u16;
    let mut writes: Vec<CellWrite> = Vec::new();
    let mut rx: u16 = 0;
    while rx < area.width
        invariant
            rx <= area.width,
            area.width > 0 ==> area.x + area.width <= u16::MAX + 1,
            area.y + area.height >= 3,
            area.y + area.height <= u16::MAX,
            ground_y == weather_ground(area),
            writes@.len() == 2 * rx,
            forall|k: int|
                0 <= k < rx ==> #[trigger] writes@[2 * k] == snow_ground_pair(area, frame as int, k).0
                    && writes@[2 * k + 1] == snow_ground_pair(area, frame as int, k).1,
        decreases area.width - rx,
    {
        let dx = area.x + rx;
        writes.push(CellWrite {
            col: dx,
            row: ground_y + 1,
            glyph: snow_ground_glyph(dx, frame),
            fg: Ink::Theme { slot: ThemeSlot::Snow },
            bg: Backdrop::Keep,
        });
        writes.push(CellWrite {
            col: dx,
            row: ground_y + 2,
            glyph: '█',
            fg: Ink::Theme { slot: ThemeSlot::Snow },
            bg: Backdrop::Keep,
        });
        rx = rx + 1;
    }
    writes
}

/// What the rain's reflection writes to a cell `dist` rows below the
/// street whose mirrored source cell shows `src_sym` in `src_fg` on
/// `src_bg` (`src_fg_is_reset` telling whether that foreground is the
/// terminal's own): nothing where the source is blank (a space in the
/// terminal's colour); else the reflection glyph for that distance, in the
/// source's foreground and on its background, both passed through `darken`.
pub fn reflection_cell<C: Copy, F: Fn(C) -> C>(
    dist: u16,
    src_sym: &str,
    src_fg: C,
    src_bg: C,
    src_fg_is_reset: bool,
    darken: F,
) -> (cell: Option<(char, C, C)>)
    requires
        forall|c: C| #[trigger] darken.requires((c,)),
    ensures
        cell is Some <==> (src_sym@ != " "@ || !src_fg_is_reset),
        cell matches Some(c) ==> {
            &&& c.0 == (if dist == 1 { '█' } else if dist == 2 { '▓' } else { '▒' })
            &&& darken.ensures((src_fg,), c.1)
            &&& darken.ensures((src_bg,), c.2)
        },
{
    let blank = src_sym.to_owned() == " ".to_owned();
    if !blank || !src_fg_is_reset {
        let dim_fg = darken(src_fg);
        let dim_bg = darken(src_bg);
        Some((reflection_glyph(dist), dim_fg, dim_bg))
    } else {
        None
    }
}

/// A row of the rain's reflection below the street: its screen row, how
/// far below the street it lies, and the row above the street it mirrors.
#[derive(Clone, Copy)]
pub struct ReflectionRow {
    pub row: u16,
    pub dist: u16,
    pub source_row: u16,
}

/// The street row from which the rain's reflection hangs.
pub open spec fn reflection_ground(area: Area) -> int {
    area.y + sat_sub(area.height as int, 3)
}

/// The rows of the rain's reflection: every row of the area below the
/// street, each mirroring the row as far above the street as it lies below.
pub fn reflection_rows(area: Area) -> (rows: Vec<ReflectionRow>)
    requires
        area.y + area.height <= u16::MAX,
        area.y < u16::MAX,
    ensures
        rows@.len() == sat_sub(area.y + area.height, reflection_ground(area) + 1),
        forall|k: int|
            0 <= k < rows@.len() ==> {
                &&& #[trigger] rows@[k].row == reflection_ground(area) + 1 + k
                &&& rows@[k].dist == k + 1
                &&& rows@[k].source_row == sat_sub(reflection_ground(area), k + 1)
            },
{
    let ground_y = area.y + area.height.saturating_sub(3);
    let end = area.y + area.height;
    let mut rows: Vec<ReflectionRow> = Vec::new();
    let mut ry: u16 = ground_y + 1;
    while ry < end
        invariant
            ground_y == reflection_ground(area),
            end == area.y + area.height,
            ground_y + 1 <= ry,
            ry <= end || rows@.len() == 0,
            rows@.len() == ry - ground_y - 1,
            forall|k: int|
                0 <= k < rows@.len() ==> {
                    &&& #[trigger] rows@[k].row == reflection_ground(area) + 1 + k
                    &&& rows@[k].dist == k + 1
                    &&& rows@[k].source_row == sat_sub(reflection_ground(area), k + 1)
                },
        decreases end - ry,
    {
        let dist = ry.saturating_sub(ground_y);
        let sy = ground_y.saturating_sub(dist);
        rows.push(ReflectionRow { row: ry, dist, source_row: sy });
        ry = ry + 1;
    }
    rows
}

/// The screen column mirrored into column `rx` of a rain reflection that
/// ripples by `ripple` columns: computed on 16-bit signed columns, raised
/// to the area's left edge, then lowered to its right edge, and read back
/// as a column.
pub open spec fn reflection_source_spec(x: u16, width: u16, rx: u16, ripple: i16) -> u16 {
    let v = (x as i16) as int + (rx as i16) as int + ripple as int;
    let lo = (x as i16) as int;
    let hi = ((x + width - 1) as i16) as int;
    let raised = if v > lo { v } else { lo };
    let lowered = if raised < hi { raised } else { hi };
    (lowered as i16) as u16
}

/// The screen column mirrored into column `rx` of a rain reflection.
pub fn reflection_source(area: Area, rx: u16, ripple: i16) -> (col: u16)
    requires
        area.x + area.width >= 1,
        area.x + area.width <= u16::MAX,
        i16::MIN <= (area.x as i16) + (rx as i16) <= i16::MAX,
        i16::MIN <= (area.x as i16) + (rx as i16) + ripple <= i16::MAX,
    ensures
        col == reflection_source_spec(area.x, area.width, rx, ripple),
{
    let v: i16 = area.x as i16 + rx as i16 + ripple;
    let lo: i16 = area.x as i16;
    let hi: i16 = (area.x + area.width - 1) as i16;
    let raised = if v > lo { v } else { lo };
    let lowered = if raised < hi { raised } else { hi };
    lowered as u16
}

} // verus!
