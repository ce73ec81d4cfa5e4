//! Geometry of the foreground skyline: which towers stand where, how wide
//! and how tall they are, and what keeps clear of them.

use vstd::prelude::*;

verus! {

/// A rectangle of terminal cells: its top-left corner and its size.
#[derive(Clone, Copy)]
pub struct Area {
    pub x: u16,
    pub y: u16,
    pub width: u16,
    pub height: u16,
}

/// One foreground tower.  `slot` is its position in the row of slots that
/// are laid every 20 columns, `offset` its first column relative to the
/// area's left edge.
#[derive(Clone, Copy)]
pub struct Tower {
    pub slot: usize,
    pub offset: u16,
    pub width: u16,
    pub height: u16,
}

/// `a - b`, or 0 where that would be negative.
pub open spec fn sat_sub(a: int, b: int) -> int {
    if a >= b { a - b } else { 0 }
}

/// Number of slots in a row `width` columns wide: one every 20 columns,
/// starting at column 0.
pub open spec fn slot_count(width: int) -> int {
    (width + 19) / 20
}

/// Slots 2 and 4 stay empty: the wide towers of slots 1 and 3 reach into them.
pub open spec fn skipped_slot(i: int) -> bool {
    i == 2 || i == 4
}

/// Number of towers that stand in the first `n` slots.
pub open spec fn tower_count(n: int) -> int {
    if n <= 2 { n } else if n <= 4 { n - 1 } else { n - 2 }
}

/// The slot of the `k`-th tower, counting from the left.
pub open spec fn slot_of(k: int) -> int {
    if k < 2 { k } else if k == 2 { 3 } else { k + 2 }
}

/// First column of slot `i`.
pub open spec fn slot_offset(i: int) -> int {
    20 * i
}

/// Width of the tower in slot `i`: the monolith (slot 1) is 32 wide, the
/// tower of slot 3 is 28 wide, the others between 8 and 14.
pub open spec fn tower_width_at(i: int) -> int {
    if i == 1 {
        32
    } else if i == 3 {
        28
    } else {
        8 + slot_offset(i) % 7
    }
}

/// Height of the tower in slot `i` in an area `height` rows tall: the
/// monolith leaves 8 rows, the others are a third of the height plus up to 10.
pub open spec fn tower_height_at(i: int, height: int) -> int {
    if i == 1 {
        sat_sub(height, 8)
    } else {
        height / 3 + slot_offset(i) % 11
    }
}

/// `t` is the tower that stands in slot `i` of an area `height` rows tall.
pub open spec fn is_tower_at(t: Tower, i: int, height: int) -> bool {
    &&& t.slot == i
    &&& t.offset == slot_offset(i)
    &&& t.width == tower_width_at(i)
    &&& t.height == tower_height_at(i, height)
}

/// `towers` is the foreground skyline of an area `width` by `height`.
pub open spec fn is_skyline(towers: Seq<Tower>, width: int, height: int) -> bool {
    &&& towers.len() == tower_count(slot_count(width))
    &&& forall|k: int| 0 <= k < towers.len() ==> #[trigger] is_tower_at(towers[k], slot_of(k), height)
}

proof fn lemma_slot_of_count(i: int)
    requires
        0 <= i,
        !skipped_slot(i),
    ensures
        slot_of(tower_count(i)) == i,
        tower_count(i + 1) == tower_count(i) + 1,
{
}

/// The foreground towers of an area `width` columns wide and `height` rows
/// tall, from left to right.
pub fn skyline_towers(width: u16, height: u16) -> (towers: Vec<Tower>)
    ensures
        is_skyline(towers@, width as int, height as int),
{
    let mut towers: Vec<Tower> = Vec::new();
    let mut skip_next = false;
    let mut i: usize = 0;
    let mut x_base: u32 = 0;
    while x_base < width as u32
        invariant
            x_base == slot_offset(i as int),
            i == 0 || slot_offset(i - 1) < width,
            i <= slot_count(width as int),
            skip_next == skipped_slot(i as int),
            towers.len() == tower_count(i as int),
            forall|k: int| 0 <= k < towers.len() ==> #[trigger] is_tower_at(towers[k], slot_of(k), height as int),
        decreases slot_count(width as int) - i,
    {
        if skip_next {
            skip_next = false;
        } else {
            proof {
                lemma_slot_of_count(i as int);
            }
            let xb = x_base as u16;
            let mut bw: u16 = 8 + xb % 7;
            let mut bh: u16 = height / 3 + xb % 11;
            if i == 1 {
                bw = 32;
                bh = height.saturating_sub(8);
                skip_next = true;
            }
            if i == 3 {
                bw = 28;
                skip_next = true;
            }
            towers.push(Tower { slot: i, offset: xb, width: bw, height: bh });
        }
        i = i + 1;
        x_base = x_base + 20;
    }
    towers
}

/// The `k`-th tower stands in a slot of the area that is not left empty.
pub proof fn lemma_slot_in_area(k: int, width: int)
    requires
        0 <= width,
        0 <= k < tower_count(slot_count(width)),
    ensures
        0 <= slot_of(k) < slot_count(width),
        slot_offset(slot_of(k)) < width,
        !skipped_slot(slot_of(k)),
{
    let n = slot_count(width);
    assert(20 * n <= width + 19) by (nonlinear_arith)
        requires
            n == (width + 19) / 20,
            0 <= width,
    ;
}

/// Every slot of the area that is not left empty holds a tower of the
/// skyline.
pub proof fn lemma_slot_has_tower(i: int, width: int)
    requires
        0 <= width,
        0 <= i < slot_count(width),
        !skipped_slot(i),
    ensures
        exists|k: int| 0 <= k < tower_count(slot_count(width)) && #[trigger] slot_of(k) == i,
{
    let k = if i < 2 { i } else if i == 3 { 2 } else { i - 2 };
    assert(slot_of(k) == i);
}

/// Every tower starts inside the area, and neighbouring towers never
/// overlap: each ends at or before the column where the next one begins.
pub proof fn lemma_towers_disjoint(towers: Seq<Tower>, width: int, height: int)
    requires
        0 <= width,
        is_skyline(towers, width, height),
    ensures
        forall|k: int| 0 <= k < towers.len() ==> #[trigger] towers[k].offset < width,
        forall|k: int|
            0 <= k < towers.len() - 1 ==> #[trigger] towers[k].offset + towers[k].width <= towers[k
                + 1].offset,
{
    assert forall|k: int| 0 <= k < towers.len() implies #[trigger] towers[k].offset < width by {
        lemma_slot_in_area(k, width);
        assert(is_tower_at(towers[k], slot_of(k), height));
    }
    assert forall|k: int| 0 <= k < towers.len() - 1 implies #[trigger] towers[k].offset
        + towers[k].width <= towers[k + 1].offset by {
        assert(is_tower_at(towers[k], slot_of(k), height));
        assert(is_tower_at(towers[k + 1], slot_of(k + 1), height));
    }
}

/// Column `x` (relative to the area's left edge) lies within the span of a
/// foreground tower of an area `width` columns wide.
pub open spec fn covered_by_tower(x: int, width: int) -> bool {
    exists|i: int|
        0 <= i < slot_count(width) && !skipped_slot(i) && slot_offset(i) <= x < slot_offset(i)
            + #[trigger] tower_width_at(i)
}

/// Number of candidate lamp columns (5, 15, 25, ...) left of `width`.
pub open spec fn lamp_slot_count(width: int) -> int {
    (width + 4) / 10
}

/// The `j`-th candidate lamp column.
pub open spec fn lamp_candidate(j: int) -> int {
    5 + 10 * j
}

/// The lamp columns among the first `j` candidates: those that no tower covers.
pub open spec fn lamps_upto(width: int, j: int) -> Seq<int>
    decreases j,
{
    if j <= 0 {
        seq![]
    } else if covered_by_tower(lamp_candidate(j - 1), width) {
        lamps_upto(width, j - 1)
    } else {
        lamps_upto(width, j - 1).push(lamp_candidate(j - 1))
    }
}

/// The street lamp columns of an area `width` columns wide.
pub open spec fn street_lamps(width: int) -> Seq<int> {
    lamps_upto(width, lamp_slot_count(width))
}

proof fn lemma_lamps_uncovered(width: int, j: int)
    ensures
        forall|k: int|
            0 <= k < lamps_upto(width, j).len() ==> !covered_by_tower(
                #[trigger] lamps_upto(width, j)[k],
                width,
            ),
    decreases j,
{
    if j > 0 {
        lemma_lamps_uncovered(width, j - 1);
        let prev = lamps_upto(width, j - 1);
        if !covered_by_tower(lamp_candidate(j - 1), width) {
            assert forall|k: int| 0 <= k < lamps_upto(width, j).len() implies !covered_by_tower(
                #[trigger] lamps_upto(width, j)[k],
                width,
            ) by {
                if k < prev.len() {
                    assert(lamps_upto(width, j)[k] == prev[k]);
                }
            }
        }
    }
}

/// No street lamp stands inside a foreground tower: every lamp column lies
/// outside the span of every tower of the skyline.
pub proof fn lemma_lamps_clear_of_towers(towers: Seq<Tower>, width: int, height: int)
    requires
        0 <= width,
        is_skyline(towers, width, height),
    ensures
        forall|k: int, t: int|
            0 <= k < street_lamps(width).len() && 0 <= t < towers.len() ==> !(towers[t].offset
                <= #[trigger] street_lamps(width)[k] < towers[t].offset + #[trigger] towers[t].width),
{
    lemma_lamps_uncovered(width, lamp_slot_count(width));
    assert forall|k: int, t: int|
        0 <= k < street_lamps(width).len() && 0 <= t < towers.len() implies !(towers[t].offset
        <= #[trigger] street_lamps(width)[k] < towers[t].offset + #[trigger] towers[t].width) by {
        lemma_slot_in_area(t, width);
        assert(is_tower_at(towers[t], slot_of(t), height));
        let x = street_lamps(width)[k];
        if towers[t].offset <= x < towers[t].offset + towers[t].width {
            assert(tower_width_at(slot_of(t)) == towers[t].width);
            assert(covered_by_tower(x, width));
        }
    }
}

/// `a + b`, or `u16::MAX` where that would not fit.
pub open spec fn sat_add_u16(a: int, b: int) -> int {
    if a + b <= u16::MAX { a + b } else { u16::MAX as int }
}

/// Row of the street: three rows above the bottom of an area `height` rows tall.
pub open spec fn ground_row(height: int) -> int {
    sat_sub(height, 3)
}

/// Top row of a tower `tower_height` rows tall standing on the street.
pub open spec fn roof_row(height: int, tower_height: int) -> int {
    sat_sub(ground_row(height), tower_height)
}

/// The top-left cell of a tower: its column (the area's left edge moved by
/// the tower's offset, held at the screen's last column) and its roof row.
pub fn tower_origin(area: Area, tower: Tower) -> (origin: (u16, u16))
    ensures
        origin.0 == sat_add_u16(area.x as int, tower.offset as int),
        origin.1 == roof_row(area.height as int, tower.height as int),
{
    let ground_y = area.height.saturating_sub(3);
    (area.x.saturating_add(tower.offset), ground_y.saturating_sub(tower.height))
}

/// Where the rooftop billboard is drawn: on the roof of the tower in slot 3,
/// one column right of that slot's first column.  There is none where the
/// area is too narrow to hold slot 3.
pub open spec fn megaboard_spec(area: Area) -> Option<(int, int)> {
    if area.width > slot_offset(3) {
        Some(
            (
                area.x + slot_offset(3) + 1,
                roof_row(area.height as int, tower_height_at(3, area.height as int)),
            ),
        )
    } else {
        None
    }
}

/// The cell where the rooftop billboard is anchored, if the area holds one.
pub fn megaboard_anchor(area: Area) -> (anchor: Option<(u16, u16)>)
    requires
        area.width > 60 ==> area.x + 61 <= u16::MAX,
    ensures
        match anchor {
            Some(a) => megaboard_spec(area) == Some((a.0 as int, a.1 as int)),
            None => megaboard_spec(area) is None,
        },
{
    let ground_y = area.height.saturating_sub(3);
    let mut mb_tower_h: u16 = 0;
    let mut mb_skip_next = false;
    let mut idx: usize = 0;
    let mut xb: u32 = 0;
    while xb < area.width as u32
        invariant_except_break
            xb == slot_offset(idx as int),
            idx <= 3,
            mb_skip_next == (idx == 2),
            mb_tower_h == 0,
        ensures
            mb_tower_h == 0 ==> area.width <= 60,
            mb_tower_h != 0 ==> area.width > 60 && mb_tower_h == tower_height_at(3, area.height as int),
        decreases 3 - idx,
    {
        if mb_skip_next {
            mb_skip_next = false;
        } else {
            if idx == 1 {
                mb_skip_next = true;
            }
            if idx == 3 {
                mb_tower_h = area.height / 3 + (xb % 11) as u16;
                break;
            }
        }
        idx = idx + 1;
        xb = xb + 20;
    }
    if mb_tower_h > 0 {
        let mb_x = area.x + 60;
        let mb_y = ground_y.saturating_sub(mb_tower_h);
        Some((mb_x + 1, mb_y))
    } else {
        None
    }
}

/// The rooftop billboard stands exactly where the skyline has a tower in
/// slot 3, and sits on that tower's roof.
pub proof fn lemma_megaboard_on_tower(area: Area, towers: Seq<Tower>)
    requires
        is_skyline(towers, area.width as int, area.height as int),
    ensures
        megaboard_spec(area) is Some <==> (exists|k: int| 0 <= k < towers.len() && #[trigger] towers[k].slot == 3),
        forall|k: int|
            0 <= k < towers.len() && #[trigger] towers[k].slot == 3 ==> megaboard_spec(area) == Some(
                (
                    area.x + towers[k].offset + 1,
                    roof_row(area.height as int, towers[k].height as int),
                ),
            ),
{
    let w = area.width as int;
    let h = area.height as int;
    if w > 60 {
        assert(slot_count(w) >= 4);
        assert(is_tower_at(towers[2], slot_of(2), h));
        assert(towers[2].slot == 3);
    }
    assert forall|k: int| 0 <= k < towers.len() && #[trigger] towers[k].slot == 3 implies w > 60 && k == 2 by {
        assert(is_tower_at(towers[k], slot_of(k), h));
        lemma_slot_in_area(k, w);
    }
}

/// Whether a foreground tower covers column `x`.
fn column_covered(x: u16, width: u16) -> (inside: bool)
    ensures
        inside == covered_by_tower(x as int, width as int),
{
    let mut s_skip = false;
    let mut idx: usize = 0;
    let mut xb: u32 = 0;
    while xb < width as u32
        invariant
            xb == slot_offset(idx as int),
            idx <= slot_count(width as int),
            idx == 0 || slot_offset(idx - 1) < width,
            s_skip == skipped_slot(idx as int),
            forall|i: int|
                0 <= i < idx && !skipped_slot(i) ==> !(slot_offset(i) <= x < slot_offset(i)
                    + #[trigger] tower_width_at(i)),
        decreases slot_count(width as int) - idx,
    {
        if s_skip {
            s_skip = false;
        } else {
            let mut bw: u32 = 8 + xb % 7;
            if idx == 1 {
                bw = 32;
                s_skip = true;
            }
            if idx == 3 {
                bw = 28;
                s_skip = true;
            }
            if x as u32 >= xb && (x as u32) < xb + bw {
                assert(tower_width_at(idx as int) == bw);
                return true;
            }
        }
        idx = idx + 1;
        xb = xb + 20;
    }
    false
}

/// The columns, relative to the area's left edge, where street lamps stand:
/// every tenth column from column 5 on that no foreground tower covers.
pub fn street_lamp_columns(width: u16) -> (cols: Vec<u16>)
    ensures
        cols@.len() == street_lamps(width as int).len(),
        forall|k: int| 0 <= k < cols@.len() ==> cols@[k] == #[trigger] street_lamps(width as int)[k],
{
    let mut cols: Vec<u16> = Vec::new();
    let mut j: usize = 0;
    let mut x_lamp: u32 = 5;
    while x_lamp < width as u32
        invariant
            x_lamp == lamp_candidate(j as int),
            j <= lamp_slot_count(width as int),
            j == 0 || lamp_candidate(j - 1) < width,
            cols@.len() == lamps_upto(width as int, j as int).len(),
            forall|k: int|
                0 <= k < cols@.len() ==> cols@[k] == #[trigger] lamps_upto(width as int, j as int)[k],
        decreases lamp_slot_count(width as int) - j,
    {
        let x = x_lamp as u16;
        let inside = column_covered(x, width);
        if !inside {
            cols.push(x);
        }
        proof {
            assert(lamps_upto(width as int, j + 1) == if covered_by_tower(lamp_candidate(j as int), width as int) {
                lamps_upto(width as int, j as int)
            } else {
                lamps_upto(width as int, j as int).push(lamp_candidate(j as int))
            });
        }
        j = j + 1;
        x_lamp = x_lamp + 10;
    }
    proof {
        assert(j == lamp_slot_count(width as int)) by (nonlinear_arith)
            requires
                x_lamp == 5 + 10 * j,
                x_lamp >= width,
                j == 0 || 5 + 10 * (j - 1) < width,
                j <= (width + 4) / 10,
        ;
    }
    cols
}

} // verus!
