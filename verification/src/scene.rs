//! Which parts of the scene are drawn and advanced for a given area.

use vstd::prelude::*;
use crate::skyline::{sat_sub, sat_add_u16, Area};
use crate::paint::{writes_symbol, Backdrop, Ink, SymbolWrite, ThemeSlot, TextWrite};

verus! {

/// One layer of the picture, in the order the layers are painted.
#[derive(PartialEq, Eq, Structural, Clone, Copy, Debug)]
pub enum Layer {
    /// The solid background colour, where one is configured.
    Background,
    /// A single blinking cell for areas too small for anything else.
    TinyIndicator,
    /// The small CPU, RAM and disk gauges.
    MiniHud,
    Stars,
    /// Distant and foreground towers with their signs and antennas.
    Skyline,
    StreetLamps,
    /// Rain or snow behind the street.
    WeatherBack,
    /// The billboard on the roof of the tower in slot 3.
    Megaboard,
    People,
    Vehicles,
    /// The rain's reflection below the street.
    WeatherFront,
    /// The diagnostics overlay, when debugging is on.
    Diagnostics,
}

/// How much of the scene an area `width` by `height` can show:
/// 0 nothing, 1 a blinking indicator, 2 the small gauges, 3 the whole city.
pub open spec fn detail_level(width: int, height: int) -> int {
    if width == 0 || height == 0 {
        0
    } else if width < 7 || height < 2 {
        1
    } else if width < 45 || height < 15 {
        2
    } else {
        3
    }
}

/// The layers painted on an area of the given detail level, in order.
pub open spec fn layers_spec(level: int) -> Seq<Layer> {
    if level == 0 {
        seq![]
    } else if level == 1 {
        seq![Layer::Background, Layer::TinyIndicator]
    } else if level == 2 {
        seq![Layer::Background, Layer::MiniHud]
    } else {
        seq![
            Layer::Background,
            Layer::Stars,
            Layer::Skyline,
            Layer::StreetLamps,
            Layer::WeatherBack,
            Layer::Megaboard,
            Layer::People,
            Layer::Vehicles,
            Layer::WeatherFront,
            Layer::Diagnostics,
        ]
    }
}

/// The layers to paint on an area `width` by `height`, in painting order.
pub fn render_layers(width: u16, height: u16) -> (layers: Vec<Layer>)
    ensures
        layers@ == layers_spec(detail_level(width as int, height as int)),
{
    let mut layers: Vec<Layer> = Vec::new();
    if width == 0 || height == 0 {
        return layers;
    }
    layers.push(Layer::Background);
    if width < 12 || height < 3 {
        if width < 7 || height < 2 {
            layers.push(Layer::TinyIndicator);
        } else {
            layers.push(Layer::MiniHud);
        }
        return layers;
    }
    if width < 45 || height < 15 {
        layers.push(Layer::MiniHud);
        return layers;
    }
    layers.push(Layer::Stars);
    layers.push(Layer::Skyline);
    layers.push(Layer::StreetLamps);
    layers.push(Layer::WeatherBack);
    layers.push(Layer::Megaboard);
    layers.push(Layer::People);
    layers.push(Layer::Vehicles);
    layers.push(Layer::WeatherFront);
    layers.push(Layer::Diagnostics);
    proof {
        assert(layers@ =~= layers_spec(3));
    }
    layers
}

/// A larger area never shows less: growing the width or the height never
/// lowers the detail level.
pub proof fn lemma_detail_monotone(w1: int, h1: int, w2: int, h2: int)
    requires
        0 <= w1 <= w2,
        0 <= h1 <= h2,
    ensures
        detail_level(w1, h1) <= detail_level(w2, h2),
{
}

/// The city itself (skyline, lamps, people, vehicles, weather) is painted
/// only on areas at least 45 columns wide and 15 rows tall, and on every
/// such area; the background comes first whenever anything is painted.
pub proof fn lemma_full_scene_bounds(width: int, height: int)
    requires
        0 <= width,
        0 <= height,
    ensures
        layers_spec(detail_level(width, height)).contains(Layer::Skyline) <==> (width >= 45
            && height >= 15),
        layers_spec(detail_level(width, height)).len() > 0 ==> layers_spec(
            detail_level(width, height),
        )[0] == Layer::Background,
        layers_spec(detail_level(width, height)).len() == 0 <==> (width == 0 || height == 0),
{
    let l = layers_spec(detail_level(width, height));
    if width >= 45 && height >= 15 {
        assert(l[2] == Layer::Skyline);
    } else {
        assert(forall|k: int| 0 <= k < l.len() ==> l[k] != Layer::Skyline);
    }
}

/// What one simulation step does on an area of a given size.
#[derive(PartialEq, Eq, Structural, Clone, Copy, Debug)]
pub enum UpdateStage {
    /// The area is empty: nothing changes.
    Frozen,
    /// Readings and the frame counter advance, the city stands still.
    MetricsOnly,
    /// Readings advance and vehicles, people and weather move.
    Simulate,
}

/// The update stage of an area `width` by `height`.
pub open spec fn update_stage_spec(width: int, height: int) -> UpdateStage {
    if width == 0 || height == 0 {
        UpdateStage::Frozen
    } else if width < 32 || height < 12 {
        UpdateStage::MetricsOnly
    } else {
        UpdateStage::Simulate
    }
}

/// The update stage of an area `width` by `height`.
pub fn update_stage(width: u16, height: u16) -> (stage: UpdateStage)
    ensures
        stage == update_stage_spec(width as int, height as int),
{
    if width == 0 || height == 0 {
        UpdateStage::Frozen
    } else if width < 32 || height < 12 {
        UpdateStage::MetricsOnly
    } else {
        UpdateStage::Simulate
    }
}

/// Screen cell `(dx, dy)` lies inside `area`.
pub fn is_visible(area: Area, dx: u16, dy: u16) -> (visible: bool)
    ensures
        visible == (dx < area.x + area.width && dy < area.y + area.height),
{
    (dx as u32) < area.x as u32 + area.width as u32 && (dy as u32) < area.y as u32 + area.height as u32
}

/// Where the blinking indicator of a tiny area is drawn, and whether it is
/// bright red in frame `frame` (ten frames in every twenty).
pub fn tiny_indicator(area: Area, frame: u64) -> (cell: (u16, u16, bool))
    requires
        area.x + area.width / 2 <= u16::MAX,
        area.y + area.height / 2 <= u16::MAX,
    ensures
        cell.0 == area.x + area.width / 2,
        cell.1 == area.y + area.height / 2,
        cell.2 == (frame % 20 < 10),
{
    (area.x + area.width / 2, area.y + area.height / 2, frame % 20 < 10)
}

/// The blinking indicator of a tiny area: `!` in the centre cell, bright
/// red for ten frames in every twenty and dark red otherwise, keeping the
/// cell's background.
pub fn tiny_indicator_write(area: Area, frame: u64) -> (w: SymbolWrite)
    requires
        area.x + area.width / 2 <= u16::MAX,
        area.y + area.height / 2 <= u16::MAX,
    ensures
        writes_symbol(
            w,
            area.x + area.width / 2,
            area.y + area.height / 2,
            "!"@,
            if frame % 20 < 10 { Ink::Red } else { Ink::Rgb { r: 60, g: 0, b: 0 } },
            Backdrop::Keep,
        ),
{
    let (col, row, red) = tiny_indicator(area, frame);
    let fg = if red { Ink::Red } else { Ink::Rgb { r: 60, g: 0, b: 0 } };
    SymbolWrite { col, row, symbol: String::from_str("!"), fg, bg: Backdrop::Keep }
}

/// How the small gauges are laid out.
#[derive(PartialEq, Eq, Structural, Clone, Copy, Debug)]
pub enum HudLayout {
    /// Three gauge rows (CPU, RAM, disk) from `top`, starting at column `left`.
    Bars { left: u16, top: u16 },
    /// Two label and value lines around the centre cell.
    Compact { center_col: u16, center_row: u16 },
    /// Too small for either.
    Hidden,
}

/// The gauge layout of `area`: bars where it is at least 24 by 5, centred
/// ten columns left and one row up of the centre; two lines where it is at
/// least 12 by 2; else nothing.
pub open spec fn hud_layout_spec(area: Area) -> HudLayout {
    let cx = sat_add_u16(area.x as int, area.width as int / 2);
    let cy = sat_add_u16(area.y as int, area.height as int / 2);
    if area.width >= 24 && area.height >= 5 {
        HudLayout::Bars { left: sat_sub(cx, 10) as u16, top: sat_sub(cy, 1) as u16 }
    } else if area.width >= 12 && area.height >= 2 {
        HudLayout::Compact { center_col: cx as u16, center_row: cy as u16 }
    } else {
        HudLayout::Hidden
    }
}

/// The gauge layout of `area`.
pub fn hud_layout(area: Area) -> (layout: HudLayout)
    ensures
        layout == hud_layout_spec(area),
{
    let cx = area.x.saturating_add(area.width / 2);
    let cy = area.y.saturating_add(area.height / 2);
    if area.width >= 24 && area.height >= 5 {
        HudLayout::Bars { left: cx.saturating_sub(10), top: cy.saturating_sub(1) }
    } else if area.width >= 12 && area.height >= 2 {
        HudLayout::Compact { center_col: cx, center_row: cy }
    } else {
        HudLayout::Hidden
    }
}

/// The cells of gauge row `i` of a bar layout: the label, the brackets
/// around the ten-cell bar, the bar's first cell and the percentage.
#[derive(Clone, Copy)]
pub struct GaugeRow {
    pub row: u16,
    pub label_col: u16,
    pub open_col: u16,
    pub bar_col: u16,
    pub close_col: u16,
    pub value_col: u16,
}

/// The cells of gauge row `i` (0 CPU, 1 RAM, 2 disk) of bars laid out from
/// `(left, top)`.
pub fn gauge_row(left: u16, top: u16, i: u16) -> (g: GaugeRow)
    requires
        i < 3,
        left + 17 <= u16::MAX,
        top + i <= u16::MAX,
    ensures
        g.row == top + i,
        g.label_col == left,
        g.open_col == left + 4,
        g.bar_col == left + 5,
        g.close_col == left + 15,
        g.value_col == left + 17,
{
    GaugeRow {
        row: top + i,
        label_col: left,
        open_col: left + 4,
        bar_col: left + 5,
        close_col: left + 15,
        value_col: left + 17,
    }
}

/// Which of a gauge's ten cells are filled when `fill` tenths are full.
pub fn gauge_cells(fill: u16) -> (cells: Vec<bool>)
    ensures
        cells@.len() == 10,
        forall|j: int| 0 <= j < 10 ==> #[trigger] cells@[j] == (j < fill),
{
    let mut cells: Vec<bool> = Vec::new();
    let mut j: u16 = 0;
    while j < 10
        invariant
            j <= 10,
            cells@.len() == j,
            forall|k: int| 0 <= k < j ==> #[trigger] cells@[k] == (k < fill),
        decreases 10 - j,
    {
        cells.push(j < fill);
        j = j + 1;
    }
    cells
}

/// The ink of gauge `i`: CPU in the main neon, RAM in the first accent,
/// disk in the second.
pub open spec fn gauge_ink(i: int) -> Ink {
    if i == 0 {
        Ink::Theme { slot: ThemeSlot::NeonMain }
    } else if i == 1 {
        Ink::Theme { slot: ThemeSlot::NeonSub1 }
    } else {
        Ink::Theme { slot: ThemeSlot::NeonSub2 }
    }
}

/// The ink of gauge `i`, in which its bar and its reading are drawn.
pub fn gauge_ink_of(i: u16) -> (ink: Ink)
    ensures
        ink == gauge_ink(i as int),
{
    if i == 0 {
        Ink::Theme { slot: ThemeSlot::NeonMain }
    } else if i == 1 {
        Ink::Theme { slot: ThemeSlot::NeonSub1 }
    } else {
        Ink::Theme { slot: ThemeSlot::NeonSub2 }
    }
}

/// The fixed texts of a gauge row: its label, and the brackets around its
/// bar.
pub struct GaugeTexts {
    pub label: TextWrite,
    pub open: TextWrite,
    pub close: TextWrite,
}

/// The fixed texts of gauge row `i` of bars laid out from `(left, top)`:
/// `CPU`, `RAM` or `DSK` in white at the left, `[` four columns right and
/// `]` fifteen columns right, both in dark grey.
pub fn gauge_texts(left: u16, top: u16, i: u16) -> (t: GaugeTexts)
    requires
        i < 3,
        left + 17 <= u16::MAX,
        top + i <= u16::MAX,
    ensures
        t.label.col == left && t.label.row == top + i && t.label.fg == Ink::White,
        t.label.text@ == (if i == 0 { "CPU"@ } else if i == 1 { "RAM"@ } else { "DSK"@ }),
        t.open.col == left + 4 && t.open.row == top + i && t.open.fg == Ink::DarkGray,
        t.open.text@ == "["@,
        t.close.col == left + 15 && t.close.row == top + i && t.close.fg == Ink::DarkGray,
        t.close.text@ == "]"@,
{
    let g = gauge_row(left, top, i);
    let label = if i == 0 {
        String::from_str("CPU")
    } else if i == 1 {
        String::from_str("RAM")
    } else {
        String::from_str("DSK")
    };
    GaugeTexts {
        label: TextWrite { col: g.label_col, row: g.row, text: label, fg: Ink::White },
        open: TextWrite { col: g.open_col, row: g.row, text: String::from_str("["), fg: Ink::DarkGray },
        close: TextWrite { col: g.close_col, row: g.row, text: String::from_str("]"), fg: Ink::DarkGray },
    }
}

/// The ten cells of gauge `i`'s bar with `fill` tenths full, from its first
/// cell: `█` in the gauge's ink where filled, `░` in dark grey elsewhere.
/// The reading follows in the gauge's ink at the row's value column.
pub fn gauge_bar(i: u16, fill: u16) -> (cells: Vec<(char, Ink)>)
    requires
        i < 3,
    ensures
        cells@.len() == 10,
        forall|j: int|
            0 <= j < 10 ==> #[trigger] cells@[j] == (if j < fill {
                ('█', gauge_ink(i as int))
            } else {
                ('░', Ink::DarkGray)
            }),
{
    let ink = if i == 0 {
        Ink::Theme { slot: ThemeSlot::NeonMain }
    } else if i == 1 {
        Ink::Theme { slot: ThemeSlot::NeonSub1 }
    } else {
        Ink::Theme { slot: ThemeSlot::NeonSub2 }
    };
    let filled = gauge_cells(fill);
    let mut cells: Vec<(char, Ink)> = Vec::new();
    let mut j: usize = 0;
    while j < 10
        invariant
            j <= 10,
            filled@.len() == 10,
            forall|k: int| 0 <= k < 10 ==> #[trigger] filled@[k] == (k < fill),
            ink == gauge_ink(i as int),
            cells@.len() == j,
            forall|k: int|
                0 <= k < j ==> #[trigger] cells@[k] == (if k < fill {
                    ('█', gauge_ink(i as int))
                } else {
                    ('░', Ink::DarkGray)
                }),
        decreases 10 - j,
    {
        if filled[j] {
            cells.push(('█', ink));
        } else {
            cells.push(('░', Ink::DarkGray));
        }
        j = j + 1;
    }
    cells
}

/// Where the compact gauges write around the centre cell: each label six
/// columns left of the centre in dark grey, each reading at the centre
/// column, CPU on the row above the centre in the main neon, RAM on the
/// centre row in the first accent.
pub struct CompactHud {
    pub cpu_label: TextWrite,
    pub cpu_value: (u16, u16, Ink),
    pub ram_label: TextWrite,
    pub ram_value: (u16, u16, Ink),
}

/// The writes of the compact gauges around `(center_col, center_row)`, in
/// drawing order: CPU label, CPU reading, RAM label, RAM reading.
pub fn compact_hud(center_col: u16, center_row: u16) -> (h: CompactHud)
    ensures
        h.cpu_label.col == sat_sub(center_col as int, 6),
        h.cpu_label.row == sat_sub(center_row as int, 1),
        h.cpu_label.text@ == "CPU:"@,
        h.cpu_label.fg == Ink::DarkGray,
        h.cpu_value == (center_col, sat_sub(center_row as int, 1) as u16, Ink::Theme { slot: ThemeSlot::NeonMain }),
        h.ram_label.col == sat_sub(center_col as int, 6),
        h.ram_label.row == center_row,
        h.ram_label.text@ == "RAM:"@,
        h.ram_label.fg == Ink::DarkGray,
        h.ram_value == (center_col, center_row, Ink::Theme { slot: ThemeSlot::NeonSub1 }),
{
    let label_col = center_col.saturating_sub(6);
    let above = center_row.saturating_sub(1);
    CompactHud {
        cpu_label: TextWrite { col: label_col, row: above, text: String::from_str("CPU:"), fg: Ink::DarkGray },
        cpu_value: (center_col, above, Ink::Theme { slot: ThemeSlot::NeonMain }),
        ram_label: TextWrite { col: label_col, row: center_row, text: String::from_str("RAM:"), fg: Ink::DarkGray },
        ram_value: (center_col, center_row, Ink::Theme { slot: ThemeSlot::NeonSub1 }),
    }
}

} // verus!
