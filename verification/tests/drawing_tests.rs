use metropolis::backdrop::{block_writes, Block};
use metropolis::scene::gauge_ink_of;
use metropolis::facade::{antenna_writes, facade_write, tower_antenna, tower_writes, FacadeCell, LogoMask};
use metropolis::identity::CityState;
use metropolis::paint::{AreaFill, Backdrop, CellWrite, Ink, ThemeSlot};
use metropolis::scene::tiny_indicator_write;
use metropolis::skyline::{skyline_towers, Area};
use metropolis::street::{lamp_fixture, lamp_writes, pedestrian_writes};

fn theme(slot: ThemeSlot) -> Ink {
    Ink::Theme { slot }
}

fn blank_logo() -> (LogoMask, Vec<char>) {
    (LogoMask { cells: vec![false; 640], compact: true, window_panes: false }, vec![' '; 640])
}

#[test]
fn facade_cells_to_glyphs() {
    let base = Backdrop::Paint { ink: theme(ThemeSlot::BuildingBase) };
    assert_eq!(facade_write(FacadeCell::Wall, 1, 2, 'x'), CellWrite { col: 1, row: 2, glyph: ' ', fg: theme(ThemeSlot::BuildingBase), bg: base });
    assert_eq!(facade_write(FacadeCell::Edge, 1, 2, 'x'), CellWrite { col: 1, row: 2, glyph: '┃', fg: Ink::Rgb { r: 30, g: 30, b: 50 }, bg: base });
    assert_eq!(facade_write(FacadeCell::DoorLintel { main_neon: true }, 1, 2, 'x').fg, theme(ThemeSlot::NeonMain));
    assert_eq!(facade_write(FacadeCell::DoorLintel { main_neon: false }, 1, 2, 'x').glyph, '━');
    assert_eq!(facade_write(FacadeCell::DoorStep, 1, 2, 'x'), CellWrite { col: 1, row: 2, glyph: '░', fg: theme(ThemeSlot::WindowUnlit), bg: base });
    assert_eq!(facade_write(FacadeCell::DoorLight { red: false }, 1, 2, 'x').fg, Ink::Green);
    let logo = facade_write(FacadeCell::LogoPixel, 1, 2, '@');
    assert_eq!((logo.glyph, logo.fg, logo.bg), ('@', Ink::LogoGlyph, Backdrop::Paint { ink: Ink::LogoGlyphBack }));
    let win = facade_write(FacadeCell::Window { seed: 9 }, 1, 2, 'x');
    assert_eq!(win.glyph, '▄');
    assert_eq!(win.bg, Backdrop::Paint { ink: theme(ThemeSlot::WindowDark) });
    let expected = if metropolis::backdrop::window_lit(9) { theme(ThemeSlot::WindowLit) } else { theme(ThemeSlot::WindowUnlit) };
    assert_eq!(win.fg, expected);
}

#[test]
fn picture_of_the_first_tower_in_an_80_by_24_area() {
    let a = Area { x: 0, y: 0, width: 80, height: 24 };
    let (logo, glyphs) = blank_logo();
    let towers = skyline_towers(80, 24);
    let t0 = towers[0];
    let writes = tower_writes(a, t0, &logo, &glyphs, 0, 0);
    assert_eq!(writes.len(), 64);
    let at = |c: u16, r: u16| *writes.iter().find(|w| w.col == c && w.row == r).unwrap();
    assert_eq!((at(7, 13).glyph, at(7, 13).fg), ('┃', Ink::Rgb { r: 30, g: 30, b: 50 }));
    assert_eq!((at(4, 16).glyph, at(4, 16).bg), ('▄', Backdrop::Paint { ink: theme(ThemeSlot::WindowDark) }));
    assert_eq!((at(4, 18).glyph, at(4, 18).fg), ('━', theme(ThemeSlot::NeonSub1)));
    assert_eq!((at(4, 19).glyph, at(4, 19).fg), ('░', theme(ThemeSlot::WindowUnlit)));
    assert_eq!((at(6, 19).glyph, at(6, 19).fg), ('·', Ink::Red));
    assert!(writes.iter().all(|w| w.col < 8 && (13..21).contains(&w.row)));
    // The first write is the roof's left corner, the last the bottom right.
    assert_eq!((writes[0].col, writes[0].row), (0, 13));
    assert_eq!((writes[63].col, writes[63].row), (7, 20));
    let mast = tower_antenna(a, t0, 80, 24, 0).unwrap();
    let parts = antenna_writes(mast);
    let got: Vec<(u16, u16, &str, Ink)> = parts.iter().map(|p| (p.col, p.row, p.symbol.as_str(), p.fg)).collect();
    assert_eq!(
        got,
        vec![
            (2, 12, "┷", Ink::Rgb { r: 60, g: 60, b: 80 }),
            (2, 11, "┃", Ink::Rgb { r: 50, g: 50, b: 70 }),
            (2, 10, "*", Ink::Red)
        ]
    );
    assert!(parts.iter().all(|p| p.bg == Backdrop::Keep));
}

#[test]
fn tower_writes_are_clipped() {
    let a = Area { x: 0, y: 0, width: 5, height: 24 };
    let (logo, glyphs) = blank_logo();
    let t0 = skyline_towers(5, 24)[0];
    let writes = tower_writes(a, t0, &logo, &glyphs, 0, 0);
    assert_eq!(writes.len(), 40);
    assert!(writes.iter().all(|w| w.col < 5));
}

#[test]
fn dish_and_vents() {
    let a = Area { x: 0, y: 0, width: 200, height: 40 };
    let t5 = skyline_towers(200, 40)[3];
    let vents = antenna_writes(tower_antenna(a, t5, 200, 40, 0).unwrap());
    assert_eq!((vents.len(), vents[0].symbol.as_str(), vents[0].fg), (1, "▝▘", Ink::Rgb { r: 40, g: 40, b: 50 }));
    let t7 = skyline_towers(200, 40)[5];
    let dish = antenna_writes(tower_antenna(a, t7, 200, 40, 0).unwrap());
    assert_eq!((dish.len(), dish[0].symbol.as_str(), dish[0].fg), (1, "📡", Ink::Rgb { r: 100, g: 100, b: 120 }));
}

#[test]
fn street_lamp_drawing() {
    let a = Area { x: 0, y: 0, width: 80, height: 24 };
    let lamp = lamp_writes(lamp_fixture(a, 15, 0));
    let poles: Vec<(u16, u16, &str, Ink)> = lamp.poles.iter().map(|p| (p.col, p.row, p.symbol.as_str(), p.fg)).collect();
    let ground = theme(ThemeSlot::Ground);
    assert_eq!(poles, vec![(15, 21, "┃", ground), (15, 20, "┃", ground), (15, 19, "┃", ground)]);
    assert_eq!((lamp.bulb.col, lamp.bulb.row, lamp.bulb.text.as_str(), lamp.bulb.fg), (14, 18, "(O)", theme(ThemeSlot::StreetLampLit)));
    let dim = lamp_writes(lamp_fixture(a, 15, 25));
    assert_eq!(dim.bulb.fg, theme(ThemeSlot::StreetLampDim));
}

#[test]
fn tiny_indicator_glyph() {
    let a = Area { x: 0, y: 0, width: 5, height: 1 };
    let on = tiny_indicator_write(a, 0);
    assert_eq!((on.col, on.row, on.symbol.as_str(), on.fg, on.bg), (2, 0, "!", Ink::Red, Backdrop::Keep));
    assert_eq!(tiny_indicator_write(a, 15).fg, Ink::Rgb { r: 60, g: 0, b: 0 });
}

#[test]
fn pedestrian_drawing() {
    let a = Area { x: 0, y: 0, width: 100, height: 30 };
    let (head, feet) = pedestrian_writes(a, 0, 25, 0, 0, false, 0).unwrap();
    let wall = Backdrop::Paint { ink: theme(ThemeSlot::BuildingBase) };
    assert_eq!(head, CellWrite { col: 25, row: 26, glyph: 'o', fg: Ink::Person, bg: wall });
    assert_eq!(feet, CellWrite { col: 25, row: 27, glyph: 'Λ', fg: Ink::Person, bg: wall });
    let (open, _) = pedestrian_writes(a, 0, 15, 4, 0, false, 0).unwrap();
    assert_eq!(open.bg, Backdrop::Paint { ink: Ink::Reset });
    assert!(pedestrian_writes(a, 0, 100, 0, 0, false, 0).is_none());
}

#[test]
fn solid_background_fill() {
    let a = Area { x: 1, y: 2, width: 3, height: 4 };
    let plain = CityState::new("arch".to_string(), String::new(), String::new(), String::new());
    assert_eq!(plain.background_fill(a), None);
    let styled = CityState::new("arch".to_string(), "#202020".to_string(), String::new(), String::new());
    assert_eq!(
        styled.background_fill(a),
        Some(AreaFill { x: 1, y: 2, width: 3, height: 4, symbol: ' ', bg: Ink::SolidBackground })
    );
}

#[test]
fn diagnostics_off_for_any_area() {
    let city = CityState::new("arch".to_string(), String::new(), String::new(), String::new());
    let far = Area { x: u16::MAX, y: u16::MAX, width: 0, height: 0 };
    assert!(city.diagnostics(far, "Clear", 0).is_empty());
}

#[test]
fn distant_building_cells() {
    let a = Area { x: 0, y: 0, width: 10, height: 24 };
    let b = Block { col: 8, row: 20, width: 3, height: 2 };
    let writes = block_writes(a, b);
    let cells: Vec<(u16, u16)> = writes.iter().map(|w| (w.col, w.row)).collect();
    assert_eq!(cells, vec![(8, 20), (9, 20), (8, 21), (9, 21)]);
    assert!(writes.iter().all(|w| w.glyph == ' '
        && w.fg == Ink::Reset
        && w.bg == Backdrop::Paint { ink: Ink::Darkened { slot: ThemeSlot::BuildingFar } }));
}

#[test]
fn gauge_inks() {
    assert_eq!(gauge_ink_of(0), theme(ThemeSlot::NeonMain));
    assert_eq!(gauge_ink_of(1), theme(ThemeSlot::NeonSub1));
    assert_eq!(gauge_ink_of(2), theme(ThemeSlot::NeonSub2));
}

#[test]
fn towers_paint_only_their_own_cells() {
    let a = Area { x: 0, y: 0, width: 80, height: 24 };
    let (logo, glyphs) = blank_logo();
    for t in skyline_towers(80, 24) {
        for w in tower_writes(a, t, &logo, &glyphs, 3, 99) {
            assert!(w.col >= t.offset && w.col < t.offset + t.width && w.col < 80 && w.row < 24);
        }
    }
    // Nothing of the foreground touches column 52, the gap after the monolith.
    for t in skyline_towers(80, 24) {
        assert!(tower_writes(a, t, &logo, &glyphs, 0, 0).iter().all(|w| w.col != 52));
    }
}
