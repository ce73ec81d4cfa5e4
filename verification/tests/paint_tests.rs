use metropolis::identity::CityState;
use metropolis::paint::{Backdrop, CellWrite, Ink, ThemeSlot};
use metropolis::scene::{compact_hud, gauge_bar, gauge_texts};
use metropolis::skyline::Area;
use metropolis::street::{
    backdrop_of, police_lights, rain_drop, reflection_cell, snow_flake, snow_ground, trail_writes,
    vehicle_body_cells, VehicleType,
};
use metropolis::text::diagnostics_overlay;

fn w(col: u16, row: u16, glyph: char, fg: Ink, bg: Backdrop) -> CellWrite {
    CellWrite { col, row, glyph, fg, bg }
}

fn theme(slot: ThemeSlot) -> Ink {
    Ink::Theme { slot }
}

#[test]
fn compact_gauges_around_the_centre() {
    let h = compact_hud(10, 2);
    assert_eq!((h.cpu_label.col, h.cpu_label.row, h.cpu_label.text.as_str(), h.cpu_label.fg), (4, 1, "CPU:", Ink::DarkGray));
    assert_eq!(h.cpu_value, (10, 1, theme(ThemeSlot::NeonMain)));
    assert_eq!((h.ram_label.col, h.ram_label.row, h.ram_label.text.as_str(), h.ram_label.fg), (4, 2, "RAM:", Ink::DarkGray));
    assert_eq!(h.ram_value, (10, 2, theme(ThemeSlot::NeonSub1)));
    let corner = compact_hud(3, 0);
    assert_eq!((corner.cpu_label.col, corner.cpu_label.row), (0, 0));
}

#[test]
fn gauge_row_texts_and_bar() {
    let t = gauge_texts(10, 4, 2);
    assert_eq!((t.label.col, t.label.row, t.label.text.as_str(), t.label.fg), (10, 6, "DSK", Ink::White));
    assert_eq!((t.open.col, t.open.text.as_str(), t.open.fg), (14, "[", Ink::DarkGray));
    assert_eq!((t.close.col, t.close.text.as_str(), t.close.fg), (25, "]", Ink::DarkGray));
    assert_eq!(gauge_texts(0, 0, 0).label.text, "CPU");
    assert_eq!(gauge_texts(0, 0, 1).label.text, "RAM");
    let bar = gauge_bar(1, 2);
    assert_eq!(bar[0], ('█', theme(ThemeSlot::NeonSub1)));
    assert_eq!(bar[1], ('█', theme(ThemeSlot::NeonSub1)));
    assert_eq!(bar[2], ('░', Ink::DarkGray));
    assert_eq!(bar.len(), 10);
}

#[test]
fn diagnostics_overlay_lines() {
    let a = Area { x: 1, y: 3, width: 80, height: 24 };
    let lines = diagnostics_overlay(a, 12, 3, 255, "Rain", 7);
    let got: Vec<(u16, u16, &str)> = lines.iter().map(|l| (l.col, l.row, l.text.as_str())).collect();
    assert_eq!(
        got,
        vec![
            (3, 5, "--- DIAGNOSTICS ---"),
            (3, 6, "FRM:  00000012"),
            (3, 7, "WTR:  Rain"),
            (3, 8, "CSH:  0003"),
            (3, 9, "SEED: 00000000000000FF"),
            (3, 10, "VHC:  007"),
            (3, 11, "-------------------"),
        ]
    );
    assert_eq!(lines[0].fg, Ink::Rgb { r: 85, g: 255, b: 85 });
    assert_eq!(lines[6].fg, Ink::Rgb { r: 85, g: 255, b: 85 });
    assert!(lines[1..6].iter().all(|l| l.fg == Ink::White));
}

#[test]
fn diagnostics_only_while_debugging() {
    let a = Area { x: 0, y: 0, width: 80, height: 24 };
    let mut city = CityState::new("arch".to_string(), String::new(), String::new(), String::new());
    assert!(city.diagnostics(a, "Clear", 0).is_empty());
    city.debug_mode = true;
    let lines = city.diagnostics(a, "Clear", 0);
    assert_eq!(lines.len(), 7);
    assert_eq!(lines[1].text, "FRM:  00000000");
    assert_eq!(lines[2].text, "WTR:  Clear");
}

#[test]
fn rain_and_snow_writes() {
    assert_eq!(rain_drop(3, 4, 1), w(3, 4, '|', theme(ThemeSlot::Rain), Backdrop::Keep));
    assert_eq!(rain_drop(3, 4, 0), w(3, 4, ':', theme(ThemeSlot::RainBg), Backdrop::Keep));
    assert_eq!(snow_flake(1, 2, 0, 5, 1), w(1, 2, '*', theme(ThemeSlot::Snow), Backdrop::Keep));
    assert_eq!(snow_flake(1, 2, 0, 25, 0), w(1, 2, '❄', Ink::Darkened { slot: ThemeSlot::Snow }, Backdrop::Keep));
}

#[test]
fn settled_snow_fills_two_rows() {
    let a = Area { x: 0, y: 0, width: 10, height: 5 };
    let writes = snow_ground(a, 0);
    assert_eq!(writes.len(), 20);
    let snow = theme(ThemeSlot::Snow);
    for k in 0..10u16 {
        let top = if k == 0 || k == 7 { '▆' } else { '█' };
        assert_eq!(writes[2 * k as usize], w(k, 3, top, snow, Backdrop::Keep));
        assert_eq!(writes[2 * k as usize + 1], w(k, 4, '█', snow, Backdrop::Keep));
    }
}

#[test]
fn police_roof_lights() {
    let a = Area { x: 0, y: 0, width: 20, height: 10 };
    let unlit = Ink::Rgb { r: 40, g: 40, b: 60 };
    assert_eq!(
        police_lights(a, 5, 3, 5, 0),
        vec![w(3, 4, '═', theme(ThemeSlot::PoliceBlue), Backdrop::Blend), w(5, 4, '═', unlit, Backdrop::Blend)]
    );
    assert_eq!(
        police_lights(a, 5, 3, 5, 2),
        vec![w(3, 4, '═', unlit, Backdrop::Blend), w(5, 4, '═', theme(ThemeSlot::PoliceRed), Backdrop::Blend)]
    );
    assert!(police_lights(a, 0, 3, 5, 0).is_empty());
    assert_eq!(police_lights(a, 5, 18, 20, 0).len(), 1);
}

#[test]
fn vehicle_trails() {
    let a = Area { x: 0, y: 0, width: 20, height: 10 };
    assert_eq!(
        trail_writes(VehicleType::Shuttle, a, 4, 2),
        vec![
            w(4, 2, ':', theme(ThemeSlot::NeonMain), Backdrop::Blend),
            w(3, 2, '·', theme(ThemeSlot::NeonMain), Backdrop::Blend)
        ]
    );
    assert_eq!(
        trail_writes(VehicleType::Spinner, a, 4, 2),
        vec![
            w(4, 2, '·', theme(ThemeSlot::PoliceRed), Backdrop::Blend),
            w(3, 2, '·', Ink::Rgb { r: 85, g: 255, b: 255 }, Backdrop::Blend)
        ]
    );
    assert_eq!(trail_writes(VehicleType::Spinner, a, 0, 2).len(), 1);
    assert!(trail_writes(VehicleType::Police, a, 4, 2).is_empty());
}

#[test]
fn vehicle_body_inks() {
    assert_eq!(
        vehicle_body_cells(VehicleType::Police, 3),
        vec![('◤', Ink::White), ('█', Ink::Rgb { r: 60, g: 60, b: 70 }), ('◥', Ink::White)]
    );
    assert_eq!(vehicle_body_cells(VehicleType::Shuttle, 4), vec![('▓', Ink::Vehicle), ('█', Ink::Vehicle), ('█', Ink::Vehicle), ('▶', Ink::Vehicle)]);
}

#[test]
fn blending_takes_what_shows_behind() {
    assert_eq!(backdrop_of("█", 1u8, 2u8), 1);
    assert_eq!(backdrop_of("▄", 1u8, 2u8), 1);
    assert_eq!(backdrop_of(" ", 1u8, 2u8), 2);
    assert_eq!(backdrop_of("░", 1u8, 2u8), 2);
}

#[test]
fn reflection_only_of_visible_cells() {
    let dim = |c: u8| c / 2;
    assert_eq!(reflection_cell(1, " ", 7u8, 8u8, true, dim), None);
    assert_eq!(reflection_cell(1, " ", 7u8, 8u8, false, dim), Some(('█', 3, 4)));
    assert_eq!(reflection_cell(2, "x", 7u8, 8u8, true, dim), Some(('▓', 3, 4)));
    assert_eq!(reflection_cell(5, "x", 7u8, 8u8, true, dim), Some(('▒', 3, 4)));
}
