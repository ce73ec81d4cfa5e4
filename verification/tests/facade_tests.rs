use metropolis::facade::{
    facade_cell, tower_antenna, tower_facade, tower_sign, AntennaKind, FacadeCell, LogoMask, SignColor,
    SignText,
};
use metropolis::skyline::{skyline_towers, Area, Tower};

fn mask(compact: bool, window_panes: bool, glyphs: &[(usize, usize)]) -> LogoMask {
    let mut cells = vec![false; 20 * 32];
    for &(row, col) in glyphs {
        cells[row * 32 + col] = true;
    }
    LogoMask { cells, compact, window_panes }
}

fn tower(slot: usize, offset: u16, width: u16, height: u16) -> Tower {
    Tower { slot, offset, width, height }
}

#[test]
fn edges_windows_and_door_of_a_small_tower() {
    let t = tower(0, 0, 8, 10);
    let m = mask(true, false, &[]);
    assert_eq!(facade_cell(t, &m, 0, 4, 0, 4, 0, 5), FacadeCell::Edge);
    assert_eq!(facade_cell(t, &m, 7, 4, 7, 4, 0, 5), FacadeCell::Edge);
    assert_eq!(facade_cell(t, &m, 3, 3, 3, 9, 0, 5), FacadeCell::Window { seed: 314 });
    assert_eq!(facade_cell(t, &m, 3, 3, 3, 10, 0, 5), FacadeCell::Wall);
    assert_eq!(facade_cell(t, &m, 3, 4, 3, 9, 0, 5), FacadeCell::Wall);
    assert_eq!(facade_cell(t, &m, 4, 7, 4, 7, 0, 5), FacadeCell::DoorLintel { main_neon: false });
    assert_eq!(facade_cell(t, &m, 3, 9, 3, 9, 0, 5), FacadeCell::DoorStep);
    assert_eq!(facade_cell(t, &m, 6, 8, 6, 8, 9, 5), FacadeCell::DoorLight { red: true });
    assert_eq!(facade_cell(t, &m, 6, 8, 6, 8, 10, 5), FacadeCell::DoorLight { red: false });
}

#[test]
fn window_seed_wraps() {
    let t = tower(0, 0, 8, 10);
    let m = mask(true, false, &[]);
    assert_eq!(
        facade_cell(t, &m, 3, 3, 3, 9, 0, u64::MAX),
        FacadeCell::Window { seed: 308 }
    );
}

#[test]
fn monolith_shows_its_logo() {
    let t = tower(1, 20, 32, 22);
    let full = mask(false, false, &[(0, 0), (5, 10)]);
    assert_eq!(facade_cell(t, &full, 0, 0, 20, 0, 0, 0), FacadeCell::LogoPixel);
    assert_eq!(facade_cell(t, &full, 10, 5, 30, 5, 0, 0), FacadeCell::LogoPixel);
    assert_eq!(facade_cell(t, &full, 10, 6, 30, 6, 0, 0), FacadeCell::Wall);
    assert_eq!(facade_cell(t, &full, 31, 21, 51, 21, 0, 0), FacadeCell::Edge);
    let panes = mask(true, true, &[]);
    assert_eq!(facade_cell(t, &panes, 10, 9, 30, 10, 0, 0), FacadeCell::Wall);
    let compact = mask(true, false, &[]);
    assert_eq!(facade_cell(t, &compact, 10, 9, 30, 10, 0, 0), FacadeCell::Window { seed: 3010 });
    assert_eq!(facade_cell(t, &compact, 16, 19, 36, 19, 0, 0), FacadeCell::DoorLintel { main_neon: true });
}

#[test]
fn no_windows_next_to_logo_glyphs() {
    let t = tower(1, 20, 32, 22);
    let near = mask(true, false, &[(8, 9)]);
    assert_eq!(facade_cell(t, &near, 10, 9, 30, 10, 0, 0), FacadeCell::Wall);
    let far = mask(true, false, &[(5, 5)]);
    assert_eq!(facade_cell(t, &far, 10, 9, 30, 10, 0, 0), FacadeCell::Window { seed: 3010 });
}

#[test]
fn facade_grid_is_clipped_to_the_area() {
    let a = Area { x: 0, y: 0, width: 100, height: 30 };
    let towers = skyline_towers(100, 30);
    let m = mask(true, false, &[]);
    let rows = tower_facade(a, towers[0], &m, 0, 0);
    assert_eq!(rows.len(), 10);
    assert!(rows.iter().all(|r| r.len() == 8));
    assert_eq!(rows[0][0], Some(FacadeCell::Edge));
    let narrow = Area { x: 0, y: 0, width: 5, height: 30 };
    let rows = tower_facade(narrow, towers[0], &m, 0, 0);
    assert_eq!(rows[0][4], Some(FacadeCell::Wall));
    assert_eq!(rows[0][5], None);
}

#[test]
fn signs_on_odd_tall_towers() {
    let a = Area { x: 0, y: 0, width: 200, height: 40 };
    let mono = tower(1, 20, 32, 32);
    let s = tower_sign(a, mono, 3).unwrap();
    assert_eq!((s.col, s.row, s.text, s.color), (51, 10, SignText::Monolith, SignColor::Monolith));
    let t5 = tower(5, 100, 10, 14);
    let s = tower_sign(a, t5, 3).unwrap();
    assert_eq!((s.col, s.row, s.text, s.color), (109, 28, SignText::Process { index: 1 }, SignColor::Accent3));
    let t7 = tower(7, 140, 8, 13);
    let s = tower_sign(a, t7, 2).unwrap();
    assert_eq!((s.text, s.color), (SignText::Process { index: 0 }, SignColor::Accent1));
    assert_eq!(tower_sign(a, t7, 0).unwrap().text, SignText::Null);
    assert!(tower_sign(a, tower(7, 140, 8, 12), 2).is_none());
    assert!(tower_sign(a, tower(6, 120, 8, 20), 2).is_none());
}

#[test]
fn rooftop_fixtures() {
    let a = Area { x: 0, y: 2, width: 200, height: 40 };
    let mast = tower_antenna(a, tower(0, 0, 8, 20), 200, 50, 0).unwrap();
    assert_eq!((mast.col, mast.row), (2, 18));
    assert_eq!(mast.kind, AntennaKind::Mast { pole: true, beacon: true, beacon_red: true });
    let vents = tower_antenna(a, tower(5, 100, 10, 20), 200, 50, 0).unwrap();
    assert_eq!(vents.kind, AntennaKind::Vents);
    let dish = tower_antenna(a, tower(7, 140, 8, 20), 200, 50, 0).unwrap();
    assert_eq!(dish.kind, AntennaKind::Dish);
    assert!(tower_antenna(a, tower(1, 20, 32, 20), 200, 50, 0).is_none());
    assert!(tower_antenna(a, tower(3, 60, 28, 20), 200, 50, 0).is_none());
    assert!(tower_antenna(a, tower(0, 0, 8, 20), 2, 50, 0).is_none());
    let top = tower_antenna(a, tower(0, 0, 8, 40), 200, 50, 15).unwrap();
    assert_eq!(top.row, 2);
    assert_eq!(top.kind, AntennaKind::Mast { pole: false, beacon: false, beacon_red: false });
}

#[test]
fn windows_keep_off_doors_and_edges() {
    let m = mask(true, false, &[]);
    for t in skyline_towers(200, 40) {
        for row in 0..t.height {
            for col in 0..t.width {
                if let FacadeCell::Window { .. } = facade_cell(t, &m, col, row, col, row, 0, 0) {
                    assert!(col > 0 && col + 1 < t.width);
                    assert!(row > 2 && row + 4 < t.height && row % 3 == 0);
                    let door = t.width / 2;
                    assert!(!(row + 3 >= t.height && col + 1 >= door && col <= door + 1));
                }
            }
        }
    }
}

#[test]
fn logo_glyphs_always_show() {
    let glyphs: Vec<(usize, usize)> = (0..20).map(|r| (r, (r * 3) % 32)).collect();
    let m = mask(false, true, &glyphs);
    let t = tower(1, 20, 32, 30);
    for &(r, c) in &glyphs {
        assert_eq!(facade_cell(t, &m, c as u16, r as u16, 0, 0, 0, 0), FacadeCell::LogoPixel);
    }
}
