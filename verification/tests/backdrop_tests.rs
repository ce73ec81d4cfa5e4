use metropolis::backdrop::{background_blocks, star_field, star_glyph, window_lit, STAR_COUNT};
use metropolis::skyline::Area;

#[test]
fn distant_buildings_every_fifteen_columns() {
    let a = Area { x: 0, y: 0, width: 100, height: 30 };
    let blocks = background_blocks(a);
    assert_eq!(blocks.len(), 7);
    for (k, b) in blocks.iter().enumerate() {
        assert_eq!(b.col as usize, 15 * k);
        assert!(6 <= b.width && b.width < 15);
        assert!(6 <= b.height && b.height < 15);
        assert_eq!(b.row, 27 - b.height);
    }
}

#[test]
fn distant_buildings_stay_put() {
    let a = Area { x: 0, y: 0, width: 80, height: 24 };
    let one: Vec<(u16, u16, u16, u16)> = background_blocks(a).iter().map(|b| (b.col, b.row, b.width, b.height)).collect();
    let two: Vec<(u16, u16, u16, u16)> = background_blocks(a).iter().map(|b| (b.col, b.row, b.width, b.height)).collect();
    assert_eq!(one, two);
    assert!(background_blocks(Area { x: 0, y: 0, width: 0, height: 0 }).is_empty());
}

#[test]
fn stars_in_the_upper_half() {
    let a = Area { x: 3, y: 2, width: 60, height: 20 };
    let stars = star_field(a);
    assert_eq!(stars.len(), STAR_COUNT);
    for s in &stars {
        assert!(3 <= s.col && s.col < 63);
        assert!(2 <= s.row && s.row < 12);
        assert!(s.kind < 4);
    }
    let again: Vec<(u16, u16, u8)> = star_field(a).iter().map(|s| (s.col, s.row, s.kind)).collect();
    let first: Vec<(u16, u16, u8)> = stars.iter().map(|s| (s.col, s.row, s.kind)).collect();
    assert_eq!(first, again);
}

#[test]
fn star_glyphs() {
    assert_eq!(star_glyph(0), '.');
    assert_eq!(star_glyph(1), '·');
    assert_eq!(star_glyph(2), '*');
    assert_eq!(star_glyph(3), '+');
}

#[test]
fn distant_buildings_vary_in_size() {
    let a = Area { x: 0, y: 0, width: 300, height: 40 };
    let blocks = background_blocks(a);
    assert_eq!(blocks.len(), 20);
    let first = (blocks[0].width, blocks[0].height);
    assert!(blocks.iter().any(|b| (b.width, b.height) != first));
    assert!(blocks.iter().any(|b| b.width != 6));
    assert!(blocks.iter().any(|b| b.height != 8));
}

#[test]
fn about_one_window_in_four_is_lit() {
    let lit = (0..400u64).filter(|&s| window_lit(s)).count();
    assert!(lit > 50 && lit < 150);
    for s in [0u64, 17, 123456789, u64::MAX] {
        assert_eq!(window_lit(s), window_lit(s));
    }
}

#[test]
fn windows_keep_their_light() {
    for s in 0..50u64 {
        assert_eq!(window_lit(s), window_lit(s));
    }
}
