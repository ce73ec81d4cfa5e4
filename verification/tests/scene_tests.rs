use metropolis::scene::{
    gauge_cells, gauge_row, hud_layout, is_visible, render_layers, tiny_indicator, update_stage,
    HudLayout, Layer, UpdateStage,
};
use metropolis::skyline::Area;

#[test]
fn nothing_is_painted_on_an_empty_area() {
    assert!(render_layers(0, 10).is_empty());
    assert!(render_layers(10, 0).is_empty());
}

#[test]
fn tiny_areas_get_the_indicator() {
    assert_eq!(render_layers(6, 10), vec![Layer::Background, Layer::TinyIndicator]);
    assert_eq!(render_layers(10, 1), vec![Layer::Background, Layer::TinyIndicator]);
}

#[test]
fn small_areas_get_the_gauges() {
    assert_eq!(render_layers(7, 2), vec![Layer::Background, Layer::MiniHud]);
    assert_eq!(render_layers(44, 40), vec![Layer::Background, Layer::MiniHud]);
    assert_eq!(render_layers(100, 14), vec![Layer::Background, Layer::MiniHud]);
}

#[test]
fn large_areas_get_the_whole_city() {
    let layers = render_layers(45, 15);
    assert_eq!(
        layers,
        vec![
            Layer::Background,
            Layer::Stars,
            Layer::Skyline,
            Layer::StreetLamps,
            Layer::WeatherBack,
            Layer::Megaboard,
            Layer::People,
            Layer::Vehicles,
            Layer::WeatherFront,
            Layer::Diagnostics,
        ]
    );
}

#[test]
fn more_room_never_shows_less() {
    let level = |w: u16, h: u16| {
        let layers = render_layers(w, h);
        if layers.is_empty() {
            0
        } else if layers.contains(&Layer::TinyIndicator) {
            1
        } else if layers.contains(&Layer::MiniHud) {
            2
        } else {
            3
        }
    };
    let sizes = [0u16, 1, 2, 3, 6, 7, 11, 12, 14, 15, 44, 45, 80];
    for &w1 in &sizes {
        for &h1 in &sizes {
            for &w2 in &sizes {
                for &h2 in &sizes {
                    if w1 <= w2 && h1 <= h2 {
                        assert!(level(w1, h1) <= level(w2, h2));
                    }
                }
            }
        }
    }
}

#[test]
fn update_stages() {
    assert_eq!(update_stage(0, 20), UpdateStage::Frozen);
    assert_eq!(update_stage(31, 20), UpdateStage::MetricsOnly);
    assert_eq!(update_stage(40, 11), UpdateStage::MetricsOnly);
    assert_eq!(update_stage(32, 12), UpdateStage::Simulate);
}

#[test]
fn tiny_indicator_blinks_in_the_centre() {
    let a = Area { x: 2, y: 3, width: 5, height: 1 };
    assert_eq!(tiny_indicator(a, 9), (4, 3, true));
    assert_eq!(tiny_indicator(a, 10), (4, 3, false));
    assert_eq!(tiny_indicator(a, 20), (4, 3, true));
}

#[test]
fn gauge_layouts() {
    let big = Area { x: 0, y: 0, width: 40, height: 10 };
    assert_eq!(hud_layout(big), HudLayout::Bars { left: 10, top: 4 });
    let narrow = Area { x: 0, y: 0, width: 20, height: 10 };
    assert_eq!(hud_layout(narrow), HudLayout::Compact { center_col: 10, center_row: 5 });
    let corner = Area { x: 0, y: 0, width: 24, height: 5 };
    assert_eq!(hud_layout(corner), HudLayout::Bars { left: 2, top: 1 });
    let tiny = Area { x: 0, y: 0, width: 11, height: 10 };
    assert_eq!(hud_layout(tiny), HudLayout::Hidden);
}

#[test]
fn gauge_rows_and_cells() {
    let g = gauge_row(10, 4, 2);
    assert_eq!((g.row, g.label_col, g.open_col, g.bar_col, g.close_col, g.value_col), (6, 10, 14, 15, 25, 27));
    assert_eq!(gauge_cells(3), vec![true, true, true, false, false, false, false, false, false, false]);
    assert_eq!(gauge_cells(0), vec![false; 10]);
    assert_eq!(gauge_cells(10), vec![true; 10]);
}

#[test]
fn visibility_edges() {
    let a = Area { x: 5, y: 5, width: 10, height: 10 };
    assert!(is_visible(a, 14, 14));
    assert!(!is_visible(a, 15, 14));
    assert!(!is_visible(a, 14, 15));
}
