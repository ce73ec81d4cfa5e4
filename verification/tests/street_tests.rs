use metropolis::skyline::Area;
use metropolis::street::{
    is_solid_glyph, lamp_fixture, pedestrian_cells, pedestrian_legs, police_blue_on, police_body_white,
    rain_glyph, reflection_glyph, reflection_rows, reflection_source, snow_glyph, snow_ground_glyph, vehicle_body,
    vehicle_trail, TrailColor, VehicleType,
};

#[test]
fn pedestrian_in_front_of_a_tower() {
    let a = Area { x: 0, y: 0, width: 100, height: 30 };
    let p = pedestrian_cells(a, 0, 25).unwrap();
    assert_eq!((p.head_row, p.feet_row, p.tower_behind), (26, 27, true));
    let gap = pedestrian_cells(a, 0, 15).unwrap();
    assert!(!gap.tower_behind);
    let slot4 = pedestrian_cells(a, 0, 90).unwrap();
    assert!(!slot4.tower_behind);
    assert!(pedestrian_cells(a, 0, 100).is_none());
}

#[test]
fn pedestrian_above_roof_has_no_tower_behind() {
    let a = Area { x: 0, y: 0, width: 100, height: 30 };
    // With the buffer starting 23 rows down, the monolith roof (row 5) lies below the feet.
    let p = pedestrian_cells(a, 23, 25).unwrap();
    assert!(!p.tower_behind);
}

#[test]
fn walking_phases() {
    assert_eq!(pedestrian_legs(0, 0, false, 0), 'Λ');
    assert_eq!(pedestrian_legs(4, 0, false, 0), '|');
    assert_eq!(pedestrian_legs(8, 0, false, 0), 'λ');
    assert_eq!(pedestrian_legs(12, 0, false, 0), 'Λ');
    assert_eq!(pedestrian_legs(0, 5, false, 0), '|');
    assert_eq!(pedestrian_legs(0, 0, true, 3), '|');
    assert_eq!(pedestrian_legs(0, 0, true, 0), 'Λ');
    assert_eq!(pedestrian_legs(u64::MAX - 3, 0, false, 0), 'Λ');
    assert_eq!(pedestrian_legs(u64::MAX, 0, true, 1), '|');
}

#[test]
fn vehicle_bodies() {
    assert_eq!(vehicle_body(VehicleType::Spinner, 3), vec!['◢', '■', '◣']);
    assert_eq!(vehicle_body(VehicleType::Police, 3), vec!['◤', '█', '◥']);
    assert_eq!(vehicle_body(VehicleType::Shuttle, 5), vec!['▓', '█', '█', '█', '▶']);
    assert_eq!(vehicle_body(VehicleType::Shuttle, 1), vec!['▓', '▶']);
    assert_eq!(vehicle_trail(VehicleType::Spinner), Some(TrailColor::PoliceRed));
    assert_eq!(vehicle_trail(VehicleType::Shuttle), Some(TrailColor::MainNeon));
    assert_eq!(vehicle_trail(VehicleType::Police), None);
}

#[test]
fn police_lights_and_body() {
    assert!(police_body_white(0));
    assert!(!police_body_white(1));
    assert!(police_body_white(2));
    assert!(police_blue_on(0));
    assert!(police_blue_on(1));
    assert!(!police_blue_on(2));
    assert!(!police_blue_on(3));
    assert!(police_blue_on(4));
}

#[test]
fn solid_glyphs() {
    for g in ["█", "▓", "▆", "▄"] {
        assert!(is_solid_glyph(g));
    }
    for g in [" ", "░", "┃", "██", ""] {
        assert!(!is_solid_glyph(g));
    }
}

#[test]
fn street_lamp_fixture() {
    let a = Area { x: 2, y: 1, width: 100, height: 30 };
    let l = lamp_fixture(a, 15, 23);
    assert_eq!((l.col, l.street_row, l.bulb_col, l.bulb_row), (17, 28, 16, 25));
    assert!(l.dimmed);
    assert!(!lamp_fixture(a, 15, 25).dimmed);
}

#[test]
fn weather_glyphs() {
    assert_eq!(rain_glyph(1), '|');
    assert_eq!(rain_glyph(0), ':');
    assert_eq!(snow_glyph(0, 10), '*');
    assert_eq!(snow_glyph(0, 11), '·');
    assert_eq!(snow_glyph(5, 15), '·');
    assert_eq!(snow_glyph(0, 21), '❄');
    assert_eq!(snow_glyph(30, 0), '*');
    assert_eq!(snow_ground_glyph(7, 0), '▆');
    assert_eq!(snow_ground_glyph(6, 100), '▆');
    assert_eq!(snow_ground_glyph(6, 99), '█');
    assert_eq!(reflection_glyph(1), '█');
    assert_eq!(reflection_glyph(2), '▓');
    assert_eq!(reflection_glyph(3), '▒');
    assert_eq!(reflection_glyph(0), '▒');
}

#[test]
fn reflection_stays_inside_the_area() {
    let a = Area { x: 5, y: 0, width: 10, height: 20 };
    assert_eq!(reflection_source(a, 0, -1), 5);
    assert_eq!(reflection_source(a, 3, 1), 9);
    assert_eq!(reflection_source(a, 9, 1), 14);
    assert_eq!(reflection_source(a, 4, 0), 9);
    let far = Area { x: 40000, y: 0, width: 10, height: 20 };
    assert_eq!(reflection_source(far, 3, 1), 40004);
    assert_eq!(reflection_source(far, 0, -1), 40000);
}

#[test]
fn reflection_rows_below_the_street() {
    let a = Area { x: 0, y: 1, width: 10, height: 20 };
    let rows: Vec<(u16, u16, u16)> = reflection_rows(a).iter().map(|r| (r.row, r.dist, r.source_row)).collect();
    assert_eq!(rows, vec![(19, 1, 17), (20, 2, 16)]);
    let low = Area { x: 0, y: 0, width: 10, height: 2 };
    let rows: Vec<(u16, u16, u16)> = reflection_rows(low).iter().map(|r| (r.row, r.dist, r.source_row)).collect();
    assert_eq!(rows, vec![(1, 1, 0)]);
    assert!(reflection_rows(Area { x: 0, y: 0, width: 10, height: 0 }).is_empty());
}
