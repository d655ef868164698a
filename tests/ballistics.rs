use warbots::ballistics::{column_of, hits_terrain, in_bounds, position_at};
use warbots::config::{FIELD_COLUMNS, GRAVITY};
use warbots::geometry::{Heading, Point, HEADING_UNIT};

fn heading_deg(deg: f64) -> Heading {
    let rad = deg.to_radians();
    Heading::new(
        (rad.cos() * HEADING_UNIT as f64).round() as i64,
        (rad.sin() * HEADING_UNIT as f64).round() as i64,
    )
}

#[test]
fn position_exact_values() {
    // power 200 is one pixel per ms; 16 ms scale to 12 ms: 12 px to the
    // left, and gravity pulls 0.001 / 2 * 144 px = 72 milli-pixels down.
    let o = Point::new(100_000, 200_000);
    let p = position_at(o, 200, Heading::new(HEADING_UNIT, 0), GRAVITY, 16);
    assert_eq!(p, Point::new(88_000, 200_072));
}

#[test]
fn position_straight_up() {
    // 1 px/ms upward for 12 scaled ms, less 72 milli-pixels of gravity.
    let o = Point::new(100_000, 200_000);
    let p = position_at(o, 200, Heading::new(0, HEADING_UNIT), GRAVITY, 16);
    assert_eq!(p, Point::new(100_000, 188_072));
}

#[test]
fn position_rounds_down() {
    let o = Point::new(0, 0);
    let h = heading_deg(45.0);
    assert_eq!(h, Heading::new(707_107, 707_107));
    let p = position_at(o, 500, h, GRAVITY, 16);
    assert_eq!(p.x, -21_214);
    assert_eq!(p.y, -21_142);
}

#[test]
fn position_at_time_zero_is_origin() {
    let o = Point::new(123_456, 234_567);
    assert_eq!(position_at(o, 1000, heading_deg(30.0), GRAVITY, 0), o);
}

#[test]
fn position_is_deterministic() {
    let o = Point::new(105_000, 385_000);
    let h = heading_deg(63.0);
    for t in [0u32, 1, 16, 333, 10_000, u32::MAX] {
        let a = position_at(o, 777, h, GRAVITY, t);
        let b = position_at(o, 777, h, GRAVITY, t);
        assert_eq!(a, b);
    }
}

#[test]
fn level_flight_without_gravity() {
    let o = Point::new(450_000, 250_000);
    let h = Heading::new(HEADING_UNIT, 0);
    for k in 0..50u32 {
        let p = position_at(o, 400, h, 0, 16 * k);
        assert_eq!(p.y, 250_000);
        // 2 px/ms scaled by 3/4: 24 px every 16 ms, to the left.
        assert_eq!(p.x, 450_000 - 24_000 * k as i64);
    }
}

#[test]
fn zero_power_falls_straight_down() {
    let o = Point::new(105_000, 385_000);
    for k in 0..20u32 {
        let p = position_at(o, 0, heading_deg(45.0), GRAVITY, 16 * k);
        assert_eq!(p.x, 105_000);
        assert!(p.y >= 385_000);
    }
}

#[test]
fn long_flight_drops_by_gravity_alone() {
    let o = Point::new(0, 0);
    let p = position_at(o, 0, Heading::new(0, 0), GRAVITY, u32::MAX);
    // 9 t^2 / 32 milli-pixels for t = 2^32 - 1.
    let t = u32::MAX as i128;
    assert_eq!(p.y as i128, (9 * t * t) / 32);
}

#[test]
fn bounds_of_the_field() {
    assert!(in_bounds(Point::new(0, 0)));
    assert!(in_bounds(Point::new(899_999, 500_000)));
    assert!(in_bounds(Point::new(10, -5_000_000)));
    assert!(!in_bounds(Point::new(-1, 0)));
    assert!(!in_bounds(Point::new(900_000, 0)));
    assert!(!in_bounds(Point::new(10, 500_001)));
}

#[test]
fn columns_and_terrain_hits() {
    assert_eq!(column_of(Point::new(0, 0)), 0);
    assert_eq!(column_of(Point::new(105_999, 0)), 105);
    assert_eq!(column_of(Point::new(899_999, 0)), 899);
    let h = vec![300_000i64; FIELD_COLUMNS];
    assert!(hits_terrain(&h, Point::new(5_000, 300_000)));
    assert!(hits_terrain(&h, Point::new(5_000, 300_001)));
    assert!(hits_terrain(&h, Point::new(899_000, 700_000)));
    assert!(!hits_terrain(&h, Point::new(5_000, 299_999)));
}

#[test]
fn heading_is_clamped_and_mirrored() {
    let h = Heading::new(2 * HEADING_UNIT, -3 * HEADING_UNIT);
    assert_eq!(h, Heading { cos: HEADING_UNIT, sin: -HEADING_UNIT });
    assert_eq!(h.mirrored(), Heading { cos: -HEADING_UNIT, sin: -HEADING_UNIT });
}
