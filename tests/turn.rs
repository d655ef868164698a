use rand::rngs::StdRng;
use rand::{Rng, SeedableRng};
use warbots::ballistics::position_at;
use warbots::config::{
    Config, FIELD_COLUMNS, GRAVITY, HEIGHT_MAX, HEIGHT_MIN, STEP_CHANGE, STEP_MAX,
};
use warbots::geometry::{Heading, Point, Side, HEADING_UNIT};
use warbots::heightmap::random_walk;
use warbots::terrain::{palette_hex, Terrain};
use warbots::turn::{clamp_angle, clamp_power, Match, TickOutcome, Turn};

fn heading_deg(deg: f64) -> Heading {
    let rad = deg.to_radians();
    Heading::new(
        (rad.cos() * HEADING_UNIT as f64).round() as i64,
        (rad.sin() * HEADING_UNIT as f64).round() as i64,
    )
}

fn flat_match(height: i64) -> Match {
    let t = Terrain::with_heights(vec![height; FIELD_COLUMNS], palette_hex(1), "#000000".to_string());
    Match::with_terrain(t)
}

fn seeded_match(seed: u64) -> Match {
    let mut rng = StdRng::seed_from_u64(seed);
    let start_height = rng.gen_range(0..=HEIGHT_MAX);
    let start_slope = rng.gen_range(-STEP_MAX..=STEP_MAX);
    let nudges: Vec<i64> = (0..FIELD_COLUMNS).map(|_| rng.gen_range(-STEP_CHANGE..=STEP_CHANGE)).collect();
    let heights = random_walk(HEIGHT_MIN, HEIGHT_MAX, STEP_MAX, start_height, start_slope, &nudges);
    Match::with_terrain(Terrain::with_heights(heights, palette_hex(2), "#000000".to_string()))
}

#[test]
fn new_turn_starts_with_left_idle() {
    let t = Turn::new();
    assert_eq!(t.active_side, Side::Left);
    assert!(!t.projectile_in_flight);
    assert_eq!(t.shot_origin, None);
    assert_eq!(t.turn_start_timestamp, None);
}

#[test]
fn take_and_end_a_turn() {
    let mut t = Turn::new();
    t.take();
    assert!(t.projectile_in_flight);
    assert_eq!(t.active_side, Side::Left);
    t.shot_origin = Some(Point::new(105_000, 385_000));
    t.power = 640;
    t.end();
    assert!(!t.projectile_in_flight);
    assert_eq!(t.active_side, Side::Right);
    assert_eq!(t.shot_origin, Some(Point::new(105_000, 385_000)));
    assert_eq!(t.power, 640);
    t.end();
    assert_eq!(t.active_side, Side::Left);
    assert_eq!(Side::Left.other(), Side::Right);
}

#[test]
fn clamps_operator_input() {
    assert_eq!(clamp_power(5000), 1000);
    assert_eq!(clamp_power(0), 0);
    assert_eq!(clamp_power(640), 640);
    assert_eq!(clamp_angle(181), 180);
    assert_eq!(clamp_angle(45), 45);
}

#[test]
fn config_values() {
    let c = Config::new();
    assert_eq!(c.width(), 900_000);
    assert_eq!(c.height(), 500_000);
    assert_eq!(c.tank_width(), 10_000);
    assert_eq!(c.tank_height(), 10_000);
    assert_eq!(c.tank_left_pos(), 100_000);
    assert_eq!(c.tank_right_pos(), 790_000);
    assert_eq!(c.max_power(), 1000);
    assert_eq!(c.min_power(), 0);
    assert_eq!(c.max_angle(), 180);
    assert_eq!(c.min_angle(), 0);
}

#[test]
fn tick_without_shot_is_idle() {
    let mut m = flat_match(400_000);
    assert_eq!(m.tick(0), TickOutcome::Idle);
    assert_eq!(m.tick(1000), TickOutcome::Idle);
    assert_eq!(m.active_side(), Side::Left);
    assert!(!m.projectile_in_flight());
}

#[test]
fn fire_loads_shot_from_muzzle() {
    let mut m = flat_match(400_000);
    m.fire(2500, heading_deg(45.0));
    let t = m.turn();
    assert!(t.projectile_in_flight);
    assert_eq!(t.power, 1000);
    assert_eq!(t.shot_origin, Some(Point::new(105_000, 385_000)));
    assert_eq!(t.heading, heading_deg(45.0));
    assert_eq!(t.turn_start_timestamp, None);
}

#[test]
fn fire_while_in_flight_is_ignored() {
    let mut m = flat_match(400_000);
    m.fire(300, heading_deg(60.0));
    m.fire(900, heading_deg(10.0));
    assert_eq!(m.turn().power, 300);
    assert_eq!(m.turn().heading, heading_deg(60.0));
}

#[test]
fn clock_starts_at_first_tick() {
    let mut m = flat_match(400_000);
    m.fire(0, heading_deg(90.0));
    assert_eq!(m.tick(5000), TickOutcome::FlightUpdated { point: Point::new(105_000, 385_000) });
    assert_eq!(m.turn().turn_start_timestamp, Some(5000));
    assert_eq!(m.tick(5016), TickOutcome::FlightUpdated { point: Point::new(105_000, 385_072) });
}

#[test]
fn zero_power_shot_lands_on_its_own_column() {
    let mut m = flat_match(400_000);
    m.fire(0, heading_deg(45.0));
    let mut t: i32 = 0;
    let outcome = loop {
        let r = m.tick(t);
        match r {
            TickOutcome::FlightUpdated { point } => {
                assert_eq!(point.x, 105_000);
                assert!(t < 240);
            }
            _ => break r,
        }
        t += 16;
    };
    assert_eq!(t, 240);
    assert_eq!(
        outcome,
        TickOutcome::Collided { impact: Point::new(105_000, 401_200), first_column: 75, end_column: 135 }
    );
    assert_eq!(m.active_side(), Side::Right);
    assert!(!m.projectile_in_flight());
    // the crater reached the left tank's pad: the tank sits on the new ground
    let h = m.terrain().heights()[100];
    assert_eq!(h, 400_000 + 10_000 + 800 * 10 + 62);
    assert_eq!(m.terrain().tank(Side::Left).location.y, h);
}

#[test]
fn no_second_collision_before_next_fire() {
    let mut m = flat_match(400_000);
    m.fire(0, heading_deg(45.0));
    let mut t: i32 = 0;
    while let TickOutcome::FlightUpdated { .. } = m.tick(t) {
        t += 16;
    }
    let heights = m.terrain().heights().clone();
    assert_eq!(m.tick(t + 16), TickOutcome::Idle);
    assert_eq!(m.tick(t + 32), TickOutcome::Idle);
    assert_eq!(m.terrain().heights(), &heights);
    assert_eq!(m.active_side(), Side::Right);
}

#[test]
fn left_shot_leaves_field_to_the_left() {
    let mut m = flat_match(400_000);
    m.fire(1000, Heading::new(HEADING_UNIT, 0));
    assert!(matches!(m.tick(100), TickOutcome::FlightUpdated { .. }));
    assert_eq!(m.tick(116), TickOutcome::FlightUpdated { point: Point::new(45_000, 385_072) });
    assert_eq!(m.active_side(), Side::Left);
    assert_eq!(m.tick(132), TickOutcome::OutOfBounds);
    assert_eq!(m.active_side(), Side::Right);
    assert!(!m.projectile_in_flight());
    assert_eq!(m.terrain().heights(), &vec![400_000i64; FIELD_COLUMNS]);
}

#[test]
fn right_shot_is_mirrored() {
    let mut m = flat_match(400_000);
    m.fire(1000, Heading::new(HEADING_UNIT, 0));
    m.tick(0);
    m.tick(32);
    assert_eq!(m.active_side(), Side::Right);
    m.fire(1000, Heading::new(HEADING_UNIT, 0));
    assert_eq!(m.turn().shot_origin, Some(Point::new(795_000, 385_000)));
    assert_eq!(m.turn().heading, Heading::new(-HEADING_UNIT, 0));
    assert_eq!(m.tick(0), TickOutcome::FlightUpdated { point: Point::new(795_000, 385_000) });
    assert_eq!(m.tick(16), TickOutcome::FlightUpdated { point: Point::new(855_000, 385_072) });
    assert_eq!(m.tick(32), TickOutcome::OutOfBounds);
    assert_eq!(m.active_side(), Side::Left);
}

#[test]
fn side_flips_once_per_shot() {
    let mut m = flat_match(400_000);
    for shot in 0..4 {
        let side = m.active_side();
        m.fire(300, heading_deg(70.0));
        let mut t: i32 = 1000 * shot;
        loop {
            match m.tick(t) {
                TickOutcome::FlightUpdated { .. } => assert_eq!(m.active_side(), side),
                TickOutcome::Collided { .. } | TickOutcome::OutOfBounds => break,
                TickOutcome::Idle => panic!("idle during a shot"),
            }
            t += 16;
        }
        assert_eq!(m.active_side(), side.other());
    }
}

#[test]
fn end_to_end_seeded_shot() {
    let mut m = seeded_match(42);
    let start = m.terrain().heights().clone();
    m.fire(500, heading_deg(45.0));
    let origin = m.turn().shot_origin.unwrap();
    let heading = m.turn().heading;
    let mut xs: Vec<i64> = Vec::new();
    let mut t: i32 = 0;
    let outcome = loop {
        let r = m.tick(t);
        let expected = position_at(origin, 500, heading, GRAVITY, t as u32);
        match r {
            TickOutcome::FlightUpdated { point } => {
                assert_eq!(point, expected);
                assert!(point.y < start[(point.x / 1000) as usize]);
                xs.push(point.x);
            }
            TickOutcome::Collided { impact, .. } => {
                assert_eq!(impact, expected);
                assert!(impact.y >= start[(impact.x / 1000) as usize]);
                break r;
            }
            other => break other,
        }
        t += 16;
    };
    // from the left tank, a heading with a positive cosine travels left
    for w in xs.windows(2) {
        assert!(w[1] < w[0]);
    }
    assert!(!matches!(outcome, TickOutcome::Idle));
    assert_eq!(m.active_side(), Side::Right);
}

#[test]
fn end_to_end_seeded_shot_to_the_right() {
    let mut m = seeded_match(7);
    let start = m.terrain().heights().clone();
    m.fire(500, heading_deg(135.0));
    let origin = m.turn().shot_origin.unwrap();
    let heading = m.turn().heading;
    let mut last_x = i64::MIN;
    let mut t: i32 = 0;
    loop {
        let expected = position_at(origin, 500, heading, GRAVITY, t as u32);
        match m.tick(t) {
            TickOutcome::FlightUpdated { point } => {
                assert_eq!(point, expected);
                assert!(point.x > last_x);
                assert!(point.y < start[(point.x / 1000) as usize]);
                last_x = point.x;
            }
            TickOutcome::Collided { impact, first_column, end_column } => {
                assert_eq!(impact, expected);
                let col = (impact.x / 1000) as usize;
                assert!(impact.y >= start[col]);
                assert_eq!(first_column, col.saturating_sub(30));
                assert_eq!(end_column, (col + 30).min(FIELD_COLUMNS));
                assert_ne!(m.terrain().heights(), &start);
                break;
            }
            TickOutcome::OutOfBounds => {
                assert_eq!(m.terrain().heights(), &start);
                break;
            }
            TickOutcome::Idle => panic!("idle during a shot"),
        }
        t += 16;
    }
    assert_eq!(m.active_side(), Side::Right);
}

#[test]
fn fresh_random_match() {
    let m = Match::new();
    assert_eq!(m.active_side(), Side::Left);
    assert!(!m.projectile_in_flight());
    let (heights, _, sky, left, right) = m.terrain_snapshot();
    assert_eq!(heights.len(), FIELD_COLUMNS);
    assert_eq!(sky, "#000000");
    assert_eq!(left, Point::new(100_000, heights[100]));
    assert_eq!(right, Point::new(790_000, heights[790]));
}

#[test]
fn every_tick_is_recorded() {
    let mut m = flat_match(400_000);
    assert_eq!(m.last_tick(), None);
    m.tick(50);
    assert_eq!(m.last_tick(), Some(50));
    m.fire(100, heading_deg(80.0));
    assert_eq!(m.last_tick(), Some(50));
    m.tick(60);
    assert_eq!(m.last_tick(), Some(60));
    assert_eq!(m.turn().turn_start_timestamp, Some(60));
}

#[test]
fn shot_end_keeps_launch_point() {
    let mut m = flat_match(400_000);
    m.fire(1000, Heading::new(HEADING_UNIT, 0));
    m.tick(0);
    assert_eq!(m.tick(32), TickOutcome::OutOfBounds);
    assert_eq!(m.turn().shot_origin, Some(Point::new(105_000, 385_000)));
    assert!(!m.projectile_in_flight());
}
