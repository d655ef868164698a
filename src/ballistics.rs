use crate::config::{FIELD_COLUMNS, FIELD_HEIGHT, FIELD_WIDTH, MAX_POWER, POWER_NORMALIZER, SPEED_DEN, SPEED_NUM};
use crate::geometry::{Heading, Point, HEADING_UNIT, MILLI};
use vstd::arithmetic::div_mod::{lemma_fundamental_div_mod, lemma_fundamental_div_mod_converse};
use vstd::prelude::*;

verus! {

/// Largest magnitude of gravity, in milli-pixels per scaled millisecond
/// squared, that the flight model accepts.
pub const GRAVITY_LIMIT: i64 = 1000;

/// Horizontal displacement after `t` ms, in milli-pixels, rounded down: the
/// horizontal speed `-(power / 200) * cos` pixels per ms times the scaled
/// time `3t / 4`.
pub open spec fn flight_dx(power: int, cos: int, t: int) -> int {
    (-(power * cos * MILLI * SPEED_NUM * t)) / (POWER_NORMALIZER * HEADING_UNIT * SPEED_DEN)
}

/// Vertical displacement after `t` ms, in milli-pixels, rounded down:
/// `-(vy * tau + gravity * tau^2 / 2)` with `vy = (power / 200) * sin`
/// pixels per ms and `tau = 3t / 4`.
pub open spec fn flight_dy(power: int, sin: int, gravity: int, t: int) -> int {
    (-(2 * SPEED_DEN * power * sin * MILLI * SPEED_NUM * t + gravity * SPEED_NUM * SPEED_NUM * t * t
        * POWER_NORMALIZER * HEADING_UNIT)) / (2 * POWER_NORMALIZER * HEADING_UNIT * SPEED_DEN
        * SPEED_DEN)
}

/// `v` held to the range of `i64`.
pub open spec fn clamp_i64(v: int) -> int {
    if v > i64::MAX {
        i64::MAX as int
    } else if v < i64::MIN {
        i64::MIN as int
    } else {
        v
    }
}

/// Where a projectile launched from `origin` is after `elapsed` ms.
pub open spec fn spec_position_at(origin: Point, power: int, heading: Heading, gravity: int, elapsed: int) -> Point {
    Point {
        x: clamp_i64(origin.x + flight_dx(power, heading.cos as int, elapsed)) as i64,
        y: clamp_i64(origin.y + flight_dy(power, heading.sin as int, gravity, elapsed)) as i64,
    }
}

/// `n / d` rounded toward negative infinity.
fn floor_div(n: i128, d: i128) -> (q: i128)
    requires
        d > 0,
        n > i128::MIN,
    ensures
        q == n / d,
{
    if n >= 0 {
        n / d
    } else {
        let m = -n;
        let q0 = m / d;
        let r0 = m % d;
        proof {
            lemma_fundamental_div_mod(m as int, d as int);
        }
        if r0 == 0 {
            proof {
                assert(n == (-q0) * d) by (nonlinear_arith)
                    requires
                        m == d * q0 + r0,
                        r0 == 0,
                        n == -m,
                ;
                lemma_fundamental_div_mod_converse(n as int, d as int, -q0, 0);
            }
            -q0
        } else {
            proof {
                assert(n == (-q0 - 1) * d + (d - r0)) by (nonlinear_arith)
                    requires
                        m == d * q0 + r0,
                        n == -m,
                ;
                lemma_fundamental_div_mod_converse(n as int, d as int, -q0 - 1, d - r0);
            }
            -q0 - 1
        }
    }
}

/// `v` held to the range of `i64`.
fn saturate_i64(v: i128) -> (r: i64)
    ensures
        r == clamp_i64(v as int),
{
    if v > i64::MAX as i128 {
        i64::MAX
    } else if v < i64::MIN as i128 {
        i64::MIN
    } else {
        v as i64
    }
}

/// Position of a projectile `elapsed` ms after launch from `origin` with
/// `power` along `heading`, under `gravity`. The position is evaluated in
/// closed form from the launch values alone, so equal arguments give equal
/// positions; a coordinate beyond the range of `i64` is held to it.
pub fn position_at(origin: Point, power: u32, heading: Heading, gravity: i64, elapsed: u32) -> (r: Point)
    requires
        power <= MAX_POWER,
        heading.wf(),
        -GRAVITY_LIMIT <= gravity <= GRAVITY_LIMIT,
    ensures
        r == spec_position_at(origin, power as int, heading, gravity as int, elapsed as int),
{
    let p = power as i128;
    let c = heading.cos as i128;
    let s = heading.sin as i128;
    let g = gravity as i128;
    let t = elapsed as i128;
    assert(-1_000_000_000 <= p * c <= 1_000_000_000) by (nonlinear_arith)
        requires
            0 <= p <= 1000,
            -1_000_000 <= c <= 1_000_000,
    ;
    assert(-1_000_000_000 <= p * s <= 1_000_000_000) by (nonlinear_arith)
        requires
            0 <= p <= 1000,
            -1_000_000 <= s <= 1_000_000,
    ;
    let pc = p * c;
    let ps = p * s;
    assert(-3_000_000_000_000 * 5_000_000_000 <= (pc * 3000) * t <= 3_000_000_000_000 * 5_000_000_000)
        by (nonlinear_arith)
        requires
            -1_000_000_000 <= pc <= 1_000_000_000,
            0 <= t < 5_000_000_000,
    ;
    assert(-3_000_000_000_000 * 5_000_000_000 <= (ps * 3000) * t <= 3_000_000_000_000 * 5_000_000_000)
        by (nonlinear_arith)
        requires
            -1_000_000_000 <= ps <= 1_000_000_000,
            0 <= t < 5_000_000_000,
    ;
    assert(0 <= t * t <= 25_000_000_000_000_000_000) by (nonlinear_arith)
        requires
            0 <= t < 5_000_000_000,
    ;
    let tt = t * t;
    assert(-1_800_000 * 25_000_000_000_000_000_000 <= g * 9 * tt * 200 <= 1_800_000 * 25_000_000_000_000_000_000)
        by (nonlinear_arith)
        requires
            -1000 <= g <= 1000,
            0 <= tt <= 25_000_000_000_000_000_000,
    ;
    let nx = pc * 3000 * t;
    let ny = 8 * (ps * 3000 * t) + g * 9 * tt * 200 * 1_000_000;
    assert(nx == power * heading.cos * MILLI * SPEED_NUM * elapsed) by (nonlinear_arith)
        requires
            pc == p * c,
            nx == pc * 3000 * t,
            p == power,
            c == heading.cos,
            t == elapsed,
    ;
    assert(ny == 2 * SPEED_DEN * power * heading.sin * MILLI * SPEED_NUM * elapsed + gravity * SPEED_NUM
        * SPEED_NUM * elapsed * elapsed * POWER_NORMALIZER * HEADING_UNIT) by (nonlinear_arith)
        requires
            ps == p * s,
            tt == t * t,
            ny == 8 * (ps * 3000 * t) + g * 9 * tt * 200 * 1_000_000,
            p == power,
            s == heading.sin,
            g == gravity,
            t == elapsed,
    ;
    let dx = floor_div(-nx, 800_000_000);
    let dy = floor_div(-ny, 6_400_000_000);
    let x = saturate_i64(origin.x as i128 + dx);
    let y = saturate_i64(origin.y as i128 + dy);
    Point::new(x, y)
}

/// A point lies in the playfield: no lower than its bottom edge and within
/// its columns; above the top edge is still in play.
pub open spec fn spec_in_bounds(p: Point) -> bool {
    p.y <= FIELD_HEIGHT && 0 <= p.x < FIELD_WIDTH
}

pub fn in_bounds(p: Point) -> (r: bool)
    ensures
        r == spec_in_bounds(p),
{
    p.y <= FIELD_HEIGHT && 0 <= p.x && p.x < FIELD_WIDTH
}

/// The terrain column a point within the playfield's width lies over.
pub open spec fn spec_column_of(p: Point) -> int {
    p.x / MILLI
}

pub fn column_of(p: Point) -> (r: usize)
    requires
        0 <= p.x < FIELD_WIDTH,
    ensures
        r == spec_column_of(p),
        r < FIELD_COLUMNS,
{
    (p.x / MILLI) as usize
}

/// A point over the playfield's columns has reached the terrain: it is level with or
/// below the surface of its column.
pub open spec fn spec_hits_terrain(heights: Seq<i64>, p: Point) -> bool {
    heights[spec_column_of(p)] <= p.y
}

pub fn hits_terrain(heights: &Vec<i64>, p: Point) -> (r: bool)
    requires
        heights.len() == FIELD_COLUMNS,
        0 <= p.x < FIELD_WIDTH,
    ensures
        r == spec_hits_terrain(heights@, p),
{
    let col = column_of(p);
    heights[col] <= p.y
}

/// Without gravity, a shot along a level heading keeps its height, and its
/// horizontal displacement is a fixed rate times the elapsed time, rounded
/// down to the milli-pixel.
pub proof fn lemma_level_flight(origin: Point, power: int, heading: Heading, t: int)
    requires
        heading.sin == 0,
    ensures
        spec_position_at(origin, power, heading, 0, t).y == origin.y,
        spec_position_at(origin, power, heading, 0, t).x == clamp_i64(
            origin.x + ((-(power * heading.cos * MILLI * SPEED_NUM)) * t) / (POWER_NORMALIZER
                * HEADING_UNIT * SPEED_DEN),
        ),
{
    assert(-(power * heading.cos * MILLI * SPEED_NUM * t) == (-(power * heading.cos * MILLI * SPEED_NUM))
        * t) by (nonlinear_arith);
    assert(2 * SPEED_DEN * power * heading.sin * MILLI * SPEED_NUM * t == 0) by (nonlinear_arith)
        requires
            heading.sin == 0,
    ;
}

/// A shot fired with no power never leaves its launch column: only gravity
/// moves it, straight down.
pub proof fn lemma_zero_power_stays_in_column(origin: Point, heading: Heading, gravity: int, t: int)
    ensures
        spec_position_at(origin, 0, heading, gravity, t).x == origin.x,
        t >= 0 && gravity <= 0 ==> spec_position_at(origin, 0, heading, gravity, t).y >= origin.y,
{
    assert(0 * heading.cos * MILLI * SPEED_NUM * t == 0) by (nonlinear_arith);
    assert(2 * SPEED_DEN * 0 * heading.sin * MILLI * SPEED_NUM * t == 0) by (nonlinear_arith);
    if t >= 0 && gravity <= 0 {
        assert(gravity * SPEED_NUM * SPEED_NUM * t * t * POWER_NORMALIZER * HEADING_UNIT <= 0) by (nonlinear_arith)
            requires
                gravity <= 0,
        ;
    }
}

/// Horizontal speed of a shot, in milli-pixels per `level_rate_den()`
/// milliseconds of elapsed time.
pub open spec fn level_rate(power: int, cos: int) -> int {
    -(power * cos * MILLI * SPEED_NUM)
}

pub open spec fn level_rate_den() -> int {
    POWER_NORMALIZER * HEADING_UNIT * SPEED_DEN
}

/// Without gravity and along a level heading, x moves at a constant rate:
/// from an origin well inside the range of `i64`, the position at `t` is the
/// origin plus `level_rate * t / level_rate_den` rounded down, and between
/// any two times the displacement is the rate times the time between them,
/// to within one milli-pixel of rounding.
pub proof fn lemma_level_flight_rate(origin: Point, power: int, heading: Heading, t1: int, t2: int)
    requires
        heading.sin == 0,
        heading.wf(),
        0 <= power <= MAX_POWER,
        0 <= t1 <= u32::MAX,
        0 <= t2 <= u32::MAX,
        -0x1000_0000_0000_0000 <= origin.x <= 0x1000_0000_0000_0000,
    ensures
        spec_position_at(origin, power, heading, 0, t1).x == origin.x + (level_rate(power, heading.cos as int)
            * t1) / level_rate_den(),
        spec_position_at(origin, power, heading, 0, t1).y == origin.y,
        ({
            let dx = spec_position_at(origin, power, heading, 0, t2).x - spec_position_at(origin, power, heading, 0, t1).x;
            let exact = level_rate(power, heading.cos as int) * (t2 - t1);
            exact - level_rate_den() < level_rate_den() * dx < exact + level_rate_den()
        }),
{
    let c = heading.cos as int;
    let rate = level_rate(power, c);
    let d = level_rate_den();
    assert(d == 800_000_000);
    assert(-3_000_000_000_000 <= rate <= 3_000_000_000_000) by (nonlinear_arith)
        requires
            rate == -(power * c * 1000 * 3),
            0 <= power <= 1000,
            -1_000_000 <= c <= 1_000_000,
    ;
    assert(-3_000_000_000_000 * 0x1_0000_0000 <= rate * t1 <= 3_000_000_000_000 * 0x1_0000_0000)
        by (nonlinear_arith)
        requires
            -3_000_000_000_000 <= rate <= 3_000_000_000_000,
            0 <= t1 <= u32::MAX,
    ;
    assert(-3_000_000_000_000 * 0x1_0000_0000 <= rate * t2 <= 3_000_000_000_000 * 0x1_0000_0000)
        by (nonlinear_arith)
        requires
            -3_000_000_000_000 <= rate <= 3_000_000_000_000,
            0 <= t2 <= u32::MAX,
    ;
    assert(rate * (t2 - t1) == rate * t2 - rate * t1) by (nonlinear_arith);
    lemma_level_flight(origin, power, heading, t1);
    lemma_level_flight(origin, power, heading, t2);
    lemma_fundamental_div_mod(rate * t1, d);
    lemma_fundamental_div_mod(rate * t2, d);
    assert(0 <= (rate * t1) % d < d);
    assert(0 <= (rate * t2) % d < d);
}

} // verus!
