use vstd::prelude::*;

verus! {

/// Playfield width in pixel columns; the terrain holds one height per column.
pub const FIELD_COLUMNS: usize = 900;

/// Playfield width in milli-pixels.
pub const FIELD_WIDTH: i64 = 900_000;

/// Playfield height in milli-pixels.
pub const FIELD_HEIGHT: i64 = 500_000;

/// Side length of a tank's square footprint, in pixel columns.
pub const TANK_COLUMNS: usize = 10;

/// Side length of a tank, in milli-pixels.
pub const TANK_SIZE: i64 = 10_000;

/// Anchor column of the left tank.
pub const LEFT_ANCHOR: usize = 100;

/// Anchor column of the right tank.
pub const RIGHT_ANCHOR: usize = 790;

pub const MIN_POWER: u32 = 0;

pub const MAX_POWER: u32 = 1000;

/// Smallest firing angle, in degrees.
pub const MIN_ANGLE: u32 = 0;

/// Largest firing angle, in degrees.
pub const MAX_ANGLE: u32 = 180;

/// Power that gives a launch speed of one pixel per millisecond.
pub const POWER_NORMALIZER: i64 = 200;

/// Numerator of the factor (3/4) that scales elapsed time in the flight model.
pub const SPEED_NUM: i64 = 3;

/// Denominator of the factor that scales elapsed time in the flight model.
pub const SPEED_DEN: i64 = 4;

/// Vertical acceleration in milli-pixels per scaled millisecond squared; it
/// is negative because height is measured downward.
pub const GRAVITY: i64 = -1;

/// Radius, in columns, of the crater an impact carves.
pub const BLAST_RADIUS: usize = 30;

/// Side of the square drawn for a projectile, in milli-pixels.
pub const PROJECTILE_SIZE: i64 = 3_000;

/// Height a fired projectile starts above the top of its tank, in milli-pixels.
pub const MUZZLE_CLEARANCE: i64 = 5_000;

/// Lowest generated terrain height (distance from the top of the field to a
/// peak), in milli-pixels.
pub const HEIGHT_MIN: i64 = 30_000;

/// Highest generated terrain height, in milli-pixels.
pub const HEIGHT_MAX: i64 = 470_000;

/// Largest slope of generated terrain, in milli-pixels per column.
pub const STEP_MAX: i64 = 2_500;

/// Largest change of slope from one generated column to the next.
pub const STEP_CHANGE: i64 = 1_000;

/// The fixed settings of a match, lengths in milli-pixels.
#[derive(Clone, Copy, Debug, PartialEq, Eq, Structural)]
pub struct Config {
    pub width: i64,
    pub height: i64,
    pub tank_left_pos: i64,
    pub tank_right_pos: i64,
    pub tank_width: i64,
    pub tank_height: i64,
    pub max_power: u16,
    pub min_power: u16,
    pub max_angle: u8,
    pub min_angle: u8,
    pub speed_num: i64,
    pub speed_den: i64,
    pub projectile_size: i64,
    pub power_normalizer: i64,
}

impl Config {
    pub fn new() -> (r: Config)
        ensures
            r.width == FIELD_WIDTH,
            r.height == FIELD_HEIGHT,
            r.tank_left_pos == LEFT_ANCHOR * 1000,
            r.tank_right_pos == RIGHT_ANCHOR * 1000,
            r.tank_width == TANK_SIZE,
            r.tank_height == TANK_SIZE,
            r.max_power == MAX_POWER,
            r.min_power == MIN_POWER,
            r.max_angle == MAX_ANGLE,
            r.min_angle == MIN_ANGLE,
            r.speed_num == SPEED_NUM,
            r.speed_den == SPEED_DEN,
            r.projectile_size == PROJECTILE_SIZE,
            r.power_normalizer == POWER_NORMALIZER,
    {
        Config {
            width: FIELD_WIDTH,
            height: FIELD_HEIGHT,
            tank_left_pos: 100_000,
            tank_right_pos: 790_000,
            tank_width: TANK_SIZE,
            tank_height: TANK_SIZE,
            max_power: 1000,
            min_power: 0,
            max_angle: 180,
            min_angle: 0,
            speed_num: SPEED_NUM,
            speed_den: SPEED_DEN,
            projectile_size: PROJECTILE_SIZE,
            power_normalizer: POWER_NORMALIZER,
        }
    }

    pub fn height(&self) -> (r: i64)
        ensures
            r == self.height,
    {
        self.height
    }

    pub fn width(&self) -> (r: i64)
        ensures
            r == self.width,
    {
        self.width
    }

    pub fn tank_width(&self) -> (r: i64)
        ensures
            r == self.tank_width,
    {
        self.tank_width
    }

    pub fn tank_height(&self) -> (r: i64)
        ensures
            r == self.tank_height,
    {
        self.tank_height
    }

    pub fn tank_left_pos(&self) -> (r: i64)
        ensures
            r == self.tank_left_pos,
    {
        self.tank_left_pos
    }

    pub fn tank_right_pos(&self) -> (r: i64)
        ensures
            r == self.tank_right_pos,
    {
        self.tank_right_pos
    }

    pub fn max_power(&self) -> (r: u16)
        ensures
            r == self.max_power,
    {
        self.max_power
    }

    pub fn min_power(&self) -> (r: u16)
        ensures
            r == self.min_power,
    {
        self.min_power
    }

    pub fn max_angle(&self) -> (r: u8)
        ensures
            r == self.max_angle,
    {
        self.max_angle
    }

    pub fn min_angle(&self) -> (r: u8)
        ensures
            r == self.min_angle,
    {
        self.min_angle
    }
}

} // verus!
