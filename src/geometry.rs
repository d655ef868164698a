use vstd::prelude::*;

verus! {

/// Sub-units of length per screen pixel.
pub const MILLI: i64 = 1000;

/// A screen/world coordinate in milli-pixels; `y` grows downward.
#[derive(Clone, Copy, Debug, PartialEq, Eq, Structural)]
pub struct Point {
    pub x: i64,
    pub y: i64,
}

impl Point {
    pub fn new(x: i64, y: i64) -> (r: Point)
        ensures
            r.x == x,
            r.y == y,
    {
        Point { x, y }
    }

    pub fn x(&self) -> (r: i64)
        ensures
            r == self.x,
    {
        self.x
    }

    pub fn y(&self) -> (r: i64)
        ensures
            r == self.y,
    {
        self.y
    }
}

/// Scale of the components of a [`Heading`]: a component of `HEADING_UNIT`
/// stands for 1.
pub const HEADING_UNIT: i64 = 1_000_000;

/// A firing direction given by its cosine and sine, each scaled by
/// [`HEADING_UNIT`].
#[derive(Clone, Copy, Debug, PartialEq, Eq, Structural)]
pub struct Heading {
    pub cos: i64,
    pub sin: i64,
}

pub open spec fn clamp(v: int, lo: int, hi: int) -> int {
    if v < lo {
        lo
    } else if v > hi {
        hi
    } else {
        v
    }
}

impl Heading {
    pub open spec fn wf(&self) -> bool {
        -HEADING_UNIT <= self.cos <= HEADING_UNIT && -HEADING_UNIT <= self.sin <= HEADING_UNIT
    }

    /// A heading from scaled cosine and sine; each is clamped to
    /// `[-HEADING_UNIT, HEADING_UNIT]`.
    pub fn new(cos: i64, sin: i64) -> (r: Heading)
        ensures
            r.wf(),
            r.cos == clamp(cos as int, -HEADING_UNIT as int, HEADING_UNIT as int),
            r.sin == clamp(sin as int, -HEADING_UNIT as int, HEADING_UNIT as int),
    {
        let c = if cos < -HEADING_UNIT {
            -HEADING_UNIT
        } else if cos > HEADING_UNIT {
            HEADING_UNIT
        } else {
            cos
        };
        let s = if sin < -HEADING_UNIT {
            -HEADING_UNIT
        } else if sin > HEADING_UNIT {
            HEADING_UNIT
        } else {
            sin
        };
        Heading { cos: c, sin: s }
    }

    /// The same heading reflected across the vertical axis.
    pub fn mirrored(&self) -> (r: Heading)
        requires
            self.wf(),
        ensures
            r.wf(),
            r.cos == -self.cos,
            r.sin == self.sin,
    {
        Heading { cos: -self.cos, sin: self.sin }
    }
}

/// One of the two tanks of a match.
#[derive(Clone, Copy, Debug, PartialEq, Eq, Structural)]
pub enum Side {
    Left,
    Right,
}

impl Side {
    pub open spec fn spec_other(self) -> Side {
        match self {
            Side::Left => Side::Right,
            Side::Right => Side::Left,
        }
    }

    /// The opposing side.
    pub fn other(&self) -> (r: Side)
        ensures
            r == self.spec_other(),
    {
        match self {
            Side::Left => Side::Right,
            Side::Right => Side::Left,
        }
    }
}

} // verus!
