use crate::config::{
    FIELD_COLUMNS, HEIGHT_MAX, HEIGHT_MIN, LEFT_ANCHOR, MUZZLE_CLEARANCE, RIGHT_ANCHOR, STEP_CHANGE,
    STEP_MAX, TANK_COLUMNS, TANK_SIZE,
};
use crate::geometry::{Point, Side};
use crate::heightmap::{
    crater, flatten, generate, heights_ok, is_crater_of, is_walk_of, random_in, RADIUS_LIMIT,
};
use vstd::prelude::*;
use vstd::string::StringExecFns;

verus! {

/// A tank: a fixed square footprint whose bottom-left corner is `location`.
#[derive(Clone, Copy, Debug, PartialEq, Eq, Structural)]
pub struct Tank {
    pub width: i64,
    pub height: i64,
    pub location: Point,
}

impl Tank {
    pub fn new(point: Point) -> (r: Tank)
        ensures
            r.width == TANK_SIZE,
            r.height == TANK_SIZE,
            r.location == point,
    {
        Tank { width: TANK_SIZE, height: TANK_SIZE, location: point }
    }

    pub fn location(&self) -> (r: Point)
        ensures
            r == self.location,
    {
        self.location
    }

    pub open spec fn spec_muzzle(self) -> Point {
        Point {
            x: (self.location.x + self.width / 2) as i64,
            y: (self.location.y - self.height - MUZZLE_CLEARANCE) as i64,
        }
    }

    /// The launch point of the tank's shots: its centre column, a little above
    /// its top.
    pub fn muzzle(&self) -> (r: Point)
        requires
            self.width == TANK_SIZE,
            self.height == TANK_SIZE,
            0 <= self.location.x <= i64::MAX / 2,
            i64::MIN / 2 <= self.location.y,
        ensures
            r == self.spec_muzzle(),
    {
        Point::new(self.location.x + self.width / 2, self.location.y - self.height - MUZZLE_CLEARANCE)
    }
}

/// Anchor column of a side's tank.
pub open spec fn anchor_of(side: Side) -> int {
    match side {
        Side::Left => LEFT_ANCHOR as int,
        Side::Right => RIGHT_ANCHOR as int,
    }
}

/// Column `i` lies under the footprint of the tank anchored at `anchor`.
pub open spec fn under_tank(i: int, anchor: int) -> bool {
    anchor <= i < anchor + TANK_COLUMNS
}

/// `raw` with the footprint of each tank levelled to its anchor column.
pub open spec fn levelled(raw: Seq<i64>) -> Seq<i64> {
    Seq::new(
        raw.len(),
        |i: int|
            if under_tank(i, LEFT_ANCHOR as int) {
                raw[LEFT_ANCHOR as int]
            } else if under_tank(i, RIGHT_ANCHOR as int) {
                raw[RIGHT_ANCHOR as int]
            } else {
                raw[i]
            },
    )
}

/// Every column under a tank has the height of that tank's anchor column.
pub open spec fn footprints_level(heights: Seq<i64>) -> bool {
    &&& forall|i: int|
        under_tank(i, LEFT_ANCHOR as int) ==> #[trigger] heights[i] == heights[LEFT_ANCHOR as int]
    &&& forall|i: int|
        under_tank(i, RIGHT_ANCHOR as int) ==> #[trigger] heights[i] == heights[RIGHT_ANCHOR as int]
}

/// The tank of `side` resting on `heights`.
pub open spec fn seated_tank(side: Side, heights: Seq<i64>) -> Tank {
    Tank {
        width: TANK_SIZE,
        height: TANK_SIZE,
        location: Point { x: (anchor_of(side) * 1000) as i64, y: heights[anchor_of(side)] },
    }
}

/// Number of colours terrain can be drawn in.
pub const PALETTE_LEN: usize = 11;

/// The terrain colours, as `#RRGGBB` strings.
pub open spec fn palette_color(k: int) -> Seq<char> {
    if k == 0 {
        "#27FF00"@
    } else if k == 1 {
        "#43AB08"@
    } else if k == 2 {
        "#9D5109"@
    } else if k == 3 {
        "#EABC00"@
    } else if k == 4 {
        "#00960E"@
    } else if k == 5 {
        "#CCCCCC"@
    } else if k == 6 {
        "#FFFFFF"@
    } else if k == 7 {
        "#F7CAA6"@
    } else if k == 8 {
        "#BAEFFF"@
    } else if k == 9 {
        "#8E4103"@
    } else {
        "#A50000"@
    }
}

/// The terrain colour of index `k`.
pub fn palette_hex(k: usize) -> (r: String)
    requires
        k < PALETTE_LEN,
    ensures
        r@ == palette_color(k as int),
{
    if k == 0 {
        String::from_str("#27FF00")
    } else if k == 1 {
        String::from_str("#43AB08")
    } else if k == 2 {
        String::from_str("#9D5109")
    } else if k == 3 {
        String::from_str("#EABC00")
    } else if k == 4 {
        String::from_str("#00960E")
    } else if k == 5 {
        String::from_str("#CCCCCC")
    } else if k == 6 {
        String::from_str("#FFFFFF")
    } else if k == 7 {
        String::from_str("#F7CAA6")
    } else if k == 8 {
        String::from_str("#BAEFFF")
    } else if k == 9 {
        String::from_str("#8E4103")
    } else {
        String::from_str("#A50000")
    }
}

/// The colour of the sky.
pub open spec fn sky_color() -> Seq<char> {
    "#000000"@
}

/// A heightmap with one height per column of the field, in milli-pixels
/// measured down from the top, and the two tanks that rest on it.
pub struct Terrain {
    heights: Vec<i64>,
    color_hex: String,
    sky_color_hex: String,
    left_tank: Tank,
    right_tank: Tank,
}

impl Terrain {
    pub closed spec fn heights_view(&self) -> Seq<i64> {
        self.heights@
    }

    pub closed spec fn color_view(&self) -> Seq<char> {
        self.color_hex@
    }

    pub closed spec fn sky_color_view(&self) -> Seq<char> {
        self.sky_color_hex@
    }

    pub closed spec fn tank_view(&self, side: Side) -> Tank {
        match side {
            Side::Left => self.left_tank,
            Side::Right => self.right_tank,
        }
    }

    /// One height per column, each within the height limit, and each tank
    /// resting on its anchor column.
    pub open spec fn wf(&self) -> bool {
        &&& self.heights_view().len() == FIELD_COLUMNS
        &&& heights_ok(self.heights_view())
        &&& self.tank_view(Side::Left) == seated_tank(Side::Left, self.heights_view())
        &&& self.tank_view(Side::Right) == seated_tank(Side::Right, self.heights_view())
    }

    /// A terrain on the given heights, with the footprint of each tank
    /// levelled to its anchor column and the tanks placed on them.
    pub fn with_heights(raw: Vec<i64>, color_hex: String, sky_color_hex: String) -> (r: Terrain)
        requires
            raw.len() == FIELD_COLUMNS,
            heights_ok(raw@),
        ensures
            r.wf(),
            r.heights_view() == levelled(raw@),
            footprints_level(r.heights_view()),
            r.color_view() == color_hex@,
            r.sky_color_view() == sky_color_hex@,
    {
        let mut heights = raw;
        flatten(&mut heights, LEFT_ANCHOR, TANK_COLUMNS);
        flatten(&mut heights, RIGHT_ANCHOR, TANK_COLUMNS);
        assert(heights@ =~= levelled(raw@));
        let left_tank = Tank::new(Point::new(100_000, heights[LEFT_ANCHOR]));
        let right_tank = Tank::new(Point::new(790_000, heights[RIGHT_ANCHOR]));
        Terrain { heights, color_hex, sky_color_hex, left_tank, right_tank }
    }

    /// A freshly generated terrain: a bounded random walk levelled under the
    /// tanks, in a colour drawn from the palette under a black sky.
    pub fn new() -> (r: Terrain)
        ensures
            r.wf(),
            forall|i: int|
                0 <= i < r.heights_view().len() ==> HEIGHT_MIN <= #[trigger] r.heights_view()[i]
                    <= HEIGHT_MAX,
            footprints_level(r.heights_view()),
            exists|raw: Seq<i64>, h: int, s: int, nudges: Seq<i64>|
                r.heights_view() == levelled(raw) && is_walk_of(
                    raw,
                    HEIGHT_MIN as int,
                    HEIGHT_MAX as int,
                    STEP_MAX as int,
                    STEP_CHANGE as int,
                    h,
                    s,
                    nudges,
                ),
            exists|k: int| 0 <= k < PALETTE_LEN && r.color_view() == palette_color(k),
            r.sky_color_view() == sky_color(),
    {
        let raw = generate(FIELD_COLUMNS, HEIGHT_MIN, HEIGHT_MAX, STEP_MAX, STEP_CHANGE);
        let ghost raw_view = raw@;
        let k = random_in(0, (PALETTE_LEN - 1) as i64) as usize;
        let color = palette_hex(k);
        let sky = String::from_str("#000000");
        assert(heights_ok(raw@));
        let r = Terrain::with_heights(raw, color, sky);
        assert(forall|i: int|
            0 <= i < r.heights_view().len() ==> HEIGHT_MIN <= #[trigger] r.heights_view()[i]
                <= HEIGHT_MAX) by {
            assert(forall|i: int| 0 <= i < raw_view.len() ==> HEIGHT_MIN <= #[trigger] raw_view[i] <= HEIGHT_MAX);
        }
        r
    }

    pub fn heights(&self) -> (r: &Vec<i64>)
        ensures
            r@ == self.heights_view(),
    {
        &self.heights
    }

    pub fn color_hex(&self) -> (r: String)
        ensures
            r@ == self.color_view(),
    {
        self.color_hex.clone()
    }

    pub fn sky_color_hex(&self) -> (r: String)
        ensures
            r@ == self.sky_color_view(),
    {
        self.sky_color_hex.clone()
    }

    /// The tank of `side`.
    pub fn tank(&self, side: Side) -> (r: Tank)
        ensures
            r == self.tank_view(side),
    {
        match side {
            Side::Left => self.left_tank,
            Side::Right => self.right_tank,
        }
    }

    /// Carves a crater at `impact_x` and puts each tank back on the height of
    /// its anchor column.
    pub fn crater(&mut self, impact_x: usize, radius: usize)
        requires
            old(self).wf(),
            radius <= RADIUS_LIMIT,
        ensures
            final(self).wf(),
            is_crater_of(final(self).heights_view(), old(self).heights_view(), impact_x as int, radius as int),
            final(self).color_view() == old(self).color_view(),
            final(self).sky_color_view() == old(self).sky_color_view(),
    {
        crater(&mut self.heights, impact_x, radius);
        self.left_tank.location.y = self.heights[LEFT_ANCHOR];
        self.right_tank.location.y = self.heights[RIGHT_ANCHOR];
    }
}

} // verus!
