use crate::ballistics::{
    column_of, hits_terrain, in_bounds, position_at, spec_column_of, spec_hits_terrain,
    spec_in_bounds, spec_position_at,
};
use crate::config::{
    BLAST_RADIUS, FIELD_COLUMNS, GRAVITY, HEIGHT_MAX, HEIGHT_MIN, MAX_ANGLE, MAX_POWER, MIN_ANGLE,
    MIN_POWER, STEP_CHANGE, STEP_MAX,
};
use crate::geometry::{Heading, Point, Side, HEADING_UNIT};
use crate::heightmap::{crater_end, crater_start, is_crater_of, is_walk_of};
use crate::terrain::{footprints_level, levelled, palette_color, sky_color, Terrain, PALETTE_LEN};
use vstd::prelude::*;

verus! {

/// What one tick did, for the presentation layer to redraw or play.
#[derive(Clone, Copy, Debug, PartialEq, Eq, Structural)]
pub enum TickOutcome {
    /// No projectile is in flight.
    Idle,
    /// The projectile moved to `point` and is still in flight.
    FlightUpdated { point: Point },
    /// The projectile struck the terrain at `impact`; the columns
    /// `[first_column, end_column)` were cratered.
    Collided { impact: Point, first_column: usize, end_column: usize },
    /// The projectile left the playfield without touching the terrain.
    OutOfBounds,
}

/// Whose turn it is and the shot in progress.
#[derive(Clone, Copy, Debug, PartialEq, Eq, Structural)]
pub struct Turn {
    pub active_side: Side,
    pub projectile_in_flight: bool,
    pub shot_origin: Option<Point>,
    pub power: u32,
    pub heading: Heading,
    /// Timestamp of the first tick seen since the shot was fired.
    pub turn_start_timestamp: Option<i32>,
}

impl Turn {
    /// A shot in flight has a launch point, the power and heading of a shot
    /// are in range, and the flight clock only runs during a flight.
    pub open spec fn wf(&self) -> bool {
        &&& self.heading.wf()
        &&& self.power <= MAX_POWER
        &&& self.projectile_in_flight ==> self.shot_origin.is_some()
        &&& !self.projectile_in_flight ==> self.turn_start_timestamp.is_none()
    }

    /// The turn at the start of a match: the left side acts first and nothing
    /// is in flight.
    pub open spec fn spec_new() -> Turn {
        Turn {
            active_side: Side::Left,
            projectile_in_flight: false,
            shot_origin: None,
            power: 0,
            heading: Heading { cos: HEADING_UNIT, sin: 0 },
            turn_start_timestamp: None,
        }
    }

    /// The turn after a shot has ended: the other side is to act and nothing
    /// is in flight; the last shot's launch values are kept.
    pub open spec fn spec_end(self) -> Turn {
        Turn {
            active_side: self.active_side.spec_other(),
            projectile_in_flight: false,
            turn_start_timestamp: None,
            ..self
        }
    }

    pub fn new() -> (r: Turn)
        ensures
            r == Turn::spec_new(),
            r.wf(),
    {
        Turn {
            active_side: Side::Left,
            projectile_in_flight: false,
            shot_origin: None,
            power: 0,
            heading: Heading { cos: HEADING_UNIT, sin: 0 },
            turn_start_timestamp: None,
        }
    }

    /// Marks the shot as in flight.
    pub fn take(&mut self)
        ensures
            *final(self) == (Turn { projectile_in_flight: true, ..*old(self) }),
    {
        self.projectile_in_flight = true;
    }

    /// Ends the shot and hands the turn to the other side.
    pub fn end(&mut self)
        ensures
            *final(self) == old(self).spec_end(),
    {
        self.active_side = self.active_side.other();
        self.projectile_in_flight = false;
        self.turn_start_timestamp = None;
    }
}

pub open spec fn spec_clamp_power(power: u32) -> u32 {
    if power < MIN_POWER {
        MIN_POWER
    } else if power > MAX_POWER {
        MAX_POWER
    } else {
        power
    }
}

/// `power` held to `[MIN_POWER, MAX_POWER]`.
pub fn clamp_power(power: u32) -> (r: u32)
    ensures
        r == spec_clamp_power(power),
{
    if power < MIN_POWER {
        MIN_POWER
    } else if power > MAX_POWER {
        MAX_POWER
    } else {
        power
    }
}

pub open spec fn spec_clamp_angle(angle: u32) -> u32 {
    if angle < MIN_ANGLE {
        MIN_ANGLE
    } else if angle > MAX_ANGLE {
        MAX_ANGLE
    } else {
        angle
    }
}

/// A firing angle in degrees held to `[MIN_ANGLE, MAX_ANGLE]`.
pub fn clamp_angle(angle: u32) -> (r: u32)
    ensures
        r == spec_clamp_angle(angle),
{
    if angle < MIN_ANGLE {
        MIN_ANGLE
    } else if angle > MAX_ANGLE {
        MAX_ANGLE
    } else {
        angle
    }
}

/// The heading a side's shot travels along: the left side fires along
/// `heading`, the right side along its mirror image, so that the same angle
/// means the same thing from either tank.
pub open spec fn facing(side: Side, heading: Heading) -> Heading {
    match side {
        Side::Left => heading,
        Side::Right => Heading { cos: (-heading.cos) as i64, sin: heading.sin },
    }
}

/// One match: the terrain with its two tanks, the turn, and the timestamp
/// of the last tick.
pub struct Match {
    terrain: Terrain,
    turn: Turn,
    last_tick: Option<i32>,
}

/// The match state after a `fire(power, heading)` from `before`: ignored
/// while a projectile is in flight; otherwise the active tank's shot is
/// loaded from its muzzle with the power clamped, and its clock not started.
pub open spec fn fire_step(before: Match, power: u32, heading: Heading, after: Match) -> bool {
    let t = before.turn_view();
    if t.projectile_in_flight {
        after == before
    } else {
        &&& after.terrain_view() == before.terrain_view()
        &&& after.last_tick_view() == before.last_tick_view()
        &&& after.turn_view() == Turn {
            active_side: t.active_side,
            projectile_in_flight: true,
            shot_origin: Some(before.terrain_view().tank_view(t.active_side).spec_muzzle()),
            power: spec_clamp_power(power),
            heading: facing(t.active_side, heading),
            turn_start_timestamp: None,
        }
    }
}

/// Elapsed flight time at `timestamp` for a turn whose clock may not have
/// started yet (it starts at the first tick).
pub open spec fn flight_elapsed(t: Turn, timestamp: i32) -> int {
    match t.turn_start_timestamp {
        Some(s) => timestamp - s,
        None => 0,
    }
}

/// Where the turn's projectile is at `timestamp`.
pub open spec fn flight_position(t: Turn, timestamp: i32) -> Point {
    spec_position_at(t.shot_origin.unwrap(), t.power as int, t.heading, GRAVITY as int, flight_elapsed(t, timestamp))
}

/// The match state and outcome after a tick at `timestamp` from `before`.
/// Every tick is recorded as the last one. With nothing in flight nothing
/// else happens. Otherwise the flight clock starts
/// if it has not, and the projectile's new position decides: off the field
/// the shot ends with the terrain untouched; level with or below the
/// surface of its column it craters the terrain there and the shot ends;
/// else the flight goes on.
pub open spec fn tick_step(before: Match, timestamp: i32, after: Match, r: TickOutcome) -> bool {
    let t = before.turn_view();
    &&& after.last_tick_view() == Some(timestamp)
    &&& if !t.projectile_in_flight {
        &&& r == TickOutcome::Idle
        &&& after.terrain_view() == before.terrain_view()
        &&& after.turn_view() == before.turn_view()
    } else {
        let started = Turn {
            turn_start_timestamp: Some(
                match t.turn_start_timestamp {
                    Some(s) => s,
                    None => timestamp,
                },
            ),
            ..t
        };
        let p = flight_position(t, timestamp);
        if !spec_in_bounds(p) {
            &&& r == TickOutcome::OutOfBounds
            &&& after.terrain_view() == before.terrain_view()
            &&& after.turn_view() == t.spec_end()
        } else if spec_hits_terrain(before.terrain_view().heights_view(), p) {
            let col = spec_column_of(p);
            &&& r == (TickOutcome::Collided {
                impact: p,
                first_column: crater_start(col, BLAST_RADIUS as int) as usize,
                end_column: crater_end(col, BLAST_RADIUS as int, FIELD_COLUMNS as int) as usize,
            })
            &&& after.terrain_view().wf()
            &&& is_crater_of(
                after.terrain_view().heights_view(),
                before.terrain_view().heights_view(),
                col,
                BLAST_RADIUS as int,
            )
            &&& after.terrain_view().color_view() == before.terrain_view().color_view()
            &&& after.terrain_view().sky_color_view() == before.terrain_view().sky_color_view()
            &&& after.turn_view() == t.spec_end()
        } else {
            &&& r == (TickOutcome::FlightUpdated { point: p })
            &&& after.terrain_view() == before.terrain_view()
            &&& after.turn_view() == started
        }
    }
}

/// Ticks come in order: the timestamp is no earlier than the last tick's.
pub open spec fn tick_in_order(m: Match, timestamp: i32) -> bool {
    match m.last_tick_view() {
        Some(l) => l <= timestamp,
        None => true,
    }
}

impl Match {
    pub closed spec fn terrain_view(&self) -> Terrain {
        self.terrain
    }

    pub closed spec fn turn_view(&self) -> Turn {
        self.turn
    }

    pub closed spec fn last_tick_view(&self) -> Option<i32> {
        self.last_tick
    }

    /// The terrain and the turn are well formed, and a running flight clock
    /// started no later than the last tick.
    pub open spec fn wf(&self) -> bool {
        &&& self.terrain_view().wf()
        &&& self.turn_view().wf()
        &&& match self.turn_view().turn_start_timestamp {
            Some(s) => match self.last_tick_view() {
                Some(l) => s <= l,
                None => false,
            },
            None => true,
        }
    }

    /// A match on the given terrain, the left side to fire first.
    pub fn with_terrain(terrain: Terrain) -> (r: Match)
        requires
            terrain.wf(),
        ensures
            r.wf(),
            r.terrain_view() == terrain,
            r.turn_view() == Turn::spec_new(),
            r.last_tick_view().is_none(),
    {
        Match { terrain, turn: Turn::new(), last_tick: None }
    }

    /// A match on freshly generated terrain, the left side to fire first.
    pub fn new() -> (r: Match)
        ensures
            r.wf(),
            r.turn_view() == Turn::spec_new(),
            r.last_tick_view().is_none(),
            forall|i: int|
                0 <= i < r.terrain_view().heights_view().len() ==> HEIGHT_MIN
                    <= #[trigger] r.terrain_view().heights_view()[i] <= HEIGHT_MAX,
            footprints_level(r.terrain_view().heights_view()),
            exists|raw: Seq<i64>, h: int, s: int, nudges: Seq<i64>|
                r.terrain_view().heights_view() == levelled(raw) && is_walk_of(
                    raw,
                    HEIGHT_MIN as int,
                    HEIGHT_MAX as int,
                    STEP_MAX as int,
                    STEP_CHANGE as int,
                    h,
                    s,
                    nudges,
                ),
            exists|k: int| 0 <= k < PALETTE_LEN && r.terrain_view().color_view() == palette_color(k),
            r.terrain_view().sky_color_view() == sky_color(),
    {
        Match::with_terrain(Terrain::new())
    }

    pub fn terrain(&self) -> (r: &Terrain)
        ensures
            *r == self.terrain_view(),
    {
        &self.terrain
    }

    pub fn turn(&self) -> (r: Turn)
        ensures
            r == self.turn_view(),
    {
        self.turn
    }

    /// Timestamp of the last tick, if any.
    pub fn last_tick(&self) -> (r: Option<i32>)
        ensures
            r == self.last_tick_view(),
    {
        self.last_tick
    }

    pub fn active_side(&self) -> (r: Side)
        ensures
            r == self.turn_view().active_side,
    {
        self.turn.active_side
    }

    pub fn projectile_in_flight(&self) -> (r: bool)
        ensures
            r == self.turn_view().projectile_in_flight,
    {
        self.turn.projectile_in_flight
    }

    /// Heights, terrain colour, sky colour and the locations of the left and
    /// right tanks, for drawing.
    pub fn terrain_snapshot(&self) -> (r: (Vec<i64>, String, String, Point, Point))
        ensures
            r.0@ == self.terrain_view().heights_view(),
            r.1@ == self.terrain_view().color_view(),
            r.2@ == self.terrain_view().sky_color_view(),
            r.3 == self.terrain_view().tank_view(Side::Left).location,
            r.4 == self.terrain_view().tank_view(Side::Right).location,
    {
        (
            self.terrain.heights().clone(),
            self.terrain.color_hex(),
            self.terrain.sky_color_hex(),
            self.terrain.tank(Side::Left).location,
            self.terrain.tank(Side::Right).location,
        )
    }

    /// Loads a shot for the active side with `power` (clamped to its range)
    /// along `heading`; ignored while a projectile is in flight.
    pub fn fire(&mut self, power: u32, heading: Heading)
        requires
            old(self).wf(),
            heading.wf(),
        ensures
            final(self).wf(),
            fire_step(*old(self), power, heading, *final(self)),
    {
        if self.turn.projectile_in_flight {
            return;
        }
        let side = self.turn.active_side;
        let tank = self.terrain.tank(side);
        let origin = tank.muzzle();
        self.turn.power = clamp_power(power);
        self.turn.heading = match side {
            Side::Left => heading,
            Side::Right => heading.mirrored(),
        };
        self.turn.shot_origin = Some(origin);
        self.turn.turn_start_timestamp = None;
        self.turn.take();
    }

    /// Advances the simulation to `timestamp`.
    pub fn tick(&mut self, timestamp: i32) -> (r: TickOutcome)
        requires
            old(self).wf(),
            tick_in_order(*old(self), timestamp),
        ensures
            final(self).wf(),
            tick_step(*old(self), timestamp, *final(self), r),
    {
        self.last_tick = Some(timestamp);
        if !self.turn.projectile_in_flight {
            return TickOutcome::Idle;
        }
        let start = match self.turn.turn_start_timestamp {
            Some(s) => s,
            None => timestamp,
        };
        self.turn.turn_start_timestamp = Some(start);
        let elapsed = (timestamp as i64 - start as i64) as u32;
        let origin = match self.turn.shot_origin {
            Some(o) => o,
            None => Point::new(0, 0),
        };
        let p = position_at(origin, self.turn.power, self.turn.heading, GRAVITY, elapsed);
        if !in_bounds(p) {
            self.turn.end();
            return TickOutcome::OutOfBounds;
        }
        if hits_terrain(self.terrain.heights(), p) {
            let col = column_of(p);
            self.terrain.crater(col, BLAST_RADIUS);
            self.turn.end();
            let first_column = if col >= BLAST_RADIUS {
                col - BLAST_RADIUS
            } else {
                0
            };
            let end_column = if col + BLAST_RADIUS <= FIELD_COLUMNS {
                col + BLAST_RADIUS
            } else {
                FIELD_COLUMNS
            };
            return TickOutcome::Collided { impact: p, first_column, end_column };
        }
        TickOutcome::FlightUpdated { point: p }
    }
}

/// A shot ends once: after a tick that reports a collision or an exit from
/// the field, the next tick, with no `fire` between, reports `Idle` and
/// leaves the terrain and the turn as they were.
pub proof fn lemma_no_double_collision(
    m0: Match,
    ts1: i32,
    m1: Match,
    r1: TickOutcome,
    ts2: i32,
    m2: Match,
    r2: TickOutcome,
)
    requires
        tick_step(m0, ts1, m1, r1),
        r1 is Collided || r1 is OutOfBounds,
        tick_step(m1, ts2, m2, r2),
    ensures
        r2 == TickOutcome::Idle,
        m2.terrain_view() == m1.terrain_view(),
        m2.turn_view() == m1.turn_view(),
{
}

/// The active side changes exactly when a tick ends the shot: it flips once
/// on a collision or an exit from the field, and stays on every other tick.
pub proof fn lemma_side_flips_on_shot_end(m0: Match, ts: i32, m1: Match, r: TickOutcome)
    requires
        tick_step(m0, ts, m1, r),
    ensures
        (r is Collided || r is OutOfBounds) ==> m1.turn_view().active_side
            == m0.turn_view().active_side.spec_other(),
        (r is Idle || r is FlightUpdated) ==> m1.turn_view().active_side == m0.turn_view().active_side,
        (r is Collided || r is OutOfBounds) ==> !m1.turn_view().projectile_in_flight,
        r is FlightUpdated ==> m1.turn_view().projectile_in_flight,
{
}

/// Firing never hands the turn over.
pub proof fn lemma_fire_keeps_side(m0: Match, power: u32, heading: Heading, m1: Match)
    requires
        fire_step(m0, power, heading, m1),
    ensures
        m1.turn_view().active_side == m0.turn_view().active_side,
{
}

} // verus!
