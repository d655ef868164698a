use rand::Rng;
use vstd::prelude::*;

verus! {

/// Largest magnitude accepted for the walk's heights, slopes and nudges, so
/// that every intermediate sum fits in an `i64`.
pub const WALK_LIMIT: i64 = 1_099_511_627_776;

/// One column of the random walk: the height moves by the slope, the slope is
/// nudged and kept within `[-step_max, step_max]`, and a height that leaves
/// `[height_min, height_max]` is put back on the bound it crossed while the
/// slope bounces.
pub open spec fn walk_step(
    height_min: int,
    height_max: int,
    step_max: int,
    height: int,
    slope: int,
    nudge: int,
) -> (int, int) {
    let h = height + slope;
    let s0 = slope + nudge;
    let s = if s0 > step_max {
        step_max
    } else if s0 < -step_max {
        -step_max
    } else {
        s0
    };
    if h > height_max {
        (height_max, -s)
    } else if h < height_min {
        (height_min, -s)
    } else {
        (h, s)
    }
}

/// Height and slope of the walk after `n` columns.
pub open spec fn walk_state(
    height_min: int,
    height_max: int,
    step_max: int,
    start_height: int,
    start_slope: int,
    nudges: Seq<i64>,
    n: nat,
) -> (int, int)
    decreases n,
{
    if n == 0 {
        (start_height, start_slope)
    } else {
        let prev = walk_state(
            height_min,
            height_max,
            step_max,
            start_height,
            start_slope,
            nudges,
            (n - 1) as nat,
        );
        walk_step(height_min, height_max, step_max, prev.0, prev.1, nudges[n - 1] as int)
    }
}

pub open spec fn walk_params_ok(height_min: i64, height_max: i64, step_max: i64) -> bool {
    0 <= height_min <= height_max <= WALK_LIMIT && 0 <= step_max <= WALK_LIMIT
}

pub open spec fn bounded(v: int) -> bool {
    -WALK_LIMIT <= v <= WALK_LIMIT
}

proof fn lemma_walk_bounds(
    height_min: int,
    height_max: int,
    step_max: int,
    start_height: int,
    start_slope: int,
    nudges: Seq<i64>,
    n: nat,
)
    requires
        0 <= height_min <= height_max,
        0 <= step_max,
        n >= 1,
    ensures
        height_min <= walk_state(height_min, height_max, step_max, start_height, start_slope, nudges, n).0 <= height_max,
        -step_max <= walk_state(height_min, height_max, step_max, start_height, start_slope, nudges, n).1 <= step_max,
{
}

/// The heights of a bounded random walk, one per nudge: the column `i` holds
/// the height reached after `i + 1` steps from `start_height` and
/// `start_slope`.
pub fn random_walk(
    height_min: i64,
    height_max: i64,
    step_max: i64,
    start_height: i64,
    start_slope: i64,
    nudges: &Vec<i64>,
) -> (r: Vec<i64>)
    requires
        walk_params_ok(height_min, height_max, step_max),
        bounded(start_height as int),
        bounded(start_slope as int),
        forall|i: int| 0 <= i < nudges.len() ==> bounded(#[trigger] nudges[i] as int),
    ensures
        r.len() == nudges.len(),
        forall|i: int|
            0 <= i < r.len() ==> #[trigger] r[i] == walk_state(
                height_min as int,
                height_max as int,
                step_max as int,
                start_height as int,
                start_slope as int,
                nudges@,
                (i + 1) as nat,
            ).0,
        forall|i: int| 0 <= i < r.len() ==> height_min <= #[trigger] r[i] <= height_max,
{
    let mut heights: Vec<i64> = Vec::new();
    let mut height = start_height;
    let mut slope = start_slope;
    let mut k: usize = 0;
    while k < nudges.len()
        invariant
            walk_params_ok(height_min, height_max, step_max),
            forall|i: int| 0 <= i < nudges.len() ==> bounded(#[trigger] nudges[i] as int),
            k <= nudges.len(),
            heights.len() == k,
            bounded(height as int),
            bounded(slope as int),
            (height as int, slope as int) == walk_state(
                height_min as int,
                height_max as int,
                step_max as int,
                start_height as int,
                start_slope as int,
                nudges@,
                k as nat,
            ),
            forall|i: int|
                0 <= i < k ==> #[trigger] heights[i] == walk_state(
                    height_min as int,
                    height_max as int,
                    step_max as int,
                    start_height as int,
                    start_slope as int,
                    nudges@,
                    (i + 1) as nat,
                ).0,
            forall|i: int| 0 <= i < k ==> height_min <= #[trigger] heights[i] <= height_max,
        decreases nudges.len() - k,
    {
        let nudge = nudges[k];
        let mut h = height + slope;
        slope = slope + nudge;
        if slope > step_max {
            slope = step_max;
        } else if slope < -step_max {
            slope = -step_max;
        }
        if h > height_max {
            h = height_max;
            slope = -slope;
        } else if h < height_min {
            h = height_min;
            slope = -slope;
        }
        height = h;
        proof {
            lemma_walk_bounds(
                height_min as int,
                height_max as int,
                step_max as int,
                start_height as int,
                start_slope as int,
                nudges@,
                (k + 1) as nat,
            );
        }
        heights.push(h);
        k = k + 1;
    }
    heights
}

/// Relies on `rand::Rng::gen_range` over `rand::thread_rng()` with an
/// inclusive range: the value drawn lies in `[lo, hi]`. It panics on an empty
/// range, which `requires` rules out.
#[verifier::external_body]
pub(crate) fn random_in(lo: i64, hi: i64) -> (r: i64)
    requires
        lo <= hi,
    ensures
        lo <= r <= hi,
{
    rand::thread_rng().gen_range(lo..=hi)
}

/// `heights` is the walk that starts at `start_height` with `start_slope` and
/// takes one step per nudge, each start value and nudge within the ranges that
/// generation draws them from.
pub open spec fn is_walk_of(
    heights: Seq<i64>,
    height_min: int,
    height_max: int,
    step_max: int,
    step_change: int,
    start_height: int,
    start_slope: int,
    nudges: Seq<i64>,
) -> bool {
    &&& 0 <= start_height <= height_max
    &&& -step_max <= start_slope <= step_max
    &&& nudges.len() == heights.len()
    &&& forall|i: int| 0 <= i < nudges.len() ==> -step_change <= #[trigger] nudges[i] <= step_change
    &&& forall|i: int|
        0 <= i < heights.len() ==> #[trigger] heights[i] == walk_state(
            height_min,
            height_max,
            step_max,
            start_height,
            start_slope,
            nudges,
            (i + 1) as nat,
        ).0
}

/// A random heightmap of `width` columns: a walk whose start height is drawn
/// from `[0, height_max]`, start slope from `[-step_max, step_max]` and each
/// nudge of the slope from `[-step_change, step_change]`.
pub fn generate(width: usize, height_min: i64, height_max: i64, step_max: i64, step_change: i64) -> (r: Vec<i64>)
    requires
        walk_params_ok(height_min, height_max, step_max),
        0 <= step_change <= WALK_LIMIT,
    ensures
        r.len() == width,
        forall|i: int| 0 <= i < r.len() ==> height_min <= #[trigger] r[i] <= height_max,
        exists|h: int, s: int, nudges: Seq<i64>|
            is_walk_of(r@, height_min as int, height_max as int, step_max as int, step_change as int, h, s, nudges),
{
    let start_height = random_in(0, height_max);
    let start_slope = random_in(-step_max, step_max);
    let mut nudges: Vec<i64> = Vec::new();
    let mut k: usize = 0;
    while k < width
        invariant
            0 <= step_change <= WALK_LIMIT,
            k <= width,
            nudges.len() == k,
            forall|i: int| 0 <= i < k ==> -step_change <= #[trigger] nudges[i] <= step_change,
        decreases width - k,
    {
        nudges.push(random_in(-step_change, step_change));
        k = k + 1;
    }
    let r = random_walk(height_min, height_max, step_max, start_height, start_slope, &nudges);
    assert(is_walk_of(
        r@,
        height_min as int,
        height_max as int,
        step_max as int,
        step_change as int,
        start_height as int,
        start_slope as int,
        nudges@,
    ));
    r
}

/// Levels the footprint `[anchor, anchor + width)` to the height of its anchor
/// column.
pub fn flatten(heights: &mut Vec<i64>, anchor: usize, width: usize)
    requires
        anchor < old(heights).len(),
        anchor + width <= old(heights).len(),
    ensures
        final(heights).len() == old(heights).len(),
        forall|i: int|
            anchor <= i < anchor + width ==> #[trigger] final(heights)[i] == old(heights)[anchor as int],
        forall|i: int|
            0 <= i < old(heights).len() && !(anchor <= i < anchor + width) ==> #[trigger] final(heights)[i]
                == old(heights)[i],
{
    let level = heights[anchor];
    let mut k: usize = anchor;
    while k < anchor + width
        invariant
            anchor <= k <= anchor + width,
            anchor + width <= old(heights).len(),
            level == old(heights)[anchor as int],
            heights.len() == old(heights).len(),
            forall|i: int| anchor <= i < k ==> #[trigger] heights[i] == level,
            forall|i: int|
                0 <= i < old(heights).len() && !(anchor <= i < k) ==> #[trigger] heights[i] == old(heights)[i],
        decreases anchor + width - k,
    {
        heights.set(k, level);
        k = k + 1;
    }
}

/// Largest crater radius accepted, so that the crater profile fits in an `i64`.
pub const RADIUS_LIMIT: usize = 1_000_000;

/// Height added to a column at signed offset `d` from the crater's centre,
/// in milli-pixels: 10 px, plus 0.8 px per column of offset, plus
/// `(d / 40)^2` px.
pub open spec fn crater_rise(d: int) -> int {
    10_000 + 800 * d + (5 * (d * d)) / 8
}

/// First column that a crater at `impact_x` of the given radius reaches.
pub open spec fn crater_start(impact_x: int, radius: int) -> int {
    if impact_x >= radius {
        impact_x - radius
    } else {
        0
    }
}

/// One past the last column that a crater at `impact_x` reaches on a terrain
/// of `len` columns.
pub open spec fn crater_end(impact_x: int, radius: int, len: int) -> int {
    if impact_x + radius <= len {
        impact_x + radius
    } else {
        len
    }
}

/// Signed offset of column `i` from the centre of the crater's profile.
pub open spec fn crater_offset(i: int, impact_x: int, radius: int) -> int {
    i - (impact_x - radius) - radius / 2
}

/// Largest magnitude a height can reach, however much it is cratered.
pub const HEIGHT_LIMIT: i64 = 1_099_511_627_776;

pub open spec fn height_ok(h: int) -> bool {
    -HEIGHT_LIMIT <= h <= HEIGHT_LIMIT
}

pub open spec fn heights_ok(heights: Seq<i64>) -> bool {
    forall|i: int| 0 <= i < heights.len() ==> height_ok(#[trigger] heights[i] as int)
}

/// `v` held to `[-HEIGHT_LIMIT, HEIGHT_LIMIT]`.
pub open spec fn saturate(v: int) -> int {
    if v > HEIGHT_LIMIT {
        HEIGHT_LIMIT as int
    } else if v < -HEIGHT_LIMIT {
        -HEIGHT_LIMIT as int
    } else {
        v
    }
}

/// Height of column `i` after a crater at `impact_x`, given its height `h`
/// before.
pub open spec fn cratered(h: int, i: int, impact_x: int, radius: int) -> int {
    saturate(h + crater_rise(crater_offset(i, impact_x, radius)))
}

/// `after` is `before` with a crater carved at `impact_x`: the columns that the
/// crater reaches follow [`cratered`], the others are kept.
pub open spec fn is_crater_of(after: Seq<i64>, before: Seq<i64>, impact_x: int, radius: int) -> bool {
    &&& after.len() == before.len()
    &&& forall|i: int|
        crater_start(impact_x, radius) <= i < crater_end(impact_x, radius, before.len() as int)
            ==> #[trigger] after[i] == cratered(before[i] as int, i, impact_x, radius)
    &&& forall|i: int|
        0 <= i < before.len() && !(crater_start(impact_x, radius) <= i < crater_end(
            impact_x,
            radius,
            before.len() as int,
        )) ==> #[trigger] after[i] == before[i]
}

/// Column at the centre of a crater's profile, where its offset is zero.
pub open spec fn crater_center(impact_x: int, radius: int) -> int {
    impact_x - radius + radius / 2
}

/// Damage accumulates and never heals: a second crater at the same place and
/// of the same radius leaves the centre column of the profile at least as
/// high as the first one left it, raised by the profile's base rise unless
/// the height reaches its limit.
pub proof fn lemma_crater_twice_center(
    before: Seq<i64>,
    once: Seq<i64>,
    twice: Seq<i64>,
    impact_x: int,
    radius: int,
)
    requires
        0 <= impact_x,
        0 <= radius,
        heights_ok(before),
        is_crater_of(once, before, impact_x, radius),
        is_crater_of(twice, once, impact_x, radius),
    ensures
        ({
            let c = crater_center(impact_x, radius);
            crater_start(impact_x, radius) <= c < crater_end(impact_x, radius, before.len() as int) ==> {
                &&& twice[c] >= once[c]
                &&& twice[c] == saturate(once[c] + 10_000)
            }
        }),
{
    let c = crater_center(impact_x, radius);
    if crater_start(impact_x, radius) <= c < crater_end(impact_x, radius, before.len() as int) {
        assert(crater_offset(c, impact_x, radius) == 0);
        assert(crater_rise(0) == 10_000);
        assert(twice[c] == cratered(once[c] as int, c, impact_x, radius));
    }
}

/// Carves a crater into `heights` around `impact_x`: each column of
/// `[impact_x - radius, impact_x + radius)` that exists is raised by the
/// crater profile, and no other column changes. Heights are not held to the
/// generation bounds, only to `[-HEIGHT_LIMIT, HEIGHT_LIMIT]`.
pub fn crater(heights: &mut Vec<i64>, impact_x: usize, radius: usize)
    requires
        radius <= RADIUS_LIMIT,
        heights_ok(old(heights)@),
    ensures
        heights_ok(final(heights)@),
        is_crater_of(final(heights)@, old(heights)@, impact_x as int, radius as int),
{
    let len = heights.len();
    let lo: usize = if impact_x >= radius {
        impact_x - radius
    } else {
        0
    };
    let hi: usize = if impact_x <= len && radius <= len - impact_x {
        impact_x + radius
    } else {
        len
    };
    let ghost start = crater_start(impact_x as int, radius as int);
    let ghost end = crater_end(impact_x as int, radius as int, len as int);
    assert(lo == start && hi == end);
    let half = (radius / 2) as i64;
    let mut k: usize = lo;
    while k < hi
        invariant
            radius <= RADIUS_LIMIT,
            half == radius / 2,
            start == crater_start(impact_x as int, radius as int),
            end == crater_end(impact_x as int, radius as int, len as int),
            lo == start,
            hi == end,
            end <= len,
            lo <= k,
            k <= hi || k == lo,
            heights.len() == len,
            len == old(heights).len(),
            heights_ok(old(heights)@),
            heights_ok(heights@),
            forall|i: int|
                start <= i < k ==> #[trigger] heights[i] == cratered(
                    old(heights)[i] as int,
                    i,
                    impact_x as int,
                    radius as int,
                ),
            forall|i: int| 0 <= i < len && !(start <= i < k) ==> #[trigger] heights[i] == old(heights)[i],
        decreases hi - k,
    {
        let e: usize = if impact_x >= radius {
            k - (impact_x - radius)
        } else {
            k + (radius - impact_x)
        };
        assert(e < 2 * radius);
        let d: i64 = e as i64 - half;
        assert(d == crater_offset(k as int, impact_x as int, radius as int));
        assert(-1_000_000 <= d <= 2_000_000);
        assert(0 <= d * d <= 4_000_000_000_000) by (nonlinear_arith)
            requires
                -1_000_000 <= d <= 2_000_000,
        ;
        assert(height_ok(heights[k as int] as int));
        let rise: i64 = 10_000 + 800 * d + (5 * (d * d)) / 8;
        assert(rise == crater_rise(crater_offset(k as int, impact_x as int, radius as int)));
        let old_h = heights[k];
        let sum: i64 = old_h + rise;
        let new_h: i64 = if sum > HEIGHT_LIMIT {
            HEIGHT_LIMIT
        } else if sum < -HEIGHT_LIMIT {
            -HEIGHT_LIMIT
        } else {
            sum
        };
        heights.set(k, new_h);
        k = k + 1;
    }
}

} // verus!
