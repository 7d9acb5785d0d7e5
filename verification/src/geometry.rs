//! Points and straight lines on the integer grid.
//!
//! A grid unit is a micrometre. Coordinates are whole numbers of grid units
//! and stay within a kilometre of the origin, which keeps every sum that the
//! engine forms of them exact.

use vstd::prelude::*;

verus! {

/// How many grid units make a metre.
pub const UNITS_PER_METRE: i64 = 1_000_000;

/// The largest magnitude of a coordinate.
pub const COORD_MAX: i64 = 1_000_000_000;

/// Whether `v` can be a coordinate.
pub open spec fn in_range(v: int) -> bool {
    -COORD_MAX <= v <= COORD_MAX
}

/// What can go wrong with geometry.
#[derive(Clone, Copy, Debug, PartialEq, Eq, Structural)]
pub enum GeometryError {
    /// A segment without points was asked for its first or last point.
    EmptySegment,
    /// A pattern piece without points was asked for its area.
    EmptyPiece,
    /// A coordinate would leave the grid.
    OutOfRange,
    /// A collection would hold more points, each counted as often as its
    /// piece is cut, than its total area can be added up for.
    AreaOverflow,
}

/// A point of the grid.
#[derive(Clone, Copy, Debug, PartialEq, Eq, Structural)]
pub struct Point {
    x: i64,
    y: i64,
}

impl Point {
    #[verifier::type_invariant]
    spec fn inv(self) -> bool {
        in_range(self.x as int) && in_range(self.y as int)
    }

    /// The coordinates of the point.
    pub closed spec fn view(&self) -> (int, int) {
        (self.x as int, self.y as int)
    }

    /// The point at `(x, y)`, if both coordinates are on the grid.
    pub fn new(x: i64, y: i64) -> (r: Option<Point>)
        ensures
            in_range(x as int) && in_range(y as int) ==> (r matches Some(p) && p@ == (x as int, y as int)),
            !(in_range(x as int) && in_range(y as int)) ==> r is None,
    {
        if -COORD_MAX <= x && x <= COORD_MAX && -COORD_MAX <= y && y <= COORD_MAX {
            Some(Point { x, y })
        } else {
            None
        }
    }

    /// The origin.
    pub fn origin() -> (r: Point)
        ensures
            r@ == (0int, 0int),
    {
        Point { x: 0, y: 0 }
    }

    pub fn x(&self) -> (r: i64)
        ensures
            r == self@.0,
            in_range(r as int),
    {
        proof {
            use_type_invariant(self);
        }
        self.x
    }

    pub fn y(&self) -> (r: i64)
        ensures
            r == self@.1,
            in_range(r as int),
    {
        proof {
            use_type_invariant(self);
        }
        self.y
    }

    /// The image of the point under reflection in the vertical axis.
    pub fn mirror_x(&self) -> (r: Point)
        ensures
            r@ == mirror(self@),
    {
        proof {
            use_type_invariant(self);
        }
        Point { x: -self.x, y: self.y }
    }

    /// Two points with the same coordinates are the same point.
    pub proof fn lemma_view_injective(p: Point, q: Point)
        requires
            p@ == q@,
        ensures
            p == q,
    {
    }
}

/// The image of `p` under reflection in the vertical axis: `x` changes its
/// sign and `y` stays.
pub open spec fn mirror(p: (int, int)) -> (int, int) {
    (-p.0, p.1)
}

/// The coordinates of each point of a list.
pub open spec fn coords(points: Seq<Point>) -> Seq<(int, int)> {
    points.map_values(|p: Point| p@)
}

/// `a / b` rounded toward zero, for a positive `b`.
pub open spec fn trunc_div(a: int, b: int) -> int {
    if a >= 0 {
        a / b
    } else {
        -((-a) / b)
    }
}

/// The value `step` parts of `steps` along the way from `from` to `to`,
/// with the distance covered rounded toward zero.
pub open spec fn interpolate(from: int, to: int, step: int, steps: int) -> int {
    from + trunc_div((to - from) * step, steps)
}

/// `count` points from `begin` to `end`, both included where `count` is at
/// least two, at equal parts of the way. One point is `begin` alone.
pub open spec fn line_points(begin: (int, int), end: (int, int), count: nat) -> Seq<(int, int)> {
    Seq::new(
        count,
        |k: int|
            if count == 1 {
                begin
            } else {
                (
                    interpolate(begin.0, end.0, k, count - 1),
                    interpolate(begin.1, end.1, k, count - 1),
                )
            },
    )
}

proof fn lemma_scaled_within(d: int, step: int, steps: int)
    requires
        0 <= d,
        0 <= step <= steps,
        0 < steps,
    ensures
        0 <= (d * step) / steps <= d,
        step == steps ==> (d * step) / steps == d,
        step == 0 ==> (d * step) / steps == 0,
{
    assert(0 <= d * step <= d * steps) by (nonlinear_arith)
        requires
            0 <= d,
            0 <= step <= steps,
    ;
    vstd::arithmetic::div_mod::lemma_div_is_ordered(d * step, d * steps, steps);
    vstd::arithmetic::div_mod::lemma_div_multiples_vanish(d, steps);
    assert(d * steps == steps * d) by (nonlinear_arith);
    vstd::arithmetic::div_mod::lemma_div_pos_is_pos(d * step, steps);
    if step == 0 {
        assert(d * step == 0) by (nonlinear_arith)
            requires
                step == 0,
        ;
    }
}

/// Interpolation stays between its ends and hits them.
pub proof fn lemma_interpolate_between(from: int, to: int, step: int, steps: int)
    requires
        0 <= step <= steps,
        0 < steps,
    ensures
        from <= to ==> from <= interpolate(from, to, step, steps) <= to,
        to <= from ==> to <= interpolate(from, to, step, steps) <= from,
        interpolate(from, to, 0, steps) == from,
        interpolate(from, to, steps, steps) == to,
{
    let d = to - from;
    if d >= 0 {
        lemma_scaled_within(d, step, steps);
        lemma_scaled_within(d, 0, steps);
        lemma_scaled_within(d, steps, steps);
        assert(d * step >= 0) by (nonlinear_arith)
            requires
                d >= 0,
                step >= 0,
        ;
        assert(d * steps >= 0) by (nonlinear_arith)
            requires
                d >= 0,
                steps >= 0,
        ;
        assert(d * 0 == 0);
    } else {
        lemma_scaled_within(-d, step, steps);
        lemma_scaled_within(-d, 0, steps);
        lemma_scaled_within(-d, steps, steps);
        assert(-(d * step) == (-d) * step) by (nonlinear_arith);
        assert(-(d * steps) == (-d) * steps) by (nonlinear_arith);
        assert(d * step <= 0) by (nonlinear_arith)
            requires
                d < 0,
                step >= 0,
        ;
        assert(d * steps < 0) by (nonlinear_arith)
            requires
                d < 0,
                steps > 0,
        ;
        assert(d * 0 == 0);
        if d * step == 0 {
            assert((-d) * step == 0);
        }
    }
}

/// The value `step` parts of `steps` along the way from `from` to `to`.
fn interpolate_coord(from: i64, to: i64, step: u32, steps: u32) -> (r: i64)
    requires
        in_range(from as int),
        in_range(to as int),
        step <= steps,
        0 < steps,
    ensures
        r == interpolate(from as int, to as int, step as int, steps as int),
        in_range(r as int),
{
    proof {
        lemma_interpolate_between(from as int, to as int, step as int, steps as int);
    }
    if to >= from {
        let d: u64 = (to - from) as u64;
        assert(0 <= d * step <= 0x1_0000_0000_0000_0000 * 0x1_0000_0000) by (nonlinear_arith)
            requires
                0 <= d < 0x1_0000_0000_0000_0000,
                0 <= step < 0x1_0000_0000,
        ;
        let covered: u128 = (d as u128 * step as u128) / (steps as u128);
        proof {
            lemma_scaled_within(d as int, step as int, steps as int);
        }
        from + covered as i64
    } else {
        let d: u64 = (from - to) as u64;
        assert(0 <= d * step <= 0x1_0000_0000_0000_0000 * 0x1_0000_0000) by (nonlinear_arith)
            requires
                0 <= d < 0x1_0000_0000_0000_0000,
                0 <= step < 0x1_0000_0000,
        ;
        let covered: u128 = (d as u128 * step as u128) / (steps as u128);
        proof {
            lemma_scaled_within(d as int, step as int, steps as int);
            let dd = to as int - from as int;
            assert(-(dd * step) == d * step) by (nonlinear_arith)
                requires
                    dd == -(d as int),
            ;
            assert(dd * step <= 0) by (nonlinear_arith)
                requires
                    dd < 0,
                    step >= 0,
            ;
            if dd * step == 0 {
                assert(d * step == 0);
            }
        }
        from - covered as i64
    }
}

/// A straight line from `begin` to `end`.
#[derive(Clone, Copy, Debug, PartialEq, Eq, Structural)]
pub struct Line {
    pub begin: Point,
    pub end: Point,
}

impl Line {
    /// `resolution` points along the line at equal parts of the way, the
    /// first at `begin` and, where there are at least two, the last at
    /// `end`.
    pub fn to_points(&self, resolution: u32) -> (r: Vec<Point>)
        ensures
            coords(r@) == line_points(self.begin@, self.end@, resolution as nat),
            r.len() == resolution,
            resolution >= 1 ==> r[0] == self.begin,
            resolution >= 2 ==> r[resolution - 1] == self.end,
    {
        let mut points: Vec<Point> = Vec::new();
        let begin = self.begin;
        let end = self.end;
        if resolution == 1 {
            points.push(begin);
            assert(coords(points@) =~= line_points(begin@, end@, 1));
            return points;
        }
        let mut k: u32 = 0;
        while k < resolution
            invariant
                k <= resolution,
                resolution != 1,
                points.len() == k,
                begin == self.begin,
                end == self.end,
                forall|j: int|
                    0 <= j < k ==> (#[trigger] points[j])@ == (
                        interpolate(begin@.0, end@.0, j, resolution - 1),
                        interpolate(begin@.1, end@.1, j, resolution - 1),
                    ),
            decreases resolution - k,
        {
            let steps = resolution - 1;
            let x = interpolate_coord(begin.x(), end.x(), k, steps);
            let y = interpolate_coord(begin.y(), end.y(), k, steps);
            match Point::new(x, y) {
                Some(p) => {
                    points.push(p);
                },
                None => {
                    assert(false);
                },
            }
            k += 1;
        }
        assert(coords(points@) =~= line_points(begin@, end@, resolution as nat));
        proof {
            if resolution >= 2 {
                lemma_interpolate_between(begin@.0, end@.0, 0, resolution - 1);
                lemma_interpolate_between(begin@.1, end@.1, 0, resolution - 1);
                lemma_interpolate_between(begin@.0, end@.0, resolution - 1, resolution - 1);
                lemma_interpolate_between(begin@.1, end@.1, resolution - 1, resolution - 1);
                Point::lemma_view_injective(points[0], begin);
                Point::lemma_view_injective(points[resolution - 1], end);
            }
        }
        points
    }
}

} // verus!
