//! Segments: runs of points that share one seam allowance.

use vstd::prelude::*;
use crate::geometry::{coords, in_range, mirror, GeometryError, Point};
use crate::grid::{scale_coordinate, scaled_coordinate};
use crate::number::Number;

verus! {

/// An ordered run of points along the edge of a pattern piece, with the
/// seam allowance that holds along it, in grid units.
#[derive(Debug, PartialEq, Eq)]
pub struct Segment {
    pub points: Vec<Point>,
    pub seam_allowance: i64,
}

/// What a segment is: the coordinates of its points, in order, and its seam
/// allowance.
pub struct SegmentView {
    pub points: Seq<(int, int)>,
    pub seam_allowance: int,
}

impl View for Segment {
    type V = SegmentView;

    open spec fn view(&self) -> SegmentView {
        SegmentView { points: coords(self.points@), seam_allowance: self.seam_allowance as int }
    }
}

impl Clone for Segment {
    fn clone(&self) -> (r: Self)
        ensures
            r@ == self@,
            r.points@ == self.points@,
            r.seam_allowance == self.seam_allowance,
    {
        let r = Segment { points: self.points.clone(), seam_allowance: self.seam_allowance };
        assert(r.points@ =~= self.points@);
        r
    }
}

/// The image of `p` under scaling about the origin: each coordinate times
/// its factor, on the nearest point of the grid.
pub open spec fn scaled(p: (int, int), scale_x: Number, scale_y: Number) -> (int, int) {
    (
        scaled_coordinate(p.0, scale_x.bits).unwrap(),
        scaled_coordinate(p.1, scale_y.bits).unwrap(),
    )
}

/// Whether every point of the list has an image on the grid under scaling:
/// the factors are finite and no product leaves the grid.
pub open spec fn scaling_fits(points: Seq<(int, int)>, scale_x: Number, scale_y: Number) -> bool {
    forall|i: int|
        0 <= i < points.len() ==> scaled_coordinate((#[trigger] points[i]).0, scale_x.bits)
            is Some && scaled_coordinate(points[i].1, scale_y.bits) is Some
}

impl SegmentView {
    /// Every point reflected in the vertical axis; order and seam allowance
    /// stay.
    pub open spec fn mirror_x(self) -> SegmentView {
        SegmentView {
            points: self.points.map_values(|p: (int, int)| mirror(p)),
            seam_allowance: self.seam_allowance,
        }
    }

    /// The points in the opposite order; the seam allowance stays.
    pub open spec fn reverse(self) -> SegmentView {
        SegmentView { points: self.points.reverse(), seam_allowance: self.seam_allowance }
    }

    /// Every point scaled about the origin; order and seam allowance stay.
    pub open spec fn scale(self, scale_x: Number, scale_y: Number) -> SegmentView {
        SegmentView {
            points: self.points.map_values(|p: (int, int)| scaled(p, scale_x, scale_y)),
            seam_allowance: self.seam_allowance,
        }
    }
}

/// Reflecting a segment twice gives the segment back.
pub proof fn lemma_mirror_x_twice(seg: SegmentView)
    ensures
        seg.mirror_x().mirror_x() == seg,
{
    assert(seg.mirror_x().mirror_x().points =~= seg.points);
}

/// Reversing a segment twice gives the segment back.
pub proof fn lemma_reverse_twice(seg: SegmentView)
    ensures
        seg.reverse().reverse() == seg,
{
    assert(seg.reverse().reverse().points =~= seg.points);
}

impl Segment {
    /// A segment without points and without seam allowance.
    pub fn new() -> (r: Self)
        ensures
            r@.points == Seq::<(int, int)>::empty(),
            r@.seam_allowance == 0,
    {
        let r = Segment { points: Vec::new(), seam_allowance: 0 };
        assert(r@.points =~= Seq::<(int, int)>::empty());
        r
    }

    /// A segment without points, with the given seam allowance.
    pub fn new_with_allowance(seam_allowance: i64) -> (r: Self)
        ensures
            r@.points == Seq::<(int, int)>::empty(),
            r@.seam_allowance == seam_allowance,
    {
        let r = Segment { points: Vec::new(), seam_allowance };
        assert(r@.points =~= Seq::<(int, int)>::empty());
        r
    }

    /// Replaces the seam allowance; the points stay.
    pub fn set_seam_allowance(&mut self, seam_allowance: i64)
        ensures
            final(self)@.points == old(self)@.points,
            final(self)@.seam_allowance == seam_allowance,
            final(self).points == old(self).points,
    {
        self.seam_allowance = seam_allowance;
    }

    /// Appends a point.
    pub fn add_point(&mut self, point: Point)
        ensures
            final(self)@.points == old(self)@.points.push(point@),
            final(self)@.seam_allowance == old(self)@.seam_allowance,
            final(self).points@ == old(self).points@.push(point),
    {
        self.points.push(point);
        assert(self@.points =~= old(self)@.points.push(point@));
    }

    /// Appends the point at `(x, y)`, or refuses, changing nothing, where
    /// that is not a point of the grid.
    pub fn add_point_xy(&mut self, x: i64, y: i64) -> (r: Result<(), GeometryError>)
        ensures
            in_range(x as int) && in_range(y as int) ==> r is Ok && final(self)@.points == old(self)@.points.push((x as int, y as int)),
            !(in_range(x as int) && in_range(y as int)) ==> r == out_of_range() && final(self)@.points
                == old(self)@.points,
            final(self)@.seam_allowance == old(self)@.seam_allowance,
    {
        match Point::new(x, y) {
            Some(point) => {
                self.add_point(point);
                Ok(())
            },
            None => Err(GeometryError::OutOfRange),
        }
    }

    /// The number of points.
    pub fn len(&self) -> (r: usize)
        ensures
            r == self@.points.len(),
    {
        self.points.len()
    }

    /// A copy reflected in the vertical axis: every `x` changes its sign.
    /// The segment itself stays as it is.
    pub fn mirror_x(&self) -> (r: Self)
        ensures
            r@ == self@.mirror_x(),
    {
        let mut points: Vec<Point> = Vec::new();
        let mut i: usize = 0;
        while i < self.points.len()
            invariant
                i <= self.points.len(),
                points.len() == i,
                forall|j: int| 0 <= j < i ==> (#[trigger] points[j])@ == mirror(self.points[j]@),
            decreases self.points.len() - i,
        {
            points.push(self.points[i].mirror_x());
            i += 1;
        }
        let r = Segment { points, seam_allowance: self.seam_allowance };
        assert(r@.points =~= self@.mirror_x().points);
        r
    }

    /// A copy with the points in the opposite order. The segment itself
    /// stays as it is.
    pub fn reverse(&self) -> (r: Self)
        ensures
            r@ == self@.reverse(),
            r.points@ == self.points@.reverse(),
    {
        let mut points: Vec<Point> = Vec::new();
        let n = self.points.len();
        let mut i: usize = 0;
        while i < n
            invariant
                n == self.points.len(),
                i <= n,
                points.len() == i,
                forall|j: int| 0 <= j < i ==> #[trigger] points[j] == self.points[n - 1 - j],
            decreases n - i,
        {
            points.push(self.points[n - 1 - i]);
            i += 1;
        }
        let r = Segment { points, seam_allowance: self.seam_allowance };
        assert(r.points@ =~= self.points@.reverse());
        assert(r@.points =~= self@.reverse().points);
        r
    }

    /// Scales the segment in place about the origin: every `x` is
    /// multiplied by `scale_x` and every `y` by `scale_y`, and the products
    /// are put on the nearest points of the grid. Where a factor is not
    /// finite or a point would leave the grid, the segment stays as it is
    /// and the call is refused.
    pub fn scale(&mut self, scale_x: Number, scale_y: Number) -> (r: Result<(), GeometryError>)
        ensures
            scaling_fits(old(self)@.points, scale_x, scale_y) ==> r is Ok && final(self)@ == old(self)@.scale(scale_x, scale_y),
            !scaling_fits(old(self)@.points, scale_x, scale_y) ==> r == out_of_range() && *final(self) == *old(self),
    {
        let mut points: Vec<Point> = Vec::new();
        let mut i: usize = 0;
        while i < self.points.len()
            invariant
                i <= self.points.len(),
                points.len() == i,
                *self == *old(self),
                forall|j: int|
                    0 <= j < i ==> scaled_coordinate(
                        (#[trigger] self.points[j])@.0,
                        scale_x.bits,
                    ) is Some && scaled_coordinate(self.points[j]@.1, scale_y.bits) is Some,
                forall|j: int|
                    0 <= j < i ==> (#[trigger] points[j])@ == scaled(
                        self.points[j]@,
                        scale_x,
                        scale_y,
                    ),
            decreases self.points.len() - i,
        {
            let p = self.points[i];
            let x = scale_coordinate(p.x(), scale_x);
            let y = scale_coordinate(p.y(), scale_y);
            match (x, y) {
                (Some(x), Some(y)) => match Point::new(x, y) {
                    Some(q) => {
                        points.push(q);
                    },
                    None => {
                        assert(false);
                    },
                },
                _ => {
                    assert(scaled_coordinate(self@.points[i as int].0, scale_x.bits) is None
                        || scaled_coordinate(self@.points[i as int].1, scale_y.bits) is None);
                    return Err(GeometryError::OutOfRange);
                },
            }
            i += 1;
        }
        assert forall|j: int| 0 <= j < self@.points.len() implies scaled_coordinate(
            (#[trigger] self@.points[j]).0,
            scale_x.bits,
        ) is Some && scaled_coordinate(self@.points[j].1, scale_y.bits) is Some by {
            assert(self@.points[j] == self.points[j]@);
        }
        self.points = points;
        assert(self@.points =~= old(self)@.scale(scale_x, scale_y).points);
        Ok(())
    }

    /// The point at position `idx`.
    pub fn get_point(&self, idx: usize) -> (r: Point)
        requires
            idx < self@.points.len(),
        ensures
            r == self.points[idx as int],
            r@ == self@.points[idx as int],
    {
        self.points[idx]
    }

    /// The first point, if the segment has points.
    pub fn get_first_point(&self) -> (r: Result<Point, GeometryError>)
        ensures
            self@.points.len() == 0 ==> r == empty_segment(),
            self@.points.len() > 0 ==> (r matches Ok(p) && p == self.points[0]),
            r matches Ok(p) ==> p@ == self@.points.first(),
    {
        if self.points.len() == 0 {
            Err(GeometryError::EmptySegment)
        } else {
            Ok(self.points[0])
        }
    }

    /// The last point, if the segment has points.
    pub fn get_last_point(&self) -> (r: Result<Point, GeometryError>)
        ensures
            self@.points.len() == 0 ==> r == empty_segment(),
            self@.points.len() > 0 ==> (r matches Ok(p) && p == self.points[self.points.len() - 1]),
            r matches Ok(p) ==> p@ == self@.points.last(),
    {
        if self.points.len() == 0 {
            Err(GeometryError::EmptySegment)
        } else {
            Ok(self.points[self.points.len() - 1])
        }
    }
}

/// The refusal of a point that is not on the grid.
pub open spec fn out_of_range() -> Result<(), GeometryError> {
    Err(GeometryError::OutOfRange)
}

/// The answer of a segment without points.
pub open spec fn empty_segment() -> Result<Point, GeometryError> {
    Err(GeometryError::EmptySegment)
}

} // verus!
