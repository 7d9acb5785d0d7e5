//! Gores: the four-sided panels that a canopy is sewn from.

use vstd::prelude::*;
use crate::geometry::{mirror, GeometryError};
use crate::pattern::{outline_of, PatternPiece, PatternPieceView};
use crate::segment::{Segment, SegmentView};

verus! {

/// A panel with a right and a left edge, both running from the bottom to
/// the top, and straight edges across the top and the bottom. The seam
/// allowances are those of the right, top, left and bottom edge.
#[derive(Debug, PartialEq, Eq)]
pub struct Gore {
    pub coords_right: Segment,
    pub coords_left: Segment,
    pub seam_allowances: (i64, i64, i64, i64),
}

/// The four edges of a gore in counterclockwise order: the right edge
/// upward, the top edge from the end of the right edge to the end of the
/// left edge, the left edge downward, and the bottom edge from the start of
/// the left edge back to the start of the right edge.
pub open spec fn gore_segments(
    right: Seq<(int, int)>,
    left: Seq<(int, int)>,
    seams: (int, int, int, int),
) -> Seq<SegmentView> {
    seq![
        SegmentView { points: right, seam_allowance: seams.0 },
        SegmentView { points: seq![right.last(), left.last()], seam_allowance: seams.1 },
        SegmentView { points: left.reverse(), seam_allowance: seams.2 },
        SegmentView { points: seq![left.first(), right.first()], seam_allowance: seams.3 },
    ]
}

/// The outline of a gore, edge after edge.
pub open spec fn gore_outline(right: Seq<(int, int)>, left: Seq<(int, int)>) -> Seq<(int, int)> {
    right + seq![right.last(), left.last()] + left.reverse() + seq![left.first(), right.first()]
}

/// The outline of the four edges of a gore is the edges one after the
/// other.
pub proof fn lemma_gore_outline(
    right: Seq<(int, int)>,
    left: Seq<(int, int)>,
    seams: (int, int, int, int),
)
    ensures
        outline_of(gore_segments(right, left, seams)) == gore_outline(right, left),
{
    let s4 = gore_segments(right, left, seams);
    let s3 = s4.drop_last();
    let s2 = s3.drop_last();
    let s1 = s2.drop_last();
    let s0 = s1.drop_last();
    assert(s0.len() == 0);
    assert(outline_of(s0) =~= Seq::<(int, int)>::empty());
    assert(outline_of(s1) =~= right);
    assert(outline_of(s2) =~= right + seq![right.last(), left.last()]);
    assert(outline_of(s3) =~= right + seq![right.last(), left.last()] + left.reverse());
    assert(outline_of(s4) =~= gore_outline(right, left));
}

/// The outline of a gore whose left edge is the mirror image of its right
/// edge is symmetric about the vertical axis: with each point it holds the
/// mirror image of that point.
pub proof fn lemma_symmetric_gore_outline(right: Seq<(int, int)>, at: int)
    requires
        right.len() > 0,
        0 <= at < gore_outline(right, right.map_values(|p: (int, int)| mirror(p))).len(),
    ensures
        gore_outline(right, right.map_values(|p: (int, int)| mirror(p))).contains(
            mirror(gore_outline(right, right.map_values(|p: (int, int)| mirror(p)))[at]),
        ),
{
    let left = right.map_values(|p: (int, int)| mirror(p));
    let outline = gore_outline(right, left);
    let n = right.len() as int;
    assert(outline.len() == 2 * n + 4);
    // The point at `at` and its image sit at mirrored places of the outline.
    let image = if at < n {
        2 * n + 1 - at
    } else if at == n {
        n + 1
    } else if at == n + 1 {
        n
    } else if at < 2 * n + 2 {
        2 * n + 1 - at
    } else if at == 2 * n + 2 {
        2 * n + 3
    } else {
        2 * n + 2
    };
    assert(0 <= image < outline.len());
    assert(outline[image] == mirror(outline[at]));
}

impl Gore {
    /// A gore with the given edges, both running from the bottom to the
    /// top.
    pub fn new(
        coords_right: Segment,
        coords_left: Segment,
        seam_allowances: (i64, i64, i64, i64),
    ) -> (r: Self)
        ensures
            r.coords_right == coords_right,
            r.coords_left == coords_left,
            r.seam_allowances == seam_allowances,
    {
        Gore { coords_right, coords_left, seam_allowances }
    }

    /// A gore whose left edge is the mirror image of its right edge.
    pub fn new_symmetric(coords_right: Segment, seam_allowances: (i64, i64, i64, i64)) -> (r: Self)
        ensures
            r.coords_right == coords_right,
            r.coords_left@ == coords_right@.mirror_x(),
            r.seam_allowances == seam_allowances,
    {
        let coords_left = coords_right.mirror_x();
        Gore { coords_right, coords_left, seam_allowances }
    }

    /// The pattern piece of the gore: its four edges in counterclockwise
    /// order, each with its own seam allowance. The point lists of the
    /// piece are still empty. A gore with an edge without points has no
    /// pattern piece. Whether the corners are to be cut out makes no
    /// difference as long as seam allowances do not move any point.
    pub fn get_pattern_piece(&self, corner_cutout: bool) -> (r: Result<PatternPiece, GeometryError>)
        ensures
            self.coords_right@.points.len() == 0 || self.coords_left@.points.len() == 0 ==> r
                == no_piece(),
            self.coords_right@.points.len() > 0 && self.coords_left@.points.len() > 0 ==> (r matches Ok(
                piece,
            ) && piece@ == gore_piece(
                self.coords_right@.points,
                self.coords_left@.points,
                seams_view(self.seam_allowances),
            )),
    {
        let mut piece = PatternPiece::new();

        let mut segment_right = self.coords_right.clone();
        segment_right.set_seam_allowance(self.seam_allowances.0);

        let mut segment_left = self.coords_left.reverse();
        segment_left.set_seam_allowance(self.seam_allowances.2);

        let right_first = segment_right.get_first_point();
        let right_last = segment_right.get_last_point();
        let left_first = segment_left.get_first_point();
        let left_last = segment_left.get_last_point();
        match (right_first, right_last, left_first, left_last) {
            (Ok(right_first), Ok(right_last), Ok(left_first), Ok(left_last)) => {
                let mut segment_top = Segment::new_with_allowance(self.seam_allowances.1);
                segment_top.add_point(right_last);
                segment_top.add_point(left_first);

                let mut segment_bottom = Segment::new_with_allowance(self.seam_allowances.3);
                segment_bottom.add_point(left_last);
                segment_bottom.add_point(right_first);

                proof {
                    let right = self.coords_right@.points;
                    let left = self.coords_left@.points;
                    assert(segment_top@.points =~= seq![right.last(), left.last()]);
                    assert(segment_bottom@.points =~= seq![left.first(), right.first()]);
                }
                piece.add_segment(segment_right);
                piece.add_segment(segment_top);
                piece.add_segment(segment_left);
                piece.add_segment(segment_bottom);
                assert(piece@.segments =~= gore_segments(
                    self.coords_right@.points,
                    self.coords_left@.points,
                    seams_view(self.seam_allowances),
                ));
                Ok(piece)
            },
            _ => Err(GeometryError::EmptySegment),
        }
    }
}

/// The seam allowances as numbers.
pub open spec fn seams_view(seams: (i64, i64, i64, i64)) -> (int, int, int, int) {
    (seams.0 as int, seams.1 as int, seams.2 as int, seams.3 as int)
}

/// The pattern piece of a gore before its point lists are computed.
pub open spec fn gore_piece(
    right: Seq<(int, int)>,
    left: Seq<(int, int)>,
    seams: (int, int, int, int),
) -> PatternPieceView {
    PatternPieceView {
        segments: gore_segments(right, left, seams),
        points: Seq::empty(),
        computed_points: Seq::empty(),
        name: "pattern"@,
    }
}

/// The answer of a gore with an edge without points.
pub open spec fn no_piece() -> Result<PatternPiece, GeometryError> {
    Err(GeometryError::EmptySegment)
}

/// Builds the pattern piece of a gore and computes its point lists. Without
/// a left edge the gore is symmetric: its left edge is the mirror image of
/// the right one.
pub fn build(
    right_curve: Segment,
    left_curve: Option<Segment>,
    seams: (i64, i64, i64, i64),
) -> (r: Result<PatternPiece, GeometryError>)
    ensures
        right_curve@.points.len() == 0 || left_edge(right_curve@, left_curve).len() == 0 ==> r
            == no_piece(),
        right_curve@.points.len() > 0 && left_edge(right_curve@, left_curve).len() > 0 ==> (r matches Ok(
            piece,
        ) && piece@.segments == gore_segments(
            right_curve@.points,
            left_edge(right_curve@, left_curve),
            seams_view(seams),
        ) && piece@.points == gore_outline(right_curve@.points, left_edge(right_curve@, left_curve))
            && piece@.is_current() && piece@.name == "pattern"@),
{
    let ghost right = right_curve@;
    let gore = match left_curve {
        Some(left_curve) => Gore::new(right_curve, left_curve, seams),
        None => Gore::new_symmetric(right_curve, seams),
    };
    match gore.get_pattern_piece(false) {
        Ok(mut piece) => {
            piece.compute();
            proof {
                lemma_gore_outline(
                    right.points,
                    left_edge(right, left_curve),
                    seams_view(seams),
                );
            }
            Ok(piece)
        },
        Err(error) => Err(error),
    }
}

/// The points of the left edge of a gore: those given, or the mirror image
/// of the right edge.
pub open spec fn left_edge(right: SegmentView, left: Option<Segment>) -> Seq<(int, int)> {
    match left {
        Some(left) => left@.points,
        None => right.mirror_x().points,
    }
}

} // verus!
