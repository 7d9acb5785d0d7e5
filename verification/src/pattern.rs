//! Pattern pieces: closed outlines put together from segments, and their
//! signed areas.

use vstd::prelude::*;
use crate::geometry::{coords, in_range, GeometryError, Point};
use crate::segment::{Segment, SegmentView};

verus! {

/// The cross product of the position vectors of `a` and `b`.
pub open spec fn cross(a: (int, int), b: (int, int)) -> int {
    a.0 * b.1 - a.1 * b.0
}

/// An outline closed by a copy of its first point at the end.
pub open spec fn closed_outline(points: Seq<(int, int)>) -> Seq<(int, int)> {
    points.push(points[0])
}

/// The sum of the cross products of the first `pairs` pairs of neighbours
/// along an outline.
pub open spec fn cross_sum(outline: Seq<(int, int)>, pairs: nat) -> int
    decreases pairs,
{
    if pairs == 0 {
        0
    } else {
        cross_sum(outline, (pairs - 1) as nat) + cross(outline[pairs - 1], outline[pairs as int])
    }
}

/// Twice the signed area that a list of points encloses when it is closed
/// by going back from the last point to the first: the shoelace sum,
/// positive for a counterclockwise outline and negative for a clockwise one.
pub open spec fn twice_area(points: Seq<(int, int)>) -> int {
    cross_sum(closed_outline(points), points.len())
}

/// A signed area in square grid units. It is kept doubled, because the
/// area of a polygon with corners on the grid is a whole number of half
/// units: the area itself is `twice / 2`.
#[derive(Clone, Copy, Debug, PartialEq, Eq, Structural)]
pub struct Area {
    pub twice: i128,
}

proof fn lemma_cross_bounded(a: (int, int), b: (int, int))
    requires
        in_range(a.0),
        in_range(a.1),
        in_range(b.0),
        in_range(b.1),
    ensures
        -2_000_000_000_000_000_000 <= cross(a, b) <= 2_000_000_000_000_000_000,
        -1_000_000_000_000_000_000 <= a.0 * b.1 <= 1_000_000_000_000_000_000,
        -1_000_000_000_000_000_000 <= a.1 * b.0 <= 1_000_000_000_000_000_000,
{
    assert(-1_000_000_000_000_000_000 <= a.0 * b.1 <= 1_000_000_000_000_000_000)
        by (nonlinear_arith)
        requires
            -1_000_000_000 <= a.0 <= 1_000_000_000,
            -1_000_000_000 <= b.1 <= 1_000_000_000,
    ;
    assert(-1_000_000_000_000_000_000 <= a.1 * b.0 <= 1_000_000_000_000_000_000)
        by (nonlinear_arith)
        requires
            -1_000_000_000 <= a.1 <= 1_000_000_000,
            -1_000_000_000 <= b.0 <= 1_000_000_000,
    ;
}

/// Twice the signed area that `points` enclose, or `None` for no points.
pub fn shoelace(points: &Vec<Point>) -> (r: Option<Area>)
    ensures
        points.len() == 0 ==> r is None,
        points.len() > 0 ==> (r matches Some(area) && area.twice == twice_area(coords(points@))),
        r matches Some(area) ==> -2_000_000_000_000_000_000 * points.len() <= area.twice
            <= 2_000_000_000_000_000_000 * points.len(),
{
    let n = points.len();
    if n == 0 {
        return None;
    }
    let ghost outline = closed_outline(coords(points@));
    let mut sum: i128 = 0;
    let mut i: usize = 0;
    while i < n
        invariant
            n == points.len(),
            0 < n,
            i <= n,
            outline == closed_outline(coords(points@)),
            sum == cross_sum(outline, i as nat),
            -2_000_000_000_000_000_000 * i <= sum <= 2_000_000_000_000_000_000 * i,
        decreases n - i,
    {
        let a = points[i];
        let b = if i + 1 < n {
            points[i + 1]
        } else {
            points[0]
        };
        let ax = a.x() as i128;
        let ay = a.y() as i128;
        let bx = b.x() as i128;
        let by = b.y() as i128;
        proof {
            assert(outline[i as int] == a@);
            assert(outline[i + 1] == b@);
            lemma_cross_bounded(a@, b@);
        }
        sum = sum + (ax * by - ay * bx);
        i += 1;
    }
    Some(Area { twice: sum })
}

/// The sum along an outline looks only at the points that its pairs
/// reach.
pub proof fn lemma_cross_sum_prefix(a: Seq<(int, int)>, b: Seq<(int, int)>, pairs: nat)
    requires
        pairs < a.len(),
        pairs < b.len(),
        forall|i: int| 0 <= i <= pairs ==> a[i] == b[i],
    ensures
        cross_sum(a, pairs) == cross_sum(b, pairs),
    decreases pairs,
{
    if pairs > 0 {
        lemma_cross_sum_prefix(a, b, (pairs - 1) as nat);
    }
}

/// The sum along an outline is the cross product of its first pair plus
/// the sum along the rest.
pub proof fn lemma_cross_sum_front(outline: Seq<(int, int)>, pairs: nat)
    requires
        0 < pairs < outline.len(),
    ensures
        cross_sum(outline, pairs) == cross(outline[0], outline[1]) + cross_sum(
            outline.drop_first(),
            (pairs - 1) as nat,
        ),
    decreases pairs,
{
    if pairs > 1 {
        lemma_cross_sum_front(outline, (pairs - 1) as nat);
        assert(outline.drop_first()[pairs - 2] == outline[pairs - 1]);
        assert(outline.drop_first()[pairs - 1] == outline[pairs as int]);
    } else {
        assert(cross_sum(outline, 0) == 0);
        assert(cross_sum(outline.drop_first(), 0) == 0);
    }
}

/// Walking an open outline backward changes the sign of its sum.
pub proof fn lemma_cross_sum_reverse(outline: Seq<(int, int)>)
    requires
        outline.len() > 0,
    ensures
        cross_sum(outline.reverse(), (outline.len() - 1) as nat) == -cross_sum(
            outline,
            (outline.len() - 1) as nat,
        ),
    decreases outline.len(),
{
    let n = outline.len() as int;
    if n > 1 {
        let rest = outline.drop_first();
        lemma_cross_sum_reverse(rest);
        lemma_cross_sum_front(outline, (n - 1) as nat);
        // the reversed outline is the reversed rest, followed by the first point
        let backward = outline.reverse();
        assert(backward[n - 2] == outline[1]);
        assert(backward[n - 1] == outline[0]);
        assert forall|i: int| 0 <= i <= n - 2 implies backward[i] == rest.reverse()[i] by {}
        lemma_cross_sum_prefix(backward, rest.reverse(), (n - 2) as nat);
        assert(cross(outline[1], outline[0]) == -cross(outline[0], outline[1])) by (nonlinear_arith);
    }
}

/// Walking a closed outline in the opposite direction changes the sign of
/// its area: what is positive counterclockwise is negative clockwise.
pub proof fn lemma_reverse_negates_area(points: Seq<(int, int)>)
    requires
        points.len() > 0,
    ensures
        twice_area(points.reverse()) == -twice_area(points),
{
    let n = points.len() as int;
    let closed = closed_outline(points);
    let backward = closed.reverse();
    let closed_backward = closed_outline(points.reverse());
    lemma_cross_sum_reverse(closed);
    // `backward` starts at the first point and then walks the reversed list;
    // `closed_backward` walks the reversed list and then returns to its start.
    assert(backward[0] == points[0]);
    assert(backward[1] == points[n - 1]);
    assert(closed_backward[n - 1] == points[0]);
    assert(closed_backward[n] == points[n - 1]);
    lemma_cross_sum_front(backward, n as nat);
    assert forall|i: int| 0 <= i <= n - 1 implies backward.drop_first()[i] == closed_backward[i] by {}
    lemma_cross_sum_prefix(backward.drop_first(), closed_backward, (n - 1) as nat);
}

/// A closed outline put together from segments. The segments have to run
/// counterclockwise for the area to come out positive; the outline closes
/// itself from the last point back to the first.
///
/// The two point lists are derived data: [`PatternPiece::compute`] fills
/// them from the segments, and they are as old as the last call of it.
#[derive(Debug, PartialEq, Eq)]
pub struct PatternPiece {
    pub segments: Vec<Segment>,
    /// The outline without seam allowances.
    pub points: Vec<Point>,
    /// The outline with seam allowances.
    pub computed_points: Vec<Point>,
    pub name: String,
}

/// What a pattern piece is.
pub struct PatternPieceView {
    pub segments: Seq<SegmentView>,
    pub points: Seq<(int, int)>,
    pub computed_points: Seq<(int, int)>,
    pub name: Seq<char>,
}

impl View for PatternPiece {
    type V = PatternPieceView;

    open spec fn view(&self) -> PatternPieceView {
        PatternPieceView {
            segments: self.segments@.map_values(|s: Segment| s@),
            points: coords(self.points@),
            computed_points: coords(self.computed_points@),
            name: self.name@,
        }
    }
}

/// The points of all segments, one segment after the other.
pub open spec fn outline_of(segments: Seq<SegmentView>) -> Seq<(int, int)>
    decreases segments.len(),
{
    if segments.len() == 0 {
        Seq::empty()
    } else {
        outline_of(segments.drop_last()) + segments.last().points
    }
}

impl PatternPieceView {
    /// The list of points that an area is taken of.
    pub open spec fn outline(self, including_seams: bool) -> Seq<(int, int)> {
        if including_seams {
            self.computed_points
        } else {
            self.points
        }
    }

    /// Whether the point lists are those of the segments as they are now.
    pub open spec fn is_current(self) -> bool {
        &&& self.points == outline_of(self.segments)
        &&& self.computed_points == outline_of(self.segments)
    }
}

impl PatternPiece {
    /// A piece without segments, named `pattern`.
    pub fn new() -> (r: PatternPiece)
        ensures
            r@.segments == Seq::<SegmentView>::empty(),
            r@.points == Seq::<(int, int)>::empty(),
            r@.computed_points == Seq::<(int, int)>::empty(),
            r@.name == "pattern"@,
    {
        let r = PatternPiece {
            segments: Vec::new(),
            points: Vec::new(),
            computed_points: Vec::new(),
            name: "pattern".to_owned(),
        };
        assert(r@.segments =~= Seq::<SegmentView>::empty());
        assert(r@.points =~= Seq::<(int, int)>::empty());
        assert(r@.computed_points =~= Seq::<(int, int)>::empty());
        r
    }

    /// Appends a segment to the outline. The point lists are left as they
    /// are and are out of date from here on.
    pub fn add_segment(&mut self, seg: Segment)
        ensures
            final(self)@.segments == old(self)@.segments.push(seg@),
            final(self)@.points == old(self)@.points,
            final(self)@.computed_points == old(self)@.computed_points,
            final(self)@.name == old(self)@.name,
    {
        self.segments.push(seg);
        assert(self@.segments =~= old(self)@.segments.push(seg@));
    }

    /// Rebuilds both point lists from the segments: the points of all
    /// segments in order. Seam allowances do not move any point yet, so
    /// the two lists agree.
    pub fn compute(&mut self)
        ensures
            final(self)@.segments == old(self)@.segments,
            final(self)@.name == old(self)@.name,
            final(self)@.points == outline_of(old(self)@.segments),
            final(self)@.computed_points == outline_of(old(self)@.segments),
            final(self)@.is_current(),
    {
        let mut points: Vec<Point> = Vec::new();
        let mut computed: Vec<Point> = Vec::new();
        let mut i: usize = 0;
        assert(self@.segments.take(0) =~= Seq::<SegmentView>::empty());
        assert(coords(points@) =~= outline_of(self@.segments.take(0)));
        while i < self.segments.len()
            invariant
                i <= self.segments.len(),
                *self == *old(self),
                coords(points@) == outline_of(self@.segments.take(i as int)),
                computed@ == points@,
            decreases self.segments.len() - i,
        {
            let seg = &self.segments[i];
            let ghost before = points@;
            let mut k: usize = 0;
            while k < seg.points.len()
                invariant
                    k <= seg.points.len(),
                    points@ == before + seg.points@.take(k as int),
                    computed@ == points@,
                decreases seg.points.len() - k,
            {
                points.push(seg.points[k]);
                computed.push(seg.points[k]);
                assert(seg.points@.take(k + 1) =~= seg.points@.take(k as int).push(
                    seg.points[k as int],
                ));
                k += 1;
            }
            proof {
                assert(seg.points@.take(k as int) =~= seg.points@);
                let front = self@.segments.take(i + 1);
                assert(front.drop_last() =~= self@.segments.take(i as int));
                assert(front.last() == seg@);
                assert(coords(points@) =~= coords(before) + seg@.points);
            }
            i += 1;
        }
        assert(self@.segments.take(i as int) =~= self@.segments);
        self.points = points;
        self.computed_points = computed;
    }

    /// The signed area of the outline as it was last computed: of the list
    /// with seam allowances where `including_seams` holds, else of the one
    /// without. A piece whose list has no points has no area.
    pub fn get_area(&self, including_seams: bool) -> (r: Result<Area, GeometryError>)
        ensures
            self@.outline(including_seams).len() == 0 ==> r == no_area(),
            self@.outline(including_seams).len() > 0 ==> (r matches Ok(area) && area.twice
                == twice_area(self@.outline(including_seams))),
            r matches Ok(area) ==> -2_000_000_000_000_000_000 * self@.outline(
                including_seams,
            ).len() <= area.twice <= 2_000_000_000_000_000_000 * self@.outline(
                including_seams,
            ).len(),
    {
        let found = if including_seams {
            shoelace(&self.computed_points)
        } else {
            shoelace(&self.points)
        };
        match found {
            Some(area) => Ok(area),
            None => Err(GeometryError::EmptyPiece),
        }
    }
}

/// The answer of a piece without points.
pub open spec fn no_area() -> Result<Area, GeometryError> {
    Err(GeometryError::EmptyPiece)
}

/// Pattern pieces, each with the number of times it is cut.
///
/// A collection keeps count of its load: the points of each piece times
/// the number of times the piece is cut, summed over its pieces. The load
/// stays within 64 bits, which keeps the total area within the type that
/// holds areas.
#[derive(Debug, PartialEq, Eq)]
pub struct PatternPieceCollection {
    pieces: Vec<(PatternPiece, u32)>,
    load: u64,
}

/// What the entries of a collection are: each piece with its count.
pub open spec fn entries_view(pieces: Seq<(PatternPiece, u32)>) -> Seq<(PatternPieceView, nat)> {
    pieces.map_values(|entry: (PatternPiece, u32)| (entry.0@, entry.1 as nat))
}

/// What one entry adds to the total: twice the area of the piece, times
/// its count.
pub open spec fn entry_twice_area(entry: (PatternPieceView, nat), including_seams: bool) -> int {
    twice_area(entry.0.outline(including_seams)) * entry.1
}

/// Twice the total area of a collection: the sum over its entries of the
/// area of the piece times its count.
pub open spec fn total_twice_area(
    entries: Seq<(PatternPieceView, nat)>,
    including_seams: bool,
) -> int
    decreases entries.len(),
{
    if entries.len() == 0 {
        0
    } else {
        total_twice_area(entries.drop_last(), including_seams) + entry_twice_area(
            entries.last(),
            including_seams,
        )
    }
}

/// The length of the longer of the two point lists of a piece.
pub open spec fn longer_outline(piece: PatternPieceView) -> nat {
    if piece.points.len() >= piece.computed_points.len() {
        piece.points.len()
    } else {
        piece.computed_points.len()
    }
}

/// What one entry adds to the load: the points of the piece times its
/// count.
pub open spec fn entry_load(entry: (PatternPieceView, nat)) -> nat {
    longer_outline(entry.0) * entry.1
}

/// The load of a list of entries.
pub open spec fn total_load(entries: Seq<(PatternPieceView, nat)>) -> nat
    decreases entries.len(),
{
    if entries.len() == 0 {
        0
    } else {
        total_load(entries.drop_last()) + entry_load(entries.last())
    }
}

/// Whether some piece of the collection has no points to take an area of.
pub open spec fn has_empty_piece(
    entries: Seq<(PatternPieceView, nat)>,
    including_seams: bool,
) -> bool {
    exists|k: int|
        0 <= k < entries.len() && (#[trigger] entries[k]).0.outline(including_seams).len() == 0
}

/// The total of a collection without entries is zero, and an entry more
/// adds the area of its piece times its count.
pub proof fn lemma_total_by_entry(
    entries: Seq<(PatternPieceView, nat)>,
    entry: (PatternPieceView, nat),
    including_seams: bool,
)
    ensures
        total_twice_area(Seq::empty(), including_seams) == 0,
        total_twice_area(entries.push(entry), including_seams) == total_twice_area(
            entries,
            including_seams,
        ) + twice_area(entry.0.outline(including_seams)) * entry.1,
{
    assert(entries.push(entry).drop_last() =~= entries);
}

/// The load of the first entries of a list is at most the load of the
/// list.
proof fn lemma_load_prefix(entries: Seq<(PatternPieceView, nat)>, k: int)
    requires
        0 <= k <= entries.len(),
    ensures
        total_load(entries.take(k)) <= total_load(entries),
    decreases entries.len(),
{
    if k == entries.len() {
        assert(entries.take(k) =~= entries);
    } else {
        lemma_load_prefix(entries.drop_last(), k);
        assert(entries.drop_last().take(k) =~= entries.take(k));
    }
}

impl PatternPieceCollection {
    #[verifier::type_invariant]
    spec fn inv(self) -> bool {
        self.load == total_load(entries_view(self.pieces@))
    }

    /// The entries of the collection in order: each piece with its count.
    pub closed spec fn view(&self) -> Seq<(PatternPieceView, nat)> {
        entries_view(self.pieces@)
    }

    /// A collection without pieces.
    pub fn new() -> (r: Self)
        ensures
            r@.len() == 0,
    {
        PatternPieceCollection { pieces: Vec::new(), load: 0 }
    }

    /// The entries of the collection in order.
    pub fn entries(&self) -> (r: &Vec<(PatternPiece, u32)>)
        ensures
            entries_view(r@) == self@,
    {
        &self.pieces
    }

    /// Adds a piece that is cut `count` times. A piece that would take the
    /// load of the collection beyond 64 bits is refused, and the
    /// collection stays as it is.
    pub fn add_piece(&mut self, piece: PatternPiece, count: u32) -> (r: Result<(), GeometryError>)
        ensures
            total_load(old(self)@.push((piece@, count as nat))) <= u64::MAX ==> r is Ok && final(self)@ == old(self)@.push((piece@, count as nat)),
            total_load(old(self)@.push((piece@, count as nat))) > u64::MAX ==> r == too_large()
                && final(self)@ == old(self)@,
    {
        proof {
            use_type_invariant(&*self);
            assert(old(self)@.push((piece@, count as nat)).drop_last() =~= old(self)@);
        }
        let longer = if piece.points.len() >= piece.computed_points.len() {
            piece.points.len()
        } else {
            piece.computed_points.len()
        };
        assert(longer == longer_outline(piece@));
        assert(longer * count >= 0) by (nonlinear_arith)
            requires
                longer >= 0,
                count >= 0,
        ;
        let weight = match (longer as u64).checked_mul(count as u64) {
            Some(weight) => weight,
            None => {
                return Err(GeometryError::AreaOverflow);
            },
        };
        let load = match self.load.checked_add(weight) {
            Some(load) => load,
            None => {
                return Err(GeometryError::AreaOverflow);
            },
        };
        let mut taken = PatternPieceCollection::new();
        core::mem::swap(self, &mut taken);
        let mut pieces = taken.pieces;
        pieces.push((piece, count));
        assert(entries_view(pieces@) =~= old(self)@.push((piece@, count as nat)));
        *self = PatternPieceCollection { pieces, load };
        Ok(())
    }

    /// Whether some piece has no points to take an area of.
    pub fn find_empty_piece(&self, including_seams: bool) -> (r: bool)
        ensures
            r == has_empty_piece(self@, including_seams),
    {
        let mut k: usize = 0;
        while k < self.pieces.len()
            invariant
                k <= self.pieces.len(),
                forall|j: int|
                    0 <= j < k ==> (#[trigger] entries_view(self.pieces@)[j]).0.outline(
                        including_seams,
                    ).len() > 0,
            decreases self.pieces.len() - k,
        {
            let piece = &self.pieces[k].0;
            let n = if including_seams {
                piece.computed_points.len()
            } else {
                piece.points.len()
            };
            assert(entries_view(self.pieces@)[k as int].0 == piece@);
            if n == 0 {
                return true;
            }
            k += 1;
        }
        false
    }

    /// The total area of the collection: the sum over its entries of the
    /// area of the piece times its count, each area taken of the same
    /// list. A piece without points makes the total meaningless.
    pub fn get_area(&self, including_seams: bool) -> (r: Result<Area, GeometryError>)
        ensures
            has_empty_piece(self@, including_seams) ==> r == no_area(),
            !has_empty_piece(self@, including_seams) ==> (r matches Ok(area) && area.twice
                == total_twice_area(self@, including_seams)),
    {
        if self.find_empty_piece(including_seams) {
            return Err(GeometryError::EmptyPiece);
        }
        proof {
            use_type_invariant(self);
        }
        let ghost entries = entries_view(self.pieces@);
        let mut total: i128 = 0;
        let mut k: usize = 0;
        assert(entries.take(0) =~= Seq::<(PatternPieceView, nat)>::empty());
        while k < self.pieces.len()
            invariant
                k <= self.pieces.len(),
                entries == entries_view(self.pieces@),
                !has_empty_piece(entries, including_seams),
                total_load(entries) <= u64::MAX,
                total == total_twice_area(entries.take(k as int), including_seams),
                -2_000_000_000_000_000_000 * total_load(entries.take(k as int)) <= total
                    <= 2_000_000_000_000_000_000 * total_load(entries.take(k as int)),
            decreases self.pieces.len() - k,
        {
            let piece = &self.pieces[k].0;
            let count = self.pieces[k].1;
            let twice = match piece.get_area(including_seams) {
                Ok(area) => area.twice,
                Err(_) => {
                    assert(entries[k as int] == (piece@, count as nat));
                    assert(false);
                    0
                },
            };
            proof {
                let entry = entries[k as int];
                assert(entry == (piece@, count as nat));
                assert(entries.take(k + 1).drop_last() =~= entries.take(k as int));
                assert(entries.take(k + 1).last() == entry);
                lemma_load_prefix(entries, k + 1);
                let points = piece@.outline(including_seams).len();
                let longer = longer_outline(piece@);
                assert(-2_000_000_000_000_000_000 * (longer * count) <= twice * count
                    <= 2_000_000_000_000_000_000 * (longer * count)) by (nonlinear_arith)
                    requires
                        -2_000_000_000_000_000_000 * points <= twice <= 2_000_000_000_000_000_000
                            * points,
                        0 <= points <= longer,
                        0 <= count,
                ;
                assert(longer * count >= 0) by (nonlinear_arith)
                    requires
                        longer >= 0,
                        count >= 0,
                ;
            }
            total = total + twice * (count as i128);
            k += 1;
        }
        assert(entries.take(k as int) =~= entries);
        Ok(Area { twice: total })
    }
}

/// The refusal of a piece that would overload a collection.
pub open spec fn too_large() -> Result<(), GeometryError> {
    Err(GeometryError::AreaOverflow)
}

} // verus!
