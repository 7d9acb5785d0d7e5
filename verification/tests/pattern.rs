use chute::geometry::{GeometryError, Point, COORD_MAX};
use chute::gore::{build, Gore};
use chute::pattern::{shoelace, Area, PatternPiece, PatternPieceCollection};
use chute::segment::Segment;

fn point(x: i64, y: i64) -> Point {
    Point::new(x, y).unwrap()
}

fn segment(points: &[(i64, i64)], seam_allowance: i64) -> Segment {
    let mut seg = Segment::new_with_allowance(seam_allowance);
    for &(x, y) in points {
        seg.add_point_xy(x, y).unwrap();
    }
    seg
}

fn piece(points: &[(i64, i64)]) -> PatternPiece {
    let mut piece = PatternPiece::new();
    piece.add_segment(segment(points, 0));
    piece.compute();
    piece
}

/// An area in square metres.
fn square_metres(area: Area) -> f64 {
    area.twice as f64 / 2.0 / 1e12
}

#[test]
fn new_piece_is_empty() {
    let piece = PatternPiece::new();
    assert_eq!(piece.name, "pattern");
    assert!(piece.segments.is_empty());
    assert!(piece.points.is_empty());
    assert!(piece.computed_points.is_empty());
    assert_eq!(piece.get_area(false), Err(GeometryError::EmptyPiece));
    assert_eq!(piece.get_area(true), Err(GeometryError::EmptyPiece));
}

#[test]
fn compute_concatenates_the_segments() {
    let mut piece = PatternPiece::new();
    piece.add_segment(segment(&[(0, 0), (4, 0)], 1));
    piece.add_segment(segment(&[], 2));
    piece.add_segment(segment(&[(4, 3), (0, 3)], 3));
    assert!(piece.points.is_empty());
    piece.compute();
    let outline = vec![point(0, 0), point(4, 0), point(4, 3), point(0, 3)];
    assert_eq!(piece.points, outline);
    assert_eq!(piece.computed_points, outline);
    assert_eq!(piece.segments.len(), 3);
    assert_eq!(piece.get_area(false), Ok(Area { twice: 24 }));
    assert_eq!(piece.get_area(true), Ok(Area { twice: 24 }));
}

#[test]
fn outline_of_a_tall_triangle() {
    let mut seg = Segment::new();
    seg.add_point_xy(0, 0).unwrap();
    seg.add_point_xy(1_000_000, 0).unwrap();
    seg.add_point_xy(500_000, 2_000_000).unwrap();

    let mut pat = PatternPiece::new();
    pat.add_segment(seg);
    pat.compute();
    assert_eq!(
        pat.computed_points,
        vec![point(0, 0), point(1_000_000, 0), point(500_000, 2_000_000)]
    );
    assert_eq!(square_metres(pat.get_area(true).unwrap()), 1.0);
}

#[test]
fn point_lists_are_as_old_as_the_last_compute() {
    let mut piece = piece(&[(0, 0), (4, 0), (4, 3)]);
    assert_eq!(piece.get_area(false), Ok(Area { twice: 12 }));
    piece.add_segment(segment(&[(0, 3)], 0));
    assert_eq!(piece.get_area(false), Ok(Area { twice: 12 }));
    piece.compute();
    assert_eq!(piece.get_area(false), Ok(Area { twice: 24 }));
}

#[test]
fn triangle_area_counterclockwise_and_clockwise() {
    let counterclockwise = piece(&[(0, 0), (1_000_000, 0), (500_000, 4_000_000)]);
    assert_eq!(square_metres(counterclockwise.get_area(false).unwrap()), 2.0);
    let clockwise = piece(&[(500_000, 4_000_000), (1_000_000, 0), (0, 0)]);
    assert_eq!(square_metres(clockwise.get_area(false).unwrap()), -2.0);
}

#[test]
fn area_keeps_half_units() {
    assert_eq!(shoelace(&vec![point(0, 0), point(1, 0), point(0, 1)]), Some(Area { twice: 1 }));
    assert_eq!(shoelace(&vec![point(0, 0), point(0, 1), point(1, 0)]), Some(Area { twice: -1 }));
}

#[test]
fn degenerate_outlines_have_no_area() {
    assert_eq!(shoelace(&vec![]), None);
    assert_eq!(shoelace(&vec![point(5, 7)]), Some(Area { twice: 0 }));
    assert_eq!(shoelace(&vec![point(5, 7), point(-3, 2)]), Some(Area { twice: 0 }));
}

#[test]
fn area_of_the_whole_grid() {
    let m = COORD_MAX;
    let square = vec![point(-m, -m), point(m, -m), point(m, m), point(-m, m)];
    assert_eq!(shoelace(&square), Some(Area { twice: 8_000_000_000_000_000_000 }));
}

#[test]
fn symmetric_gore_from_a_straight_curve() {
    let right = segment(&[(0, 0), (1, 1)], 0);
    let piece = build(right, None, (10, 20, 30, 40)).unwrap();
    assert_eq!(piece.name, "pattern");
    assert_eq!(piece.segments.len(), 4);
    assert_eq!(piece.segments[0], segment(&[(0, 0), (1, 1)], 10));
    assert_eq!(piece.segments[1], segment(&[(1, 1), (-1, 1)], 20));
    assert_eq!(piece.segments[2], segment(&[(-1, 1), (0, 0)], 30));
    assert_eq!(piece.segments[3], segment(&[(0, 0), (0, 0)], 40));
    assert_eq!(piece.points.len(), 8);
    for p in piece.points.iter() {
        assert!(piece.points.contains(&p.mirror_x()));
    }
    assert_eq!(piece.points, piece.computed_points);
    // a triangle with its base of 2 on top and a height of 1
    assert_eq!(piece.get_area(false), Ok(Area { twice: 2 }));
}

#[test]
fn gore_with_two_curves() {
    let right = segment(&[(4, 0), (6, 10)], 0);
    let left = segment(&[(-4, 0), (-5, 5), (-6, 10)], 0);
    let gore = Gore::new(right, left, (1, 2, 3, 4));
    let mut piece = gore.get_pattern_piece(false).unwrap();
    assert!(piece.points.is_empty());
    assert_eq!(piece.name, "pattern");
    assert_eq!(piece.segments[0], segment(&[(4, 0), (6, 10)], 1));
    assert_eq!(piece.segments[1], segment(&[(6, 10), (-6, 10)], 2));
    assert_eq!(piece.segments[2], segment(&[(-6, 10), (-5, 5), (-4, 0)], 3));
    assert_eq!(piece.segments[3], segment(&[(-4, 0), (4, 0)], 4));
    piece.compute();
    assert_eq!(piece.get_area(false), Ok(Area { twice: 200 }));
    let right = segment(&[(4, 0), (6, 10)], 0);
    let left = segment(&[(-4, 0), (-5, 5), (-6, 10)], 0);
    assert_eq!(build(right, Some(left), (1, 2, 3, 4)).unwrap().points, piece.points);
}

#[test]
fn symmetric_gore_mirrors_the_right_edge() {
    let gore = Gore::new_symmetric(segment(&[(2, 0), (3, 5)], 9), (1, 2, 3, 4));
    assert_eq!(gore.coords_right, segment(&[(2, 0), (3, 5)], 9));
    assert_eq!(gore.coords_left, segment(&[(-2, 0), (-3, 5)], 9));
    assert_eq!(gore.seam_allowances, (1, 2, 3, 4));
}

#[test]
fn gore_without_points_has_no_piece() {
    assert_eq!(build(Segment::new(), None, (0, 0, 0, 0)), Err(GeometryError::EmptySegment));
    let right = segment(&[(1, 1)], 0);
    assert_eq!(
        build(right, Some(Segment::new()), (0, 0, 0, 0)),
        Err(GeometryError::EmptySegment)
    );
    let gore = Gore::new(Segment::new(), segment(&[(1, 1)], 0), (0, 0, 0, 0));
    assert_eq!(gore.get_pattern_piece(true), Err(GeometryError::EmptySegment));
}

#[test]
fn total_area_of_no_pieces_is_zero() {
    let collection = PatternPieceCollection::new();
    assert_eq!(collection.get_area(false), Ok(Area { twice: 0 }));
    assert_eq!(collection.get_area(true), Ok(Area { twice: 0 }));
}

#[test]
fn total_area_counts_each_piece_as_often_as_it_is_cut() {
    let mut collection = PatternPieceCollection::new();
    collection.add_piece(piece(&[(0, 0), (4, 0), (4, 3), (0, 3)]), 1).unwrap();
    assert_eq!(collection.get_area(false), Ok(Area { twice: 24 }));
    collection.add_piece(piece(&[(0, 0), (2, 0), (0, 2)]), 8).unwrap();
    assert_eq!(collection.get_area(false), Ok(Area { twice: 24 + 8 * 4 }));
    collection.add_piece(piece(&[(0, 0), (4, 0), (4, 3), (0, 3)]), 2).unwrap();
    assert_eq!(collection.get_area(true), Ok(Area { twice: 24 + 8 * 4 + 2 * 24 }));
    collection.add_piece(piece(&[(0, 0), (0, 2), (2, 0)]), 3).unwrap();
    assert_eq!(collection.get_area(false), Ok(Area { twice: 24 + 8 * 4 + 2 * 24 - 3 * 4 }));
    collection.add_piece(piece(&[(0, 0), (7, 0), (7, 7)]), 0).unwrap();
    assert_eq!(collection.get_area(false), Ok(Area { twice: 24 + 8 * 4 + 2 * 24 - 3 * 4 }));
}

#[test]
fn collection_keeps_its_entries_in_order() {
    let mut collection = PatternPieceCollection::new();
    assert!(collection.entries().is_empty());
    assert_eq!(collection.add_piece(piece(&[(0, 0), (4, 0), (4, 3)]), 2), Ok(()));
    assert_eq!(collection.add_piece(piece(&[(0, 0), (2, 0), (0, 2)]), u32::MAX), Ok(()));
    let entries = collection.entries();
    assert_eq!(entries.len(), 2);
    assert_eq!(entries[0], (piece(&[(0, 0), (4, 0), (4, 3)]), 2));
    assert_eq!(entries[1].1, u32::MAX);
    assert_eq!(
        collection.get_area(false),
        Ok(Area { twice: 2 * 12 + 4 * u32::MAX as i128 })
    );
}

#[test]
fn total_area_of_large_pieces_cut_often() {
    let m = COORD_MAX;
    let mut collection = PatternPieceCollection::new();
    for _ in 0..3 {
        collection
            .add_piece(piece(&[(-m, -m), (m, -m), (m, m), (-m, m)]), u32::MAX)
            .unwrap();
    }
    assert_eq!(
        collection.get_area(true),
        Ok(Area { twice: 3 * 8_000_000_000_000_000_000 * u32::MAX as i128 })
    );
}

#[test]
fn total_area_needs_every_piece_to_have_points() {
    let mut collection = PatternPieceCollection::new();
    collection.add_piece(piece(&[(0, 0), (4, 0), (4, 3)]), 1).unwrap();
    collection.add_piece(PatternPiece::new(), 0).unwrap();
    assert!(collection.find_empty_piece(false));
    assert_eq!(collection.get_area(false), Err(GeometryError::EmptyPiece));
}
