use chute::geometry::{GeometryError, Line, Point, COORD_MAX, UNITS_PER_METRE};
use chute::grid::{scale_coordinate, to_grid};
use chute::number::Number;
use chute::segment::Segment;

fn number(value: f64) -> Number {
    Number::from_bits(value.to_bits())
}

fn point(x: i64, y: i64) -> Point {
    Point::new(x, y).unwrap()
}

fn segment(points: &[(i64, i64)], seam_allowance: i64) -> Segment {
    let mut seg = Segment::new_with_allowance(seam_allowance);
    for &(x, y) in points {
        seg.add_point_xy(x, y).unwrap();
    }
    seg
}

#[test]
fn points_stay_on_the_grid() {
    assert!(Point::new(COORD_MAX, -COORD_MAX).is_some());
    assert_eq!(Point::new(COORD_MAX + 1, 0), None);
    assert_eq!(Point::new(0, -COORD_MAX - 1), None);
    assert_eq!(Point::new(i64::MIN, i64::MAX), None);
    let p = point(3, -4);
    assert_eq!((p.x(), p.y()), (3, -4));
    assert_eq!(Point::origin(), point(0, 0));
    assert_eq!(p.mirror_x(), point(-3, -4));
}

#[test]
fn lengths_fall_on_the_nearest_grid_point() {
    assert_eq!(UNITS_PER_METRE, 1_000_000);
    assert_eq!(to_grid(number(0.0)), Some(0));
    assert_eq!(to_grid(number(-0.0)), Some(0));
    assert_eq!(to_grid(number(1.0)), Some(1_000_000));
    assert_eq!(to_grid(number(0.2)), Some(200_000));
    assert_eq!(to_grid(number(0.7)), Some(700_000));
    assert_eq!(to_grid(number(-0.5)), Some(-500_000));
    assert_eq!(to_grid(number(0.2 * 1.0)), Some(200_000));
    assert_eq!(to_grid(number(1e-7)), Some(0));
    assert_eq!(to_grid(number(4e-7)), Some(0));
    assert_eq!(to_grid(number(6e-7)), Some(1));
    assert_eq!(to_grid(number(5e-324)), Some(0));
    assert_eq!(to_grid(number(f64::MIN_POSITIVE)), Some(0));
}

#[test]
fn halves_round_away_from_zero() {
    // 1/128 m is 7812.5 grid units, exactly.
    assert_eq!(to_grid(number(0.0078125)), Some(7813));
    assert_eq!(to_grid(number(-0.0078125)), Some(-7813));
    // 3/128 m is 23437.5 grid units.
    assert_eq!(to_grid(number(0.0234375)), Some(23438));
}

#[test]
fn lengths_off_the_grid_have_no_coordinate() {
    assert_eq!(to_grid(number(1000.0)), Some(COORD_MAX));
    assert_eq!(to_grid(number(-1000.0)), Some(-COORD_MAX));
    assert_eq!(to_grid(number(1000.000001)), None);
    assert_eq!(to_grid(number(1e4)), None);
    assert_eq!(to_grid(number(1e300)), None);
    assert_eq!(to_grid(number(f64::MAX)), None);
    assert_eq!(to_grid(number(f64::INFINITY)), None);
    assert_eq!(to_grid(number(f64::NEG_INFINITY)), None);
    assert_eq!(to_grid(number(f64::NAN)), None);
}

#[test]
fn to_grid_agrees_with_rounding_in_floating_point() {
    let mut value = -3.0_f64;
    while value < 3.0 {
        let expected = (value * 1e6).round() as i64;
        let found = to_grid(number(value)).unwrap();
        assert!((found - expected).abs() <= 1, "{} -> {} vs {}", value, found, expected);
        value += 0.0370371;
    }
}

#[test]
fn line_points_include_both_ends() {
    let line = Line { begin: point(200_000, 700_000), end: point(1_000_000, 0) };
    let points = line.to_points(30);
    assert_eq!(points.len(), 30);
    assert_eq!(points[0], point(200_000, 700_000));
    assert_eq!(points[29], point(1_000_000, 0));
    // one step is 800000/29 to the right and 700000/29 down, rounded toward zero
    assert_eq!(points[1], point(200_000 + 27_586, 700_000 - 24_137));
    assert_eq!(points[15], point(200_000 + 413_793, 700_000 - 362_068));
}

#[test]
fn line_points_at_small_resolutions() {
    let line = Line { begin: point(0, 0), end: point(10, -10) };
    assert_eq!(line.to_points(0), Vec::<Point>::new());
    assert_eq!(line.to_points(1), vec![point(0, 0)]);
    assert_eq!(line.to_points(2), vec![point(0, 0), point(10, -10)]);
    assert_eq!(
        line.to_points(4),
        vec![point(0, 0), point(3, -3), point(6, -6), point(10, -10)]
    );
}

#[test]
fn line_points_are_deterministic() {
    let line = Line { begin: point(-5, 17), end: point(1234, -999) };
    assert_eq!(line.to_points(77), line.to_points(77));
}

#[test]
fn line_across_the_whole_grid() {
    let line = Line { begin: point(-COORD_MAX, COORD_MAX), end: point(COORD_MAX, -COORD_MAX) };
    let points = line.to_points(u32::MAX.min(1000));
    assert_eq!(points[0], line.begin);
    assert_eq!(points[999], line.end);
    assert_eq!(points[500], point(-COORD_MAX + 1_001_001_001, COORD_MAX - 1_001_001_001));
}

#[test]
fn segment_starts_empty() {
    let seg = Segment::new();
    assert_eq!(seg.len(), 0);
    assert_eq!(seg.seam_allowance, 0);
    assert_eq!(seg.get_first_point(), Err(GeometryError::EmptySegment));
    assert_eq!(seg.get_last_point(), Err(GeometryError::EmptySegment));
    let seg = Segment::new_with_allowance(15_000);
    assert_eq!(seg.len(), 0);
    assert_eq!(seg.seam_allowance, 15_000);
}

#[test]
fn segment_point_access() {
    let mut seg = segment(&[(1, 2), (3, 4), (5, 6)], 7);
    assert_eq!(seg.len(), 3);
    assert_eq!(seg.get_point(1), point(3, 4));
    assert_eq!(seg.get_first_point(), Ok(point(1, 2)));
    assert_eq!(seg.get_last_point(), Ok(point(5, 6)));
    seg.add_point(point(8, 9));
    assert_eq!(seg.get_last_point(), Ok(point(8, 9)));
    seg.set_seam_allowance(11);
    assert_eq!(seg.seam_allowance, 11);
    assert_eq!(seg.len(), 4);
}

#[test]
fn add_point_xy_refuses_points_off_the_grid() {
    let mut seg = segment(&[(1, 2)], 0);
    assert_eq!(seg.add_point_xy(COORD_MAX + 1, 0), Err(GeometryError::OutOfRange));
    assert_eq!(seg.add_point_xy(0, i64::MIN), Err(GeometryError::OutOfRange));
    assert_eq!(seg, segment(&[(1, 2)], 0));
}

#[test]
fn mirror_x_makes_a_copy() {
    let seg = segment(&[(0, 0), (1, 2), (-7, 5)], 3);
    let mirrored = seg.mirror_x();
    assert_eq!(mirrored, segment(&[(0, 0), (-1, 2), (7, 5)], 3));
    assert_eq!(seg, segment(&[(0, 0), (1, 2), (-7, 5)], 3));
}

#[test]
fn mirror_x_twice_is_the_identity() {
    let seg = segment(&[(0, 0), (1, 2), (-7, 5), (COORD_MAX, -COORD_MAX)], 3);
    assert_eq!(seg.mirror_x().mirror_x(), seg);
    assert_eq!(Segment::new().mirror_x().mirror_x(), Segment::new());
}

#[test]
fn reverse_makes_a_copy() {
    let seg = segment(&[(0, 0), (1, 2), (-7, 5)], 3);
    let reversed = seg.reverse();
    assert_eq!(reversed, segment(&[(-7, 5), (1, 2), (0, 0)], 3));
    assert_eq!(seg, segment(&[(0, 0), (1, 2), (-7, 5)], 3));
}

#[test]
fn reverse_twice_is_the_identity() {
    let seg = segment(&[(0, 0), (1, 2), (-7, 5), (4, 4)], 3);
    assert_eq!(seg.reverse().reverse(), seg);
    assert_eq!(Segment::new().reverse().reverse(), Segment::new());
}

#[test]
fn scale_changes_the_segment_in_place() {
    let mut seg = segment(&[(0, 0), (1, 2), (-7, 5)], 3);
    assert_eq!(seg.scale(number(2.0), number(-3.0)), Ok(()));
    assert_eq!(seg, segment(&[(0, 0), (2, -6), (-14, -15)], 3));
    assert_eq!(seg.scale(number(0.0), number(1.0)), Ok(()));
    assert_eq!(seg, segment(&[(0, 0), (0, -6), (0, -15)], 3));
}

#[test]
fn scale_rounds_to_the_grid() {
    let mut seg = segment(&[(3, 5), (-3, -5), (1000, 1), (2, 2)], 0);
    assert_eq!(seg.scale(number(0.5), number(0.25)), Ok(()));
    assert_eq!(seg, segment(&[(2, 1), (-2, -1), (500, 0), (1, 1)], 0));
    let mut seg = segment(&[(3, 5), (1_000_000, -1_000_000)], 0);
    assert_eq!(seg.scale(number(-0.001), number(1000.0)), Ok(()));
    assert_eq!(seg, segment(&[(0, 5000), (-1000, -COORD_MAX)], 0));
}

#[test]
fn scale_off_the_grid_changes_nothing() {
    let mut seg = segment(&[(1, 1), (500_000_001, 2), (3, 3)], 3);
    assert_eq!(seg.scale(number(2.0), number(1.0)), Err(GeometryError::OutOfRange));
    assert_eq!(seg, segment(&[(1, 1), (500_000_001, 2), (3, 3)], 3));
    assert_eq!(seg.scale(number(1.0), number(1e300)), Err(GeometryError::OutOfRange));
    assert_eq!(seg.scale(number(f64::NAN), number(1.0)), Err(GeometryError::OutOfRange));
    assert_eq!(seg.scale(number(1.0), number(f64::INFINITY)), Err(GeometryError::OutOfRange));
    assert_eq!(seg, segment(&[(1, 1), (500_000_001, 2), (3, 3)], 3));
    let mut origin = segment(&[(0, 0)], 0);
    assert_eq!(origin.scale(number(f64::MAX), number(f64::MIN)), Ok(()));
    assert_eq!(origin, segment(&[(0, 0)], 0));
    assert_eq!(origin.scale(number(f64::NAN), number(1.0)), Err(GeometryError::OutOfRange));
    let mut empty = Segment::new();
    assert_eq!(empty.scale(number(f64::NAN), number(f64::INFINITY)), Ok(()));
}

#[test]
fn scaled_coordinates() {
    assert_eq!(scale_coordinate(7, number(3.0)), Some(21));
    assert_eq!(scale_coordinate(-7, number(3.0)), Some(-21));
    assert_eq!(scale_coordinate(7, number(-3.0)), Some(-21));
    assert_eq!(scale_coordinate(-7, number(-3.0)), Some(21));
    assert_eq!(scale_coordinate(7, number(0.5)), Some(4));
    assert_eq!(scale_coordinate(-7, number(0.5)), Some(-4));
    assert_eq!(scale_coordinate(7, number(0.49)), Some(3));
    assert_eq!(scale_coordinate(COORD_MAX, number(1.0)), Some(COORD_MAX));
    assert_eq!(scale_coordinate(COORD_MAX, number(1.000000001)), None);
    assert_eq!(scale_coordinate(-COORD_MAX, number(-1.0)), Some(COORD_MAX));
    assert_eq!(scale_coordinate(1, number(1e9)), Some(COORD_MAX));
    assert_eq!(scale_coordinate(1, number(1e18)), None);
    assert_eq!(scale_coordinate(0, number(1e300)), Some(0));
    assert_eq!(scale_coordinate(0, number(f64::NAN)), None);
    assert_eq!(scale_coordinate(COORD_MAX, number(5e-324)), Some(0));
    assert_eq!(scale_coordinate(COORD_MAX, number(1e-9)), Some(1));
    assert_eq!(scale_coordinate(COORD_MAX, number(0.4e-9)), Some(0));
}

#[test]
fn clone_is_equal() {
    let seg = segment(&[(0, 0), (1, 2)], 3);
    assert_eq!(seg.clone(), seg);
}
