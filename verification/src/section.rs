//! Sections: the bands of a canopy, each with the curve of its cross-section.

use vstd::prelude::*;
use crate::context::{calls_partial_builtin, can_evaluate_to, EvalError, ExpressionContext};
use crate::fabric::{initial_selector, FabricSelector, FabricSelectorView};
use crate::geometry::{coords, in_range, line_points, Line, Point, UNITS_PER_METRE};
use crate::grid::{grid_value, to_grid};
use crate::number::Number;
use crate::text::texts;

verus! {

/// A number of gores: at least one.
#[derive(Clone, Copy, Debug, PartialEq, Eq, Structural)]
pub struct GoreCount {
    count: u16,
}

impl GoreCount {
    #[verifier::type_invariant]
    spec fn inv(self) -> bool {
        self.count > 0
    }

    /// The number.
    pub closed spec fn view(&self) -> int {
        self.count as int
    }

    /// `count` gores, if that is at least one.
    pub fn new(count: u16) -> (r: Option<GoreCount>)
        ensures
            count > 0 ==> (r matches Some(gores) && gores@ == count),
            count == 0 ==> r is None,
    {
        if count > 0 {
            Some(GoreCount { count })
        } else {
            None
        }
    }

    /// Eight gores, the count that a section starts with.
    pub fn eight() -> (r: GoreCount)
        ensures
            r@ == 8,
    {
        GoreCount { count: 8 }
    }

    /// The number.
    pub fn get(&self) -> (r: u16)
        ensures
            r == self@,
            r > 0,
    {
        proof {
            use_type_invariant(self);
        }
        self.count
    }
}

/// A band whose cross-section is a polygon. It has no geometry yet: its
/// cross-section is without points.
#[derive(Clone, Copy, Debug, PartialEq, Eq, Structural)]
pub struct PolygonalChuteSection {}

/// A band that can be bent into a disk, a cone or a cylinder: its
/// cross-section is a straight line. The ends of the line are given by four
/// expressions, for the `x` and the `y` of the begin and of the end, in
/// metres; `line` holds what they last came to.
#[derive(Debug, PartialEq, Eq)]
pub struct CircularChuteSection {
    pub line: Line,
    pub expressions: [String; 4],
}

/// What a circular section is.
pub struct CircularChuteSectionView {
    pub line: ((int, int), (int, int)),
    pub expressions: Seq<Seq<char>>,
}

impl View for CircularChuteSection {
    type V = CircularChuteSectionView;

    open spec fn view(&self) -> CircularChuteSectionView {
        CircularChuteSectionView {
            line: (self.line.begin@, self.line.end@),
            expressions: texts(self.expressions@),
        }
    }
}

impl Clone for CircularChuteSection {
    fn clone(&self) -> (r: Self)
        ensures
            r@ == self@,
            r.line == self.line,
    {
        let r = CircularChuteSection {
            line: self.line,
            expressions: [
                self.expressions[0].clone(),
                self.expressions[1].clone(),
                self.expressions[2].clone(),
                self.expressions[3].clone(),
            ],
        };
        assert(r@.expressions =~= self@.expressions);
        r
    }
}

/// The expressions that a circular section starts with.
pub open spec fn initial_expressions() -> Seq<Seq<char>> {
    seq!["0"@, "0"@, "1.0"@, "0.0"@]
}

impl Default for CircularChuteSection {
    /// A line of one metre along the horizontal axis, from the origin.
    fn default() -> (r: Self)
        ensures
            r@.line == ((0int, 0int), (UNITS_PER_METRE as int, 0int)),
            r@.expressions == initial_expressions(),
    {
        let end = match Point::new(UNITS_PER_METRE, 0) {
            Some(end) => end,
            None => {
                assert(false);
                Point::origin()
            },
        };
        let r = CircularChuteSection {
            line: Line { begin: Point::origin(), end },
            expressions: ["0".to_owned(), "0".to_owned(), "1.0".to_owned(), "0.0".to_owned()],
        };
        assert(r@.expressions =~= initial_expressions());
        r
    }
}

/// The kinds of section.
#[derive(Debug, PartialEq, Eq)]
pub enum ChuteSectionType {
    Polygonal(PolygonalChuteSection),
    Circular(CircularChuteSection),
}

/// What a kind of section is.
pub enum ChuteSectionTypeView {
    Polygonal,
    Circular(CircularChuteSectionView),
}

impl View for ChuteSectionType {
    type V = ChuteSectionTypeView;

    open spec fn view(&self) -> ChuteSectionTypeView {
        match self {
            ChuteSectionType::Polygonal(_) => ChuteSectionTypeView::Polygonal,
            ChuteSectionType::Circular(section) => ChuteSectionTypeView::Circular(section@),
        }
    }
}

impl Clone for ChuteSectionType {
    fn clone(&self) -> (r: Self)
        ensures
            r@ == self@,
    {
        match self {
            ChuteSectionType::Polygonal(section) => ChuteSectionType::Polygonal(*section),
            ChuteSectionType::Circular(section) => ChuteSectionType::Circular(section.clone()),
        }
    }
}

/// How one coordinate of a line came out of its expression.
#[derive(Clone, Debug, PartialEq, Eq)]
pub enum Placed {
    /// The expression has this value, which falls on this coordinate.
    On(Number, i64),
    /// The expression has this value, which is not finite or off the grid;
    /// the coordinate is zero.
    OffGrid(Number),
    /// The expression has no value; the coordinate is zero.
    Unevaluated(EvalError),
}

impl Placed {
    /// The coordinate: that of the value, or zero where there is none.
    pub open spec fn coordinate(self) -> int {
        match self {
            Placed::On(_, coordinate) => coordinate as int,
            _ => 0,
        }
    }

    /// Whether the report fits the outcome of an evaluation.
    pub open spec fn reports(self, outcome: Result<Number, EvalError>) -> bool {
        match outcome {
            Ok(value) => match grid_value(value.bits) {
                Some(coordinate) => self == Placed::On(value, coordinate as i64) && in_range(
                    coordinate,
                ),
                None => self == Placed::OffGrid(value),
            },
            Err(error) => self == Placed::Unevaluated(error),
        }
    }

    /// The value that the report tells of, if it tells of one.
    pub open spec fn value(self) -> Option<Number> {
        match self {
            Placed::On(value, _) => Some(value),
            Placed::OffGrid(value) => Some(value),
            Placed::Unevaluated(_) => None,
        }
    }

    /// Whether the report puts its value where it belongs: on the
    /// coordinate that the value falls on, or off the grid where it falls
    /// on none.
    pub open spec fn is_well_placed(self) -> bool {
        match self {
            Placed::On(value, coordinate) => grid_value(value.bits) == Some(coordinate as int),
            Placed::OffGrid(value) => grid_value(value.bits) is None,
            Placed::Unevaluated(_) => true,
        }
    }

    /// Whether the report can be that of an expression over bindings: it
    /// tells of what the expression comes to over exactly these bindings,
    /// puts the value where it belongs, and reports a failure as a call of
    /// a partial builtin exactly where the expression makes one.
    pub open spec fn reports_on(self, expression: Seq<char>, bindings: Map<Seq<char>, Number>) -> bool {
        &&& can_evaluate_to(expression, bindings, self.value())
        &&& self.is_well_placed()
        &&& calls_partial_builtin(expression) <==> self.is_partial_report()
    }

    /// Whether the report tells of a call of a partial builtin.
    pub open spec fn is_partial_report(self) -> bool {
        self matches Placed::Unevaluated(EvalError::PartialFunction(_))
    }

    /// The coordinate: that of the value, or zero where there is none.
    pub fn get_coordinate(&self) -> (r: i64)
        ensures
            r == self.coordinate(),
    {
        match self {
            Placed::On(_, coordinate) => *coordinate,
            _ => 0,
        }
    }

    /// Whether the expression had a value on the grid.
    pub fn succeeded(&self) -> (r: bool)
        ensures
            r == (self is On),
    {
        match self {
            Placed::On(_, _) => true,
            _ => false,
        }
    }
}

/// Places the outcome of an evaluation on the grid.
pub fn place(outcome: Result<Number, EvalError>) -> (r: Placed)
    ensures
        r.reports(outcome),
        in_range(r.coordinate()),
{
    match outcome {
        Ok(value) => match to_grid(value) {
            Some(coordinate) => Placed::On(value, coordinate),
            None => Placed::OffGrid(value),
        },
        Err(error) => Placed::Unevaluated(error),
    }
}

/// Evaluates an expression for a length in metres and places it on the
/// grid.
pub fn place_expression(context: &ExpressionContext, expression: &str) -> (r: Placed)
    ensures
        r.reports_on(expression@, context@),
        in_range(r.coordinate()),
{
    let outcome = context.evaluate(expression);
    let r = place(outcome);
    assert(r.reports(outcome));
    r
}

/// One band of a canopy.
#[derive(Debug, PartialEq, Eq)]
pub struct ChuteSection {
    pub section_type: ChuteSectionType,
    pub gores: GoreCount,
    pub fabric: FabricSelector,
    /// The seam allowances of the right, top, left and bottom edge of a
    /// gore, in grid units.
    pub seam_allowance: (i64, i64, i64, i64),
}

/// What a section is.
pub struct ChuteSectionView {
    pub section_type: ChuteSectionTypeView,
    pub gores: int,
    pub fabric: FabricSelectorView,
    pub seam_allowance: (i64, i64, i64, i64),
}

impl View for ChuteSection {
    type V = ChuteSectionView;

    open spec fn view(&self) -> ChuteSectionView {
        ChuteSectionView {
            section_type: self.section_type@,
            gores: self.gores@,
            fabric: self.fabric@,
            seam_allowance: self.seam_allowance,
        }
    }
}

impl Clone for ChuteSection {
    fn clone(&self) -> (r: Self)
        ensures
            r@ == self@,
    {
        ChuteSection {
            section_type: self.section_type.clone(),
            gores: self.gores,
            fabric: self.fabric.clone(),
            seam_allowance: self.seam_allowance,
        }
    }
}

/// The seam allowance that a section starts with on every edge: a
/// centimetre.
pub const INITIAL_SEAM_ALLOWANCE: i64 = 10_000;

/// The cross-section of a section at a resolution: the points along the
/// line of a circular section, none for a polygonal one.
pub open spec fn cross_section(section_type: ChuteSectionTypeView, resolution: nat) -> Seq<
    (int, int),
> {
    match section_type {
        ChuteSectionTypeView::Circular(section) => line_points(
            section.line.0,
            section.line.1,
            resolution,
        ),
        ChuteSectionTypeView::Polygonal => Seq::empty(),
    }
}

/// Whether `after` is the section `before` with the ends of its line moved
/// to what its expressions come to over `bindings`, as `report` tells: a
/// circular section has four reports, one for each of its expressions in
/// order, each that of its expression over these bindings, and the ends of
/// its line lie on the coordinates of the reports; a polygonal section has
/// no report and is as it was. Nothing else changes.
pub open spec fn line_updated(
    before: ChuteSectionView,
    after: ChuteSectionView,
    report: Seq<Placed>,
    bindings: Map<Seq<char>, Number>,
) -> bool {
    &&& after.gores == before.gores
    &&& after.fabric == before.fabric
    &&& after.seam_allowance == before.seam_allowance
    &&& match before.section_type {
        ChuteSectionTypeView::Polygonal => report.len() == 0 && after.section_type
            == before.section_type,
        ChuteSectionTypeView::Circular(section) => {
            &&& report.len() == 4
            &&& forall|k: int|
                0 <= k < 4 ==> (#[trigger] report[k]).reports_on(section.expressions[k], bindings)
            &&& after.section_type == ChuteSectionTypeView::Circular(
                CircularChuteSectionView {
                    line: (
                        (report[0].coordinate(), report[1].coordinate()),
                        (report[2].coordinate(), report[3].coordinate()),
                    ),
                    expressions: section.expressions,
                },
            )
        },
    }
}

impl ChuteSection {
    /// A circular section as it starts out: eight gores, the lightest
    /// fabric, a centimetre of seam allowance all round.
    pub fn new_circular() -> (r: Self)
        ensures
            r@.section_type matches ChuteSectionTypeView::Circular(section) && section.line == (
                (0int, 0int),
                (UNITS_PER_METRE as int, 0int),
            ) && section.expressions == initial_expressions(),
            r@.gores == 8,
            r@.fabric == initial_selector(),
            r@.seam_allowance == (
                INITIAL_SEAM_ALLOWANCE,
                INITIAL_SEAM_ALLOWANCE,
                INITIAL_SEAM_ALLOWANCE,
                INITIAL_SEAM_ALLOWANCE,
            ),
    {
        ChuteSection {
            section_type: ChuteSectionType::Circular(CircularChuteSection::default()),
            gores: GoreCount::eight(),
            fabric: FabricSelector::new(),
            seam_allowance: (
                INITIAL_SEAM_ALLOWANCE,
                INITIAL_SEAM_ALLOWANCE,
                INITIAL_SEAM_ALLOWANCE,
                INITIAL_SEAM_ALLOWANCE,
            ),
        }
    }

    /// The cross-section of the band: `resolution` points in order.
    pub fn get_cross_section(&self, resolution: u32) -> (r: Vec<Point>)
        ensures
            coords(r@) == cross_section(self@.section_type, resolution as nat),
    {
        match &self.section_type {
            ChuteSectionType::Circular(section) => section.line.to_points(resolution),
            ChuteSectionType::Polygonal(_) => {
                let points: Vec<Point> = Vec::new();
                assert(coords(points@) =~= Seq::<(int, int)>::empty());
                points
            },
        }
    }

    /// The cross-section of the band: `resolution` points in order.
    pub fn to_points(&self, resolution: u32) -> (r: Vec<Point>)
        ensures
            coords(r@) == cross_section(self@.section_type, resolution as nat),
    {
        self.get_cross_section(resolution)
    }

    /// Evaluates the four expressions of a circular section over the
    /// context and moves the ends of its line to what they come to. An
    /// expression without a value on the grid puts its coordinate to zero;
    /// the report tells which did. A polygonal section has no expressions:
    /// it stays as it is and reports nothing.
    pub fn update_line(&mut self, context: &ExpressionContext) -> (r: Vec<Placed>)
        ensures
            line_updated(old(self)@, final(self)@, r@, context@),
    {
        let mut report: Vec<Placed> = Vec::new();
        let moved = match &self.section_type {
            ChuteSectionType::Polygonal(_) => None,
            ChuteSectionType::Circular(section) => {
                let begin_x = place_expression(context, section.expressions[0].as_str());
                let begin_y = place_expression(context, section.expressions[1].as_str());
                let end_x = place_expression(context, section.expressions[2].as_str());
                let end_y = place_expression(context, section.expressions[3].as_str());
                let begin = Point::new(begin_x.get_coordinate(), begin_y.get_coordinate());
                let end = Point::new(end_x.get_coordinate(), end_y.get_coordinate());
                report.push(begin_x);
                report.push(begin_y);
                report.push(end_x);
                report.push(end_y);
                match (begin, end) {
                    (Some(begin), Some(end)) => {
                        let mut moved = section.clone();
                        moved.line = Line { begin, end };
                        Some(moved)
                    },
                    _ => {
                        assert(false);
                        None
                    },
                }
            },
        };
        match moved {
            Some(moved) => {
                self.section_type = ChuteSectionType::Circular(moved);
            },
            None => {},
        }
        report
    }
}

} // verus!
