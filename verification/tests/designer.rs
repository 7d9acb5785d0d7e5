use chute::context::{EvalError, ExpressionContext};
use chute::designer::{ChuteDesigner, DISPLAY_RESOLUTION};
use chute::edit::{delete_entry, move_entry};
use chute::fabric::{Fabric, FabricSelector};
use chute::geometry::{Line, Point};
use chute::ident::{IdError, IdentifierError};
use chute::number::Number;
use chute::params::{Declared, InputValue, ParameterValue};
use chute::section::{
    place, ChuteSection, ChuteSectionType, CircularChuteSection, GoreCount, Placed,
    PolygonalChuteSection,
};
use chute::text::{decimal_string, numbered, same_texts};
use chute::units::StandardUnit;

fn number(value: f64) -> Number {
    Number::from_bits(value.to_bits())
}

fn value_of(number: Number) -> f64 {
    f64::from_bits(number.to_bits())
}

fn point(x: i64, y: i64) -> Point {
    Point::new(x, y).unwrap()
}

fn input(id: &str, value: f64) -> InputValue {
    InputValue {
        id: id.to_string(),
        description: String::new(),
        value: number(value),
        unit: StandardUnit::UnitLess,
        range: (number(0.0), number(10.0)),
    }
}

fn parameter(id: &str, expression: &str) -> ParameterValue {
    ParameterValue {
        id: id.to_string(),
        expression: expression.to_string(),
        display_unit: StandardUnit::MeterFoot,
    }
}

fn circular(expressions: [&str; 4]) -> ChuteSection {
    let mut section = ChuteSection::new_circular();
    section.section_type = ChuteSectionType::Circular(CircularChuteSection {
        expressions: expressions.map(|e| e.to_string()),
        ..CircularChuteSection::default()
    });
    section
}

fn line_of(section: &ChuteSection) -> Line {
    match &section.section_type {
        ChuteSectionType::Circular(section) => section.line,
        ChuteSectionType::Polygonal(_) => panic!("no line"),
    }
}

#[test]
fn default_design() {
    let designer = ChuteDesigner::default();
    assert_eq!(designer.name, "Untitled Parachute");
    assert_eq!(designer.gores.get(), 8);
    assert_eq!(value_of(designer.diameter), 1.0);
    assert_eq!(designer.instructions, vec!["Cut out fabric".to_string()]);
    assert!(designer.use_global_seam_allowance);
    assert_eq!(value_of(designer.global_seam_allowance), 0.01);
    let ids: Vec<&str> = designer.input_values.iter().map(|i| i.id.as_str()).collect();
    assert_eq!(ids, vec!["input1", "input2", "diameter", "height_ratio", "vent_ratio"]);
    let values: Vec<f64> = designer.input_values.iter().map(|i| value_of(i.value)).collect();
    assert_eq!(values, vec![0.0, 0.0, 1.0, 0.7, 0.2]);
    let upper: Vec<f64> = designer.input_values.iter().map(|i| value_of(i.range.1)).collect();
    assert_eq!(upper, vec![10.0, 10.0, 10.0, 1.0, 1.0]);
    assert_eq!(designer.input_values[2].description, "Parachute Diameter");
    assert_eq!(designer.input_values[3].unit, StandardUnit::UnitLess);
    assert_eq!(designer.input_values[0].unit, StandardUnit::MeterFoot);
    assert_eq!(
        designer.parameter_values,
        vec![
            parameter("param1", "input1*2"),
            parameter("param2", "input2*2"),
            parameter("param3", "param1+param2"),
        ]
    );
    assert_eq!(designer.chute_sections.len(), 1);
    assert_eq!(
        designer.chute_sections[0],
        circular(["vent_ratio*diameter", "height_ratio*diameter", "diameter", "0"])
    );
    assert!(designer.evaluator_context.contains("pi"));
    assert!(!designer.evaluator_context.contains("diameter"));
}

#[test]
fn end_to_end_cross_section() {
    let mut designer = ChuteDesigner::default();
    designer.input_values = vec![
        input("diameter", 1.0),
        input("height_ratio", 0.7),
        input("vent_ratio", 0.2),
    ];
    designer.parameter_values.clear();
    let report = designer.evaluate();
    assert_eq!(report.inputs, vec![Ok(()), Ok(()), Ok(())]);
    assert_eq!(
        report.sections,
        vec![vec![
            Placed::On(number(0.2 * 1.0), 200_000),
            Placed::On(number(0.7 * 1.0), 700_000),
            Placed::On(number(1.0), 1_000_000),
            Placed::On(number(0.0), 0),
        ]]
    );
    let line = line_of(&designer.chute_sections[0]);
    assert_eq!(line.begin, point(200_000, 700_000));
    assert_eq!(line.end, point(1_000_000, 0));
    let curves = designer.get_cross_section();
    assert_eq!(curves.len(), 1);
    assert_eq!(curves[0].len(), DISPLAY_RESOLUTION as usize);
    assert_eq!(curves[0][0], point(200_000, 700_000));
    assert_eq!(curves[0][29], point(1_000_000, 0));
    assert_eq!(curves[0], designer.chute_sections[0].to_points(30));
}

#[test]
fn pass_over_the_default_design() {
    let mut designer = ChuteDesigner::default();
    let report = designer.evaluate();
    assert_eq!(report.inputs, vec![Ok(()); 5]);
    assert_eq!(
        report.parameters,
        vec![
            Declared::Bound(number(0.0)),
            Declared::Bound(number(0.0)),
            Declared::Bound(number(0.0)),
        ]
    );
    assert_eq!(value_of(designer.evaluator_context.get_value("vent_ratio").unwrap()), 0.2);
    assert_eq!(designer.evaluator_context.get_value("param3"), Some(number(0.0)));
    assert_eq!(line_of(&designer.chute_sections[0]).begin, point(200_000, 700_000));
}

#[test]
fn parameters_see_only_what_was_declared_before_them() {
    let mut designer = ChuteDesigner::default();
    designer.input_values = vec![input("a", 2.0), input("b", 3.0)];
    designer.parameter_values = vec![
        parameter("early", "late + 1"),
        parameter("sum", "a + b"),
        parameter("late", "sum * 2"),
        parameter("own", "own + 1"),
    ];
    let report = designer.evaluate();
    assert!(matches!(report.parameters[0], Declared::Unevaluated(EvalError::Failed(_))));
    assert_eq!(report.parameters[1], Declared::Bound(number(5.0)));
    assert_eq!(report.parameters[2], Declared::Bound(number(10.0)));
    assert!(matches!(report.parameters[3], Declared::Unevaluated(EvalError::Failed(_))));
    assert_eq!(designer.evaluator_context.get_value("early"), None);
    assert_eq!(designer.evaluator_context.get_value("late"), Some(number(10.0)));
    assert_eq!(designer.evaluator_context.get_value("own"), None);
}

#[test]
fn one_bad_entry_does_not_stop_the_pass() {
    let mut designer = ChuteDesigner::default();
    designer.input_values = vec![
        input("a", 2.0),
        input("a", 5.0),
        input("pi", 3.0),
        input("has space", 1.0),
        input("", 1.0),
        input("9lives", 1.0),
        input("x-y", 1.0),
        input("b", 3.0),
    ];
    designer.parameter_values = vec![
        parameter("b", "1"),
        parameter("c d", "1"),
        parameter("broken", "a +"),
        parameter("shifted", "shl(1, 70)"),
        parameter("fine", "a * b"),
    ];
    designer.chute_sections = vec![
        circular(["a", "nothing", "2000", "math::sqrt(0-1)"]),
        circular(["fine", "b", "a/0", "str::substring(\"abc\", 1)"]),
    ];
    let report = designer.evaluate();
    assert_eq!(
        report.inputs,
        vec![
            Ok(()),
            Err(IdentifierError::DuplicateIdentifier),
            Err(IdentifierError::DuplicateIdentifier),
            Err(IdentifierError::InvalidIdentifier(IdError::Whitespace)),
            Err(IdentifierError::InvalidIdentifier(IdError::Empty)),
            Err(IdentifierError::InvalidIdentifier(IdError::FirstNotAlphabetic)),
            Err(IdentifierError::InvalidIdentifier(IdError::NotAlphanumeric)),
            Ok(()),
        ]
    );
    assert_eq!(report.parameters[0], Declared::Refused(IdentifierError::DuplicateIdentifier));
    assert_eq!(
        report.parameters[1],
        Declared::Refused(IdentifierError::InvalidIdentifier(IdError::Whitespace))
    );
    assert!(matches!(report.parameters[2], Declared::Unevaluated(EvalError::Failed(_))));
    assert_eq!(
        report.parameters[3],
        Declared::Unevaluated(EvalError::PartialFunction("shl".to_string()))
    );
    assert_eq!(report.parameters[4], Declared::Bound(number(6.0)));
    assert_eq!(value_of(designer.evaluator_context.get_value("a").unwrap()), 2.0);
    assert_eq!(value_of(designer.evaluator_context.get_value("pi").unwrap()), std::f64::consts::PI);

    let first = &report.sections[0];
    assert_eq!(first[0], Placed::On(number(2.0), 2_000_000));
    assert!(matches!(first[1], Placed::Unevaluated(EvalError::Failed(_))));
    assert_eq!(first[2], Placed::OffGrid(number(2000.0)));
    assert!(matches!(first[3], Placed::OffGrid(_)));
    assert!(first[0].succeeded());
    assert!(!first[1].succeeded());
    assert!(!first[2].succeeded());
    assert_eq!(first[2].get_coordinate(), 0);
    assert_eq!(line_of(&designer.chute_sections[0]), Line { begin: point(2_000_000, 0), end: point(0, 0) });
    let second = &report.sections[1];
    assert_eq!(second[0], Placed::On(number(6.0), 6_000_000));
    assert_eq!(second[1], Placed::On(number(3.0), 3_000_000));
    assert!(matches!(second[2], Placed::OffGrid(_)));
    assert_eq!(
        second[3],
        Placed::Unevaluated(EvalError::PartialFunction("str::substring".to_string()))
    );
    assert_eq!(
        line_of(&designer.chute_sections[1]),
        Line { begin: point(6_000_000, 3_000_000), end: point(0, 0) }
    );
}

#[test]
fn a_clone_is_a_design_of_its_own() {
    let mut designer = ChuteDesigner::default();
    designer.evaluate();
    let mut copy = designer.clone();
    assert!(copy == designer);
    assert_eq!(copy.chute_sections, designer.chute_sections);
    assert_eq!(copy.evaluator_context.get_value("vent_ratio"), Some(number(0.2)));
    copy.input_values[4].id = "vent".to_string();
    copy.evaluate();
    assert!(copy.evaluator_context.contains("vent"));
    assert!(!copy.evaluator_context.contains("vent_ratio"));
    assert!(designer.evaluator_context.contains("vent_ratio"));
    assert!(!designer.evaluator_context.contains("vent"));
    let mut context = designer.evaluator_context.clone();
    context.set_value("extra", number(3.0)).unwrap();
    assert_eq!(context.evaluate("extra * diameter"), Ok(number(3.0)));
    assert!(matches!(
        designer.evaluator_context.evaluate("extra * diameter"),
        Err(EvalError::Failed(_))
    ));
}

#[test]
fn expressions_are_evaluated_over_the_bindings_so_far() {
    let mut ctx = ExpressionContext::new();
    ctx.set_value("a", number(2.0)).unwrap();
    assert_eq!(ctx.evaluate("a * 3"), Ok(number(6.0)));
    assert_eq!(ctx.evaluate_or_zero("a * 3"), (number(6.0), true));
    assert_eq!(ctx.evaluate_or_zero("b * 3"), (number(0.0), false));
    ctx.set_value("b", number(0.5)).unwrap();
    assert_eq!(ctx.evaluate_or_zero("b * 3"), (number(1.5), true));
    assert_eq!(
        ctx.declare_parameter(&parameter("c", "a + b")),
        Declared::Bound(number(2.5))
    );
    assert_eq!(
        ctx.declare_parameter(&parameter("d", "c * c")),
        Declared::Bound(number(6.25))
    );
    let mut section = circular(["c", "d", "a", "b"]);
    let report = section.update_line(&ctx);
    assert_eq!(
        report,
        vec![
            Placed::On(number(2.5), 2_500_000),
            Placed::On(number(6.25), 6_250_000),
            Placed::On(number(2.0), 2_000_000),
            Placed::On(number(0.5), 500_000),
        ]
    );
    assert_eq!(
        line_of(&section),
        Line { begin: point(2_500_000, 6_250_000), end: point(2_000_000, 500_000) }
    );
}

#[test]
fn every_pass_starts_from_the_built_in_constants() {
    let mut designer = ChuteDesigner::default();
    designer.evaluate();
    assert!(designer.evaluator_context.contains("input1"));
    designer.input_values.remove(0);
    let report = designer.evaluate();
    assert!(!designer.evaluator_context.contains("input1"));
    assert!(matches!(report.parameters[0], Declared::Unevaluated(EvalError::Failed(_))));
    assert_eq!(report.parameters[1], Declared::Bound(number(0.0)));
    assert!(matches!(report.parameters[2], Declared::Unevaluated(EvalError::Failed(_))));
    assert!(designer.evaluator_context.contains("mm"));
}

#[test]
fn context_declarations() {
    let mut ctx = ExpressionContext::new();
    assert_eq!(ctx.validate("diameter"), Ok(()));
    assert_eq!(ctx.validate("deg"), Err(IdentifierError::DuplicateIdentifier));
    assert_eq!(
        ctx.validate("two words"),
        Err(IdentifierError::InvalidIdentifier(IdError::Whitespace))
    );
    assert_eq!(ctx.declare("diameter", number(1.5)), Ok(()));
    assert_eq!(ctx.declare("diameter", number(2.5)), Err(IdentifierError::DuplicateIdentifier));
    assert_eq!(
        ctx.declare("2x", number(2.5)),
        Err(IdentifierError::InvalidIdentifier(IdError::FirstNotAlphabetic))
    );
    assert_eq!(ctx.get_value("diameter"), Some(number(1.5)));
    assert_eq!(ctx.declare_input(&input("radius", 0.75)), Ok(()));
    assert_eq!(
        ctx.declare_parameter(&parameter("area", "pi * radius ^ 2")),
        Declared::Bound(number(std::f64::consts::PI * 0.75_f64.powf(2.0)))
    );
    assert_eq!(
        ctx.declare_evaluated("shown", Ok(number(4.0))),
        Declared::Bound(number(4.0))
    );
    assert_eq!(
        ctx.declare_evaluated("shown", Ok(number(5.0))),
        Declared::Refused(IdentifierError::DuplicateIdentifier)
    );
    assert_eq!(
        ctx.declare_evaluated("hidden", Err(EvalError::Failed("no".to_string()))),
        Declared::Unevaluated(EvalError::Failed("no".to_string()))
    );
    assert_eq!(
        ctx.declare_evaluated("not hidden", Err(EvalError::Failed("no".to_string()))),
        Declared::Refused(IdentifierError::InvalidIdentifier(IdError::Whitespace))
    );
    assert!(!ctx.contains("hidden"));
    ctx.reset();
    assert!(!ctx.contains("diameter"));
    assert!(ctx.contains("yd"));
}

#[test]
fn identifier_error_messages() {
    assert_eq!(IdError::Whitespace.message(), "Error: ID cannot contain whitespace characters");
    assert_eq!(IdError::Empty.message(), "Error: ID cannot be empty");
    assert_eq!(IdError::NotAlphanumeric.message(), "Error: ID must be alphanumeric");
    assert_eq!(IdError::FirstNotAlphabetic.message(), "Error: First letter must be alphabetic");
    assert_eq!(IdentifierError::DuplicateIdentifier.message(), "Error: Identifier already used");
    assert_eq!(
        IdentifierError::InvalidIdentifier(IdError::Empty).message(),
        "Error: ID cannot be empty"
    );
}

#[test]
fn placing_outcomes() {
    assert_eq!(place(Ok(number(0.25))), Placed::On(number(0.25), 250_000));
    assert_eq!(place(Ok(number(f64::NAN))), Placed::OffGrid(number(f64::NAN)));
    assert_eq!(
        place(Err(EvalError::Failed("x".to_string()))),
        Placed::Unevaluated(EvalError::Failed("x".to_string()))
    );
    assert_eq!(place(Ok(number(-0.25))).get_coordinate(), -250_000);
}

#[test]
fn polygonal_sections_have_no_points() {
    let mut section = ChuteSection::new_circular();
    section.section_type = ChuteSectionType::Polygonal(PolygonalChuteSection {});
    assert_eq!(section.get_cross_section(30), Vec::<Point>::new());
    let ctx = ExpressionContext::new();
    assert_eq!(section.update_line(&ctx), Vec::<Placed>::new());
    assert_eq!(section.section_type, ChuteSectionType::Polygonal(PolygonalChuteSection {}));
}

#[test]
fn new_circular_section() {
    let section = ChuteSection::new_circular();
    assert_eq!(section.gores.get(), 8);
    assert_eq!(section.seam_allowance, (10_000, 10_000, 10_000, 10_000));
    assert_eq!(section.fabric, FabricSelector::new());
    assert_eq!(section, circular(["0", "0", "1.0", "0.0"]));
    assert_eq!(line_of(&section), Line { begin: point(0, 0), end: point(1_000_000, 0) });
    assert_eq!(section.clone(), section);
    assert_eq!(section.get_cross_section(3), vec![point(0, 0), point(500_000, 0), point(1_000_000, 0)]);
}

#[test]
fn gore_counts_are_positive() {
    assert_eq!(GoreCount::new(0), None);
    assert_eq!(GoreCount::new(1).unwrap().get(), 1);
    assert_eq!(GoreCount::new(u16::MAX).unwrap().get(), u16::MAX);
    assert_eq!(GoreCount::eight().get(), 8);
}

#[test]
fn adding_entries() {
    let mut designer = ChuteDesigner::default();
    designer.add_input();
    assert_eq!(designer.input_values.len(), 6);
    let added = &designer.input_values[5];
    assert_eq!(added.id, "input6");
    assert_eq!(added.description, "");
    assert_eq!(added.unit, StandardUnit::MeterFoot);
    assert_eq!((value_of(added.value), value_of(added.range.0), value_of(added.range.1)), (0.0, 0.0, 10.0));
    designer.add_parameter();
    assert_eq!(designer.parameter_values[3], parameter("param4", "1.0*m+2.0*mm"));
    designer.add_circular_section();
    assert_eq!(designer.chute_sections[1], ChuteSection::new_circular());
    designer.add_instruction();
    designer.add_instruction();
    assert_eq!(designer.instructions, vec!["Cut out fabric", "Step", "Step"]);
    designer.remove_instruction(0);
    assert_eq!(designer.instructions, vec!["Step", "Step"]);
    designer.remove_instruction(2);
    assert_eq!(designer.instructions, vec!["Step", "Step"]);
    let report = designer.evaluate();
    assert_eq!(report.inputs.len(), 6);
    assert_eq!(report.parameters[3], Declared::Bound(number(1.0 * 1.0 + 2.0 * 0.001)));
}

#[test]
fn moving_and_deleting_entries() {
    let mut list = vec![1, 2, 3, 4];
    move_entry(&mut list, 2, true);
    assert_eq!(list, vec![1, 3, 2, 4]);
    move_entry(&mut list, 0, true);
    assert_eq!(list, vec![1, 3, 2, 4]);
    move_entry(&mut list, 0, false);
    assert_eq!(list, vec![3, 1, 2, 4]);
    move_entry(&mut list, 3, false);
    assert_eq!(list, vec![3, 1, 2, 4]);
    move_entry(&mut list, 4, true);
    assert_eq!(list, vec![3, 1, 2, 4]);
    move_entry(&mut list, usize::MAX, false);
    assert_eq!(list, vec![3, 1, 2, 4]);
    move_entry(&mut list, 3, true);
    move_entry(&mut list, 2, false);
    assert_eq!(list, vec![3, 1, 2, 4]);
    delete_entry(&mut list, 1);
    assert_eq!(list, vec![3, 2, 4]);
    delete_entry(&mut list, 3);
    assert_eq!(list, vec![3, 2, 4]);
    let mut empty: Vec<u8> = vec![];
    move_entry(&mut empty, 0, false);
    delete_entry(&mut empty, 0);
    assert!(empty.is_empty());
}

#[test]
fn numbered_names() {
    assert_eq!(decimal_string(0), "0");
    assert_eq!(decimal_string(7), "7");
    assert_eq!(decimal_string(10), "10");
    assert_eq!(decimal_string(1234567890), "1234567890");
    assert_eq!(decimal_string(usize::MAX), usize::MAX.to_string());
    assert_eq!(numbered("input", 12), "input12");
    assert_eq!(numbered("", 0), "0");
}

#[test]
fn comparing_texts() {
    let a = vec!["x".to_string(), "y".to_string()];
    assert!(same_texts(&a, &a.clone()));
    assert!(!same_texts(&a, &vec!["x".to_string()]));
    assert!(!same_texts(&a, &vec!["x".to_string(), "z".to_string()]));
    assert!(same_texts(&vec![], &vec![]));
}

#[test]
fn unit_families() {
    assert_eq!(
        StandardUnit::get_options(),
        vec![
            StandardUnit::UnitLess,
            StandardUnit::MeterFoot,
            StandardUnit::MillimeterInch,
            StandardUnit::Radian,
            StandardUnit::Degree,
        ]
    );
    assert_eq!(StandardUnit::default(), StandardUnit::UnitLess);
    assert_eq!(StandardUnit::UnitLess.get_general_name(), "unitless");
    assert_eq!(StandardUnit::MeterFoot.get_general_name(), "m | ft");
    assert_eq!(StandardUnit::MillimeterInch.get_general_name(), "mm | in");
    assert_eq!(StandardUnit::Radian.get_general_name(), "rad");
    assert_eq!(StandardUnit::Degree.get_general_name(), "deg");
}

#[test]
fn fabrics() {
    let selector = FabricSelector::new();
    assert!(!selector.modified);
    assert_eq!(selector.selected_fabric, Fabric::new(number(38.0), "Ripstop nylon"));
    assert_eq!(
        selector.fabric_options,
        vec![
            Fabric::new(number(38.0), "Ripstop nylon"),
            Fabric::new(number(48.0), "Ripstop nylon"),
            Fabric::new(number(67.0), "Ripstop nylon"),
        ]
    );
    assert_eq!(FabricSelector::default(), selector);
    assert_eq!(Fabric::default(), Fabric::new(number(0.0), ""));
    let mut chosen = selector.clone();
    assert!(chosen.same(&selector));
    chosen.select(2);
    assert_eq!(chosen.selected_fabric, Fabric::new(number(67.0), "Ripstop nylon"));
    assert!(!chosen.same(&selector));
    chosen.select(3);
    assert_eq!(chosen.selected_fabric, Fabric::new(number(67.0), "Ripstop nylon"));
    assert!(Fabric::new(number(1.0), "a").same(&Fabric::new(number(1.0), "a")));
    assert!(!Fabric::new(number(1.0), "a").same(&Fabric::new(number(1.0), "b")));
    assert!(!Fabric::new(number(1.0), "a").same(&Fabric::new(number(2.0), "a")));
}

#[test]
fn designs_with_the_same_settings() {
    let designer = ChuteDesigner::default();
    let mut other = ChuteDesigner::default();
    assert!(designer.same_settings(&other));
    assert!(designer == other);
    other.evaluate();
    other.add_circular_section();
    other.global_seam_allowance = number(0.02);
    assert!(designer.same_settings(&other));
    other.name = "Other".to_string();
    assert!(!designer.same_settings(&other));
    assert!(designer != other);
    let mut other = ChuteDesigner::default();
    other.input_values[3].value = number(0.8);
    assert!(!designer.same_settings(&other));
    let mut other = ChuteDesigner::default();
    other.add_parameter();
    assert!(!designer.same_settings(&other));
    let mut other = ChuteDesigner::default();
    other.add_instruction();
    assert!(!designer.same_settings(&other));
    let mut other = ChuteDesigner::default();
    other.gores = GoreCount::new(12).unwrap();
    assert!(!designer.same_settings(&other));
    let mut other = ChuteDesigner::default();
    other.fabric.select(1);
    assert!(!designer.same_settings(&other));
    let mut other = ChuteDesigner::default();
    other.use_global_seam_allowance = false;
    assert!(!designer.same_settings(&other));
}
