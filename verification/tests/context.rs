use chute::context::{EvalError, ExpressionContext};
use chute::ident::{has_id_error, IdError, IdentifierError};
use chute::number::Number;

fn num(value: f64) -> Number {
    Number::from_bits(value.to_bits())
}

fn value_of(number: Number) -> f64 {
    f64::from_bits(number.to_bits())
}

#[test]
fn builtin_constants_are_bound() {
    let ctx = ExpressionContext::new();
    assert_eq!(value_of(ctx.get_value("m").unwrap()), 1.0);
    assert_eq!(value_of(ctx.get_value("mm").unwrap()), 0.001);
    assert_eq!(value_of(ctx.get_value("yd").unwrap()), 0.9144);
    assert_eq!(value_of(ctx.get_value("ft").unwrap()), 0.3048);
    assert_eq!(value_of(ctx.get_value("in").unwrap()), 0.0254);
    assert_eq!(value_of(ctx.get_value("rad").unwrap()), 1.0);
    assert_eq!(value_of(ctx.get_value("deg").unwrap()), std::f64::consts::PI / 180.0);
    assert_eq!(value_of(ctx.get_value("pi").unwrap()), std::f64::consts::PI);
    assert_eq!(value_of(ctx.get_value("e").unwrap()), std::f64::consts::E);
    assert_eq!(ctx.get_value("inch"), None);
}

#[test]
fn set_value_refuses_duplicates() {
    let mut ctx = ExpressionContext::new();
    assert_eq!(ctx.set_value("diameter", num(1.0)), Ok(()));
    assert_eq!(ctx.set_value("diameter", num(2.0)), Err(IdentifierError::DuplicateIdentifier));
    assert_eq!(value_of(ctx.get_value("diameter").unwrap()), 1.0);
    assert_eq!(ctx.set_value("pi", num(3.0)), Err(IdentifierError::DuplicateIdentifier));
}

#[test]
fn evaluate_arithmetic() {
    let mut ctx = ExpressionContext::new();
    ctx.set_value("a", num(1.5)).unwrap();
    assert_eq!(value_of(ctx.evaluate("a*2 + 1").unwrap()), 4.0);
    assert_eq!(value_of(ctx.evaluate("1.0*m+2.0*mm").unwrap()), 1.002);
    assert_eq!(value_of(ctx.evaluate("math::ln(e)").unwrap()), 1.0);
    assert!(matches!(ctx.evaluate("b + 1"), Err(EvalError::Failed(_))));
    assert!(matches!(ctx.evaluate("1 +"), Err(EvalError::Failed(_))));
    assert_eq!(ctx.evaluate("shl(1, 2)"), Err(EvalError::PartialFunction("shl".to_string())));
    assert_eq!(ctx.evaluate_or_zero("nonsense("), (num(0.0), false));
    assert_eq!(ctx.evaluate_or_zero("0"), (num(0.0), true));
}

#[test]
fn identifier_rules() {
    assert_eq!(has_id_error("height_ratio"), None);
    assert_eq!(has_id_error(""), Some(IdError::Empty));
    assert_eq!(has_id_error("a b"), Some(IdError::Whitespace));
    assert_eq!(has_id_error("a-b"), Some(IdError::NotAlphanumeric));
    assert_eq!(has_id_error("1a"), Some(IdError::FirstNotAlphabetic));
    assert_eq!(has_id_error("_a"), Some(IdError::FirstNotAlphabetic));
}
