//! Inputs and parameters, and the pass that declares them in order.

use vstd::prelude::*;
use crate::context::{
    calls_partial_builtin, can_evaluate_to, declarable, EvalError, ExpressionContext,
};
use crate::ident::IdentifierError;
use crate::number::Number;
use crate::units::StandardUnit;

verus! {

/// A value that the user sets directly.
#[derive(Debug, PartialEq, Eq)]
pub struct InputValue {
    /// The identifier under which expressions refer to the value.
    pub id: String,
    /// A short description of what the value does.
    pub description: String,
    /// The value, in SI base units.
    pub value: Number,
    pub unit: StandardUnit,
    /// The least and the greatest value that the input may take, in SI
    /// base units.
    pub range: (Number, Number),
}

/// What an input is.
pub struct InputValueView {
    pub id: Seq<char>,
    pub description: Seq<char>,
    pub value: Number,
    pub unit: StandardUnit,
    pub range: (Number, Number),
}

impl View for InputValue {
    type V = InputValueView;

    open spec fn view(&self) -> InputValueView {
        InputValueView {
            id: self.id@,
            description: self.description@,
            value: self.value,
            unit: self.unit,
            range: self.range,
        }
    }
}

impl Clone for InputValue {
    fn clone(&self) -> (r: Self)
        ensures
            r@ == self@,
    {
        InputValue {
            id: self.id.clone(),
            description: self.description.clone(),
            value: self.value,
            unit: self.unit,
            range: self.range,
        }
    }
}

impl InputValue {
    /// Whether two inputs agree in everything.
    pub fn same(&self, other: &InputValue) -> (r: bool)
        ensures
            r == (self@ == other@),
    {
        self.id == other.id && self.description == other.description && self.value.bits
            == other.value.bits && self.unit == other.unit && self.range.0.bits
            == other.range.0.bits && self.range.1.bits == other.range.1.bits
    }
}

/// A copy of a list of inputs.
pub fn clone_inputs(inputs: &Vec<InputValue>) -> (r: Vec<InputValue>)
    ensures
        input_views(r@) == input_views(inputs@),
{
    let mut copy: Vec<InputValue> = Vec::new();
    let mut i: usize = 0;
    while i < inputs.len()
        invariant
            i <= inputs.len(),
            copy.len() == i,
            forall|k: int| 0 <= k < i ==> (#[trigger] copy[k])@ == inputs[k]@,
        decreases inputs.len() - i,
    {
        copy.push(inputs[i].clone());
        i += 1;
    }
    assert(input_views(copy@) =~= input_views(inputs@));
    copy
}

/// Whether two lists of inputs agree entry by entry.
pub fn same_inputs(a: &Vec<InputValue>, b: &Vec<InputValue>) -> (r: bool)
    ensures
        r == (input_views(a@) == input_views(b@)),
{
    if a.len() != b.len() {
        assert(input_views(a@).len() != input_views(b@).len());
        return false;
    }
    let mut i: usize = 0;
    while i < a.len()
        invariant
            i <= a.len(),
            a.len() == b.len(),
            forall|k: int| 0 <= k < i ==> (#[trigger] a[k])@ == b[k]@,
        decreases a.len() - i,
    {
        if !a[i].same(&b[i]) {
            assert(input_views(a@)[i as int] != input_views(b@)[i as int]);
            return false;
        }
        i += 1;
    }
    assert(input_views(a@) =~= input_views(b@));
    true
}

/// A value that is computed from an expression over the inputs and the
/// parameters declared before it.
#[derive(Debug, PartialEq, Eq)]
pub struct ParameterValue {
    pub id: String,
    pub expression: String,
    /// The unit family in which the value is shown.
    pub display_unit: StandardUnit,
}

/// What a parameter is.
pub struct ParameterValueView {
    pub id: Seq<char>,
    pub expression: Seq<char>,
    pub display_unit: StandardUnit,
}

impl View for ParameterValue {
    type V = ParameterValueView;

    open spec fn view(&self) -> ParameterValueView {
        ParameterValueView {
            id: self.id@,
            expression: self.expression@,
            display_unit: self.display_unit,
        }
    }
}

impl Clone for ParameterValue {
    fn clone(&self) -> (r: Self)
        ensures
            r@ == self@,
    {
        ParameterValue {
            id: self.id.clone(),
            expression: self.expression.clone(),
            display_unit: self.display_unit,
        }
    }
}

impl ParameterValue {
    /// Whether two parameters agree in everything.
    pub fn same(&self, other: &ParameterValue) -> (r: bool)
        ensures
            r == (self@ == other@),
    {
        self.id == other.id && self.expression == other.expression && self.display_unit
            == other.display_unit
    }
}

/// A copy of a list of parameters.
pub fn clone_parameters(parameters: &Vec<ParameterValue>) -> (r: Vec<ParameterValue>)
    ensures
        parameter_views(r@) == parameter_views(parameters@),
{
    let mut copy: Vec<ParameterValue> = Vec::new();
    let mut i: usize = 0;
    while i < parameters.len()
        invariant
            i <= parameters.len(),
            copy.len() == i,
            forall|k: int| 0 <= k < i ==> (#[trigger] copy[k])@ == parameters[k]@,
        decreases parameters.len() - i,
    {
        copy.push(parameters[i].clone());
        i += 1;
    }
    assert(parameter_views(copy@) =~= parameter_views(parameters@));
    copy
}

/// Whether two lists of parameters agree entry by entry.
pub fn same_parameters(a: &Vec<ParameterValue>, b: &Vec<ParameterValue>) -> (r: bool)
    ensures
        r == (parameter_views(a@) == parameter_views(b@)),
{
    if a.len() != b.len() {
        assert(parameter_views(a@).len() != parameter_views(b@).len());
        return false;
    }
    let mut i: usize = 0;
    while i < a.len()
        invariant
            i <= a.len(),
            a.len() == b.len(),
            forall|k: int| 0 <= k < i ==> (#[trigger] a[k])@ == b[k]@,
        decreases a.len() - i,
    {
        if !a[i].same(&b[i]) {
            assert(parameter_views(a@)[i as int] != parameter_views(b@)[i as int]);
            return false;
        }
        i += 1;
    }
    assert(parameter_views(a@) =~= parameter_views(b@));
    true
}

/// How the declaration of a parameter ended.
#[derive(Clone, Debug, PartialEq, Eq)]
pub enum Declared {
    /// The parameter is bound to this value.
    Bound(Number),
    /// The identifier was refused; the expression was not evaluated.
    Refused(IdentifierError),
    /// The expression has no value; the identifier stays unbound.
    Unevaluated(EvalError),
}

/// The bindings after an input is declared: the input is bound where its
/// identifier may be declared, and nothing changes where it may not.
pub open spec fn with_input(bindings: Map<Seq<char>, Number>, input: InputValueView) -> Map<
    Seq<char>,
    Number,
> {
    if declarable(bindings, input.id) is Ok {
        bindings.insert(input.id, input.value)
    } else {
        bindings
    }
}

/// The bindings after inputs are declared in order.
pub open spec fn with_inputs(bindings: Map<Seq<char>, Number>, inputs: Seq<InputValueView>) -> Map<
    Seq<char>,
    Number,
>
    decreases inputs.len(),
{
    if inputs.len() == 0 {
        bindings
    } else {
        with_input(with_inputs(bindings, inputs.drop_last()), inputs.last())
    }
}

/// The bindings after the declaration of `id` ended in `outcome`.
pub open spec fn with_outcome(
    bindings: Map<Seq<char>, Number>,
    id: Seq<char>,
    outcome: Declared,
) -> Map<Seq<char>, Number> {
    match outcome {
        Declared::Bound(value) => bindings.insert(id, value),
        _ => bindings,
    }
}

/// The bindings after the declarations of parameters ended, in order, in
/// the given outcomes.
pub open spec fn with_outcomes(
    bindings: Map<Seq<char>, Number>,
    parameters: Seq<ParameterValueView>,
    outcomes: Seq<Declared>,
) -> Map<Seq<char>, Number>
    decreases parameters.len(),
{
    if parameters.len() == 0 || outcomes.len() == 0 {
        bindings
    } else {
        with_outcome(
            with_outcomes(bindings, parameters.drop_last(), outcomes.drop_last()),
            parameters.last().id,
            outcomes.last(),
        )
    }
}

/// The value that a declaration bound, if it bound one.
pub open spec fn bound_value(outcome: Declared) -> Option<Number> {
    match outcome {
        Declared::Bound(value) => Some(value),
        _ => None,
    }
}

/// How the declaration of a parameter can end, given the bindings before
/// it. An identifier that may not be declared is refused for that reason,
/// and the expression is not looked at. Otherwise the parameter is bound
/// to what its expression comes to over exactly these bindings, or the
/// failure of the evaluation is reported: as a call of a partial builtin
/// exactly where the expression makes one.
pub open spec fn outcome_allowed(
    bindings: Map<Seq<char>, Number>,
    parameter: ParameterValueView,
    outcome: Declared,
) -> bool {
    match declarable(bindings, parameter.id) {
        Err(error) => outcome == Declared::Refused(error),
        Ok(_) => {
            &&& !(outcome is Refused)
            &&& can_evaluate_to(parameter.expression, bindings, bound_value(outcome))
            &&& calls_partial_builtin(parameter.expression) <==> is_partial_report(outcome)
        },
    }
}

/// Whether an outcome reports a call of a partial builtin.
pub open spec fn is_partial_report(outcome: Declared) -> bool {
    outcome matches Declared::Unevaluated(EvalError::PartialFunction(_))
}

/// The views of a list of inputs.
pub open spec fn input_views(inputs: Seq<InputValue>) -> Seq<InputValueView> {
    inputs.map_values(|input: InputValue| input@)
}

/// The views of a list of parameters.
pub open spec fn parameter_views(parameters: Seq<ParameterValue>) -> Seq<ParameterValueView> {
    parameters.map_values(|parameter: ParameterValue| parameter@)
}

impl ExpressionContext {
    /// Declares an identifier with a value: binds it where it may be
    /// declared, and reports why it may not where it may not.
    pub fn declare(&mut self, id: &str, value: Number) -> (r: Result<(), IdentifierError>)
        ensures
            r == declarable(old(self)@, id@),
            r is Ok ==> final(self)@ == old(self)@.insert(id@, value),
            r is Err ==> final(self)@ == old(self)@,
    {
        match self.validate(id) {
            Err(error) => Err(error),
            Ok(()) => {
                let bound = self.set_value(id, value);
                Ok(())
            },
        }
    }

    /// Declares an input.
    pub fn declare_input(&mut self, input: &InputValue) -> (r: Result<(), IdentifierError>)
        ensures
            r == declarable(old(self)@, input@.id),
            final(self)@ == with_input(old(self)@, input@),
    {
        self.declare(input.id.as_str(), input.value)
    }

    /// Ends the declaration of `id`, given what the evaluation of its
    /// expression came to: a refusal where the identifier may not be
    /// declared, else the binding of the value or the report of the
    /// failure.
    pub fn declare_evaluated(&mut self, id: &str, outcome: Result<Number, EvalError>) -> (r:
        Declared)
        ensures
            declarable(old(self)@, id@) matches Err(error) ==> r == Declared::Refused(error),
            declarable(old(self)@, id@) is Ok ==> (match outcome {
                Ok(value) => r == Declared::Bound(value),
                Err(error) => r == Declared::Unevaluated(error),
            }),
            final(self)@ == with_outcome(old(self)@, id@, r),
    {
        match outcome {
            Ok(value) => match self.declare(id, value) {
                Ok(()) => Declared::Bound(value),
                Err(error) => Declared::Refused(error),
            },
            Err(error) => match self.validate(id) {
                Ok(()) => Declared::Unevaluated(error),
                Err(refusal) => Declared::Refused(refusal),
            },
        }
    }

    /// Declares a parameter: evaluates its expression over the bindings so
    /// far and binds the value. The expression is not evaluated where the
    /// identifier may not be declared.
    pub fn declare_parameter(&mut self, parameter: &ParameterValue) -> (r: Declared)
        ensures
            outcome_allowed(old(self)@, parameter@, r),
            final(self)@ == with_outcome(old(self)@, parameter@.id, r),
    {
        match self.validate(parameter.id.as_str()) {
            Err(error) => Declared::Refused(error),
            Ok(()) => {
                let outcome = self.evaluate(parameter.expression.as_str());
                self.declare_evaluated(parameter.id.as_str(), outcome)
            },
        }
    }

    /// Declares inputs in order and reports on each. An input that is
    /// refused does not keep the others from being declared.
    pub fn declare_inputs(&mut self, inputs: &Vec<InputValue>) -> (r: Vec<
        Result<(), IdentifierError>,
    >)
        ensures
            final(self)@ == with_inputs(old(self)@, input_views(inputs@)),
            r.len() == inputs.len(),
            forall|k: int|
                0 <= k < inputs.len() ==> #[trigger] r[k] == declarable(
                    with_inputs(old(self)@, input_views(inputs@).take(k)),
                    inputs[k]@.id,
                ),
    {
        let mut report: Vec<Result<(), IdentifierError>> = Vec::new();
        let ghost views = input_views(inputs@);
        let mut i: usize = 0;
        while i < inputs.len()
            invariant
                i <= inputs.len(),
                views == input_views(inputs@),
                report.len() == i,
                self@ == with_inputs(old(self)@, views.take(i as int)),
                forall|k: int|
                    0 <= k < i ==> #[trigger] report[k] == declarable(
                        with_inputs(old(self)@, views.take(k)),
                        inputs[k]@.id,
                    ),
            decreases inputs.len() - i,
        {
            proof {
                assert(views.take(i + 1).drop_last() =~= views.take(i as int));
                assert(views.take(i + 1).last() == inputs[i as int]@);
            }
            let outcome = self.declare_input(&inputs[i]);
            report.push(outcome);
            i += 1;
        }
        assert(views.take(i as int) =~= views);
        report
    }

    /// Declares parameters in order and reports on each. Each expression
    /// sees the inputs and the parameters bound before it, never a later
    /// one; a parameter that fails does not keep the others from being
    /// declared.
    pub fn declare_parameters(&mut self, parameters: &Vec<ParameterValue>) -> (r: Vec<Declared>)
        ensures
            r.len() == parameters.len(),
            final(self)@ == with_outcomes(old(self)@, parameter_views(parameters@), r@),
            forall|k: int|
                0 <= k < parameters.len() ==> outcome_allowed(
                    with_outcomes(old(self)@, parameter_views(parameters@).take(k), r@.take(k)),
                    parameters[k]@,
                    #[trigger] r[k],
                ),
    {
        let mut report: Vec<Declared> = Vec::new();
        let ghost views = parameter_views(parameters@);
        let mut i: usize = 0;
        while i < parameters.len()
            invariant
                i <= parameters.len(),
                views == parameter_views(parameters@),
                report.len() == i,
                self@ == with_outcomes(old(self)@, views.take(i as int), report@),
                forall|k: int|
                    0 <= k < i ==> outcome_allowed(
                        with_outcomes(old(self)@, views.take(k), report@.take(k)),
                        parameters[k]@,
                        #[trigger] report[k],
                    ),
            decreases parameters.len() - i,
        {
            let ghost before = report@;
            let outcome = self.declare_parameter(&parameters[i]);
            report.push(outcome);
            proof {
                assert(views.take(i + 1).drop_last() =~= views.take(i as int));
                assert(views.take(i + 1).last() == parameters[i as int]@);
                assert(report@.drop_last() =~= before);
                assert(report@.take(i as int) =~= before);
                assert forall|k: int| 0 <= k < i implies report@.take(k) =~= before.take(k) by {}
            }
            i += 1;
        }
        assert(views.take(i as int) =~= views);
        assert(report@.take(i as int) =~= report@);
        report
    }
}

} // verus!
