//! The expression context: named numbers, and expressions evaluated over them.

use vstd::prelude::*;
use crate::ident::{has_id_error, id_error, IdentifierError};
use crate::number::{Number, ZERO_BITS};

verus! {

/// evalexpr's context of variables and functions, held without a look
/// inside.
#[verifier::external_type_specification]
#[verifier::external_body]
pub struct ExHashMapContext(evalexpr::HashMapContext);

/// evalexpr's error, held without a look inside.
#[verifier::external_type_specification]
#[verifier::external_body]
pub struct ExEvalexprError(evalexpr::EvalexprError);

/// The variables of an evalexpr context: each identifier that the context
/// binds, with the bits of its value where that value is a float and `None`
/// where it is of another type.
pub uninterp spec fn context_variables(ctx: evalexpr::HashMapContext) -> Map<Seq<char>, Option<u64>>;

/// The identifiers of the functions that were registered in an evalexpr
/// context; evalexpr's builtin functions are not among them.
pub uninterp spec fn context_functions(ctx: evalexpr::HashMapContext) -> Set<Seq<char>>;

/// Whether evalexpr's builtin functions are switched off in a context.
pub uninterp spec fn context_builtins_disabled(ctx: evalexpr::HashMapContext) -> bool;

/// Whether every variable of a context holds a float.
pub open spec fn holds_floats(variables: Map<Seq<char>, Option<u64>>) -> bool {
    forall|name: Seq<char>| #[trigger] variables.contains_key(name) ==> variables[name] is Some
}

/// The variables of a context that binds nothing.
pub open spec fn no_variables() -> Map<Seq<char>, Option<u64>> {
    Map::empty()
}

/// Calls `HashMapContext::new`, which makes a context without variables and
/// without registered functions, with the builtin functions switched on.
#[verifier::external_body]
fn new_context() -> (ctx: evalexpr::HashMapContext)
    ensures
        context_variables(ctx) == no_variables(),
        context_functions(ctx) == Set::<Seq<char>>::empty(),
        !context_builtins_disabled(ctx),
{
    evalexpr::HashMapContext::new()
}

/// Calls `HashMapContext::clear_variables`, which removes every variable and
/// leaves the functions and the switch for the builtin functions alone.
#[verifier::external_body]
fn clear_variables(ctx: &mut evalexpr::HashMapContext)
    ensures
        context_variables(*final(ctx)) == no_variables(),
        context_functions(*final(ctx)) == context_functions(*old(ctx)),
        context_builtins_disabled(*final(ctx)) == context_builtins_disabled(*old(ctx)),
    no_unwind
{
    ctx.clear_variables()
}

/// Calls `Context::get_value` and hands out what it found: nothing for an
/// unbound identifier, else the bits of the float, or `None` for a value
/// of another type.
#[verifier::external_body]
fn lookup(ctx: &evalexpr::HashMapContext, name: &str) -> (r: Option<Option<u64>>)
    ensures
        r == if context_variables(*ctx).contains_key(name@) {
            Some(context_variables(*ctx)[name@])
        } else {
            None
        },
{
    match evalexpr::Context::get_value(ctx, name) {
        None => None,
        Some(evalexpr::Value::Float(value)) => Some(Some(value.to_bits())),
        Some(_) => Some(None),
    }
}

/// Calls `ContextWithMutableVariables::set_value` with the float whose bits
/// are given. evalexpr binds an unbound identifier, overwrites a value of
/// the same type, and refuses, changing nothing, to overwrite a value of
/// another type. Functions and the switch for the builtin functions stay.
#[verifier::external_body]
fn set_number(ctx: &mut evalexpr::HashMapContext, name: String, bits: u64) -> (r: Result<
    (),
    evalexpr::EvalexprError,
>)
    ensures
        !context_variables(*old(ctx)).contains_key(name@) ==> r is Ok,
        r is Ok ==> context_variables(*final(ctx)) == context_variables(*old(ctx)).insert(
            name@,
            Some(bits),
        ),
        r is Err ==> context_variables(*final(ctx)) == context_variables(*old(ctx)),
        context_functions(*final(ctx)) == context_functions(*old(ctx)),
        context_builtins_disabled(*final(ctx)) == context_builtins_disabled(*old(ctx)),
    no_unwind
{
    evalexpr::ContextWithMutableVariables::set_value(
        ctx,
        name,
        evalexpr::Value::Float(evalexpr::FloatType::from_bits(bits)),
    )
}

/// Calls `Clone::clone`, which evalexpr derives for its context: the copy
/// has the same variables, the same functions and the same switch for the
/// builtin functions.
#[verifier::external_body]
fn clone_context(ctx: &evalexpr::HashMapContext) -> (r: evalexpr::HashMapContext)
    ensures
        context_variables(r) == context_variables(*ctx),
        context_functions(r) == context_functions(*ctx),
        context_builtins_disabled(r) == context_builtins_disabled(*ctx),
{
    ctx.clone()
}

/// The function identifiers that an expression calls, in the order in which
/// `Node::iter_function_identifiers` yields them for the operator tree that
/// `build_operator_tree` makes of the expression; `None` where evalexpr
/// cannot build a tree.
pub uninterp spec fn expression_functions(expr: Seq<char>) -> Option<Seq<Seq<char>>>;

/// Calls `build_operator_tree` and collects what
/// `Node::iter_function_identifiers` yields for the tree; the names are
/// taken on trust and called [`expression_functions`].
#[verifier::external_body]
fn parse_functions(expr: &str) -> (r: Result<Vec<String>, evalexpr::EvalexprError>)
    ensures
        r is Ok <==> expression_functions(expr@) is Some,
        r matches Ok(names) ==> names.deep_view() == expression_functions(expr@).unwrap(),
{
    match evalexpr::build_operator_tree(expr) {
        Ok(tree) => Ok(tree.iter_function_identifiers().map(String::from).collect()),
        Err(error) => Err(error),
    }
}

/// The builtin functions of evalexpr that are not defined on all their
/// arguments: `math::abs`, `shl` and `shr` overflow on extreme integers, and
/// `str::substring` may cut a character in two.
pub open spec fn is_partial_builtin(name: Seq<char>) -> bool {
    ||| name == "math::abs"@
    ||| name == "shl"@
    ||| name == "shr"@
    ||| name == "str::substring"@
}

/// Whether none of the given function names is a partial builtin.
pub open spec fn calls_total_functions(names: Seq<Seq<char>>) -> bool {
    forall|i: int| 0 <= i < names.len() ==> !is_partial_builtin(#[trigger] names[i])
}

/// Whether evalexpr can come to `outcome` when it evaluates an expression
/// over variables that all hold floats, in a context without registered
/// functions and with the builtin functions switched on: the bits of a
/// number, or `None` for an error. This is a relation and no function: the
/// bits of a result that is not a number and the last digits of a power or
/// a logarithm are the machine's choice, so two evaluations of one
/// expression need not agree.
pub uninterp spec fn evaluates_to(expr: Seq<char>, variables: Map<Seq<char>, Option<u64>>, outcome: Option<u64>) -> bool;

/// Calls `eval_number_with_context` and hands out the bits of the float it
/// computed. Of the outcome nothing is claimed but that it is one that
/// evalexpr can come to for this expression over the variables of this
/// context, which [`evaluates_to`] records. The context has no registered
/// functions and the expression calls no partial builtin, so that evalexpr
/// runs only code that returns on every argument.
#[verifier::external_body]
fn eval_number(expr: &str, ctx: &evalexpr::HashMapContext) -> (r: Result<
    u64,
    evalexpr::EvalexprError,
>)
    requires
        context_functions(*ctx) == Set::<Seq<char>>::empty(),
        !context_builtins_disabled(*ctx),
        holds_floats(context_variables(*ctx)),
        expression_functions(expr@) matches Some(names) ==> calls_total_functions(names),
    ensures
        r matches Ok(bits) ==> evaluates_to(expr@, context_variables(*ctx), Some(bits)),
        r is Err ==> evaluates_to(expr@, context_variables(*ctx), None),
{
    match evalexpr::eval_number_with_context(expr, ctx) {
        Ok(value) => Ok(value.to_bits()),
        Err(error) => Err(error),
    }
}

/// Formats an evalexpr error with `Debug`.
#[verifier::external_body]
fn error_message(error: &evalexpr::EvalexprError) -> (r: String) {
    format!("{:?}", error)
}

/// Why an expression has no value.
#[derive(Clone, Debug, PartialEq, Eq)]
pub enum EvalError {
    /// The expression calls the named builtin function, which is not
    /// defined on all its arguments and is therefore not offered.
    PartialFunction(String),
    /// The evaluator could not parse or evaluate the expression; the text
    /// is its report.
    Failed(String),
}

/// Whether an expression calls a partial builtin.
pub open spec fn calls_partial_builtin(expr: Seq<char>) -> bool {
    expression_functions(expr) matches Some(names) && !calls_total_functions(names)
}

/// The variables that a context with the given bindings hands to the
/// evaluator: each bound number as a float.
pub open spec fn as_variables(bindings: Map<Seq<char>, Number>) -> Map<Seq<char>, Option<u64>> {
    Map::new(
        |name: Seq<char>| bindings.contains_key(name),
        |name: Seq<char>| Some(bindings[name].bits),
    )
}

/// Whether `value` can be what an expression comes to over bindings: a
/// number that the evaluator can compute of it over exactly these
/// bindings, or none where the evaluator can report an error. An
/// expression that cannot be parsed or that calls a partial builtin is
/// never handed to the evaluator and has no value.
pub open spec fn can_evaluate_to(
    expr: Seq<char>,
    bindings: Map<Seq<char>, Number>,
    value: Option<Number>,
) -> bool {
    if expression_functions(expr) is Some && !calls_partial_builtin(expr) {
        evaluates_to(
            expr,
            as_variables(bindings),
            match value {
                Some(value) => Some(value.bits),
                None => None,
            },
        )
    } else {
        value is None
    }
}

/// The value that an evaluation ended with, if it ended with one.
pub open spec fn value_of(outcome: Result<Number, EvalError>) -> Option<Number> {
    match outcome {
        Ok(value) => Some(value),
        Err(_) => None,
    }
}

/// What is shown for a value: the value and `true`, or zero and `false`
/// where there is none.
pub open spec fn shown(value: Option<Number>) -> (Number, bool) {
    match value {
        Some(value) => (value, true),
        None => (Number { bits: ZERO_BITS }, false),
    }
}

/// Whether `name` names a partial builtin.
pub fn names_partial_builtin(name: &String) -> (r: bool)
    ensures
        r == is_partial_builtin(name@),
{
    *name == "math::abs".to_owned() || *name == "shl".to_owned() || *name == "shr".to_owned()
        || *name == "str::substring".to_owned()
}

/// Whether the name at `at` is the first partial builtin among `names`.
pub open spec fn is_first_partial(names: Seq<Seq<char>>, at: int) -> bool {
    &&& 0 <= at < names.len()
    &&& is_partial_builtin(names[at])
    &&& forall|j: int| 0 <= j < at ==> !is_partial_builtin(#[trigger] names[j])
}

/// The position of the first partial builtin among `names`, or `None` where
/// there is none.
pub fn first_partial_builtin(names: &Vec<String>) -> (r: Option<usize>)
    ensures
        r matches Some(at) ==> is_first_partial(names.deep_view(), at as int),
        r is None <==> calls_total_functions(names.deep_view()),
{
    let mut i: usize = 0;
    while i < names.len()
        invariant
            i <= names.len(),
            forall|j: int| 0 <= j < i ==> !is_partial_builtin(#[trigger] names.deep_view()[j]),
        decreases names.len() - i,
    {
        assert(names.deep_view()[i as int] == names[i as int]@);
        if names_partial_builtin(&names[i]) {
            return Some(i);
        }
        i += 1;
    }
    None
}

/// The value to show for an evaluation: the number where there is one, and
/// zero with the flag `false` where there is none.
pub fn value_or_zero(outcome: &Result<Number, EvalError>) -> (r: (Number, bool))
    ensures
        r == shown(value_of(*outcome)),
{
    match outcome {
        Ok(value) => (*value, true),
        Err(_) => (Number::zero(), false),
    }
}

/// The built-in constants, each with the bits of its value: the length
/// units `m`, `mm`, `yd`, `ft` and `in` in metres, the angle units `rad` and
/// `deg` in radians, and the numbers `pi` and `e`.
pub open spec fn builtins() -> Seq<(Seq<char>, Number)> {
    seq![
        ("m"@, Number { bits: M }),
        ("mm"@, Number { bits: MM }),
        ("yd"@, Number { bits: YD }),
        ("ft"@, Number { bits: FT }),
        ("in"@, Number { bits: IN }),
        ("rad"@, Number { bits: RAD }),
        ("deg"@, Number { bits: DEG }),
        ("pi"@, Number { bits: PI }),
        ("e"@, Number { bits: E }),
    ]
}

/// The bits of 1: a metre in metres.
pub const M: u64 = 0x3ff0000000000000;

/// The bits of 0.001: a millimetre in metres.
pub const MM: u64 = 0x3f50624dd2f1a9fc;

/// The bits of 0.9144: a yard in metres.
pub const YD: u64 = 0x3fed42c3c9eecbfb;

/// The bits of 0.3048: a foot in metres.
pub const FT: u64 = 0x3fd381d7dbf487fd;

/// The bits of 0.0254: an inch in metres.
pub const IN: u64 = 0x3f9a027525460aa6;

/// The bits of 1: a radian in radians.
pub const RAD: u64 = 0x3ff0000000000000;

/// The bits of the double nearest to a hundred and eightieth of pi: a
/// degree in radians.
pub const DEG: u64 = 0x3f91df46a2529d39;

/// The bits of the double nearest to pi.
pub const PI: u64 = 0x400921fb54442d18;

/// The bits of the double nearest to the base of the natural logarithm.
pub const E: u64 = 0x4005bf0a8b145769;

/// What a table of named numbers means: the name and the number of each row.
pub open spec fn table_view(table: Seq<(String, Number)>) -> Seq<(Seq<char>, Number)> {
    table.map_values(|row: (String, Number)| (row.0@, row.1))
}

/// The map that binds each row of a table on top of `base`, later rows
/// winning over earlier ones.
pub open spec fn bind_all(base: Map<Seq<char>, Number>, rows: Seq<(Seq<char>, Number)>) -> Map<
    Seq<char>,
    Number,
>
    decreases rows.len(),
{
    if rows.len() == 0 {
        base
    } else {
        bind_all(base, rows.drop_last()).insert(rows.last().0, rows.last().1)
    }
}

/// The bindings of a context that holds the built-in constants and nothing
/// else.
pub open spec fn builtin_numbers() -> Map<Seq<char>, Number> {
    bind_all(Map::empty(), builtins())
}

/// The built-in constants as a table.
pub fn default_vars() -> (r: Vec<(String, Number)>)
    ensures
        table_view(r@) == builtins(),
{
    let mut table: Vec<(String, Number)> = Vec::new();
    table.push(("m".to_owned(), Number::from_bits(M)));
    table.push(("mm".to_owned(), Number::from_bits(MM)));
    table.push(("yd".to_owned(), Number::from_bits(YD)));
    table.push(("ft".to_owned(), Number::from_bits(FT)));
    table.push(("in".to_owned(), Number::from_bits(IN)));
    table.push(("rad".to_owned(), Number::from_bits(RAD)));
    table.push(("deg".to_owned(), Number::from_bits(DEG)));
    table.push(("pi".to_owned(), Number::from_bits(PI)));
    table.push(("e".to_owned(), Number::from_bits(E)));
    assert(table_view(table@) =~= builtins());
    table
}

/// No two built-in constants share a name.
pub proof fn lemma_builtin_names_distinct()
    ensures
        forall|i: int, j: int|
            0 <= i < j < builtins().len() ==> (#[trigger] builtins()[i]).0 != (
            #[trigger] builtins()[j]).0,
{
    reveal_strlit("m");
    reveal_strlit("mm");
    reveal_strlit("yd");
    reveal_strlit("ft");
    reveal_strlit("in");
    reveal_strlit("rad");
    reveal_strlit("deg");
    reveal_strlit("pi");
    reveal_strlit("e");
    let b = builtins();
    assert(b[0].0.len() == 1 && b[8].0.len() == 1 && b[0].0[0] != b[8].0[0]);
    assert(b[5].0.len() == 3 && b[6].0.len() == 3 && b[5].0[0] != b[6].0[0]);
    assert(b[1].0.len() == 2 && b[2].0.len() == 2 && b[3].0.len() == 2 && b[4].0.len() == 2
        && b[7].0.len() == 2);
    assert(b[1].0[0] == 'm' && b[2].0[0] == 'y' && b[3].0[0] == 'f' && b[4].0[0] == 'i'
        && b[7].0[0] == 'p');
}

/// Whether some row of a table carries `name`.
pub open spec fn names_row(rows: Seq<(Seq<char>, Number)>, name: Seq<char>) -> bool {
    exists|i: int| 0 <= i < rows.len() && (#[trigger] rows[i]).0 == name
}

/// Binding rows on top of a map binds what the map bound and the names of
/// the rows, and nothing else.
pub proof fn lemma_bind_all_contains(
    base: Map<Seq<char>, Number>,
    rows: Seq<(Seq<char>, Number)>,
    name: Seq<char>,
)
    ensures
        bind_all(base, rows).contains_key(name) <==> (base.contains_key(name) || names_row(
            rows,
            name,
        )),
    decreases rows.len(),
{
    if rows.len() > 0 {
        let front = rows.drop_last();
        let last = rows.len() - 1;
        lemma_bind_all_contains(base, front, name);
        if names_row(rows, name) {
            let i = choose|i: int| 0 <= i < rows.len() && (#[trigger] rows[i]).0 == name;
            if i < last {
                assert(front[i].0 == name);
            }
        }
        if names_row(front, name) {
            let i = choose|i: int| 0 <= i < front.len() && (#[trigger] front[i]).0 == name;
            assert(rows[i].0 == name);
        }
        if rows[last].0 == name {
            assert(names_row(rows, name));
        }
    }
}

/// The named numbers that expressions may refer to. A context never binds
/// an identifier twice: a second declaration is refused, not taken as an
/// update.
#[derive(Debug)]
pub struct ExpressionContext {
    inner: evalexpr::HashMapContext,
}

impl Clone for ExpressionContext {
    /// A context of its own with the same bindings.
    fn clone(&self) -> (r: Self)
        ensures
            r@ == self@,
    {
        proof {
            use_type_invariant(self);
        }
        let r = ExpressionContext { inner: clone_context(&self.inner) };
        assert(r@ =~= self@);
        r
    }
}

impl ExpressionContext {
    #[verifier::type_invariant]
    spec fn inv(self) -> bool {
        &&& context_functions(self.inner) == Set::<Seq<char>>::empty()
        &&& !context_builtins_disabled(self.inner)
        &&& holds_floats(context_variables(self.inner))
    }

    /// The number that each bound identifier stands for.
    pub closed spec fn view(&self) -> Map<Seq<char>, Number> {
        Map::new(
            |name: Seq<char>| context_variables(self.inner).contains_key(name),
            |name: Seq<char>| Number { bits: context_variables(self.inner)[name].unwrap() },
        )
    }

    /// A context that binds the built-in constants and nothing else.
    pub fn new() -> (r: Self)
        ensures
            r@ == builtin_numbers(),
    {
        let mut r = ExpressionContext { inner: new_context() };
        r.reset();
        r
    }

    /// Forgets every binding and binds the built-in constants afresh, as at
    /// the start of each evaluation pass.
    pub fn reset(&mut self)
        ensures
            final(self)@ == builtin_numbers(),
    {
        proof {
            use_type_invariant(&*self);
        }
        clear_variables(&mut self.inner);
        let table = default_vars();
        let mut i: usize = 0;
        assert(self@ =~= bind_all(Map::empty(), builtins().take(0)));
        while i < table.len()
            invariant
                i <= table.len(),
                table_view(table@) == builtins(),
                context_functions(self.inner) == Set::<Seq<char>>::empty(),
                !context_builtins_disabled(self.inner),
                holds_floats(context_variables(self.inner)),
                self@ == bind_all(Map::empty(), builtins().take(i as int)),
            decreases table.len() - i,
        {
            let name = table[i].0.clone();
            let value = table[i].1;
            proof {
                assert(table_view(table@)[i as int] == (table@[i as int].0@, table@[i as int].1));
                lemma_builtin_names_distinct();
                let rows = builtins().take(i as int);
                assert(name@ == builtins()[i as int].0);
                lemma_bind_all_contains(Map::empty(), rows, name@);
                if names_row(rows, name@) {
                    let j = choose|j: int| 0 <= j < rows.len() && (#[trigger] rows[j]).0 == name@;
                    assert(builtins()[j].0 == builtins()[i as int].0);
                }
                assert(!self@.contains_key(name@));
                assert(builtins().take(i + 1).drop_last() =~= builtins().take(i as int));
            }
            let ghost before = self@;
            let bound = set_number(&mut self.inner, name, value.bits);
            assert(self@ =~= before.insert(name@, value));
            i += 1;
        }
        assert(builtins().take(i as int) =~= builtins());
    }

    /// Whether the context binds `name`.
    pub fn contains(&self, name: &str) -> (r: bool)
        ensures
            r == self@.contains_key(name@),
    {
        lookup(&self.inner, name).is_some()
    }

    /// The number that `name` stands for, if the context binds it.
    pub fn get_value(&self, name: &str) -> (r: Option<Number>)
        ensures
            r == if self@.contains_key(name@) {
                Some(self@[name@])
            } else {
                None
            },
    {
        proof {
            use_type_invariant(self);
        }
        match lookup(&self.inner, name) {
            Some(Some(bits)) => Some(Number { bits }),
            _ => None,
        }
    }

    /// Binds `name` to `value`, unless the context already binds `name`:
    /// then nothing changes and the duplicate is reported.
    pub fn set_value(&mut self, name: &str, value: Number) -> (r: Result<(), IdentifierError>)
        ensures
            old(self)@.contains_key(name@) ==> r == duplicate() && final(self)@ == old(self)@,
            !old(self)@.contains_key(name@) ==> r is Ok && final(self)@ == old(self)@.insert(
                name@,
                value,
            ),
    {
        proof {
            use_type_invariant(&*self);
        }
        if lookup(&self.inner, name).is_some() {
            return Err(IdentifierError::DuplicateIdentifier);
        }
        let ghost before = self@;
        let bound = set_number(&mut self.inner, name.to_owned(), value.bits);
        assert(self@ =~= before.insert(name@, value));
        Ok(())
    }

    /// Whether `id` may be declared next: it must not be bound yet, and it
    /// must follow the rules for identifiers. A bound identifier is reported
    /// as a duplicate whatever else is wrong with it.
    pub fn validate(&self, id: &str) -> (r: Result<(), IdentifierError>)
        ensures
            r == declarable(self@, id@),
    {
        if self.contains(id) {
            Err(IdentifierError::DuplicateIdentifier)
        } else {
            match has_id_error(id) {
                Some(reason) => Err(IdentifierError::InvalidIdentifier(reason)),
                None => Ok(()),
            }
        }
    }

    /// Evaluates `expr` over the bindings of the context, which stays as it
    /// is. What comes back is what the evaluator comes to for the
    /// expression over exactly these bindings: a number, or its report of
    /// a failure. An expression that cannot be parsed fails in the same
    /// way; one that calls a partial builtin is not evaluated at all, and
    /// the first such call is reported.
    pub fn evaluate(&self, expr: &str) -> (r: Result<Number, EvalError>)
        ensures
            can_evaluate_to(expr@, self@, value_of(r)),
            expression_functions(expr@) is None ==> r matches Err(EvalError::Failed(_)),
            calls_partial_builtin(expr@) <==> r matches Err(EvalError::PartialFunction(_)),
            r matches Err(EvalError::PartialFunction(name)) ==> exists|at: int|
                is_first_partial(expression_functions(expr@).unwrap(), at) && name@
                    == #[trigger] expression_functions(expr@).unwrap()[at],
    {
        proof {
            use_type_invariant(self);
            assert(context_variables(self.inner) =~= as_variables(self@));
        }
        match parse_functions(expr) {
            Err(error) => Err(EvalError::Failed(error_message(&error))),
            Ok(names) => match first_partial_builtin(&names) {
                Some(at) => {
                    let name = names[at].clone();
                    assert(names.deep_view()[at as int] == name@);
                    Err(EvalError::PartialFunction(name))
                },
                None => match eval_number(expr, &self.inner) {
                    Ok(bits) => Ok(Number { bits }),
                    Err(error) => Err(EvalError::Failed(error_message(&error))),
                },
            },
        }
    }

    /// Evaluates `expr` for display: the value and `true`, or zero and
    /// `false` where the expression has no value.
    pub fn evaluate_or_zero(&self, expr: &str) -> (r: (Number, bool))
        ensures
            exists|value: Option<Number>| #[trigger]
                can_evaluate_to(expr@, self@, value) && r == shown(value),
    {
        let outcome = self.evaluate(expr);
        assert(can_evaluate_to(expr@, self@, value_of(outcome)));
        value_or_zero(&outcome)
    }
}

/// The refusal of an identifier that is already bound.
pub open spec fn duplicate() -> Result<(), IdentifierError> {
    Err(IdentifierError::DuplicateIdentifier)
}

/// Whether `id` may be declared in a context with the given bindings, and
/// if not, why.
pub open spec fn declarable(bindings: Map<Seq<char>, Number>, id: Seq<char>) -> Result<
    (),
    IdentifierError,
> {
    if bindings.contains_key(id) {
        Err(IdentifierError::DuplicateIdentifier)
    } else {
        match id_error(id) {
            Some(reason) => Err(IdentifierError::InvalidIdentifier(reason)),
            None => Ok(()),
        }
    }
}

} // verus!
