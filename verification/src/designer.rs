//! The design of a parachute: its inputs, parameters and sections, and the
//! pass that evaluates them.

use vstd::prelude::*;
use crate::context::{builtin_numbers, declarable, ExpressionContext};
use crate::edit::{deleted, delete_entry};
use crate::fabric::{initial_selector, FabricSelector, FabricSelectorView};
use crate::geometry::{coords, Point, UNITS_PER_METRE};
use crate::ident::IdentifierError;
use crate::number::Number;
use crate::params::{
    clone_inputs, clone_parameters, input_views, outcome_allowed, parameter_views, same_inputs,
    same_parameters, with_inputs,
    with_outcomes, Declared, InputValue, InputValueView, ParameterValue, ParameterValueView,
};
use crate::section::{
    cross_section, initial_expressions, line_updated, ChuteSection, ChuteSectionType,
    ChuteSectionTypeView, ChuteSectionView, CircularChuteSection, CircularChuteSectionView,
    GoreCount, Placed, INITIAL_SEAM_ALLOWANCE,
};
use crate::text::{clone_texts, decimal, numbered, same_texts, texts};
use crate::units::StandardUnit;

verus! {

/// The bits of 1.
pub const ONE: u64 = 0x3ff0000000000000;

/// The bits of 10.
pub const TEN: u64 = 0x4024000000000000;

/// The bits of 0.7.
pub const SEVEN_TENTHS: u64 = 0x3fe6666666666666;

/// The bits of 0.2.
pub const TWO_TENTHS: u64 = 0x3fc999999999999a;

/// The bits of 0.01.
pub const ONE_HUNDREDTH: u64 = 0x3f847ae147ae147b;

/// The resolution at which cross-sections are drawn for display.
pub const DISPLAY_RESOLUTION: u32 = 30;

/// The design of a parachute.
#[derive(Debug)]
pub struct ChuteDesigner {
    pub name: String,
    pub gores: GoreCount,
    /// The diameter, in metres.
    pub diameter: Number,
    pub fabric: FabricSelector,
    pub instructions: Vec<String>,
    pub use_global_seam_allowance: bool,
    /// The seam allowance that holds everywhere, in metres.
    pub global_seam_allowance: Number,
    pub input_values: Vec<InputValue>,
    pub parameter_values: Vec<ParameterValue>,
    pub chute_sections: Vec<ChuteSection>,
    /// The bindings of the last evaluation pass.
    pub evaluator_context: ExpressionContext,
}

/// What a design is.
pub struct ChuteDesignerView {
    pub name: Seq<char>,
    pub gores: int,
    pub diameter: Number,
    pub fabric: FabricSelectorView,
    pub instructions: Seq<Seq<char>>,
    pub use_global_seam_allowance: bool,
    pub global_seam_allowance: Number,
    pub input_values: Seq<InputValueView>,
    pub parameter_values: Seq<ParameterValueView>,
    pub chute_sections: Seq<ChuteSectionView>,
    pub bindings: Map<Seq<char>, Number>,
}

/// The views of a list of sections.
pub open spec fn section_views(sections: Seq<ChuteSection>) -> Seq<ChuteSectionView> {
    sections.map_values(|section: ChuteSection| section@)
}

impl View for ChuteDesigner {
    type V = ChuteDesignerView;

    open spec fn view(&self) -> ChuteDesignerView {
        ChuteDesignerView {
            name: self.name@,
            gores: self.gores@,
            diameter: self.diameter,
            fabric: self.fabric@,
            instructions: texts(self.instructions@),
            use_global_seam_allowance: self.use_global_seam_allowance,
            global_seam_allowance: self.global_seam_allowance,
            input_values: input_views(self.input_values@),
            parameter_values: parameter_views(self.parameter_values@),
            chute_sections: section_views(self.chute_sections@),
            bindings: self.evaluator_context@,
        }
    }
}

/// An input as a new design or the user adds it: a length between zero
/// and ten metres, at zero.
pub open spec fn new_input(id: Seq<char>) -> InputValueView {
    InputValueView {
        id,
        description: Seq::empty(),
        value: Number { bits: 0 },
        unit: StandardUnit::MeterFoot,
        range: (Number { bits: 0 }, Number { bits: TEN }),
    }
}

/// A ratio between zero and one.
pub open spec fn ratio_input(id: Seq<char>, description: Seq<char>, bits: u64) -> InputValueView {
    InputValueView {
        id,
        description,
        value: Number { bits },
        unit: StandardUnit::UnitLess,
        range: (Number { bits: 0 }, Number { bits: ONE }),
    }
}

/// The inputs that a design starts with.
pub open spec fn initial_inputs() -> Seq<InputValueView> {
    seq![
        new_input("input1"@),
        new_input("input2"@),
        InputValueView {
            id: "diameter"@,
            description: "Parachute Diameter"@,
            value: Number { bits: ONE },
            unit: StandardUnit::MeterFoot,
            range: (Number { bits: 0 }, Number { bits: TEN }),
        },
        ratio_input("height_ratio"@, "height / diameter of parachute"@, SEVEN_TENTHS),
        ratio_input("vent_ratio"@, "vent_diameter / diameter of parachute"@, TWO_TENTHS),
    ]
}

/// A parameter that is shown as a length.
pub open spec fn length_parameter(id: Seq<char>, expression: Seq<char>) -> ParameterValueView {
    ParameterValueView { id, expression, display_unit: StandardUnit::MeterFoot }
}

/// The parameters that a design starts with.
pub open spec fn initial_parameters() -> Seq<ParameterValueView> {
    seq![
        length_parameter("param1"@, "input1*2"@),
        length_parameter("param2"@, "input2*2"@),
        length_parameter("param3"@, "param1+param2"@),
    ]
}

/// A circular section as the user adds it.
pub open spec fn new_section() -> ChuteSectionView {
    ChuteSectionView {
        section_type: ChuteSectionTypeView::Circular(
            CircularChuteSectionView {
                line: ((0int, 0int), (UNITS_PER_METRE as int, 0int)),
                expressions: initial_expressions(),
            },
        ),
        gores: 8,
        fabric: initial_selector(),
        seam_allowance: (
            INITIAL_SEAM_ALLOWANCE,
            INITIAL_SEAM_ALLOWANCE,
            INITIAL_SEAM_ALLOWANCE,
            INITIAL_SEAM_ALLOWANCE,
        ),
    }
}

/// The section that a design starts with: a band from the vent to the rim.
pub open spec fn initial_section() -> ChuteSectionView {
    ChuteSectionView {
        section_type: ChuteSectionTypeView::Circular(
            CircularChuteSectionView {
                line: ((0int, 0int), (UNITS_PER_METRE as int, 0int)),
                expressions: seq![
                    "vent_ratio*diameter"@,
                    "height_ratio*diameter"@,
                    "diameter"@,
                    "0"@,
                ],
            },
        ),
        ..new_section()
    }
}

/// The design that the designer starts with.
pub open spec fn initial_design() -> ChuteDesignerView {
    ChuteDesignerView {
        name: "Untitled Parachute"@,
        gores: 8,
        diameter: Number { bits: ONE },
        fabric: initial_selector(),
        instructions: seq!["Cut out fabric"@],
        use_global_seam_allowance: true,
        global_seam_allowance: Number { bits: ONE_HUNDREDTH },
        input_values: initial_inputs(),
        parameter_values: initial_parameters(),
        chute_sections: seq![initial_section()],
        bindings: builtin_numbers(),
    }
}

fn make_input(id: &str, description: &str, bits: u64, unit: StandardUnit, upper: u64) -> (r:
    InputValue)
    ensures
        r@ == (InputValueView {
            id: id@,
            description: description@,
            value: Number { bits },
            unit,
            range: (Number { bits: 0 }, Number { bits: upper }),
        }),
{
    InputValue {
        id: id.to_owned(),
        description: description.to_owned(),
        value: Number::from_bits(bits),
        unit,
        range: (Number::zero(), Number::from_bits(upper)),
    }
}

fn make_parameter(id: &str, expression: &str) -> (r: ParameterValue)
    ensures
        r@ == length_parameter(id@, expression@),
{
    ParameterValue {
        id: id.to_owned(),
        expression: expression.to_owned(),
        display_unit: StandardUnit::MeterFoot,
    }
}

impl Default for ChuteDesigner {
    fn default() -> (r: Self)
        ensures
            r@ == initial_design(),
    {
        let mut inputs: Vec<InputValue> = Vec::new();
        inputs.push(make_input("input1", "", 0, StandardUnit::MeterFoot, TEN));
        inputs.push(make_input("input2", "", 0, StandardUnit::MeterFoot, TEN));
        inputs.push(make_input("diameter", "Parachute Diameter", ONE, StandardUnit::MeterFoot, TEN));
        inputs.push(
            make_input(
                "height_ratio",
                "height / diameter of parachute",
                SEVEN_TENTHS,
                StandardUnit::UnitLess,
                ONE,
            ),
        );
        inputs.push(
            make_input(
                "vent_ratio",
                "vent_diameter / diameter of parachute",
                TWO_TENTHS,
                StandardUnit::UnitLess,
                ONE,
            ),
        );
        let mut parameters: Vec<ParameterValue> = Vec::new();
        parameters.push(make_parameter("param1", "input1*2"));
        parameters.push(make_parameter("param2", "input2*2"));
        parameters.push(make_parameter("param3", "param1+param2"));

        let mut section = ChuteSection::new_circular();
        let band = CircularChuteSection {
            expressions: [
                "vent_ratio*diameter".to_owned(),
                "height_ratio*diameter".to_owned(),
                "diameter".to_owned(),
                "0".to_owned(),
            ],
            ..CircularChuteSection::default()
        };
        section.section_type = ChuteSectionType::Circular(band);
        let mut sections: Vec<ChuteSection> = Vec::new();
        sections.push(section);

        let mut instructions: Vec<String> = Vec::new();
        instructions.push("Cut out fabric".to_owned());

        let r = ChuteDesigner {
            name: "Untitled Parachute".to_owned(),
            gores: GoreCount::eight(),
            diameter: Number::from_bits(ONE),
            fabric: FabricSelector::new(),
            instructions,
            use_global_seam_allowance: true,
            global_seam_allowance: Number::from_bits(ONE_HUNDREDTH),
            input_values: inputs,
            parameter_values: parameters,
            chute_sections: sections,
            evaluator_context: ExpressionContext::new(),
        };
        proof {
            reveal_strlit("");
            assert(""@ =~= Seq::<char>::empty());
            assert(r@.input_values =~= initial_inputs());
            assert(r@.parameter_values =~= initial_parameters());
            assert(band@.expressions =~= initial_section().section_type->Circular_0.expressions);
            assert(r@.chute_sections =~= seq![initial_section()]);
            assert(r@.instructions =~= seq!["Cut out fabric"@]);
        }
        r
    }
}

/// A copy of a list of sections.
fn clone_sections(sections: &Vec<ChuteSection>) -> (r: Vec<ChuteSection>)
    ensures
        section_views(r@) == section_views(sections@),
{
    let mut copy: Vec<ChuteSection> = Vec::new();
    let mut i: usize = 0;
    while i < sections.len()
        invariant
            i <= sections.len(),
            copy.len() == i,
            forall|k: int| 0 <= k < i ==> (#[trigger] copy[k])@ == sections[k]@,
        decreases sections.len() - i,
    {
        copy.push(sections[i].clone());
        i += 1;
    }
    assert(section_views(copy@) =~= section_views(sections@));
    copy
}

impl Clone for ChuteDesigner {
    /// A design of its own that agrees with this one in everything.
    fn clone(&self) -> (r: Self)
        ensures
            r@ == self@,
    {
        ChuteDesigner {
            name: self.name.clone(),
            gores: self.gores,
            diameter: self.diameter,
            fabric: self.fabric.clone(),
            instructions: clone_texts(&self.instructions),
            use_global_seam_allowance: self.use_global_seam_allowance,
            global_seam_allowance: self.global_seam_allowance,
            input_values: clone_inputs(&self.input_values),
            parameter_values: clone_parameters(&self.parameter_values),
            chute_sections: clone_sections(&self.chute_sections),
            evaluator_context: self.evaluator_context.clone(),
        }
    }
}

impl PartialEq for ChuteDesigner {
    /// Two designs are equal where they have the same settings.
    fn eq(&self, other: &Self) -> (r: bool) {
        self.same_settings(other)
    }
}

impl vstd::std_specs::cmp::PartialEqSpecImpl for ChuteDesigner {
    open spec fn obeys_eq_spec() -> bool {
        true
    }

    open spec fn eq_spec(&self, other: &Self) -> bool {
        settings(self@) == settings(other@)
    }
}

/// What an evaluation pass found.
#[derive(Debug, PartialEq, Eq)]
pub struct PassReport {
    /// For each input, whether it was declared.
    pub inputs: Vec<Result<(), IdentifierError>>,
    /// For each parameter, how its declaration ended.
    pub parameters: Vec<Declared>,
    /// For each section, how the coordinates of its line came out.
    pub sections: Vec<Vec<Placed>>,
}

/// The number that the entry after `count` entries is named by: one more
/// than `count`, as far as a length can count.
pub open spec fn next_number(count: nat) -> nat {
    if count < usize::MAX {
        count + 1
    } else {
        count
    }
}

fn number_after(count: usize) -> (r: usize)
    ensures
        r == next_number(count as nat),
{
    if count < usize::MAX {
        count + 1
    } else {
        count
    }
}

impl ChuteDesigner {
    /// Adds an input named `input` and the number of inputs there are then.
    pub fn add_input(&mut self)
        ensures
            final(self)@ == (ChuteDesignerView {
                input_values: old(self)@.input_values.push(
                    new_input("input"@ + decimal(next_number(old(self)@.input_values.len()))),
                ),
                ..old(self)@
            }),
    {
        let id = numbered("input", number_after(self.input_values.len()));
        proof {
            reveal_strlit("");
            assert(""@ =~= Seq::<char>::empty());
        }
        let input = InputValue {
            id,
            description: "".to_owned(),
            value: Number::zero(),
            unit: StandardUnit::MeterFoot,
            range: (Number::zero(), Number::from_bits(TEN)),
        };
        self.input_values.push(input);
        assert(self@.input_values =~= old(self)@.input_values.push(input@));
    }

    /// Adds a parameter named `param` and the number of parameters there
    /// are then, with an expression to start from.
    pub fn add_parameter(&mut self)
        ensures
            final(self)@ == (ChuteDesignerView {
                parameter_values: old(self)@.parameter_values.push(
                    length_parameter(
                        "param"@ + decimal(next_number(old(self)@.parameter_values.len())),
                        "1.0*m+2.0*mm"@,
                    ),
                ),
                ..old(self)@
            }),
    {
        let id = numbered("param", number_after(self.parameter_values.len()));
        let parameter = ParameterValue {
            id,
            expression: "1.0*m+2.0*mm".to_owned(),
            display_unit: StandardUnit::MeterFoot,
        };
        self.parameter_values.push(parameter);
        assert(self@.parameter_values =~= old(self)@.parameter_values.push(parameter@));
    }

    /// Adds a circular section as it starts out.
    pub fn add_circular_section(&mut self)
        ensures
            final(self)@ == (ChuteDesignerView {
                chute_sections: old(self)@.chute_sections.push(new_section()),
                ..old(self)@
            }),
    {
        let section = ChuteSection::new_circular();
        self.chute_sections.push(section);
        assert(self@.chute_sections =~= old(self)@.chute_sections.push(new_section()));
    }

    /// Adds a step to the instructions.
    pub fn add_instruction(&mut self)
        ensures
            final(self)@ == (ChuteDesignerView {
                instructions: old(self)@.instructions.push("Step"@),
                ..old(self)@
            }),
    {
        self.instructions.push("Step".to_owned());
        assert(self@.instructions =~= old(self)@.instructions.push("Step"@));
    }

    /// Deletes the step at `idx` from the instructions.
    pub fn remove_instruction(&mut self, idx: usize)
        ensures
            final(self)@ == (ChuteDesignerView {
                instructions: deleted(old(self)@.instructions, idx as int),
                ..old(self)@
            }),
    {
        delete_entry(&mut self.instructions, idx);
        assert(self@.instructions =~= deleted(old(self)@.instructions, idx as int));
    }

    /// The cross-sections of all sections, at the resolution for display.
    pub fn get_cross_section(&self) -> (r: Vec<Vec<Point>>)
        ensures
            r.len() == self@.chute_sections.len(),
            forall|k: int|
                0 <= k < r.len() ==> coords((#[trigger] r[k])@) == cross_section(
                    self@.chute_sections[k].section_type,
                    DISPLAY_RESOLUTION as nat,
                ),
    {
        let mut result: Vec<Vec<Point>> = Vec::new();
        let mut i: usize = 0;
        while i < self.chute_sections.len()
            invariant
                i <= self.chute_sections.len(),
                result.len() == i,
                forall|k: int|
                    0 <= k < i ==> coords((#[trigger] result[k])@) == cross_section(
                        self@.chute_sections[k].section_type,
                        DISPLAY_RESOLUTION as nat,
                    ),
            decreases self.chute_sections.len() - i,
        {
            let points = self.chute_sections[i].get_cross_section(DISPLAY_RESOLUTION);
            result.push(points);
            i += 1;
        }
        result
    }

    /// Whether two designs have the same settings: name, gores, diameter,
    /// fabric, instructions, the use of a global seam allowance, inputs and
    /// parameters. The sections, the seam allowance itself and the bindings
    /// of the last pass do not count. Numbers are the same where their
    /// bits are.
    pub fn same_settings(&self, other: &ChuteDesigner) -> (r: bool)
        ensures
            r == (settings(self@) == settings(other@)),
    {
        self.name == other.name && self.gores.get() == other.gores.get() && self.diameter.bits
            == other.diameter.bits && self.fabric.same(&other.fabric) && same_texts(
            &self.instructions,
            &other.instructions,
        ) && self.use_global_seam_allowance == other.use_global_seam_allowance && same_inputs(
            &self.input_values,
            &other.input_values,
        ) && same_parameters(&self.parameter_values, &other.parameter_values)
    }

    /// Runs an evaluation pass: starts from the built-in constants,
    /// declares the inputs and then the parameters in order, and moves the
    /// line of every section to what its expressions come to. One entry
    /// that fails does not keep the others from being evaluated.
    pub fn evaluate(&mut self) -> (r: PassReport)
        ensures
            pass_done(old(self)@, final(self)@, r),
    {
        self.evaluator_context.reset();
        let inputs = self.evaluator_context.declare_inputs(&self.input_values);
        let parameters = self.evaluator_context.declare_parameters(&self.parameter_values);
        let mut sections: Vec<Vec<Placed>> = Vec::new();
        let mut i: usize = 0;
        while i < self.chute_sections.len()
            invariant
                i <= self.chute_sections.len(),
                self.chute_sections.len() == old(self).chute_sections.len(),
                sections.len() == i,
                self@ == (ChuteDesignerView {
                    chute_sections: self@.chute_sections,
                    bindings: self@.bindings,
                    ..old(self)@
                }),
                self@.bindings == with_outcomes(
                    with_inputs(builtin_numbers(), old(self)@.input_values),
                    old(self)@.parameter_values,
                    parameters@,
                ),
                forall|k: int|
                    0 <= k < i ==> line_updated(
                        old(self)@.chute_sections[k],
                        self@.chute_sections[k],
                        (#[trigger] sections[k])@,
                        self@.bindings,
                    ),
                forall|k: int|
                    i <= k < self.chute_sections.len() ==> (#[trigger] self.chute_sections[k])@
                        == old(self).chute_sections[k]@,
            decreases self.chute_sections.len() - i,
        {
            let mut section = self.chute_sections[i].clone();
            let report = section.update_line(&self.evaluator_context);
            let ghost before = self.chute_sections@;
            self.chute_sections.set(i, section);
            sections.push(report);
            assert forall|k: int| 0 <= k < i + 1 implies line_updated(
                old(self)@.chute_sections[k],
                self@.chute_sections[k],
                (#[trigger] sections[k])@,
                self@.bindings,
            ) by {
                if k < i {
                    assert(self@.chute_sections[k] == before[k]@);
                }
            }
            i += 1;
        }
        PassReport { inputs, parameters, sections }
    }
}

/// The settings of a design: what two designs are compared by.
pub open spec fn settings(design: ChuteDesignerView) -> ChuteDesignerView {
    ChuteDesignerView {
        chute_sections: Seq::empty(),
        global_seam_allowance: Number { bits: 0 },
        bindings: Map::empty(),
        ..design
    }
}

/// Whether `after` and `report` are what an evaluation pass makes of the
/// design `before`.
///
/// The inputs are declared in order on top of the built-in constants, and
/// each report says whether its identifier could be declared at that
/// point. The parameters follow, each bound to what its expression comes
/// to over the bindings that the outcomes before it left. Every section
/// has its line moved to what its expressions come to over the bindings
/// that the pass ends with. The bindings are those that the outcomes leave, and
/// nothing else changes.
pub open spec fn pass_done(
    before: ChuteDesignerView,
    after: ChuteDesignerView,
    report: PassReport,
) -> bool {
    let inputs = before.input_values;
    let parameters = before.parameter_values;
    let declared = with_inputs(builtin_numbers(), inputs);
    &&& after == (ChuteDesignerView {
        chute_sections: after.chute_sections,
        bindings: after.bindings,
        ..before
    })
    &&& report.inputs.len() == inputs.len()
    &&& forall|k: int|
        0 <= k < inputs.len() ==> #[trigger] report.inputs[k] == declarable(
            with_inputs(builtin_numbers(), inputs.take(k)),
            inputs[k].id,
        )
    &&& report.parameters.len() == parameters.len()
    &&& forall|k: int|
        0 <= k < parameters.len() ==> outcome_allowed(
            with_outcomes(declared, parameters.take(k), report.parameters@.take(k)),
            parameters[k],
            #[trigger] report.parameters[k],
        )
    &&& after.bindings == with_outcomes(declared, parameters, report.parameters@)
    &&& report.sections.len() == before.chute_sections.len()
    &&& after.chute_sections.len() == before.chute_sections.len()
    &&& forall|k: int|
        0 <= k < before.chute_sections.len() ==> line_updated(
            before.chute_sections[k],
            after.chute_sections[k],
            (#[trigger] report.sections[k])@,
            after.bindings,
        )
}

} // verus!
