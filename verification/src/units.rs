//! The unit families in which a value is shown and edited.

use vstd::prelude::*;

verus! {

/// A pair of units, metric and imperial, that a value can be shown in.
/// Stored values are always in SI base units; the unit family only says
/// how to present them.
#[derive(Clone, Copy, Debug, PartialEq, Eq, Structural)]
pub enum StandardUnit {
    /// A plain number.
    UnitLess,
    MeterFoot,
    MillimeterInch,
    Radian,
    Degree,
}

impl Default for StandardUnit {
    fn default() -> (r: Self)
        ensures
            r == StandardUnit::UnitLess,
    {
        StandardUnit::UnitLess
    }
}

/// All unit families, in the order in which they are offered.
pub open spec fn unit_options() -> Seq<StandardUnit> {
    seq![
        StandardUnit::UnitLess,
        StandardUnit::MeterFoot,
        StandardUnit::MillimeterInch,
        StandardUnit::Radian,
        StandardUnit::Degree,
    ]
}

/// The label of a unit family.
pub open spec fn general_name(unit: StandardUnit) -> Seq<char> {
    match unit {
        StandardUnit::UnitLess => "unitless"@,
        StandardUnit::MeterFoot => "m | ft"@,
        StandardUnit::MillimeterInch => "mm | in"@,
        StandardUnit::Radian => "rad"@,
        StandardUnit::Degree => "deg"@,
    }
}

impl StandardUnit {
    /// All unit families, in the order in which they are offered.
    pub fn get_options() -> (r: Vec<Self>)
        ensures
            r@ == unit_options(),
    {
        let mut options: Vec<StandardUnit> = Vec::new();
        options.push(StandardUnit::UnitLess);
        options.push(StandardUnit::MeterFoot);
        options.push(StandardUnit::MillimeterInch);
        options.push(StandardUnit::Radian);
        options.push(StandardUnit::Degree);
        assert(options@ =~= unit_options());
        options
    }

    /// The label of the unit family.
    pub fn get_general_name(&self) -> (r: String)
        ensures
            r@ == general_name(*self),
    {
        match self {
            StandardUnit::UnitLess => "unitless".to_owned(),
            StandardUnit::MeterFoot => "m | ft".to_owned(),
            StandardUnit::MillimeterInch => "mm | in".to_owned(),
            StandardUnit::Radian => "rad".to_owned(),
            StandardUnit::Degree => "deg".to_owned(),
        }
    }
}

} // verus!
