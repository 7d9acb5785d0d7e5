//! Fabrics and the choice among them.

use vstd::prelude::*;
use crate::number::Number;

verus! {

/// A fabric: its name and its weight per area, in grams per square metre.
#[derive(Debug, PartialEq, Eq)]
pub struct Fabric {
    pub area_density_gsm: Number,
    pub name: String,
}

/// What a fabric is.
pub struct FabricView {
    pub area_density_gsm: Number,
    pub name: Seq<char>,
}

impl View for Fabric {
    type V = FabricView;

    open spec fn view(&self) -> FabricView {
        FabricView { area_density_gsm: self.area_density_gsm, name: self.name@ }
    }
}

impl Clone for Fabric {
    fn clone(&self) -> (r: Self)
        ensures
            r@ == self@,
    {
        Fabric { area_density_gsm: self.area_density_gsm, name: self.name.clone() }
    }
}

impl Default for Fabric {
    /// A fabric without a name and without weight.
    fn default() -> (r: Self)
        ensures
            r@.area_density_gsm.bits == 0,
            r@.name == Seq::<char>::empty(),
    {
        Fabric { area_density_gsm: Number::zero(), name: String::new() }
    }
}

impl Fabric {
    /// The fabric with the given weight and name.
    pub fn new(gsm: Number, name: &str) -> (r: Self)
        ensures
            r@.area_density_gsm == gsm,
            r@.name == name@,
    {
        Fabric { area_density_gsm: gsm, name: name.to_owned() }
    }

    /// Whether two fabrics have the same name and the same weight.
    pub fn same(&self, other: &Fabric) -> (r: bool)
        ensures
            r == (self@ == other@),
    {
        self.area_density_gsm.bits == other.area_density_gsm.bits && self.name == other.name
    }
}

/// The bits of 38, the weight of the lightest fabric on offer.
pub const GSM_38: u64 = 0x4043000000000000;

/// The bits of 48.
pub const GSM_48: u64 = 0x4048000000000000;

/// The bits of 67.
pub const GSM_67: u64 = 0x4050c00000000000;

/// The fabrics on offer: ripstop nylon in three weights.
pub open spec fn fabrics_on_offer() -> Seq<FabricView> {
    seq![
        FabricView { area_density_gsm: Number { bits: GSM_38 }, name: "Ripstop nylon"@ },
        FabricView { area_density_gsm: Number { bits: GSM_48 }, name: "Ripstop nylon"@ },
        FabricView { area_density_gsm: Number { bits: GSM_67 }, name: "Ripstop nylon"@ },
    ]
}

/// A choice of one fabric among several.
#[derive(Debug, PartialEq, Eq)]
pub struct FabricSelector {
    pub modified: bool,
    pub selected_fabric: Fabric,
    pub fabric_options: Vec<Fabric>,
}

/// What a fabric selector is.
pub struct FabricSelectorView {
    pub modified: bool,
    pub selected_fabric: FabricView,
    pub fabric_options: Seq<FabricView>,
}

impl View for FabricSelector {
    type V = FabricSelectorView;

    open spec fn view(&self) -> FabricSelectorView {
        FabricSelectorView {
            modified: self.modified,
            selected_fabric: self.selected_fabric@,
            fabric_options: self.fabric_options@.map_values(|fabric: Fabric| fabric@),
        }
    }
}

impl Clone for FabricSelector {
    fn clone(&self) -> (r: Self)
        ensures
            r@ == self@,
    {
        let mut options: Vec<Fabric> = Vec::new();
        let mut i: usize = 0;
        while i < self.fabric_options.len()
            invariant
                i <= self.fabric_options.len(),
                options.len() == i,
                forall|k: int| 0 <= k < i ==> (#[trigger] options[k])@ == self.fabric_options[k]@,
            decreases self.fabric_options.len() - i,
        {
            options.push(self.fabric_options[i].clone());
            i += 1;
        }
        let r = FabricSelector {
            modified: self.modified,
            selected_fabric: self.selected_fabric.clone(),
            fabric_options: options,
        };
        assert(r@.fabric_options =~= self@.fabric_options);
        r
    }
}

impl Default for FabricSelector {
    fn default() -> (r: Self)
        ensures
            r@ == initial_selector(),
    {
        FabricSelector::new()
    }
}

/// The selector as it starts out: the fabrics on offer, the lightest one
/// selected.
pub open spec fn initial_selector() -> FabricSelectorView {
    FabricSelectorView {
        modified: false,
        selected_fabric: fabrics_on_offer()[0],
        fabric_options: fabrics_on_offer(),
    }
}

impl FabricSelector {
    /// A selector over the fabrics on offer, with the lightest one
    /// selected.
    pub fn new() -> (r: Self)
        ensures
            r@ == initial_selector(),
    {
        let mut options: Vec<Fabric> = Vec::new();
        options.push(Fabric::new(Number::from_bits(GSM_38), "Ripstop nylon"));
        options.push(Fabric::new(Number::from_bits(GSM_48), "Ripstop nylon"));
        options.push(Fabric::new(Number::from_bits(GSM_67), "Ripstop nylon"));
        let default_fabric = Fabric::new(Number::from_bits(GSM_38), "Ripstop nylon");
        let r = FabricSelector {
            modified: false,
            fabric_options: options,
            selected_fabric: default_fabric,
        };
        assert(r@.fabric_options =~= fabrics_on_offer());
        r
    }

    /// Selects the option at `idx`; nothing changes where there is no such
    /// option.
    pub fn select(&mut self, idx: usize)
        ensures
            final(self)@.modified == old(self)@.modified,
            final(self)@.fabric_options == old(self)@.fabric_options,
            final(self)@.selected_fabric == if idx < old(self)@.fabric_options.len() {
                old(self)@.fabric_options[idx as int]
            } else {
                old(self)@.selected_fabric
            },
    {
        if idx < self.fabric_options.len() {
            self.selected_fabric = self.fabric_options[idx].clone();
        }
    }

    /// Whether two selectors offer and select the same.
    pub fn same(&self, other: &FabricSelector) -> (r: bool)
        ensures
            r == (self@ == other@),
    {
        if self.modified != other.modified || !self.selected_fabric.same(&other.selected_fabric)
            || self.fabric_options.len() != other.fabric_options.len() {
            assert(self.fabric_options.len() != other.fabric_options.len()
                ==> self@.fabric_options.len() != other@.fabric_options.len());
            return false;
        }
        let mut i: usize = 0;
        while i < self.fabric_options.len()
            invariant
                i <= self.fabric_options.len(),
                self.fabric_options.len() == other.fabric_options.len(),
                forall|k: int|
                    0 <= k < i ==> (#[trigger] self.fabric_options[k])@ == other.fabric_options[k]@,
            decreases self.fabric_options.len() - i,
        {
            if !self.fabric_options[i].same(&other.fabric_options[i]) {
                assert(self@.fabric_options[i as int] != other@.fabric_options[i as int]);
                return false;
            }
            i += 1;
        }
        assert(self@.fabric_options =~= other@.fabric_options);
        true
    }
}

} // verus!
