//! The decay table: per decay class, the proportional-reduction factors that
//! downstream biomass reductions apply to dead and degraded wood. A species
//! code below three hundred selects the softwood table, any other code the
//! hardwood table. Values are IEEE 754 double-precision bit patterns.

use vstd::prelude::*;

verus! {

/// The four columns of a decay-table row.
#[derive(Clone, Copy, PartialEq, Eq, Structural, Debug)]
pub enum DecayProperty {
    WoodDensityProportion,
    RemainingBarkProportion,
    RemainingBranchProportion,
    CarbonFraction,
}

/// The column a decay property occupies in a table row.
pub open spec fn spec_decay_property_index(property: DecayProperty) -> int {
    match property {
        DecayProperty::WoodDensityProportion => 0,
        DecayProperty::RemainingBarkProportion => 1,
        DecayProperty::RemainingBranchProportion => 2,
        DecayProperty::CarbonFraction => 3,
    }
}

/// The softwood table: one row per decay class, columns in the order of
/// `DecayProperty`.
pub open spec fn spec_softwood_table() -> Seq<Seq<u64>> {
    seq![
        seq![0x3FEF0A3D70A3D70Au64, 0x3FF0000000000000u64, 0x3FF0000000000000u64, 0x40490CCCCCCCCCCDu64],
        seq![0x3FF0000000000000u64, 0x3FE999999999999Au64, 0x3FE0000000000000u64, 0x4049333333333333u64],
        seq![0x3FED70A3D70A3D71u64, 0x3FE0000000000000u64, 0x3FB999999999999Au64, 0x40494CCCCCCCCCCDu64],
        seq![0x3FE199999999999Au64, 0x3FC999999999999Au64, 0x0u64, 0x404A000000000000u64],
        seq![0x3FE199999999999Au64, 0x0u64, 0x0u64, 0x404A59999999999Au64],
    ]
}

/// The hardwood table: one row per decay class, columns in the order of
/// `DecayProperty`.
pub open spec fn spec_hardwood_table() -> Seq<Seq<u64>> {
    seq![
        seq![0x3FEFAE147AE147AEu64, 0x3FF0000000000000u64, 0x3FF0000000000000u64, 0x4047800000000000u64],
        seq![0x3FE999999999999Au64, 0x3FE999999999999Au64, 0x3FE0000000000000u64, 0x4047A66666666666u64],
        seq![0x3FE147AE147AE148u64, 0x3FE0000000000000u64, 0x3FB999999999999Au64, 0x40480CCCCCCCCCCDu64],
        seq![0x3FDB851EB851EB85u64, 0x3FC999999999999Au64, 0x0u64, 0x4048000000000000u64],
        seq![0x3FDB851EB851EB85u64, 0x0u64, 0x0u64, 0x404799999999999Au64],
    ]
}

/// The table a species code selects: softwood below three hundred, hardwood
/// at three hundred and above.
pub open spec fn spec_decay_table(spcd: u16) -> Seq<Seq<u64>> {
    if spcd < 300 {
        spec_softwood_table()
    } else {
        spec_hardwood_table()
    }
}

/// What a decay lookup gives: no value for class zero or any class beyond
/// the table, else the row's entry in the property's column.
pub open spec fn spec_decay_lookup(
    table: Seq<Seq<u64>>,
    decay_class: int,
    property: DecayProperty,
) -> Option<u64> {
    if decay_class == 0 || decay_class > table.len() {
        None
    } else {
        let row = table[decay_class - 1];
        let column = spec_decay_property_index(property);
        if column < row.len() {
            Some(row[column])
        } else {
            None
        }
    }
}

/// The decay table selected for one species code.
#[derive(Clone, Debug)]
pub struct Decay {
    properties: Vec<Vec<u64>>,
}

impl View for Decay {
    type V = Seq<Seq<u64>>;

    closed spec fn view(&self) -> Seq<Seq<u64>> {
        self.properties.deep_view()
    }
}

/// The column a decay property occupies in a table row.
fn decay_property_index(property: DecayProperty) -> (i: usize)
    ensures
        i as int == spec_decay_property_index(property),
{
    match property {
        DecayProperty::WoodDensityProportion => 0,
        DecayProperty::RemainingBarkProportion => 1,
        DecayProperty::RemainingBranchProportion => 2,
        DecayProperty::CarbonFraction => 3,
    }
}

impl Decay {
    /// Builds the decay table for a species code: the softwood table below
    /// code three hundred, the hardwood table otherwise.
    pub fn new(spcd: u16) -> (r: Decay)
        ensures
            r@ == spec_decay_table(spcd),
    {
        let properties: Vec<Vec<u64>> = if spcd < 300 {
            vec![
                vec![0x3FEF0A3D70A3D70Au64, 0x3FF0000000000000u64, 0x3FF0000000000000u64, 0x40490CCCCCCCCCCDu64],
                vec![0x3FF0000000000000u64, 0x3FE999999999999Au64, 0x3FE0000000000000u64, 0x4049333333333333u64],
                vec![0x3FED70A3D70A3D71u64, 0x3FE0000000000000u64, 0x3FB999999999999Au64, 0x40494CCCCCCCCCCDu64],
                vec![0x3FE199999999999Au64, 0x3FC999999999999Au64, 0x0u64, 0x404A000000000000u64],
                vec![0x3FE199999999999Au64, 0x0u64, 0x0u64, 0x404A59999999999Au64],
            ]
        } else {
            vec![
                vec![0x3FEFAE147AE147AEu64, 0x3FF0000000000000u64, 0x3FF0000000000000u64, 0x4047800000000000u64],
                vec![0x3FE999999999999Au64, 0x3FE999999999999Au64, 0x3FE0000000000000u64, 0x4047A66666666666u64],
                vec![0x3FE147AE147AE148u64, 0x3FE0000000000000u64, 0x3FB999999999999Au64, 0x40480CCCCCCCCCCDu64],
                vec![0x3FDB851EB851EB85u64, 0x3FC999999999999Au64, 0x0u64, 0x4048000000000000u64],
                vec![0x3FDB851EB851EB85u64, 0x0u64, 0x0u64, 0x404799999999999Au64],
            ]
        };
        proof {
            if spcd < 300 {
                assert(properties.deep_view() =~~= spec_softwood_table());
            } else {
                assert(properties.deep_view() =~~= spec_hardwood_table());
            }
        }
        Decay { properties }
    }

    /// The wood-density-remaining proportion for a decay class.
    pub fn get_wood_density_proportion(&self, decay_class: usize) -> (r: Option<u64>)
        ensures
            r == spec_decay_lookup(self@, decay_class as int, DecayProperty::WoodDensityProportion),
    {
        self.get_property(decay_class, DecayProperty::WoodDensityProportion)
    }

    /// The bark-remaining proportion for a decay class.
    pub fn get_remaining_bark_proportion(&self, decay_class: usize) -> (r: Option<u64>)
        ensures
            r == spec_decay_lookup(
                self@,
                decay_class as int,
                DecayProperty::RemainingBarkProportion,
            ),
    {
        self.get_property(decay_class, DecayProperty::RemainingBarkProportion)
    }

    /// The branch-remaining proportion for a decay class.
    pub fn get_remaining_branch_proportion(&self, decay_class: usize) -> (r: Option<u64>)
        ensures
            r == spec_decay_lookup(
                self@,
                decay_class as int,
                DecayProperty::RemainingBranchProportion,
            ),
    {
        self.get_property(decay_class, DecayProperty::RemainingBranchProportion)
    }

    /// The reference carbon-fraction value for a decay class.
    pub fn get_carbon_fraction(&self, decay_class: usize) -> (r: Option<u64>)
        ensures
            r == spec_decay_lookup(self@, decay_class as int, DecayProperty::CarbonFraction),
    {
        self.get_property(decay_class, DecayProperty::CarbonFraction)
    }

    /// The table entry for a decay class and property: no value for class
    /// zero or any class beyond the table.
    fn get_property(&self, decay_class: usize, property: DecayProperty) -> (r: Option<u64>)
        ensures
            r == spec_decay_lookup(self@, decay_class as int, property),
    {
        if decay_class == 0 || decay_class > self.properties.len() {
            None
        } else {
            let row = &self.properties[decay_class - 1];
            let column = decay_property_index(property);
            proof {
                assert(self@[decay_class - 1] == self.properties@[decay_class - 1].deep_view());
            }
            if column < row.len() {
                Some(row[column])
            } else {
                None
            }
        }
    }
}

/// Decay lookups give no value for decay class zero or any class above five,
/// and the selected table's row entry for classes one to five.
pub proof fn lemma_decay_class_range(spcd: u16, decay_class: int, property: DecayProperty)
    ensures
        decay_class == 0 || decay_class > 5 ==> spec_decay_lookup(
            spec_decay_table(spcd),
            decay_class,
            property,
        ) is None,
        1 <= decay_class <= 5 ==> spec_decay_lookup(spec_decay_table(spcd), decay_class, property)
            == Some(
            spec_decay_table(spcd)[decay_class - 1][spec_decay_property_index(property)],
        ),
{
    assert(spec_softwood_table().len() == 5);
    assert(spec_hardwood_table().len() == 5);
    if 1 <= decay_class <= 5 {
        assert(spec_decay_table(spcd)[decay_class - 1].len() == 4);
    }
}

} // verus!
