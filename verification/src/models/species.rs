//! The species coefficient store and its resolution policy: species code to
//! species record, model kind to its per-division records, and requested
//! division to a record, falling back to the "default" division.

use vstd::prelude::*;

verus! {

/// The closed set of model kinds; each kind owns an independent set of
/// per-division coefficient records.
#[derive(Clone, Copy, PartialEq, Eq, Structural, Debug, Hash)]
pub enum Model {
    StemWoodVolume,
    StemBarkVolume,
    StemTotalVolume,
    StemWoodVolumeRatio,
    StemTotalVolumeRatio,
    TotalBiomass,
    BarkBiomass,
    BranchBiomass,
    FoliageBiomass,
    HeightDiameter,
}

/// Scalar species properties held beside the model records.
#[derive(Clone, Copy, PartialEq, Eq, Structural, Debug, Hash)]
pub enum Property {
    WoodSpecificGravity,
    BarkSpecificGravity,
    CarbonFraction,
}

/// The model kind a dataset name stands for.
pub open spec fn spec_model_kind_from_name(name: Seq<char>) -> Option<Model> {
    if name == "StemWoodVolume"@ {
        Some(Model::StemWoodVolume)
    } else if name == "StemBarkVolume"@ {
        Some(Model::StemBarkVolume)
    } else if name == "StemTotalVolume"@ {
        Some(Model::StemTotalVolume)
    } else if name == "StemWoodVolumeRatio"@ {
        Some(Model::StemWoodVolumeRatio)
    } else if name == "StemTotalVolumeRatio"@ {
        Some(Model::StemTotalVolumeRatio)
    } else if name == "TotalBiomass"@ {
        Some(Model::TotalBiomass)
    } else if name == "BarkBiomass"@ {
        Some(Model::BarkBiomass)
    } else if name == "BranchBiomass"@ {
        Some(Model::BranchBiomass)
    } else if name == "FoliageBiomass"@ {
        Some(Model::FoliageBiomass)
    } else if name == "HeightDiameter"@ {
        Some(Model::HeightDiameter)
    } else {
        None
    }
}

/// Decodes a model kind from the name the dataset writes it under.
pub fn model_kind_from_name(name: &str) -> (r: Option<Model>)
    ensures
        r == spec_model_kind_from_name(name@),
{
    let n: String = name.to_owned();
    if n == "StemWoodVolume".to_owned() {
        Some(Model::StemWoodVolume)
    } else if n == "StemBarkVolume".to_owned() {
        Some(Model::StemBarkVolume)
    } else if n == "StemTotalVolume".to_owned() {
        Some(Model::StemTotalVolume)
    } else if n == "StemWoodVolumeRatio".to_owned() {
        Some(Model::StemWoodVolumeRatio)
    } else if n == "StemTotalVolumeRatio".to_owned() {
        Some(Model::StemTotalVolumeRatio)
    } else if n == "TotalBiomass".to_owned() {
        Some(Model::TotalBiomass)
    } else if n == "BarkBiomass".to_owned() {
        Some(Model::BarkBiomass)
    } else if n == "BranchBiomass".to_owned() {
        Some(Model::BranchBiomass)
    } else if n == "FoliageBiomass".to_owned() {
        Some(Model::FoliageBiomass)
    } else if n == "HeightDiameter".to_owned() {
        Some(Model::HeightDiameter)
    } else {
        None
    }
}

/// The scalar property a dataset name stands for.
pub open spec fn spec_property_from_name(name: Seq<char>) -> Option<Property> {
    if name == "WoodSpecificGravity"@ {
        Some(Property::WoodSpecificGravity)
    } else if name == "BarkSpecificGravity"@ {
        Some(Property::BarkSpecificGravity)
    } else if name == "CarbonFraction"@ {
        Some(Property::CarbonFraction)
    } else {
        None
    }
}

/// Decodes a scalar property from the name the dataset writes it under.
pub fn property_from_name(name: &str) -> (r: Option<Property>)
    ensures
        r == spec_property_from_name(name@),
{
    let n: String = name.to_owned();
    if n == "WoodSpecificGravity".to_owned() {
        Some(Property::WoodSpecificGravity)
    } else if n == "BarkSpecificGravity".to_owned() {
        Some(Property::BarkSpecificGravity)
    } else if n == "CarbonFraction".to_owned() {
        Some(Property::CarbonFraction)
    } else {
        None
    }
}

/// Every failure a lookup or an equation selection can surface. All are
/// recoverable and deterministic in the inputs and the store.
#[derive(Clone, Copy, PartialEq, Eq, Structural, Debug)]
pub enum VbxError {
    /// The species code is absent from the store.
    SpeciesNotFound(u16),
    /// The species has no records at all for the model kind.
    ModelNotFound(u16, Model),
    /// The species has records for the kind, but neither the requested
    /// division nor "default" is among them.
    DivisionNotFound(u16, Model),
    /// The species record lacks the requested scalar property.
    PropertyNotFound(u16, Property),
    /// A record's numeric form selector lies outside the five known forms.
    UnrecognizedModelForm(u8),
    /// A coefficient list is shorter than its equation requires.
    MissingCoefficients { needed: usize },
}

/// One coefficient record: a descriptive model-family tag, the numeric form
/// selector that chooses the regression equation, and the ordered
/// coefficients as IEEE 754 double-precision bit patterns.
#[derive(Clone, Debug)]
pub struct ModelData {
    pub group: String,
    pub form: u8,
    pub coefs: Vec<u64>,
}

/// A coefficient record calibrated for one ecological division.
#[derive(Clone, Debug)]
pub struct DivisionEntry {
    pub division: String,
    pub data: ModelData,
}

/// All division records a species holds for one model kind.
#[derive(Clone, Debug)]
pub struct ModelEntry {
    pub kind: Model,
    pub divisions: Vec<DivisionEntry>,
}

/// One scalar property of a species.
#[derive(Clone, Copy, PartialEq, Eq, Structural, Debug)]
pub struct PropertyEntry {
    pub property: Property,
    pub value: u64,
}

/// A species record: its model records grouped by kind, and its scalar
/// properties. Immutable once loaded.
#[derive(Clone, Debug)]
pub struct Species {
    pub models: Vec<ModelEntry>,
    pub properties: Vec<PropertyEntry>,
}

/// A species record keyed by its inventory species code.
#[derive(Clone, Debug)]
pub struct SpeciesEntry {
    pub spcd: u16,
    pub species: Species,
}

/// The coefficient store: the parsed species dataset, read-only after it is
/// built. Lookups take the first entry with a matching key.
#[derive(Clone, Debug)]
pub struct SpeciesStore {
    pub entries: Vec<SpeciesEntry>,
}

/// The species record stored under a code: the first entry that carries it.
pub open spec fn spec_find_species(entries: Seq<SpeciesEntry>, spcd: u16) -> Option<Species>
    decreases entries.len(),
{
    if entries.len() == 0 {
        None
    } else if entries[0].spcd == spcd {
        Some(entries[0].species)
    } else {
        spec_find_species(entries.drop_first(), spcd)
    }
}

/// The per-division records a species holds for a model kind.
pub open spec fn spec_find_model(models: Seq<ModelEntry>, kind: Model) -> Option<ModelEntry>
    decreases models.len(),
{
    if models.len() == 0 {
        None
    } else if models[0].kind == kind {
        Some(models[0])
    } else {
        spec_find_model(models.drop_first(), kind)
    }
}

/// The record stored under a division name.
pub open spec fn spec_find_division(divisions: Seq<DivisionEntry>, division: Seq<char>) -> Option<
    ModelData,
>
    decreases divisions.len(),
{
    if divisions.len() == 0 {
        None
    } else if divisions[0].division@ == division {
        Some(divisions[0].data)
    } else {
        spec_find_division(divisions.drop_first(), division)
    }
}

/// The value stored under a scalar property.
pub open spec fn spec_find_property(properties: Seq<PropertyEntry>, property: Property) -> Option<
    u64,
>
    decreases properties.len(),
{
    if properties.len() == 0 {
        None
    } else if properties[0].property == property {
        Some(properties[0].value)
    } else {
        spec_find_property(properties.drop_first(), property)
    }
}

/// The division-selection policy: the requested division's record where one
/// exists, else whatever stands under "default". All or nothing — records are
/// never merged across divisions.
pub open spec fn spec_resolve_division(
    divisions: Seq<DivisionEntry>,
    division: Seq<char>,
) -> Option<ModelData> {
    match spec_find_division(divisions, division) {
        Some(m) => Some(m),
        None => spec_find_division(divisions, "default"@),
    }
}

/// Full resolution: species code, then model kind, then division with the
/// "default" fallback, each miss surfacing its own error.
pub open spec fn spec_resolve(
    entries: Seq<SpeciesEntry>,
    spcd: u16,
    kind: Model,
    division: Seq<char>,
) -> Result<ModelData, VbxError> {
    match spec_find_species(entries, spcd) {
        None => Err(VbxError::SpeciesNotFound(spcd)),
        Some(sp) => match spec_find_model(sp.models@, kind) {
            None => Err(VbxError::ModelNotFound(spcd, kind)),
            Some(me) => match spec_resolve_division(me.divisions@, division) {
                Some(m) => Ok(m),
                None => Err(VbxError::DivisionNotFound(spcd, kind)),
            },
        },
    }
}

/// Fallback law: where the requested division has no record, resolution
/// gives exactly what stands under "default".
pub proof fn lemma_division_fallback(divisions: Seq<DivisionEntry>, division: Seq<char>)
    requires
        spec_find_division(divisions, division) is None,
    ensures
        spec_resolve_division(divisions, division) == spec_find_division(divisions, "default"@),
{
}

/// Preference law: where the requested division has a record, resolution
/// gives that record, whatever stands under "default".
pub proof fn lemma_division_preference(divisions: Seq<DivisionEntry>, division: Seq<char>)
    requires
        spec_find_division(divisions, division) is Some,
    ensures
        spec_resolve_division(divisions, division) == spec_find_division(divisions, division),
{
}

/// A model kind whose one record lies under the "default" division resolves
/// every requested division to that record.
pub proof fn lemma_default_only_division(divisions: Seq<DivisionEntry>, division: Seq<char>)
    requires
        divisions.len() == 1,
        divisions[0].division@ == "default"@,
    ensures
        spec_resolve_division(divisions, division) == Some(divisions[0].data),
{
    if divisions[0].division@ == division {
    } else {
        assert(spec_find_division(divisions.drop_first(), division) is None);
        assert(spec_find_division(divisions, "default"@) == Some(divisions[0].data));
    }
}

/// Success law: resolution yields a record exactly when the species is in
/// the store, it holds the model kind, and the kind holds the requested
/// division or a "default" one.
pub proof fn lemma_resolve_success(
    entries: Seq<SpeciesEntry>,
    spcd: u16,
    kind: Model,
    division: Seq<char>,
)
    ensures
        spec_resolve(entries, spcd, kind, division) is Ok <==> ({
            let sp = spec_find_species(entries, spcd);
            sp is Some && {
                let me = spec_find_model(sp->Some_0.models@, kind);
                me is Some && spec_resolve_division(me->Some_0.divisions@, division) is Some
            }
        }),
{
}

/// Looks up a species record by its code.
pub fn get_species<'a>(store: &'a SpeciesStore, spcd: u16) -> (r: Result<&'a Species, VbxError>)
    ensures
        match r {
            Ok(s) => spec_find_species(store.entries@, spcd) == Some(*s),
            Err(e) => {
                &&& spec_find_species(store.entries@, spcd) is None
                &&& e == VbxError::SpeciesNotFound(spcd)
            },
        },
{
    let n = store.entries.len();
    let mut i: usize = 0;
    proof {
        assert(store.entries@.skip(0) =~= store.entries@);
    }
    while i < n
        invariant
            i <= n,
            n == store.entries.len(),
            spec_find_species(store.entries@, spcd) == spec_find_species(
                store.entries@.skip(i as int),
                spcd,
            ),
        decreases n - i,
    {
        if store.entries[i].spcd == spcd {
            proof {
                assert(store.entries@.skip(i as int)[0] == store.entries@[i as int]);
            }
            return Ok(&store.entries[i].species);
        }
        proof {
            assert(store.entries@.skip(i as int).drop_first() =~= store.entries@.skip(
                i as int + 1,
            ));
        }
        i = i + 1;
    }
    proof {
        assert(store.entries@.skip(n as int) =~= Seq::<SpeciesEntry>::empty());
    }
    Err(VbxError::SpeciesNotFound(spcd))
}

/// The model entry for a kind, by linear scan.
fn find_model_entry<'a>(models: &'a Vec<ModelEntry>, kind: Model) -> (r: Option<&'a ModelEntry>)
    ensures
        match r {
            Some(me) => spec_find_model(models@, kind) == Some(*me),
            None => spec_find_model(models@, kind) is None,
        },
{
    let n = models.len();
    let mut i: usize = 0;
    proof {
        assert(models@.skip(0) =~= models@);
    }
    while i < n
        invariant
            i <= n,
            n == models.len(),
            spec_find_model(models@, kind) == spec_find_model(models@.skip(i as int), kind),
        decreases n - i,
    {
        if models[i].kind == kind {
            proof {
                assert(models@.skip(i as int)[0] == models@[i as int]);
            }
            return Some(&models[i]);
        }
        proof {
            assert(models@.skip(i as int).drop_first() =~= models@.skip(i as int + 1));
        }
        i = i + 1;
    }
    proof {
        assert(models@.skip(n as int) =~= Seq::<ModelEntry>::empty());
    }
    None
}

/// The record under a division name, by linear scan.
fn find_division<'a>(divisions: &'a Vec<DivisionEntry>, name: &String) -> (r: Option<
    &'a ModelData,
>)
    ensures
        match r {
            Some(m) => spec_find_division(divisions@, name@) == Some(*m),
            None => spec_find_division(divisions@, name@) is None,
        },
{
    let n = divisions.len();
    let mut i: usize = 0;
    proof {
        assert(divisions@.skip(0) =~= divisions@);
    }
    while i < n
        invariant
            i <= n,
            n == divisions.len(),
            spec_find_division(divisions@, name@) == spec_find_division(
                divisions@.skip(i as int),
                name@,
            ),
        decreases n - i,
    {
        if divisions[i].division == *name {
            proof {
                assert(divisions@.skip(i as int)[0] == divisions@[i as int]);
            }
            return Some(&divisions[i].data);
        }
        proof {
            assert(divisions@.skip(i as int).drop_first() =~= divisions@.skip(i as int + 1));
        }
        i = i + 1;
    }
    proof {
        assert(divisions@.skip(n as int) =~= Seq::<DivisionEntry>::empty());
    }
    None
}

/// Resolves the coefficient record for a species, model kind, and division,
/// falling back to the "default" division where the requested one is absent.
pub fn get_model<'a>(
    store: &'a SpeciesStore,
    spcd: u16,
    model_name: Model,
    division: &str,
) -> (r: Result<&'a ModelData, VbxError>)
    ensures
        match r {
            Ok(m) => spec_resolve(store.entries@, spcd, model_name, division@) == Ok::<
                ModelData,
                VbxError,
            >(*m),
            Err(e) => spec_resolve(store.entries@, spcd, model_name, division@) == Err::<
                ModelData,
                VbxError,
            >(e),
        },
{
    let species = match get_species(store, spcd) {
        Ok(s) => s,
        Err(e) => {
            return Err(e);
        },
    };
    let entry = match find_model_entry(&species.models, model_name) {
        Some(me) => me,
        None => {
            return Err(VbxError::ModelNotFound(spcd, model_name));
        },
    };
    let requested: String = division.to_owned();
    match find_division(&entry.divisions, &requested) {
        Some(m) => Ok(m),
        None => {
            let fallback: String = "default".to_owned();
            match find_division(&entry.divisions, &fallback) {
                Some(m) => Ok(m),
                None => Err(VbxError::DivisionNotFound(spcd, model_name)),
            }
        },
    }
}

/// The value in a species record, by linear scan.
fn find_property(properties: &Vec<PropertyEntry>, property: Property) -> (r: Option<u64>)
    ensures
        r == spec_find_property(properties@, property),
{
    let n = properties.len();
    let mut i: usize = 0;
    proof {
        assert(properties@.skip(0) =~= properties@);
    }
    while i < n
        invariant
            i <= n,
            n == properties.len(),
            spec_find_property(properties@, property) == spec_find_property(
                properties@.skip(i as int),
                property,
            ),
        decreases n - i,
    {
        if properties[i].property == property {
            proof {
                assert(properties@.skip(i as int)[0] == properties@[i as int]);
            }
            return Some(properties[i].value);
        }
        proof {
            assert(properties@.skip(i as int).drop_first() =~= properties@.skip(i as int + 1));
        }
        i = i + 1;
    }
    proof {
        assert(properties@.skip(n as int) =~= Seq::<PropertyEntry>::empty());
    }
    None
}

/// Looks up a scalar species property, as the bit pattern of its
/// double-precision value.
pub fn get_property(store: &SpeciesStore, spcd: u16, property: Property) -> (r: Result<
    u64,
    VbxError,
>)
    ensures
        match spec_find_species(store.entries@, spcd) {
            None => r == Err::<u64, VbxError>(VbxError::SpeciesNotFound(spcd)),
            Some(sp) => match spec_find_property(sp.properties@, property) {
                Some(v) => r == Ok::<u64, VbxError>(v),
                None => r == Err::<u64, VbxError>(VbxError::PropertyNotFound(spcd, property)),
            },
        },
{
    let species = match get_species(store, spcd) {
        Ok(s) => s,
        Err(e) => {
            return Err(e);
        },
    };
    match find_property(&species.properties, property) {
        Some(v) => Ok(v),
        None => Err(VbxError::PropertyNotFound(spcd, property)),
    }
}

} // verus!
