use vbx::DivisionEntry;
use vbx::Model;
use vbx::ModelData;
use vbx::ModelEntry;
use vbx::Property;
use vbx::PropertyEntry;
use vbx::Species;
use vbx::SpeciesEntry;
use vbx::SpeciesStore;
use vbx::VbxError;
use vbx::get_model;
use vbx::get_property;
use vbx::get_species;
use vbx::model_kind_from_name;
use vbx::property_from_name;
use vbx::resolve_model;

fn record(group: &str, form: u8, coefs: &[f64]) -> ModelData {
    ModelData {
        group: group.to_string(),
        form,
        coefs: coefs.iter().map(|c| c.to_bits()).collect(),
    }
}

fn entry(kind: Model, divisions: Vec<(&str, ModelData)>) -> ModelEntry {
    ModelEntry {
        kind,
        divisions: divisions
            .into_iter()
            .map(|(d, m)| DivisionEntry {
                division: d.to_string(),
                data: m,
            })
            .collect(),
    }
}

/// Species 202 with a wood-volume model under "240" and "default", a bark
/// model under "default" alone, and two scalar properties.
fn store() -> SpeciesStore {
    let species = Species {
        models: vec![
            entry(
                Model::StemWoodVolume,
                vec![
                    ("240", record("volume", 1, &[0.002, 2.0, 1.1])),
                    ("default", record("volume", 1, &[0.0015, 2.1, 1.05])),
                ],
            ),
            entry(
                Model::StemBarkVolume,
                vec![("default", record("volume", 4, &[0.001, 2.2, 0.9, 0.01]))],
            ),
        ],
        properties: vec![
            PropertyEntry {
                property: Property::WoodSpecificGravity,
                value: 0.45f64.to_bits(),
            },
            PropertyEntry {
                property: Property::CarbonFraction,
                value: 0.5121f64.to_bits(),
            },
        ],
    };
    SpeciesStore {
        entries: vec![SpeciesEntry { spcd: 202, species }],
    }
}

#[test]
fn test_get_species_found() {
    let s = store();
    let species = get_species(&s, 202).unwrap();
    assert_eq!(species.models.len(), 2);
    assert_eq!(species.properties.len(), 2);
}

#[test]
fn test_empty_store_misses_every_code() {
    let s = SpeciesStore { entries: vec![] };
    assert_eq!(get_species(&s, 0).unwrap_err(), VbxError::SpeciesNotFound(0));
    assert_eq!(
        get_model(&s, 202, Model::StemWoodVolume, "240").unwrap_err(),
        VbxError::SpeciesNotFound(202)
    );
}

#[test]
fn test_kind_with_no_divisions_resolves_to_nothing() {
    let species = Species {
        models: vec![ModelEntry {
            kind: Model::StemWoodVolume,
            divisions: vec![],
        }],
        properties: vec![],
    };
    let s = SpeciesStore {
        entries: vec![SpeciesEntry { spcd: 202, species }],
    };
    assert_eq!(
        get_model(&s, 202, Model::StemWoodVolume, "default").unwrap_err(),
        VbxError::DivisionNotFound(202, Model::StemWoodVolume)
    );
}

#[test]
fn test_get_species_not_found() {
    let s = store();
    assert_eq!(get_species(&s, 999).unwrap_err(), VbxError::SpeciesNotFound(999));
}

#[test]
fn test_get_model_prefers_requested_division() {
    let s = store();
    let m = get_model(&s, 202, Model::StemWoodVolume, "240").unwrap();
    assert_eq!(m.form, 1);
    assert_eq!(m.coefs, vec![0.002f64.to_bits(), 2.0f64.to_bits(), 1.1f64.to_bits()]);
}

#[test]
fn test_get_model_falls_back_to_default() {
    let s = store();
    // The bark model holds a "default" record alone: any requested division
    // resolves to it.
    let m = get_model(&s, 202, Model::StemBarkVolume, "240").unwrap();
    assert_eq!(m.form, 4);
    let m2 = get_model(&s, 202, Model::StemBarkVolume, "M210").unwrap();
    assert_eq!(m2.form, 4);
    assert_eq!(m.coefs, m2.coefs);
    // The wood model holds both: an unknown division falls back to "default".
    let m3 = get_model(&s, 202, Model::StemWoodVolume, "M210").unwrap();
    assert_eq!(m3.coefs[0], 0.0015f64.to_bits());
}

#[test]
fn test_get_model_division_not_found() {
    let mut s = store();
    // Strip the model down to a single non-default division.
    s.entries[0].species.models[0].divisions.pop();
    let r = get_model(&s, 202, Model::StemWoodVolume, "M210");
    assert_eq!(
        r.unwrap_err(),
        VbxError::DivisionNotFound(202, Model::StemWoodVolume)
    );
}

#[test]
fn test_get_model_model_not_found() {
    let s = store();
    let r = get_model(&s, 202, Model::FoliageBiomass, "240");
    assert_eq!(
        r.unwrap_err(),
        VbxError::ModelNotFound(202, Model::FoliageBiomass)
    );
}

#[test]
fn test_get_model_species_not_found() {
    let s = store();
    let r = get_model(&s, 42, Model::StemWoodVolume, "240");
    assert_eq!(r.unwrap_err(), VbxError::SpeciesNotFound(42));
}

#[test]
fn test_resolve_model_without_division_uses_default() {
    let s = store();
    let m = resolve_model(&s, 202, Model::StemWoodVolume, None).unwrap();
    assert_eq!(m.coefs[0], 0.0015f64.to_bits());
    let m2 = resolve_model(&s, 202, Model::StemWoodVolume, Some("240")).unwrap();
    assert_eq!(m2.coefs[0], 0.002f64.to_bits());
}

#[test]
fn test_model_kind_from_name() {
    let names = [
        ("StemWoodVolume", Model::StemWoodVolume),
        ("StemBarkVolume", Model::StemBarkVolume),
        ("StemTotalVolume", Model::StemTotalVolume),
        ("StemWoodVolumeRatio", Model::StemWoodVolumeRatio),
        ("StemTotalVolumeRatio", Model::StemTotalVolumeRatio),
        ("TotalBiomass", Model::TotalBiomass),
        ("BarkBiomass", Model::BarkBiomass),
        ("BranchBiomass", Model::BranchBiomass),
        ("FoliageBiomass", Model::FoliageBiomass),
        ("HeightDiameter", Model::HeightDiameter),
    ];
    for (name, kind) in names {
        assert_eq!(model_kind_from_name(name), Some(kind));
    }
    assert_eq!(model_kind_from_name("StemWood"), None);
    assert_eq!(model_kind_from_name(""), None);
}

#[test]
fn test_property_from_name() {
    assert_eq!(
        property_from_name("WoodSpecificGravity"),
        Some(Property::WoodSpecificGravity)
    );
    assert_eq!(
        property_from_name("BarkSpecificGravity"),
        Some(Property::BarkSpecificGravity)
    );
    assert_eq!(
        property_from_name("CarbonFraction"),
        Some(Property::CarbonFraction)
    );
    assert_eq!(property_from_name("Density"), None);
}

#[test]
fn test_get_property_found() {
    let s = store();
    let v = get_property(&s, 202, Property::WoodSpecificGravity).unwrap();
    assert_eq!(f64::from_bits(v), 0.45);
    let c = get_property(&s, 202, Property::CarbonFraction).unwrap();
    assert_eq!(f64::from_bits(c), 0.5121);
}

#[test]
fn test_get_property_not_found() {
    let s = store();
    let r = get_property(&s, 202, Property::BarkSpecificGravity);
    assert_eq!(
        r.unwrap_err(),
        VbxError::PropertyNotFound(202, Property::BarkSpecificGravity)
    );
    let r2 = get_property(&s, 7, Property::WoodSpecificGravity);
    assert_eq!(r2.unwrap_err(), VbxError::SpeciesNotFound(7));
}
