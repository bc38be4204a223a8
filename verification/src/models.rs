//! Model resolution composed with equation selection: one function per
//! physical quantity hands back the fully routed equation parameters for a
//! species, model kind, and division. Composite quantities resolve every
//! record they need and fail whole when any resolution fails.

pub mod decay;
pub mod eqns;
pub mod species;

use vstd::prelude::*;

use eqns::Equation;
use eqns::HeightLriEquation;
use eqns::PowerLawEquation;
use eqns::TaperEquation;
use eqns::VolumeRatioEquation;
use eqns::height_equation;
use eqns::height_lri_equation;
use eqns::spec_height_equation;
use eqns::spec_height_lri_equation;
use eqns::spec_taper_equation;
use eqns::spec_volume_ratio_equation;
use eqns::spec_weight_volume_equation;
use eqns::taper_equation;
use eqns::volume_ratio_equation;
use eqns::weight_volume_equation;
use species::Model;
use species::ModelData;
use species::SpeciesEntry;
use species::SpeciesStore;
use species::VbxError;
use species::get_model;
use species::spec_resolve;

verus! {

/// The division key a lookup runs under: the given division, or "default"
/// where none is given.
pub open spec fn spec_division_view(division: Option<&str>) -> Seq<char> {
    match division {
        Some(d) => d@,
        None => "default"@,
    }
}

/// Looks up the coefficient record for a species, model kind, and optional
/// division; an absent division asks for "default" directly.
pub fn resolve_model<'a>(
    store: &'a SpeciesStore,
    spcd: u16,
    kind: Model,
    division: Option<&str>,
) -> (r: Result<&'a ModelData, VbxError>)
    ensures
        match r {
            Ok(m) => spec_resolve(store.entries@, spcd, kind, spec_division_view(division))
                == Ok::<ModelData, VbxError>(*m),
            Err(e) => spec_resolve(store.entries@, spcd, kind, spec_division_view(division))
                == Err::<ModelData, VbxError>(e),
        },
{
    match division {
        Some(d) => get_model(store, spcd, kind, d),
        None => get_model(store, spcd, kind, "default"),
    }
}

/// The equation for a weight or volume quantity: the record resolved for the
/// kind and division, routed through its form selector.
pub open spec fn spec_weight_equation(
    entries: Seq<SpeciesEntry>,
    spcd: u16,
    kind: Model,
    division: Seq<char>,
) -> Result<Equation, VbxError> {
    match spec_resolve(entries, spcd, kind, division) {
        Err(e) => Err(e),
        Ok(m) => spec_weight_volume_equation(m.form, m.coefs@),
    }
}

/// Resolves a weight or volume model kind for a species and division and
/// selects the regression equation its record calls for.
pub fn weight_equation(
    store: &SpeciesStore,
    spcd: u16,
    kind: Model,
    division: Option<&str>,
) -> (r: Result<Equation, VbxError>)
    ensures
        r == spec_weight_equation(store.entries@, spcd, kind, spec_division_view(division)),
{
    let m = match resolve_model(store, spcd, kind, division) {
        Ok(m) => m,
        Err(e) => {
            return Err(e);
        },
    };
    weight_volume_equation(m.form, &m.coefs)
}

/// The taper equation for a species and division: the total-volume record
/// and the wood-volume-ratio record, resolved in that order, each miss
/// failing the whole lookup.
pub open spec fn spec_stem_taper_equation(
    entries: Seq<SpeciesEntry>,
    spcd: u16,
    division: Seq<char>,
) -> Result<TaperEquation, VbxError> {
    match spec_resolve(entries, spcd, Model::StemTotalVolume, division) {
        Err(e) => Err(e),
        Ok(v) => match spec_resolve(entries, spcd, Model::StemWoodVolumeRatio, division) {
            Err(e) => Err(e),
            Ok(rt) => spec_taper_equation(v.coefs@, rt.coefs@),
        },
    }
}

/// Resolves the two records behind the taper equation — stem total volume
/// and stem wood volume ratio — and routes their coefficients.
pub fn stem_taper_equation(store: &SpeciesStore, spcd: u16, division: Option<&str>) -> (r: Result<
    TaperEquation,
    VbxError,
>)
    ensures
        r == spec_stem_taper_equation(store.entries@, spcd, spec_division_view(division)),
{
    let volob = match resolve_model(store, spcd, Model::StemTotalVolume, division) {
        Ok(m) => m,
        Err(e) => {
            return Err(e);
        },
    };
    let ratio = match resolve_model(store, spcd, Model::StemWoodVolumeRatio, division) {
        Ok(m) => m,
        Err(e) => {
            return Err(e);
        },
    };
    taper_equation(&volob.coefs, &ratio.coefs)
}

/// The volume-ratio equation for a species and division, from the
/// total-volume-ratio record.
pub open spec fn spec_stem_volume_ratio_equation(
    entries: Seq<SpeciesEntry>,
    spcd: u16,
    division: Seq<char>,
) -> Result<VolumeRatioEquation, VbxError> {
    match spec_resolve(entries, spcd, Model::StemTotalVolumeRatio, division) {
        Err(e) => Err(e),
        Ok(m) => spec_volume_ratio_equation(m.coefs@),
    }
}

/// Resolves the stem total-volume-ratio record and reads alpha and beta.
pub fn stem_volume_ratio_equation(
    store: &SpeciesStore,
    spcd: u16,
    division: Option<&str>,
) -> (r: Result<VolumeRatioEquation, VbxError>)
    ensures
        r == spec_stem_volume_ratio_equation(store.entries@, spcd, spec_division_view(division)),
{
    let m = match resolve_model(store, spcd, Model::StemTotalVolumeRatio, division) {
        Ok(m) => m,
        Err(e) => {
            return Err(e);
        },
    };
    volume_ratio_equation(&m.coefs)
}

/// The height-from-diameter power law for a species; the height-diameter
/// model is always read from the "default" division.
pub open spec fn spec_tree_height_equation(entries: Seq<SpeciesEntry>, spcd: u16) -> Result<
    PowerLawEquation,
    VbxError,
> {
    match spec_resolve(entries, spcd, Model::HeightDiameter, "default"@) {
        Err(e) => Err(e),
        Ok(m) => spec_height_equation(m.coefs@),
    }
}

/// Resolves the height-diameter record under the "default" division and
/// reads the height-from-diameter power law.
pub fn tree_height_equation(store: &SpeciesStore, spcd: u16) -> (r: Result<
    PowerLawEquation,
    VbxError,
>)
    ensures
        r == spec_tree_height_equation(store.entries@, spcd),
{
    let m = match get_model(store, spcd, Model::HeightDiameter, "default") {
        Ok(m) => m,
        Err(e) => {
            return Err(e);
        },
    };
    height_equation(&m.coefs)
}

/// The light-blended height equation for a species; the height-diameter
/// model is always read from the "default" division.
pub open spec fn spec_height_lri_blend_equation(entries: Seq<SpeciesEntry>, spcd: u16) -> Result<
    HeightLriEquation,
    VbxError,
> {
    match spec_resolve(entries, spcd, Model::HeightDiameter, "default"@) {
        Err(e) => Err(e),
        Ok(m) => spec_height_lri_equation(m.coefs@),
    }
}

/// Resolves the height-diameter record under the "default" division and
/// reads the two power-law parameterizations that the light index blends.
pub fn height_lri_blend_equation(store: &SpeciesStore, spcd: u16) -> (r: Result<
    HeightLriEquation,
    VbxError,
>)
    ensures
        r == spec_height_lri_blend_equation(store.entries@, spcd),
{
    let m = match get_model(store, spcd, Model::HeightDiameter, "default") {
        Ok(m) => m,
        Err(e) => {
            return Err(e);
        },
    };
    height_lri_equation(&m.coefs)
}

/// The pair of equations behind the breast-height-diameter search: the taper
/// equation and the height-from-diameter power law, from records resolved in
/// the order total volume, wood volume ratio, height-diameter.
pub open spec fn spec_dbh_from_stump_equations(
    entries: Seq<SpeciesEntry>,
    spcd: u16,
    division: Seq<char>,
) -> Result<(TaperEquation, PowerLawEquation), VbxError> {
    match spec_resolve(entries, spcd, Model::StemTotalVolume, division) {
        Err(e) => Err(e),
        Ok(v) => match spec_resolve(entries, spcd, Model::StemWoodVolumeRatio, division) {
            Err(e) => Err(e),
            Ok(rt) => match spec_resolve(entries, spcd, Model::HeightDiameter, division) {
                Err(e) => Err(e),
                Ok(h) => match spec_taper_equation(v.coefs@, rt.coefs@) {
                    Err(e) => Err(e),
                    Ok(t) => match spec_height_equation(h.coefs@) {
                        Err(e) => Err(e),
                        Ok(p) => Ok((t, p)),
                    },
                },
            },
        },
    }
}

/// Resolves the three records behind the breast-height-diameter search and
/// routes them into the taper equation and the height power law.
pub fn dbh_from_stump_equations(
    store: &SpeciesStore,
    spcd: u16,
    division: Option<&str>,
) -> (r: Result<(TaperEquation, PowerLawEquation), VbxError>)
    ensures
        r == spec_dbh_from_stump_equations(store.entries@, spcd, spec_division_view(division)),
{
    let volob = match resolve_model(store, spcd, Model::StemTotalVolume, division) {
        Ok(m) => m,
        Err(e) => {
            return Err(e);
        },
    };
    let ratio = match resolve_model(store, spcd, Model::StemWoodVolumeRatio, division) {
        Ok(m) => m,
        Err(e) => {
            return Err(e);
        },
    };
    let height_model = match resolve_model(store, spcd, Model::HeightDiameter, division) {
        Ok(m) => m,
        Err(e) => {
            return Err(e);
        },
    };
    let taper = match taper_equation(&volob.coefs, &ratio.coefs) {
        Ok(t) => t,
        Err(e) => {
            return Err(e);
        },
    };
    let power = match height_equation(&height_model.coefs) {
        Ok(p) => p,
        Err(e) => {
            return Err(e);
        },
    };
    Ok((taper, power))
}

} // verus!
