//! Species-specific allometric models for tree volume, biomass, and stem
//! geometry. The crate resolves calibrated coefficient records by species
//! code, model kind, and ecological division, selects the regression
//! equation that a record's numeric form calls for, and drives the bracket
//! bookkeeping of the bisection searches used to invert the taper equation.
//! Coefficients are carried as IEEE 754 double-precision bit patterns; the
//! floating-point evaluation itself lives outside this library.

mod models;

pub use models::decay::Decay;
pub use models::decay::DecayProperty;
pub use models::decay::lemma_decay_class_range;
pub use models::decay::spec_decay_lookup;
pub use models::decay::spec_decay_property_index;
pub use models::decay::spec_decay_table;
pub use models::decay::spec_hardwood_table;
pub use models::decay::spec_softwood_table;
pub use models::dbh_from_stump_equations;
pub use models::eqns::BisectDirection;
pub use models::eqns::Bisection;
pub use models::eqns::Equation;
pub use models::eqns::HeightLriEquation;
pub use models::eqns::PowerLawEquation;
pub use models::eqns::TaperEquation;
pub use models::eqns::VolumeRatioEquation;
pub use models::eqns::height_equation;
pub use models::eqns::height_lri_equation;
pub use models::eqns::lemma_weight_volume_equation_success;
pub use models::eqns::spec_form_coefficient_count;
pub use models::eqns::spec_height_equation;
pub use models::eqns::spec_height_lri_equation;
pub use models::eqns::spec_narrow;
pub use models::eqns::spec_taper_equation;
pub use models::eqns::spec_volume_ratio_equation;
pub use models::eqns::spec_weight_volume_equation;
pub use models::eqns::taper_equation;
pub use models::eqns::volume_ratio_equation;
pub use models::eqns::weight_volume_equation;
pub use models::height_lri_blend_equation;
pub use models::resolve_model;
pub use models::spec_dbh_from_stump_equations;
pub use models::spec_division_view;
pub use models::spec_height_lri_blend_equation;
pub use models::spec_stem_taper_equation;
pub use models::spec_stem_volume_ratio_equation;
pub use models::spec_tree_height_equation;
pub use models::spec_weight_equation;
pub use models::species::DivisionEntry;
pub use models::species::Model;
pub use models::species::ModelData;
pub use models::species::ModelEntry;
pub use models::species::Property;
pub use models::species::PropertyEntry;
pub use models::species::Species;
pub use models::species::SpeciesEntry;
pub use models::species::SpeciesStore;
pub use models::species::VbxError;
pub use models::species::get_model;
pub use models::species::get_property;
pub use models::species::get_species;
pub use models::species::lemma_default_only_division;
pub use models::species::lemma_division_fallback;
pub use models::species::lemma_division_preference;
pub use models::species::lemma_resolve_success;
pub use models::species::model_kind_from_name;
pub use models::species::property_from_name;
pub use models::species::spec_find_division;
pub use models::species::spec_find_model;
pub use models::species::spec_find_property;
pub use models::species::spec_find_species;
pub use models::species::spec_model_kind_from_name;
pub use models::species::spec_property_from_name;
pub use models::species::spec_resolve;
pub use models::species::spec_resolve_division;
pub use models::stem_taper_equation;
pub use models::stem_volume_ratio_equation;
pub use models::tree_height_equation;
pub use models::weight_equation;
