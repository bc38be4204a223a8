//! Equation selection: each coefficient record's numeric form selector is
//! routed to one of the five regression equation shapes, with every
//! coefficient assigned to its named role. The floating-point evaluation of
//! the selected equation happens outside the library; coefficients travel as
//! IEEE 754 double-precision bit patterns. The bracket bookkeeping of the
//! bisection searches that invert the taper equation also lives here.

use vstd::prelude::*;

use crate::models::species::VbxError;

verus! {

/// One of the five regression equation shapes, with its coefficients routed
/// to their roles. `a` scales, `b` and `c` are the diameter and height
/// exponents; the remaining roles follow each shape's published form.
#[derive(Clone, Copy, PartialEq, Eq, Structural, Debug)]
pub enum Equation {
    /// Form one: `a * dia^b * ht^c`.
    SchumacherHall { a: u64, b: u64, c: u64 },
    /// Form two, segmented at the diameter breakpoint `k`: below `k` form one
    /// with (a, b, c); at or above `k`, `a * k^(b - b1) * dia^b1 * ht^c`.
    Segmented { a: u64, b: u64, b1: u64, c: u64, k: u64 },
    /// Form three, continuously varying diameter exponent:
    /// `a * dia^(a1 * (1 - e^(-b * dia))^c1) * ht^c`.
    ContinuouslyVariable { a: u64, a1: u64, b: u64, c: u64, c1: u64 },
    /// Form four, exponential diameter decay: `a * dia^b * ht^c * e^(-b1 * dia)`.
    ModifiedWiley { a: u64, b: u64, b1: u64, c: u64 },
    /// Form five, density-scaled form one: `a * dia^b * ht^c * wdsg`.
    ModifiedSchumacherHall { a: u64, b: u64, c: u64, wdsg: u64 },
}

/// The volume-ratio equation `(1 - (1 - ht_ratio)^alpha)^beta`.
#[derive(Clone, Copy, PartialEq, Eq, Structural, Debug)]
pub struct VolumeRatioEquation {
    pub alpha: u64,
    pub beta: u64,
}

/// The height-from-diameter power law `a * dia^b`.
#[derive(Clone, Copy, PartialEq, Eq, Structural, Debug)]
pub struct PowerLawEquation {
    pub a: u64,
    pub b: u64,
}

/// The two power-law parameterizations that the light-resource-index height
/// equation blends: `lri = 1` recovers the full-light pair, `lri = 0` the
/// full-shade pair.
#[derive(Clone, Copy, PartialEq, Eq, Structural, Debug)]
pub struct HeightLriEquation {
    pub a_light: u64,
    pub b_light: u64,
    pub a_shade: u64,
    pub b_shade: u64,
}

/// The closed-form taper equation's parameters: the total-volume model's
/// scale and exponents, and the volume-ratio model's alpha and beta.
#[derive(Clone, Copy, PartialEq, Eq, Structural, Debug)]
pub struct TaperEquation {
    pub volume_a: u64,
    pub volume_b: u64,
    pub volume_c: u64,
    pub alpha: u64,
    pub beta: u64,
}

/// Routing of a record's coefficients by its numeric form selector: form one
/// takes three coefficients, forms two and three take five, forms four and
/// five take four; any other selector is unrecognized.
pub open spec fn spec_weight_volume_equation(form: u8, coefs: Seq<u64>) -> Result<
    Equation,
    VbxError,
> {
    if form == 1 {
        if coefs.len() >= 3 {
            Ok(Equation::SchumacherHall { a: coefs[0], b: coefs[1], c: coefs[2] })
        } else {
            Err(VbxError::MissingCoefficients { needed: 3 })
        }
    } else if form == 2 {
        if coefs.len() >= 5 {
            Ok(
                Equation::Segmented {
                    a: coefs[0],
                    b: coefs[1],
                    b1: coefs[2],
                    c: coefs[3],
                    k: coefs[4],
                },
            )
        } else {
            Err(VbxError::MissingCoefficients { needed: 5 })
        }
    } else if form == 3 {
        if coefs.len() >= 5 {
            Ok(
                Equation::ContinuouslyVariable {
                    a: coefs[0],
                    a1: coefs[1],
                    b: coefs[2],
                    c: coefs[3],
                    c1: coefs[4],
                },
            )
        } else {
            Err(VbxError::MissingCoefficients { needed: 5 })
        }
    } else if form == 4 {
        if coefs.len() >= 4 {
            Ok(Equation::ModifiedWiley { a: coefs[0], b: coefs[1], b1: coefs[2], c: coefs[3] })
        } else {
            Err(VbxError::MissingCoefficients { needed: 4 })
        }
    } else if form == 5 {
        if coefs.len() >= 4 {
            Ok(
                Equation::ModifiedSchumacherHall {
                    a: coefs[0],
                    b: coefs[1],
                    c: coefs[2],
                    wdsg: coefs[3],
                },
            )
        } else {
            Err(VbxError::MissingCoefficients { needed: 4 })
        }
    } else {
        Err(VbxError::UnrecognizedModelForm(form))
    }
}

/// The coefficients each form selector requires; zero marks an unrecognized
/// selector.
pub open spec fn spec_form_coefficient_count(form: u8) -> int {
    if form == 1 {
        3
    } else if form == 2 || form == 3 {
        5
    } else if form == 4 || form == 5 {
        4
    } else {
        0
    }
}

/// Success law: equation selection yields an equation exactly when the form
/// selector is one of the five known forms and the coefficient list reaches
/// that form's length.
pub proof fn lemma_weight_volume_equation_success(form: u8, coefs: Seq<u64>)
    ensures
        spec_weight_volume_equation(form, coefs) is Ok <==> (1 <= form <= 5 && coefs.len()
            >= spec_form_coefficient_count(form)),
{
}

/// Selects the regression equation that a record's form selector calls for
/// and routes its coefficients to their roles.
pub fn weight_volume_equation(form: u8, coefs: &Vec<u64>) -> (r: Result<Equation, VbxError>)
    ensures
        r == spec_weight_volume_equation(form, coefs@),
{
    if form == 1 {
        if coefs.len() >= 3 {
            Ok(Equation::SchumacherHall { a: coefs[0], b: coefs[1], c: coefs[2] })
        } else {
            Err(VbxError::MissingCoefficients { needed: 3 })
        }
    } else if form == 2 {
        if coefs.len() >= 5 {
            Ok(
                Equation::Segmented {
                    a: coefs[0],
                    b: coefs[1],
                    b1: coefs[2],
                    c: coefs[3],
                    k: coefs[4],
                },
            )
        } else {
            Err(VbxError::MissingCoefficients { needed: 5 })
        }
    } else if form == 3 {
        if coefs.len() >= 5 {
            Ok(
                Equation::ContinuouslyVariable {
                    a: coefs[0],
                    a1: coefs[1],
                    b: coefs[2],
                    c: coefs[3],
                    c1: coefs[4],
                },
            )
        } else {
            Err(VbxError::MissingCoefficients { needed: 5 })
        }
    } else if form == 4 {
        if coefs.len() >= 4 {
            Ok(Equation::ModifiedWiley { a: coefs[0], b: coefs[1], b1: coefs[2], c: coefs[3] })
        } else {
            Err(VbxError::MissingCoefficients { needed: 4 })
        }
    } else if form == 5 {
        if coefs.len() >= 4 {
            Ok(
                Equation::ModifiedSchumacherHall {
                    a: coefs[0],
                    b: coefs[1],
                    c: coefs[2],
                    wdsg: coefs[3],
                },
            )
        } else {
            Err(VbxError::MissingCoefficients { needed: 4 })
        }
    } else {
        Err(VbxError::UnrecognizedModelForm(form))
    }
}

/// Alpha and beta of the volume-ratio equation stand first and second in its
/// coefficient list.
pub open spec fn spec_volume_ratio_equation(coefs: Seq<u64>) -> Result<
    VolumeRatioEquation,
    VbxError,
> {
    if coefs.len() >= 2 {
        Ok(VolumeRatioEquation { alpha: coefs[0], beta: coefs[1] })
    } else {
        Err(VbxError::MissingCoefficients { needed: 2 })
    }
}

/// Reads alpha and beta of the volume-ratio equation from a record's
/// coefficient list.
pub fn volume_ratio_equation(coefs: &Vec<u64>) -> (r: Result<VolumeRatioEquation, VbxError>)
    ensures
        r == spec_volume_ratio_equation(coefs@),
{
    if coefs.len() >= 2 {
        Ok(VolumeRatioEquation { alpha: coefs[0], beta: coefs[1] })
    } else {
        Err(VbxError::MissingCoefficients { needed: 2 })
    }
}

/// The height-from-diameter power law reuses the seventh and eighth entries
/// of the height-diameter coefficient list.
pub open spec fn spec_height_equation(coefs: Seq<u64>) -> Result<PowerLawEquation, VbxError> {
    if coefs.len() >= 8 {
        Ok(PowerLawEquation { a: coefs[6], b: coefs[7] })
    } else {
        Err(VbxError::MissingCoefficients { needed: 8 })
    }
}

/// Reads the height-from-diameter power law from a height-diameter record's
/// coefficient list.
pub fn height_equation(coefs: &Vec<u64>) -> (r: Result<PowerLawEquation, VbxError>)
    ensures
        r == spec_height_equation(coefs@),
{
    if coefs.len() >= 8 {
        Ok(PowerLawEquation { a: coefs[6], b: coefs[7] })
    } else {
        Err(VbxError::MissingCoefficients { needed: 8 })
    }
}

/// The light-blended height equation takes its full-light pair from the
/// first and second entries and its full-shade pair from the fifth and
/// sixth.
pub open spec fn spec_height_lri_equation(coefs: Seq<u64>) -> Result<HeightLriEquation, VbxError> {
    if coefs.len() >= 6 {
        Ok(
            HeightLriEquation {
                a_light: coefs[0],
                b_light: coefs[1],
                a_shade: coefs[4],
                b_shade: coefs[5],
            },
        )
    } else {
        Err(VbxError::MissingCoefficients { needed: 6 })
    }
}

/// Reads the two blended power-law parameterizations from a height-diameter
/// record's coefficient list.
pub fn height_lri_equation(coefs: &Vec<u64>) -> (r: Result<HeightLriEquation, VbxError>)
    ensures
        r == spec_height_lri_equation(coefs@),
{
    if coefs.len() >= 6 {
        Ok(
            HeightLriEquation {
                a_light: coefs[0],
                b_light: coefs[1],
                a_shade: coefs[4],
                b_shade: coefs[5],
            },
        )
    } else {
        Err(VbxError::MissingCoefficients { needed: 6 })
    }
}

/// The taper equation draws scale and exponents from the first three
/// total-volume coefficients and alpha, beta from the first two ratio
/// coefficients.
pub open spec fn spec_taper_equation(volob: Seq<u64>, ratio: Seq<u64>) -> Result<
    TaperEquation,
    VbxError,
> {
    if volob.len() < 3 {
        Err(VbxError::MissingCoefficients { needed: 3 })
    } else if ratio.len() < 2 {
        Err(VbxError::MissingCoefficients { needed: 2 })
    } else {
        Ok(
            TaperEquation {
                volume_a: volob[0],
                volume_b: volob[1],
                volume_c: volob[2],
                alpha: ratio[0],
                beta: ratio[1],
            },
        )
    }
}

/// Builds the taper equation from a total-volume record and a volume-ratio
/// record.
pub fn taper_equation(volob: &Vec<u64>, ratio: &Vec<u64>) -> (r: Result<TaperEquation, VbxError>)
    ensures
        r == spec_taper_equation(volob@, ratio@),
{
    if volob.len() < 3 {
        Err(VbxError::MissingCoefficients { needed: 3 })
    } else if ratio.len() < 2 {
        Err(VbxError::MissingCoefficients { needed: 2 })
    } else {
        Ok(
            TaperEquation {
                volume_a: volob[0],
                volume_b: volob[1],
                volume_c: volob[2],
                alpha: ratio[0],
                beta: ratio[1],
            },
        )
    }
}

/// How the evaluated quantity moves as the search variable grows.
/// Stem diameter falls with height along the stem and blended height falls
/// with the light index, so those searches run `Descending`; the taper
/// diameter at a fixed stump height grows with the candidate breast-height
/// diameter, so that search runs `Ascending`.
#[derive(Clone, Copy, PartialEq, Eq, Structural, Debug)]
pub enum BisectDirection {
    Ascending,
    Descending,
}

/// The bracket of a bisection search over double-precision values, carried
/// as bit patterns: the bounds, the last midpoint (the result when the
/// bracket is exhausted), and the search direction.
#[derive(Clone, Copy, PartialEq, Eq, Structural, Debug)]
pub struct Bisection {
    pub low: u64,
    pub high: u64,
    pub mid: u64,
    pub direction: BisectDirection,
}

/// The bracket after one step at midpoint `mid` whose evaluation came out
/// above the target or not: a descending search moves the lower bound up to
/// look higher when the value is still above the target, an ascending search
/// moves the upper bound down, and each mirrors the other otherwise.
pub open spec fn spec_narrow(b: Bisection, mid: u64, value_above_target: bool) -> Bisection {
    if value_above_target == (b.direction is Descending) {
        Bisection { low: mid, high: b.high, mid, direction: b.direction }
    } else {
        Bisection { low: b.low, high: mid, mid, direction: b.direction }
    }
}

impl Bisection {
    /// One bracket update of the bisection search: keeps the midpoint as the
    /// fallback result and moves the bound that the direction and the
    /// comparison outcome select.
    pub fn narrow(&mut self, mid: u64, value_above_target: bool)
        ensures
            *final(self) == spec_narrow(*old(self), mid, value_above_target),
    {
        let descending = match self.direction {
            BisectDirection::Descending => true,
            BisectDirection::Ascending => false,
        };
        if value_above_target == descending {
            self.low = mid;
        } else {
            self.high = mid;
        }
        self.mid = mid;
    }
}

} // verus!
