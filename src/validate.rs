use vstd::prelude::*;
use crate::name::Name;

verus! {

/// One of the small whole numbers at which a fitted parameter makes a model
/// collapse into a simpler one.
#[derive(PartialEq, Eq, Structural, Debug, Copy, Clone)]
pub enum Landmark {
    Zero,
    One,
    Two,
    Three,
}

/// What the validity filter reads of one fitted parameter: whether it lies
/// below zero, and which landmark, if any, it equals within the filter's
/// tolerance.
#[derive(PartialEq, Eq, Structural, Debug, Copy, Clone)]
pub struct Reading {
    pub negative: bool,
    pub near: Option<Landmark>,
}

/// The readings of the parameters that decide whether a fit is degenerate;
/// `None` where the fit does not set the parameter.
#[derive(PartialEq, Eq, Structural, Debug, Copy, Clone)]
pub struct ParamReadings {
    pub gain: Option<Reading>,
    pub power: Option<Reading>,
    pub base: Option<Reading>,
}

/// What the filter and the ordering of fits read of one fitted complexity.
///
/// `residual` is `None` where the residual is missing or not finite; else it
/// is a key that orders fits as their residuals do (for a residual that is not
/// negative, its bits).
#[derive(PartialEq, Eq, Structural, Debug, Copy, Clone)]
pub struct FitSummary {
    pub name: Name,
    pub residual: Option<u64>,
    pub params: ParamReadings,
}

/// A reading that is present and near the given landmark.
pub open spec fn near(r: Option<Reading>, l: Landmark) -> bool {
    r matches Some(v) && v.near == Some(l)
}

/// The simpler model that a fit collapses into, if any: a zero gain makes any
/// model but a constant a constant; a polynomial of power zero, one, two or
/// three is a constant, linear, quadratic or cubic; an exponential of base
/// zero or one is a constant.
pub open spec fn degraded_to(name: Name, p: ParamReadings) -> Option<Name> {
    if name != Name::Constant && near(p.gain, Landmark::Zero) {
        Some(Name::Constant)
    } else if name == Name::Polynomial && near(p.power, Landmark::Zero) {
        Some(Name::Constant)
    } else if name == Name::Polynomial && near(p.power, Landmark::One) {
        Some(Name::Linear)
    } else if name == Name::Polynomial && near(p.power, Landmark::Two) {
        Some(Name::Quadratic)
    } else if name == Name::Polynomial && near(p.power, Landmark::Three) {
        Some(Name::Cubic)
    } else if name == Name::Exponential && (near(p.base, Landmark::Zero) || near(
        p.base,
        Landmark::One,
    )) {
        Some(Name::Constant)
    } else {
        None
    }
}

/// A fit is kept when its residual is finite, its gain is not negative, and it
/// does not collapse into a simpler model.
pub open spec fn valid(fit: FitSummary) -> bool {
    &&& fit.residual is Some
    &&& !(fit.params.gain matches Some(g) && g.negative)
    &&& degraded_to(fit.name, fit.params) is None
}

fn is_near(r: Option<Reading>, l: Landmark) -> (b: bool)
    ensures
        b == near(r, l),
{
    match r {
        Some(v) => v.near == Some(l),
        None => false,
    }
}

/// Checks whether a fit collapses into a simpler model, and into which.
pub fn is_degraded(name: Name, p: &ParamReadings) -> (r: Option<Name>)
    ensures
        r == degraded_to(name, *p),
{
    if name != Name::Constant && is_near(p.gain, Landmark::Zero) {
        return Some(Name::Constant);
    }
    if name == Name::Polynomial {
        if is_near(p.power, Landmark::Zero) {
            return Some(Name::Constant);
        }
        if is_near(p.power, Landmark::One) {
            return Some(Name::Linear);
        }
        if is_near(p.power, Landmark::Two) {
            return Some(Name::Quadratic);
        }
        if is_near(p.power, Landmark::Three) {
            return Some(Name::Cubic);
        }
    }
    if name == Name::Exponential && (is_near(p.base, Landmark::Zero) || is_near(
        p.base,
        Landmark::One,
    )) {
        return Some(Name::Constant);
    }
    None
}

/// Checks whether a fit is kept among the candidates.
pub fn is_valid(fit: &FitSummary) -> (r: bool)
    ensures
        r == valid(*fit),
{
    if fit.residual.is_none() {
        return false;
    }
    if let Some(g) = fit.params.gain {
        if g.negative {
            return false;
        }
    }
    is_degraded(fit.name, &fit.params).is_none()
}

} // verus!
