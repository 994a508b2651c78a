use vstd::prelude::*;
use crate::error::Error;
use crate::name::Name;

verus! {

/// The rank of an exponential, and the ceiling of every polynomial's rank.
pub const EXPONENTIAL_RANK: u32 = 1_000_000;

/// The rank of each name: roughly a thousand times the degree of a polynomial
/// that grows alike. A polynomial's rank is its power in thousandths, capped
/// at the rank of an exponential; other names ignore `power`.
pub open spec fn rank_of(name: Name, power: u32) -> u32 {
    match name {
        Name::Constant => 0,
        Name::Logarithmic => 130,
        Name::Linear => 1_000,
        Name::Linearithmic => 1_130,
        Name::Quadratic => 2_000,
        Name::Cubic => 3_000,
        Name::Polynomial => if power < EXPONENTIAL_RANK {
            power
        } else {
            EXPONENTIAL_RANK
        },
        Name::Exponential => EXPONENTIAL_RANK,
    }
}

/// Ranks a complexity, so that a lower rank means slower growth.
///
/// `power` is the polynomial power in thousandths, rounded toward zero (a
/// power of `2.5` is `2500`); only a polynomial needs it, and fails without it.
pub fn rank(name: Name, power: Option<u32>) -> (r: Result<u32, Error>)
    ensures
        power matches Some(p) ==> r == Ok::<u32, Error>(rank_of(name, p)),
        power is None && name is Polynomial ==> r matches Err(Error::MissingPolynomialPower),
        power is None && !(name is Polynomial) ==> r == Ok::<u32, Error>(rank_of(name, 0)),
{
    match name {
        Name::Constant => Ok(0),
        Name::Logarithmic => Ok(130),
        Name::Linear => Ok(1_000),
        Name::Linearithmic => Ok(1_130),
        Name::Quadratic => Ok(2_000),
        Name::Cubic => Ok(3_000),
        Name::Polynomial => match power {
            Some(p) => Ok(if p < EXPONENTIAL_RANK {
                p
            } else {
                EXPONENTIAL_RANK
            }),
            None => Err(Error::MissingPolynomialPower),
        },
        Name::Exponential => Ok(EXPONENTIAL_RANK),
    }
}

/// Ranks grow along the catalog, with polynomials between the fixed names
/// whose degrees bracket their power: constant, logarithmic, a polynomial of
/// power `a` below one, linear, linearithmic, one of power `b` between one and
/// two, quadratic, one of power `c` between two and three, cubic, one of power
/// `d` above three, exponential. Powers are in thousandths.
pub proof fn lemma_rank_increases(a: u32, b: u32, c: u32, d: u32)
    requires
        130 < a < 1_000,
        1_130 < b < 2_000,
        2_000 < c < 3_000,
        3_000 < d < EXPONENTIAL_RANK,
    ensures
        rank_of(Name::Constant, 0) < rank_of(Name::Logarithmic, 0),
        rank_of(Name::Logarithmic, 0) < rank_of(Name::Polynomial, a),
        rank_of(Name::Polynomial, a) < rank_of(Name::Linear, 0),
        rank_of(Name::Linear, 0) < rank_of(Name::Linearithmic, 0),
        rank_of(Name::Linearithmic, 0) < rank_of(Name::Polynomial, b),
        rank_of(Name::Polynomial, b) < rank_of(Name::Quadratic, 0),
        rank_of(Name::Quadratic, 0) < rank_of(Name::Polynomial, c),
        rank_of(Name::Polynomial, c) < rank_of(Name::Cubic, 0),
        rank_of(Name::Cubic, 0) < rank_of(Name::Polynomial, d),
        rank_of(Name::Polynomial, d) < rank_of(Name::Exponential, 0),
{
}

/// A transform of one coordinate of a data point.
#[derive(PartialEq, Eq, Structural, Debug, Copy, Clone)]
pub enum Axis {
    /// Zero, whatever the value.
    Zero,
    /// The value itself.
    Identity,
    /// The natural logarithm of the value.
    Log,
    /// The value times its natural logarithm.
    TimesLog,
    /// The square of the value.
    Square,
    /// The cube of the value.
    Cube,
}

/// How each model brings a point `(x, y)` onto a straight line: the first
/// axis gives `u` from `x`, the second `v` from `y`, so that the model reads
/// `v = slope * u + intercept`.
pub open spec fn linearization_of(name: Name) -> (Axis, Axis) {
    match name {
        Name::Constant => (Axis::Zero, Axis::Identity),
        Name::Logarithmic => (Axis::Log, Axis::Identity),
        Name::Linear => (Axis::Identity, Axis::Identity),
        Name::Linearithmic => (Axis::TimesLog, Axis::Identity),
        Name::Quadratic => (Axis::Square, Axis::Identity),
        Name::Cubic => (Axis::Cube, Axis::Identity),
        Name::Polynomial => (Axis::Log, Axis::Log),
        Name::Exponential => (Axis::Identity, Axis::Log),
    }
}

/// Returns the transforms that turn a model's data into a line.
pub fn linearization(name: Name) -> (r: (Axis, Axis))
    ensures
        r == linearization_of(name),
{
    match name {
        Name::Constant => (Axis::Zero, Axis::Identity),
        Name::Logarithmic => (Axis::Log, Axis::Identity),
        Name::Linear => (Axis::Identity, Axis::Identity),
        Name::Linearithmic => (Axis::TimesLog, Axis::Identity),
        Name::Quadratic => (Axis::Square, Axis::Identity),
        Name::Cubic => (Axis::Cube, Axis::Identity),
        Name::Polynomial => (Axis::Log, Axis::Log),
        Name::Exponential => (Axis::Identity, Axis::Log),
    }
}

/// A parameter of a model.
#[derive(PartialEq, Eq, Structural, Debug, Copy, Clone)]
pub enum Coefficient {
    Gain,
    Offset,
    Power,
    Base,
}

/// How a coefficient of the fitted line becomes a model parameter.
#[derive(PartialEq, Eq, Structural, Debug, Copy, Clone)]
pub enum Lift {
    /// The coefficient itself.
    AsIs,
    /// The exponential of the coefficient.
    Exp,
    /// Zero, whatever the coefficient.
    Zero,
}

/// Where the slope and the intercept of the fitted line go among a model's
/// parameters, and how: the first pair is the slope's, the second the
/// intercept's.
pub open spec fn delinearization_of(name: Name) -> ((Coefficient, Lift), (Coefficient, Lift)) {
    match name {
        Name::Constant => ((Coefficient::Gain, Lift::Zero), (Coefficient::Offset, Lift::AsIs)),
        Name::Polynomial => ((Coefficient::Power, Lift::AsIs), (Coefficient::Gain, Lift::Exp)),
        Name::Exponential => ((Coefficient::Base, Lift::Exp), (Coefficient::Gain, Lift::Exp)),
        _ => ((Coefficient::Gain, Lift::AsIs), (Coefficient::Offset, Lift::AsIs)),
    }
}

/// Returns how the line fitted to a model's data becomes its parameters.
pub fn delinearization(name: Name) -> (r: ((Coefficient, Lift), (Coefficient, Lift)))
    ensures
        r == delinearization_of(name),
{
    match name {
        Name::Constant => ((Coefficient::Gain, Lift::Zero), (Coefficient::Offset, Lift::AsIs)),
        Name::Polynomial => ((Coefficient::Power, Lift::AsIs), (Coefficient::Gain, Lift::Exp)),
        Name::Exponential => ((Coefficient::Base, Lift::Exp), (Coefficient::Gain, Lift::Exp)),
        _ => ((Coefficient::Gain, Lift::AsIs), (Coefficient::Offset, Lift::AsIs)),
    }
}

/// The form of a model's function `f`.
#[derive(PartialEq, Eq, Structural, Debug, Copy, Clone)]
pub enum Shape {
    /// `f(x) = gain * axis(x) + offset`.
    Affine(Axis),
    /// `f(x) = gain * x ^ power`.
    PowerLaw,
    /// `f(x) = gain * base ^ x`.
    ExpLaw,
}

/// The function of each model.
pub open spec fn shape_of(name: Name) -> Shape {
    match name {
        Name::Constant => Shape::Affine(Axis::Zero),
        Name::Logarithmic => Shape::Affine(Axis::Log),
        Name::Linear => Shape::Affine(Axis::Identity),
        Name::Linearithmic => Shape::Affine(Axis::TimesLog),
        Name::Quadratic => Shape::Affine(Axis::Square),
        Name::Cubic => Shape::Affine(Axis::Cube),
        Name::Polynomial => Shape::PowerLaw,
        Name::Exponential => Shape::ExpLaw,
    }
}

/// Returns the form of a model's function.
pub fn shape(name: Name) -> (r: Shape)
    ensures
        r == shape_of(name),
{
    match name {
        Name::Constant => Shape::Affine(Axis::Zero),
        Name::Logarithmic => Shape::Affine(Axis::Log),
        Name::Linear => Shape::Affine(Axis::Identity),
        Name::Linearithmic => Shape::Affine(Axis::TimesLog),
        Name::Quadratic => Shape::Affine(Axis::Square),
        Name::Cubic => Shape::Affine(Axis::Cube),
        Name::Polynomial => Shape::PowerLaw,
        Name::Exponential => Shape::ExpLaw,
    }
}

/// The two parameters that a model's function reads.
pub open spec fn coefficients_of(name: Name) -> (Coefficient, Coefficient) {
    match shape_of(name) {
        Shape::Affine(_) => (Coefficient::Gain, Coefficient::Offset),
        Shape::PowerLaw => (Coefficient::Gain, Coefficient::Power),
        Shape::ExpLaw => (Coefficient::Gain, Coefficient::Base),
    }
}

/// Returns the two parameters that a model's function reads; evaluating it
/// without both fails with [`Error::MissingFunctionCoeffsError`].
pub fn coefficients(name: Name) -> (r: (Coefficient, Coefficient))
    ensures
        r == coefficients_of(name),
{
    match shape(name) {
        Shape::Affine(_) => (Coefficient::Gain, Coefficient::Offset),
        Shape::PowerLaw => (Coefficient::Gain, Coefficient::Power),
        Shape::ExpLaw => (Coefficient::Gain, Coefficient::Base),
    }
}

/// Which parameters are set, in the order gain, offset, power, base.
pub open spec fn is_set(present: (bool, bool, bool, bool), c: Coefficient) -> bool {
    match c {
        Coefficient::Gain => present.0,
        Coefficient::Offset => present.1,
        Coefficient::Power => present.2,
        Coefficient::Base => present.3,
    }
}

fn set_in(present: (bool, bool, bool, bool), c: Coefficient) -> (r: bool)
    ensures
        r == is_set(present, c),
{
    match c {
        Coefficient::Gain => present.0,
        Coefficient::Offset => present.1,
        Coefficient::Power => present.2,
        Coefficient::Base => present.3,
    }
}

/// Checks that both parameters a model's function reads are set, given which
/// of gain, offset, power and base are; fails with
/// [`Error::MissingFunctionCoeffsError`] otherwise.
pub fn check_coefficients(name: Name, present: (bool, bool, bool, bool)) -> (r: Result<(), Error>)
    ensures
        r is Ok <==> is_set(present, coefficients_of(name).0) && is_set(
            present,
            coefficients_of(name).1,
        ),
        r matches Err(e) ==> e is MissingFunctionCoeffsError,
{
    let (first, second) = coefficients(name);
    if set_in(present, first) && set_in(present, second) {
        Ok(())
    } else {
        Err(Error::MissingFunctionCoeffsError)
    }
}

/// A fit sets exactly the parameters that its model's function reads, each
/// once: the slope and the intercept of the line go to those two and to no
/// other. So a fitted polynomial always has the power that its rank needs.
pub proof fn lemma_fit_fills_coefficients(name: Name)
    ensures
        ({
            let (slope, intercept) = delinearization_of(name);
            let (first, second) = coefficients_of(name);
            &&& slope.0 != intercept.0
            &&& slope.0 == first || slope.0 == second
            &&& intercept.0 == first || intercept.0 == second
        }),
        name is Polynomial ==> delinearization_of(name).0.0 == Coefficient::Power,
{
}

} // verus!
