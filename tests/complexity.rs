use big_o::complexity::{
    check_coefficients, coefficients, delinearization, linearization, rank, shape, Axis, Coefficient, Lift, Shape,
    EXPONENTIAL_RANK,
};
use big_o::error::Error;
use big_o::name::{all_names, Name};

fn fixed(name: Name) -> u32 {
    rank(name, None).unwrap()
}

fn polynomial(power_thousandths: u32) -> u32 {
    rank(Name::Polynomial, Some(power_thousandths)).unwrap()
}

#[test]
fn polynomial_missing_power_error() {
    let err = rank(Name::Polynomial, None).unwrap_err();
    assert!(matches!(err, Error::MissingPolynomialPower));
}

#[test]
fn test_complecity_rank() {
    // O(1) < ... < O(n)
    assert!(fixed(Name::Constant) < fixed(Name::Logarithmic));
    assert!(fixed(Name::Logarithmic) < polynomial(500));
    assert!(polynomial(500) < fixed(Name::Linear));

    // O(n) < ... < O(n^2)
    assert!(fixed(Name::Linear) < fixed(Name::Linearithmic));
    assert!(fixed(Name::Linearithmic) < polynomial(1500));
    assert!(polynomial(1500) < fixed(Name::Quadratic));

    // O(n^2) < ... < O(n^3)
    assert!(fixed(Name::Quadratic) < polynomial(2500));
    assert!(polynomial(2500) < fixed(Name::Cubic));

    // O(n^3) < ... < O(c^n)
    assert!(fixed(Name::Cubic) < polynomial(3500));
    assert!(polynomial(3500) < fixed(Name::Exponential));
}

#[test]
fn rank_values() {
    assert_eq!(fixed(Name::Constant), 0);
    assert_eq!(fixed(Name::Logarithmic), 130);
    assert_eq!(fixed(Name::Linear), 1_000);
    assert_eq!(fixed(Name::Linearithmic), 1_130);
    assert_eq!(fixed(Name::Quadratic), 2_000);
    assert_eq!(fixed(Name::Cubic), 3_000);
    assert_eq!(fixed(Name::Exponential), 1_000_000);
    assert_eq!(rank(Name::Linear, Some(4_000)).unwrap(), 1_000);
}

#[test]
fn polynomial_rank_is_capped() {
    assert_eq!(polynomial(0), 0);
    assert_eq!(polynomial(999_999), 999_999);
    assert_eq!(polynomial(1_000_000), EXPONENTIAL_RANK);
    assert_eq!(polynomial(u32::MAX), EXPONENTIAL_RANK);
}

#[test]
fn linearization_table() {
    assert_eq!(linearization(Name::Constant), (Axis::Zero, Axis::Identity));
    assert_eq!(linearization(Name::Logarithmic), (Axis::Log, Axis::Identity));
    assert_eq!(linearization(Name::Linear), (Axis::Identity, Axis::Identity));
    assert_eq!(linearization(Name::Linearithmic), (Axis::TimesLog, Axis::Identity));
    assert_eq!(linearization(Name::Quadratic), (Axis::Square, Axis::Identity));
    assert_eq!(linearization(Name::Cubic), (Axis::Cube, Axis::Identity));
    assert_eq!(linearization(Name::Polynomial), (Axis::Log, Axis::Log));
    assert_eq!(linearization(Name::Exponential), (Axis::Identity, Axis::Log));
}

#[test]
fn delinearization_swaps_fields_for_power_and_exponential() {
    assert_eq!(
        delinearization(Name::Polynomial),
        ((Coefficient::Power, Lift::AsIs), (Coefficient::Gain, Lift::Exp))
    );
    assert_eq!(
        delinearization(Name::Exponential),
        ((Coefficient::Base, Lift::Exp), (Coefficient::Gain, Lift::Exp))
    );
    assert_eq!(
        delinearization(Name::Constant),
        ((Coefficient::Gain, Lift::Zero), (Coefficient::Offset, Lift::AsIs))
    );
    assert_eq!(
        delinearization(Name::Quadratic),
        ((Coefficient::Gain, Lift::AsIs), (Coefficient::Offset, Lift::AsIs))
    );
}

#[test]
fn shapes_and_coefficients() {
    assert_eq!(shape(Name::Constant), Shape::Affine(Axis::Zero));
    assert_eq!(shape(Name::Linearithmic), Shape::Affine(Axis::TimesLog));
    assert_eq!(shape(Name::Polynomial), Shape::PowerLaw);
    assert_eq!(shape(Name::Exponential), Shape::ExpLaw);
    assert_eq!(coefficients(Name::Cubic), (Coefficient::Gain, Coefficient::Offset));
    assert_eq!(coefficients(Name::Polynomial), (Coefficient::Gain, Coefficient::Power));
    assert_eq!(coefficients(Name::Exponential), (Coefficient::Gain, Coefficient::Base));
}

#[test]
fn fit_fills_what_the_function_reads() {
    for name in all_names() {
        let ((slope, _), (intercept, _)) = delinearization(name);
        let (a, b) = coefficients(name);
        assert_ne!(slope, intercept);
        assert!(slope == a || slope == b);
        assert!(intercept == a || intercept == b);
    }
}

#[test]
fn error_messages() {
    assert_eq!(
        Error::LSTSQError("singular".to_string()).to_string(),
        "LSTSQ failed: singular"
    );
    assert_eq!(Error::ParseNotationError.to_string(), "Can't convert string to Name");
    assert_eq!(
        Error::MissingFunctionCoeffsError.to_string(),
        "No coefficients to compute f(x)"
    );
    assert_eq!(
        Error::MissingPolynomialPower.to_string(),
        "Polynomial power parameter is missing"
    );
    assert_eq!(Error::InvalidInput("empty".to_string()).to_string(), "Invalid input: empty");
    assert_eq!(
        Error::NoValidComplexity.to_string(),
        "No valid complexity could be inferred"
    );
}

#[test]
fn coefficients_must_be_set() {
    assert!(check_coefficients(Name::Linear, (true, true, false, false)).is_ok());
    assert!(matches!(
        check_coefficients(Name::Linear, (true, false, true, true)),
        Err(Error::MissingFunctionCoeffsError)
    ));
    assert!(check_coefficients(Name::Polynomial, (true, false, true, false)).is_ok());
    assert!(matches!(
        check_coefficients(Name::Polynomial, (true, true, false, true)),
        Err(Error::MissingFunctionCoeffsError)
    ));
    assert!(check_coefficients(Name::Exponential, (true, false, false, true)).is_ok());
    assert!(matches!(
        check_coefficients(Name::Exponential, (false, true, true, true)),
        Err(Error::MissingFunctionCoeffsError)
    ));
}
