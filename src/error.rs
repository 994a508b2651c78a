use vstd::prelude::*;
use vstd::string::StringExecFns;

verus! {

/// What can go wrong while building or fitting a complexity.
#[derive(Debug)]
pub enum Error {
    /// Returned when the underlying least-squares solver fails.
    LSTSQError(String),
    /// Returned when a string cannot be parsed into a [`Name`](crate::name::Name).
    ParseNotationError,
    /// Returned when not all coefficients for the approximation function are provided.
    MissingFunctionCoeffsError,
    /// Returned when a polynomial complexity lacks a power parameter.
    MissingPolynomialPower,
    /// Returned when input data contains invalid values.
    InvalidInput(String),
    /// Returned when no complexity model fits the input data.
    NoValidComplexity,
}

/// The message that describes an error to a person.
pub open spec fn error_text(e: Error) -> Seq<char> {
    match e {
        Error::LSTSQError(msg) => "LSTSQ failed: "@ + msg@,
        Error::ParseNotationError => "Can't convert string to Name"@,
        Error::MissingFunctionCoeffsError => "No coefficients to compute f(x)"@,
        Error::MissingPolynomialPower => "Polynomial power parameter is missing"@,
        Error::InvalidInput(msg) => "Invalid input: "@ + msg@,
        Error::NoValidComplexity => "No valid complexity could be inferred"@,
    }
}

impl Error {
    /// Describes the error in words.
    pub fn to_string(&self) -> (r: String)
        ensures
            r@ == error_text(*self),
    {
        match self {
            Error::LSTSQError(msg) => String::from_str("LSTSQ failed: ").concat(msg.as_str()),
            Error::ParseNotationError => String::from_str("Can't convert string to Name"),
            Error::MissingFunctionCoeffsError => String::from_str("No coefficients to compute f(x)"),
            Error::MissingPolynomialPower => String::from_str("Polynomial power parameter is missing"),
            Error::InvalidInput(msg) => String::from_str("Invalid input: ").concat(msg.as_str()),
            Error::NoValidComplexity => String::from_str("No valid complexity could be inferred"),
        }
    }
}

} // verus!
