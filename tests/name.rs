use big_o::error::Error;
use big_o::name::{all_names, eq_ignoring_case, notation, Name};

const NOTATION_TEST_CASES: [(&str, Name); 8] = [
    ("O(1)", Name::Constant),
    ("O(log n)", Name::Logarithmic),
    ("O(n)", Name::Linear),
    ("O(n log n)", Name::Linearithmic),
    ("O(n^2)", Name::Quadratic),
    ("O(n^3)", Name::Cubic),
    ("O(n^m)", Name::Polynomial),
    ("O(c^n)", Name::Exponential),
];

const NAMED_TEST_CASES: [(&str, Name); 8] = [
    ("Constant", Name::Constant),
    ("Logarithmic", Name::Logarithmic),
    ("Linear", Name::Linear),
    ("Linearithmic", Name::Linearithmic),
    ("Quadratic", Name::Quadratic),
    ("Cubic", Name::Cubic),
    ("Polynomial", Name::Polynomial),
    ("Exponential", Name::Exponential),
];

#[test]
fn name_into_string() {
    for (string, name) in NOTATION_TEST_CASES {
        let converted: &str = name.into();
        assert_eq!(converted, string);
        assert_eq!(Into::<&str>::into(name), string);
    }
}

#[test]
fn name_to_string() {
    for (string, name) in NOTATION_TEST_CASES {
        assert_eq!(name.to_string(), string);
    }
}

#[test]
fn string_try_from() {
    let test_cases = [NOTATION_TEST_CASES, NAMED_TEST_CASES].concat();
    for (string, name) in test_cases {
        assert_eq!(Name::try_from(string).unwrap(), name);
    }
}

#[test]
#[should_panic]
fn string_try_from_fails() {
    Name::try_from("irrlevant text").unwrap();
}

#[test]
fn string_try_into() {
    let test_cases = [NOTATION_TEST_CASES, NAMED_TEST_CASES].concat();
    for (string, name) in test_cases {
        let into: Name = string.try_into().unwrap();
        assert_eq!(into, name);
    }
}

#[test]
#[should_panic]
fn string_try_into_fails() {
    let _: Name = "irrlevant text".try_into().unwrap();
}

#[test]
fn string_parse() {
    let test_cases = [NOTATION_TEST_CASES, NAMED_TEST_CASES].concat();
    for (string, name) in test_cases {
        let parse: Name = string.parse().unwrap();
        assert_eq!(parse, name);
    }
}

#[test]
#[should_panic]
fn string_parse_fails() {
    let _: Name = "irrlevant text".parse().unwrap();
}

#[test]
fn all_names_in_catalog_order() {
    assert_eq!(
        all_names(),
        vec![
            Name::Constant,
            Name::Logarithmic,
            Name::Linear,
            Name::Linearithmic,
            Name::Quadratic,
            Name::Cubic,
            Name::Polynomial,
            Name::Exponential,
        ]
    );
}

#[test]
fn notation_of_each_name() {
    for (string, name) in NOTATION_TEST_CASES {
        assert_eq!(notation(name), string);
    }
}

#[test]
fn parse_ignores_ascii_case() {
    assert_eq!(Name::parse_notation("o(N^2)").unwrap(), Name::Quadratic);
    assert_eq!(Name::parse_notation("EXPONENTIAL").unwrap(), Name::Exponential);
    assert_eq!(Name::parse_notation("cUbIc").unwrap(), Name::Cubic);
    assert_eq!(Name::parse_notation("O(N LOG N)").unwrap(), Name::Linearithmic);
}

#[test]
fn parse_rejects_unknown_text() {
    for text in ["", "O(n^4)", "linear ", " cubic", "O(n)x", "quadratics"] {
        assert!(matches!(
            Name::parse_notation(text),
            Err(Error::ParseNotationError)
        ));
    }
}

#[test]
fn notation_round_trip_for_every_name() {
    for name in all_names() {
        assert_eq!(Name::parse_notation(notation(name)).unwrap(), name);
        let from_text: Name = name.to_string().as_str().try_into().unwrap();
        assert_eq!(from_text, name);
    }
}

#[test]
fn case_insensitive_comparison() {
    assert!(eq_ignoring_case("Hello", "hELLO"));
    assert!(eq_ignoring_case("", ""));
    assert!(!eq_ignoring_case("abc", "abd"));
    assert!(!eq_ignoring_case("abc", "ab"));
    assert!(!eq_ignoring_case("[", "{"));
    assert!(eq_ignoring_case("é", "é"));
    assert!(!eq_ignoring_case("É", "é"));
}

#[test]
fn parse_agrees_with_try_from() {
    for text in ["O(n^3)", "cubic", "o(C^N)", "irrlevant text", ""] {
        let parsed: Result<Name, &str> = text.parse();
        assert_eq!(parsed, Name::try_from(text));
    }
}
