use vstd::prelude::*;
use vstd::string::StrSliceExecFns;
use vstd::string::StringExecFns;
use crate::error::Error;

verus! {

/// Names of asymptotic computational complexities.
#[derive(PartialEq, Eq, Structural, Debug, Copy, Clone)]
pub enum Name {
    Constant,
    Logarithmic,
    Linear,
    Linearithmic,
    Quadratic,
    Cubic,
    Polynomial,
    Exponential,
}

/// The catalog, from the slowest growth to the fastest.
pub open spec fn catalog() -> Seq<Name> {
    seq![
        Name::Constant,
        Name::Logarithmic,
        Name::Linear,
        Name::Linearithmic,
        Name::Quadratic,
        Name::Cubic,
        Name::Polynomial,
        Name::Exponential,
    ]
}

/// Returns all supported complexity names.
pub fn all_names() -> (r: Vec<Name>)
    ensures
        r@ == catalog(),
{
    let r = vec![
        Name::Constant,
        Name::Logarithmic,
        Name::Linear,
        Name::Linearithmic,
        Name::Quadratic,
        Name::Cubic,
        Name::Polynomial,
        Name::Exponential,
    ];
    assert(r@ =~= catalog());
    r
}

/// The Big O notation of each name.
pub open spec fn notation_str(name: Name) -> &'static str {
    match name {
        Name::Constant => "O(1)",
        Name::Logarithmic => "O(log n)",
        Name::Linear => "O(n)",
        Name::Linearithmic => "O(n log n)",
        Name::Quadratic => "O(n^2)",
        Name::Cubic => "O(n^3)",
        Name::Polynomial => "O(n^m)",
        Name::Exponential => "O(c^n)",
    }
}

/// The characters of the notation of each name.
pub open spec fn notation_text(name: Name) -> Seq<char> {
    notation_str(name)@
}

/// Returns complexity notation.
pub fn notation(name: Name) -> (r: &'static str)
    ensures
        r == notation_str(name),
        r@ == notation_text(name),
{
    match name {
        Name::Constant => "O(1)",
        Name::Logarithmic => "O(log n)",
        Name::Linear => "O(n)",
        Name::Linearithmic => "O(n log n)",
        Name::Quadratic => "O(n^2)",
        Name::Cubic => "O(n^3)",
        Name::Polynomial => "O(n^m)",
        Name::Exponential => "O(c^n)",
    }
}

/// The plain English word for each name.
pub open spec fn word_text(name: Name) -> Seq<char> {
    match name {
        Name::Constant => "constant"@,
        Name::Logarithmic => "logarithmic"@,
        Name::Linear => "linear"@,
        Name::Linearithmic => "linearithmic"@,
        Name::Quadratic => "quadratic"@,
        Name::Cubic => "cubic"@,
        Name::Polynomial => "polynomial"@,
        Name::Exponential => "exponential"@,
    }
}

/// The code point of a character once an ASCII capital is made small.
pub open spec fn lower_code(c: char) -> u32 {
    if 'A' <= c && c <= 'Z' {
        (c as u32 + 32) as u32
    } else {
        c as u32
    }
}

/// Two texts that differ at most in the case of ASCII letters.
pub open spec fn same_ignoring_case(s: Seq<char>, t: Seq<char>) -> bool {
    &&& s.len() == t.len()
    &&& forall|i: int| 0 <= i < s.len() ==> lower_code(s[i]) == lower_code(t[i])
}

/// A text stands for a name when it is its notation or its word, in any case.
pub open spec fn denotes(s: Seq<char>, name: Name) -> bool {
    same_ignoring_case(s, notation_text(name)) || same_ignoring_case(s, word_text(name))
}

/// The first name of the catalog that a text stands for.
pub open spec fn parse_text(s: Seq<char>) -> Option<Name> {
    if denotes(s, Name::Constant) {
        Some(Name::Constant)
    } else if denotes(s, Name::Logarithmic) {
        Some(Name::Logarithmic)
    } else if denotes(s, Name::Linear) {
        Some(Name::Linear)
    } else if denotes(s, Name::Linearithmic) {
        Some(Name::Linearithmic)
    } else if denotes(s, Name::Quadratic) {
        Some(Name::Quadratic)
    } else if denotes(s, Name::Cubic) {
        Some(Name::Cubic)
    } else if denotes(s, Name::Polynomial) {
        Some(Name::Polynomial)
    } else if denotes(s, Name::Exponential) {
        Some(Name::Exponential)
    } else {
        None
    }
}

fn lower(c: char) -> (r: u32)
    ensures
        r == lower_code(c),
{
    if 'A' <= c && c <= 'Z' {
        c as u32 + 32
    } else {
        c as u32
    }
}

/// Compares two texts, ignoring the case of ASCII letters.
pub fn eq_ignoring_case(s: &str, t: &str) -> (r: bool)
    ensures
        r == same_ignoring_case(s@, t@),
{
    let n = s.unicode_len();
    if n != t.unicode_len() {
        return false;
    }
    let mut i: usize = 0;
    while i < n
        invariant
            n == s@.len(),
            n == t@.len(),
            i <= n,
            forall|j: int| 0 <= j < i ==> lower_code(s@[j]) == lower_code(t@[j]),
        decreases n - i,
    {
        if lower(s.get_char(i)) != lower(t.get_char(i)) {
            return false;
        }
        i += 1;
    }
    true
}

fn denotes_exec(s: &str, name: Name) -> (r: bool)
    ensures
        r == denotes(s@, name),
{
    eq_ignoring_case(s, notation(name)) || eq_ignoring_case(s, word(name))
}

fn word(name: Name) -> (r: &'static str)
    ensures
        r@ == word_text(name),
{
    match name {
        Name::Constant => "constant",
        Name::Logarithmic => "logarithmic",
        Name::Linear => "linear",
        Name::Linearithmic => "linearithmic",
        Name::Quadratic => "quadratic",
        Name::Cubic => "cubic",
        Name::Polynomial => "polynomial",
        Name::Exponential => "exponential",
    }
}

impl Name {
    /// Reads a name from its Big O notation or from its English word, in any
    /// case of ASCII letters.
    pub fn parse_notation(s: &str) -> (r: Result<Name, Error>)
        ensures
            r matches Ok(n) ==> parse_text(s@) == Some(n),
            r matches Err(e) ==> parse_text(s@) is None && e is ParseNotationError,
    {
        let names = all_names();
        let mut i: usize = 0;
        while i < names.len()
            invariant
                names@ == catalog(),
                i <= names.len(),
                forall|j: int| 0 <= j < i ==> !denotes(s@, #[trigger] catalog()[j]),
            decreases names.len() - i,
        {
            if denotes_exec(s, names[i]) {
                return Ok(names[i]);
            }
            i += 1;
        }
        Err(Error::ParseNotationError)
    }
}

proof fn lemma_differ_at(s: Seq<char>, t: Seq<char>, i: int)
    requires
        0 <= i < s.len(),
        lower_code(s[i]) != lower_code(t[i]),
    ensures
        !same_ignoring_case(s, t),
{
}

/// Reading the notation of a name gives back that name.
pub proof fn lemma_notation_round_trip(name: Name)
    ensures
        parse_text(notation_text(name)) == Some(name),
{
    reveal_strlit("O(1)");
    reveal_strlit("O(log n)");
    reveal_strlit("O(n)");
    reveal_strlit("O(n log n)");
    reveal_strlit("O(n^2)");
    reveal_strlit("O(n^3)");
    reveal_strlit("O(n^m)");
    reveal_strlit("O(c^n)");
    reveal_strlit("constant");
    reveal_strlit("logarithmic");
    reveal_strlit("linear");
    reveal_strlit("linearithmic");
    reveal_strlit("quadratic");
    reveal_strlit("cubic");
    reveal_strlit("polynomial");
    reveal_strlit("exponential");
    let t = notation_text(name);
    match name {
        Name::Constant => {},
        Name::Logarithmic => {
            lemma_differ_at(t, word_text(Name::Constant), 0);
        },
        Name::Linear => {
            lemma_differ_at(t, notation_text(Name::Constant), 2);
        },
        Name::Linearithmic => {},
        Name::Quadratic => {
            lemma_differ_at(t, word_text(Name::Linear), 0);
        },
        Name::Cubic => {
            lemma_differ_at(t, word_text(Name::Linear), 0);
            lemma_differ_at(t, notation_text(Name::Quadratic), 4);
        },
        Name::Polynomial => {
            lemma_differ_at(t, word_text(Name::Linear), 0);
            lemma_differ_at(t, notation_text(Name::Quadratic), 4);
            lemma_differ_at(t, notation_text(Name::Cubic), 4);
        },
        Name::Exponential => {
            lemma_differ_at(t, word_text(Name::Linear), 0);
            lemma_differ_at(t, notation_text(Name::Quadratic), 2);
            lemma_differ_at(t, notation_text(Name::Cubic), 2);
            lemma_differ_at(t, notation_text(Name::Polynomial), 2);
        },
    }
}

impl Name {
    /// The notation of the name, as an owned string.
    pub fn to_string(&self) -> (r: String)
        ensures
            r@ == notation_text(*self),
    {
        String::from_str(notation(*self))
    }
}

impl From<Name> for &'static str {
    fn from(name: Name) -> (r: &'static str) {
        notation(name)
    }
}

impl vstd::std_specs::convert::FromSpecImpl<Name> for &'static str {
    open spec fn obeys_from_spec() -> bool {
        true
    }

    open spec fn from_spec(name: Name) -> &'static str {
        notation_str(name)
    }
}

impl TryFrom<&str> for Name {
    type Error = &'static str;

    fn try_from(string: &str) -> Result<Self, Self::Error> {
        match Name::parse_notation(string) {
            Ok(name) => Ok(name),
            Err(_) => Err("Can't convert string to Name"),
        }
    }
}

impl vstd::std_specs::convert::TryFromSpecImpl<&str> for Name {
    open spec fn obeys_try_from_spec() -> bool {
        true
    }

    open spec fn try_from_spec(string: &str) -> Result<Name, &'static str> {
        match parse_text(string@) {
            Some(name) => Ok(name),
            None => Err("Can't convert string to Name"),
        }
    }
}

impl std::str::FromStr for Name {
    type Err = &'static str;

    fn from_str(s: &str) -> (r: Result<Self, Self::Err>)
        ensures
            r matches Ok(n) ==> parse_text(s@) == Some(n),
            r is Err ==> parse_text(s@) is None,
    {
        Name::try_from(s)
    }
}

} // verus!
