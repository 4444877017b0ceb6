//! The one error kind of the library: a parse failure, carrying the
//! offending input text and a description of the expected format.

use vstd::prelude::*;

verus! {

/// A failure to parse a textual color notation. `input` is the text as it
/// was handed in; `expected` describes the accepted forms (for example
/// `"hsl or hsla"`), or is `"undefined"` for an unknown color-space family.
#[derive(Debug, PartialEq)]
pub struct ParseError {
    pub input: String,
    pub expected: String,
}

/// Builds a [`ParseError`] that records the offending text and the
/// expected format description.
pub fn make_parse_err(s: &str, expected: &str) -> (e: ParseError)
    ensures
        e.input@ == s@,
        e.expected@ == expected@,
{
    ParseError { input: s.to_owned(), expected: expected.to_owned() }
}

} // verus!
