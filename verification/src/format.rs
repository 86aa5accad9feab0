//! The two representations in which a value travels.

use crate::text::{integer_string, integer_text};
use vstd::prelude::*;
use vstd::string::StringExecFns;

verus! {

/// A format code that is neither text nor binary; holds the code that was sent.
#[derive(Debug, PartialEq, Eq, Structural, Clone, Copy)]
pub struct UnrecognizedFormat(pub i16);

impl UnrecognizedFormat {
    /// The error in words.
    pub open spec fn text(self) -> Seq<char> {
        "unknown format code: "@ + integer_text(self.0 as int)
    }

    /// The error in words.
    pub fn to_string(&self) -> (text: String)
        ensures
            text@ == self.text(),
    {
        String::from_str("unknown format code: ").concat(integer_string(self.0 as i64).as_str())
    }
}

/// How a value is written on the wire: `0` is text, `1` is binary.
#[derive(Debug, PartialEq, Eq, Structural, Clone, Copy)]
pub enum PgFormat {
    /// The value is sent in its textual representation.
    Text,
    /// The value is sent in its binary representation.
    Binary,
}

impl PgFormat {
    /// The format that `code` names, or the code itself where it names none.
    pub open spec fn of_code(code: i16) -> Result<PgFormat, UnrecognizedFormat> {
        if code == 0 {
            Ok(PgFormat::Text)
        } else if code == 1 {
            Ok(PgFormat::Binary)
        } else {
            Err(UnrecognizedFormat(code))
        }
    }
}

impl TryFrom<i16> for PgFormat {
    type Error = UnrecognizedFormat;

    fn try_from(value: i16) -> (result: Result<PgFormat, UnrecognizedFormat>)
        ensures
            result == PgFormat::of_code(value),
    {
        if value == 0 {
            Ok(PgFormat::Text)
        } else if value == 1 {
            Ok(PgFormat::Binary)
        } else {
            Err(UnrecognizedFormat(value))
        }
    }
}

impl vstd::std_specs::convert::TryFromSpecImpl<i16> for PgFormat {
    open spec fn obeys_try_from_spec() -> bool {
        true
    }

    open spec fn try_from_spec(value: i16) -> Result<PgFormat, UnrecognizedFormat> {
        PgFormat::of_code(value)
    }
}

} // verus!
