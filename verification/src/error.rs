//! Errors that this library and the layers above it report.

use vstd::prelude::*;
use vstd::string::StringExecFns;

verus! {

/// What went wrong, with a message for a human reader.
#[derive(Debug)]
pub enum CoreError {
    /// A value broke a rule of the data model.
    ValidationError(String),
    /// Input could not be parsed.
    ParseError(String),
}

impl CoreError {
    /// The message that the error carries.
    pub open spec fn detail(&self) -> Seq<char> {
        match self {
            CoreError::ValidationError(m) => m@,
            CoreError::ParseError(m) => m@,
        }
    }

    /// The text of the error: a prefix that tells which error it is, then the
    /// message.
    pub open spec fn text(&self) -> Seq<char> {
        match self {
            CoreError::ValidationError(m) => "invalid parameter: "@ + m@,
            CoreError::ParseError(m) => "parse error: "@ + m@,
        }
    }

    /// Renders the error as text.
    pub fn describe(&self) -> (s: String)
        ensures
            s@ == self.text(),
    {
        match self {
            CoreError::ValidationError(m) => String::from_str("invalid parameter: ").concat(
                m.as_str(),
            ),
            CoreError::ParseError(m) => String::from_str("parse error: ").concat(m.as_str()),
        }
    }
}

} // verus!
