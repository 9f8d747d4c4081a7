//! Errors.
use vstd::prelude::*;

verus! {

/// Why the values of an `INSERT` could not be read.
#[derive(Debug, PartialEq, Eq)]
pub enum Error {
    /// An expression of a row is neither a literal, nor a signed number, nor a bare word.
    ParseSqlValue { msg: String },
}

impl Error {
    /// The message of the error.
    pub open spec fn msg(self) -> Seq<char> {
        match self {
            Error::ParseSqlValue { msg } => msg@,
        }
    }
}

/// Why a statement is not the one expected.
#[derive(Debug, PartialEq, Eq)]
pub enum ParserError {
    ParserError(String),
}

impl ParserError {
    /// The message of the error.
    pub open spec fn msg(self) -> Seq<char> {
        match self {
            ParserError::ParserError(msg) => msg@,
        }
    }
}

} // verus!
