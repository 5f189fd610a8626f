//! Why a resource could not be decoded.

use vstd::prelude::*;
use crate::json::JsonKind;

verus! {

/// The two families of decoding failures.
#[derive(Debug, Clone, Copy, PartialEq, Eq, Structural)]
pub enum FailureKind {
    /// The content is not valid structured data, or a required field is
    /// missing or holds a value of the wrong shape.
    SchemaParseFailure,
    /// A closed-vocabulary field holds a string outside its known set.
    EnumMappingFailure,
}

/// A structured decoding failure. Every variant but `Syntax` names the
/// offending field; the variants that met a value report what they met.
#[derive(Debug, PartialEq, Eq)]
pub enum ParseError {
    /// The text is not a JSON document; the position is one-based.
    Syntax { line: usize, column: usize },
    /// A required field is absent.
    Missing { field: &'static str },
    /// A field holds a value of another kind than the schema asks for.
    Mistyped { field: &'static str, found: JsonKind },
    /// A field holds an integer outside the range of its type.
    OutOfRange { field: &'static str, number: i128 },
    /// A closed-vocabulary field holds a name that is not in the vocabulary.
    Unknown { field: &'static str, value: String },
}

/// The mathematical value of a [`ParseError`].
pub ghost enum ParseErrorModel {
    Syntax { line: nat, column: nat },
    Missing { field: Seq<char> },
    Mistyped { field: Seq<char>, found: JsonKind },
    OutOfRange { field: Seq<char>, number: int },
    Unknown { field: Seq<char>, value: Seq<char> },
}

impl ParseErrorModel {
    /// The family a failure belongs to.
    pub open spec fn kind(self) -> FailureKind {
        match self {
            ParseErrorModel::Unknown { .. } => FailureKind::EnumMappingFailure,
            _ => FailureKind::SchemaParseFailure,
        }
    }

    /// The field a failure names; a syntax failure names none.
    pub open spec fn field(self) -> Option<Seq<char>> {
        match self {
            ParseErrorModel::Syntax { .. } => None,
            ParseErrorModel::Missing { field } => Some(field),
            ParseErrorModel::Mistyped { field, .. } => Some(field),
            ParseErrorModel::OutOfRange { field, .. } => Some(field),
            ParseErrorModel::Unknown { field, .. } => Some(field),
        }
    }
}

impl View for ParseError {
    type V = ParseErrorModel;

    open spec fn view(&self) -> ParseErrorModel {
        match self {
            ParseError::Syntax { line, column } => ParseErrorModel::Syntax {
                line: *line as nat,
                column: *column as nat,
            },
            ParseError::Missing { field } => ParseErrorModel::Missing { field: field@ },
            ParseError::Mistyped { field, found } => ParseErrorModel::Mistyped {
                field: field@,
                found: *found,
            },
            ParseError::OutOfRange { field, number } => ParseErrorModel::OutOfRange {
                field: field@,
                number: *number as int,
            },
            ParseError::Unknown { field, value } => ParseErrorModel::Unknown {
                field: field@,
                value: value@,
            },
        }
    }
}

impl Clone for ParseError {
    fn clone(&self) -> (r: Self)
        ensures
            r@ == self@,
    {
        match self {
            ParseError::Syntax { line, column } => ParseError::Syntax {
                line: *line,
                column: *column,
            },
            ParseError::Missing { field } => ParseError::Missing { field: *field },
            ParseError::Mistyped { field, found } => ParseError::Mistyped {
                field: *field,
                found: *found,
            },
            ParseError::OutOfRange { field, number } => ParseError::OutOfRange {
                field: *field,
                number: *number,
            },
            ParseError::Unknown { field, value } => ParseError::Unknown {
                field: *field,
                value: value.clone(),
            },
        }
    }
}

impl ParseError {
    /// The family this failure belongs to.
    pub fn kind(&self) -> (k: FailureKind)
        ensures
            k == self@.kind(),
    {
        match self {
            ParseError::Unknown { .. } => FailureKind::EnumMappingFailure,
            _ => FailureKind::SchemaParseFailure,
        }
    }

    /// The field the failure names, if it names one.
    pub fn field(&self) -> (f: Option<&'static str>)
        ensures
            match f {
                Some(name) => self@.field() == Some(name@),
                None => self@.field() is None,
            },
    {
        match self {
            ParseError::Syntax { .. } => None,
            ParseError::Missing { field } => Some(*field),
            ParseError::Mistyped { field, .. } => Some(*field),
            ParseError::OutOfRange { field, .. } => Some(*field),
            ParseError::Unknown { field, .. } => Some(*field),
        }
    }
}

/// The view of a decoding outcome: the view of the value, or of the failure.
pub open spec fn outcome<T: View>(r: Result<T, ParseError>) -> Result<T::V, ParseErrorModel> {
    match r {
        Ok(x) => Ok(x@),
        Err(e) => Err(e@),
    }
}

} // verus!
