//! The reasons for which a JSON value is refused.

use vstd::prelude::*;

verus! {

/// Why a JSON value was refused. Every reason names the type that was being
/// decoded.
#[derive(Debug, Clone, PartialEq, Eq)]
pub enum SchemaError {
    /// A required field is missing, or a value has the wrong JSON kind.
    Malformed { of_type: String },
    /// The discriminator is there and is not the literal of the type.
    TypeMismatch { expected: String, found: String, of_type: String },
    /// No member of a union without a fallback accepted the value. A union
    /// that has the empty shape as its fallback reports the fault of the empty
    /// shape instead.
    NoVariantMatched { of_type: String },
    /// A string is not valid base64, or not a valid timestamp.
    InvalidEncoding { of_type: String },
    /// The empty shape met an entry, whose name is `field`: the first entry of
    /// the object.
    UnknownField { of_type: String, field: String },
}

/// The model of a [`SchemaError`].
pub enum SchemaFault {
    Malformed { of_type: Seq<char> },
    TypeMismatch { expected: Seq<char>, found: Seq<char>, of_type: Seq<char> },
    NoVariantMatched { of_type: Seq<char> },
    InvalidEncoding { of_type: Seq<char> },
    UnknownField { of_type: Seq<char>, field: Seq<char> },
}

impl View for SchemaError {
    type V = SchemaFault;

    open spec fn view(&self) -> SchemaFault {
        match self {
            SchemaError::Malformed { of_type } => SchemaFault::Malformed { of_type: of_type@ },
            SchemaError::TypeMismatch { expected, found, of_type } => SchemaFault::TypeMismatch {
                expected: expected@,
                found: found@,
                of_type: of_type@,
            },
            SchemaError::NoVariantMatched { of_type } => SchemaFault::NoVariantMatched {
                of_type: of_type@,
            },
            SchemaError::InvalidEncoding { of_type } => SchemaFault::InvalidEncoding {
                of_type: of_type@,
            },
            SchemaError::UnknownField { of_type, field } => SchemaFault::UnknownField {
                of_type: of_type@,
                field: field@,
            },
        }
    }
}

impl SchemaFault {
    /// The sentence that describes the fault.
    pub open spec fn message(self) -> Seq<char> {
        match self {
            SchemaFault::Malformed { of_type } => "malformed value for "@ + of_type,
            SchemaFault::TypeMismatch { expected, found, of_type } => "invalid type for "@ + of_type
                + ": expected '"@ + expected + "', found '"@ + found + "'"@,
            SchemaFault::NoVariantMatched { of_type } => "data did not match any variant of "@
                + of_type,
            SchemaFault::InvalidEncoding { of_type } => "invalid encoding for "@ + of_type,
            SchemaFault::UnknownField { of_type, field } => "unknown field '"@ + field + "' for "@
                + of_type,
        }
    }
}

impl SchemaError {
    /// The sentence that describes the error.
    pub fn message(&self) -> (out: String)
        ensures
            out@ == self@.message(),
    {
        match self {
            SchemaError::Malformed { of_type } => {
                let mut out = String::from_str("malformed value for ");
                out.append(of_type.as_str());
                out
            },
            SchemaError::TypeMismatch { expected, found, of_type } => {
                let mut out = String::from_str("invalid type for ");
                out.append(of_type.as_str());
                out.append(": expected '");
                out.append(expected.as_str());
                out.append("', found '");
                out.append(found.as_str());
                out.append("'");
                out
            },
            SchemaError::NoVariantMatched { of_type } => {
                let mut out = String::from_str("data did not match any variant of ");
                out.append(of_type.as_str());
                out
            },
            SchemaError::InvalidEncoding { of_type } => {
                let mut out = String::from_str("invalid encoding for ");
                out.append(of_type.as_str());
                out
            },
            SchemaError::UnknownField { of_type, field } => {
                let mut out = String::from_str("unknown field '");
                out.append(field.as_str());
                out.append("' for ");
                out.append(of_type.as_str());
                out
            },
        }
    }
}

/// The outcome of comparing a discriminator with the literal of a type.
pub open spec fn type_field_checked(actual: Seq<char>, expected: Seq<char>, of_type: Seq<char>) -> Result<
    (),
    SchemaFault,
> {
    if actual == expected {
        Ok(())
    } else {
        Err(SchemaFault::TypeMismatch { expected, found: actual, of_type })
    }
}

/// Checks that a discriminator is the literal that the type `of_type` expects.
pub fn validate_type_field(actual: &str, expected: &str, of_type: &str) -> (out: Result<
    (),
    SchemaError,
>)
    ensures
        out is Ok <==> actual@ == expected@,
        match out {
            Ok(_) => type_field_checked(actual@, expected@, of_type@) == Ok::<(), SchemaFault>(()),
            Err(e) => type_field_checked(actual@, expected@, of_type@) == Err::<(), SchemaFault>(e@),
        },
{
    if String::from_str(actual) != String::from_str(expected) {
        Err(
            SchemaError::TypeMismatch {
                expected: String::from_str(expected),
                found: String::from_str(actual),
                of_type: String::from_str(of_type),
            },
        )
    } else {
        Ok(())
    }
}

} // verus!
