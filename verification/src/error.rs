//! Typed decode failures. A decode of a whole document is all-or-nothing:
//! the first failing field aborts the decode and its error is surfaced
//! unchanged to the caller.

use vstd::prelude::*;

verus! {

/// Why a decode attempt failed.
#[derive(Debug, Clone)]
#[allow(inconsistent_fields)]
pub enum DecodeError {
    /// The JSON value's runtime kind is not the kind the field expects.
    TypeMismatch { field: String, expected: String },
    /// A numeric value is syntactically fine but semantically out of range.
    OutOfRange { value: i128 },
    /// A string value is not part of a closed vocabulary.
    UnrecognizedEnum { value: String },
    /// A required key is absent from the enclosing object.
    MissingField { field: String },
}

/// Mathematical image of a `DecodeError`, used by every decoder contract.
#[allow(inconsistent_fields)]
pub enum ErrView {
    TypeMismatch { field: Seq<char>, expected: Seq<char> },
    OutOfRange { value: int },
    UnrecognizedEnum { value: Seq<char> },
    MissingField { field: Seq<char> },
}

impl View for DecodeError {
    type V = ErrView;

    open spec fn view(&self) -> ErrView {
        match self {
            DecodeError::TypeMismatch { field, expected } => ErrView::TypeMismatch {
                field: field@,
                expected: expected@,
            },
            DecodeError::OutOfRange { value } => ErrView::OutOfRange { value: *value as int },
            DecodeError::UnrecognizedEnum { value } => ErrView::UnrecognizedEnum { value: value@ },
            DecodeError::MissingField { field } => ErrView::MissingField { field: field@ },
        }
    }
}

/// `at_field(e, key)` names the enclosing field in a type mismatch that was
/// detected by a nested decoder which did not know the field name; every
/// other error keeps the name given at its point of detection.
pub open spec fn spec_at_field(e: ErrView, key: Seq<char>) -> ErrView {
    match e {
        ErrView::TypeMismatch { field, expected } => {
            if field.len() == 0 {
                ErrView::TypeMismatch { field: key, expected }
            } else {
                ErrView::TypeMismatch { field, expected }
            }
        },
        other => other,
    }
}

pub fn at_field(e: DecodeError, key: &str) -> (r: DecodeError)
    ensures
        r@ == spec_at_field(e@, key@),
{
    match e {
        DecodeError::TypeMismatch { field, expected } => {
            if field.as_str().is_empty() {
                DecodeError::TypeMismatch { field: key.to_owned(), expected }
            } else {
                DecodeError::TypeMismatch { field, expected }
            }
        },
        other => other,
    }
}

} // verus!
