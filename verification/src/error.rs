//! The failures a store operation can report, and how an engine result code
//! is sorted into them.

use vstd::prelude::*;

verus! {

/// What went wrong in a store operation.
#[derive(Clone, Copy, Debug, PartialEq, Eq, Structural)]
pub enum StoreError {
    /// A write broke a rule of the schema: a status outside the fixed
    /// enumeration, a second settings row, a missing required value.
    ConstraintViolation,
    /// The backing file could not be created or opened.
    NotOpenable,
    /// The engine failed to prepare or run a statement.
    QueryFailed,
    /// The store holds something the schema rules out: no settings row, or a
    /// row whose columns do not have the declared types.
    StoreCorrupted,
}

/// Primary result code of the engine for a broken constraint.
pub const CODE_CONSTRAINT: i32 = 19;

/// Primary result code of the engine for a file it cannot open.
pub const CODE_CANTOPEN: i32 = 14;

/// The primary result code inside an extended one: its low eight bits.
pub open spec fn primary_code(code: i32) -> int {
    (code as int) % 256
}

/// The error that a failed statement is reported as, given the engine's
/// result code if it supplied one.
pub open spec fn spec_classify(code: Option<i32>) -> StoreError {
    match code {
        Some(c) if c >= 0 && primary_code(c) == CODE_CONSTRAINT => StoreError::ConstraintViolation,
        Some(c) if c >= 0 && primary_code(c) == CODE_CANTOPEN => StoreError::NotOpenable,
        _ => StoreError::QueryFailed,
    }
}

/// Sorts a failed statement into an error kind by the engine's result code.
/// Extended codes count by their primary code; a failure without a code, or
/// with any other code, is a failed query.
pub fn classify(code: Option<i32>) -> (e: StoreError)
    ensures
        e == spec_classify(code),
        e != StoreError::StoreCorrupted,
{
    match code {
        Some(c) => {
            if c < 0 {
                StoreError::QueryFailed
            } else {
                let primary: i32 = c % 256;
                if primary == CODE_CONSTRAINT {
                    StoreError::ConstraintViolation
                } else if primary == CODE_CANTOPEN {
                    StoreError::NotOpenable
                } else {
                    StoreError::QueryFailed
                }
            }
        },
        None => StoreError::QueryFailed,
    }
}

} // verus!
