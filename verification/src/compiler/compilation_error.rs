//! Errors raised while compiling.

use vstd::prelude::*;
use crate::compilable_text::CompilableError;

verus! {

/// Why a compilation failed.
#[derive(Debug)]
pub enum CompilationError {
    /// The pattern given is not a valid regular expression.
    InvalidPattern(String),
    /// The source given is not valid.
    InvalidSource(String),
    /// The elaboration failed.
    ElaborationError,
    /// The compilation needs the name of the document.
    DocumentNameNotFound,
    /// A parameter is not valid.
    InvalidParameter(String),
    /// A slice of a compilable text could not be taken.
    CompilableError(CompilableError),
    Unknown,
}

impl CompilationError {
    /// The error raised when a slice of a compilable text cannot be taken.
    pub fn from_compilable_error(err: CompilableError) -> (r: Self)
        ensures
            r == CompilationError::CompilableError(err),
    {
        CompilationError::CompilableError(err)
    }
}

} // verus!
