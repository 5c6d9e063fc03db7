//! Errors raised while compiling dossiers and documents.

use vstd::prelude::*;
use crate::assembler::AssemblerError;

verus! {

/// Why a compilation failed.
#[derive(Debug)]
pub enum CompilationError {
    /// Several errors, collected together.
    BucketOfErrors(Vec<CompilationError>),
    /// The assembly of the output failed.
    AssemblerError(AssemblerError),
    /// The pattern given is not a valid regular expression.
    InvalidPattern(String),
    /// The source given is not valid.
    InvalidSource(String),
    /// The elaboration failed.
    ElaborationError,
    /// The elaboration failed, with a description.
    ElaborationErrorVerbose(String),
    /// The compilation needs the name of the document.
    DocumentNameNotFound,
    /// A parameter is not valid.
    InvalidParameter(String),
    /// The level of a heading cannot be inferred.
    HeadingLevelNotInferable(String),
    Unknown,
}

} // verus!
