//! Assembling builds the final artifact of a compiled dossier or document.

pub mod assembler_configuration;
pub mod html_assembler;

use vstd::prelude::*;

verus! {

/// Why an assembly failed.
#[derive(Debug)]
pub enum AssemblerError {
    /// Too few elements to assemble.
    TooFewElements(String),
    /// A compiled content was expected and not found.
    CompiledContentNotFound,
}

} // verus!
