//! Access to the parsed content of an element.

use vstd::prelude::*;
use crate::compiler::compilation_result::CompilationResult;

verus! {

/// An element that holds its parsed content once compiled.
pub trait CompiledContentAccessor {
    fn parsed_content(&self) -> &Option<CompilationResult>;
}

} // verus!
