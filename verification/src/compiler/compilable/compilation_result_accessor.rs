//! Access to the compilation result of an element.

use vstd::prelude::*;
use crate::compiler::compilation_result::CompilationResult;

verus! {

/// An element that holds its compilation result once compiled.
pub trait CompilationResultAccessor {
    fn compilation_result(&self) -> &Option<CompilationResult>;
}

} // verus!
