//! Access to the compiled text of an element.

use vstd::prelude::*;
use crate::compilable_text::CompilableText;

verus! {

/// An element that holds its compiled text once compiled.
pub trait CompiledTextAccessor {
    fn compiled_text(&self) -> Option<&CompilableText>;
}

} // verus!
