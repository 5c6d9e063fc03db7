//! Access to the results of compiled elements.

pub mod compilation_result_accessor;
pub mod compiled_content_accessor;

use vstd::prelude::*;

verus! {

/// A requested range lies beyond the compilable content: the content, the
/// start and the end of the range.
#[derive(Debug)]
pub enum CompilableError {
    ContentOverflow(String, usize, usize),
}

} // verus!
