//! Errors raised while slicing a compilable string.

use vstd::prelude::*;

verus! {

/// A requested range lies beyond the compilable content: the content, the
/// start and the end of the range.
#[derive(Debug)]
pub enum CompilableStringError {
    ContentOverflow(String, usize, usize),
}

} // verus!
