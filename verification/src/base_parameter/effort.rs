//! How much work the compilation may do.

use vstd::prelude::*;

verus! {

/// Compilation effort: `Fast` skips time consuming operations.
#[derive(Debug, Clone, Copy, PartialEq, Eq)]
pub enum Effort {
    Fast,
    Standard,
}

impl Default for Effort {
    fn default() -> (r: Self)
        ensures
            r == Effort::Standard,
    {
        Effort::Standard
    }
}

} // verus!
