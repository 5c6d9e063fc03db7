//! Whether the compilation runs in parallel.

use vstd::prelude::*;

verus! {

/// Degree of parallelism of the compilation.
#[derive(Debug, Clone, Copy, PartialEq, Eq)]
pub enum Parallelization {
    No,
    Auto,
    Max,
}

impl Default for Parallelization {
    fn default() -> (r: Self)
        ensures
            r == Parallelization::No,
    {
        Parallelization::No
    }
}

} // verus!
