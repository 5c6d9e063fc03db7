//! Output formats the compiler can produce.

use vstd::prelude::*;

verus! {

/// The format of the compiled output.
#[derive(Debug, Clone, Copy, PartialEq, Eq)]
pub enum OutputFormat {
    Html,
}

impl Default for OutputFormat {
    fn default() -> (r: Self)
        ensures
            r == OutputFormat::Html,
    {
        OutputFormat::Html
    }
}

} // verus!
