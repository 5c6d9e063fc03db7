//! Visual themes of the assembled output.

use vstd::prelude::*;

verus! {

/// Style theme of the output.
#[derive(Debug, Clone, Copy, PartialEq, Eq)]
pub enum Theme {
    Light,
    Dark,
    Scientific,
    Vintage,
    HighContrast,
    NoStyle,
}

impl Default for Theme {
    fn default() -> (r: Self)
        ensures
            r == Theme::Light,
    {
        Theme::Light
    }
}

} // verus!
