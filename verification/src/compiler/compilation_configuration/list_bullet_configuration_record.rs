//! How list bullets are rendered.

use vstd::prelude::*;

verus! {

/// The `to` of a bullet drawn as an empty checkbox.
pub const CHECKBOX: &'static str = "checkbox";

/// The `to` of a bullet drawn as a checked checkbox.
pub const CHECKBOX_CHECKED: &'static str = "checkbox-checked";

/// A bullet `from` becomes `to` at the given indentation level (exactly that
/// level when `strict_indentation`, that level or deeper otherwise).
#[derive(Debug)]
pub struct ListBulletConfigurationRecord {
    pub from: String,
    pub to: String,
    pub indentation_level: usize,
    pub strict_indentation: bool,
}

/// The bullets configured when none are given.
pub fn default_bullets_configuration() -> (r: Vec<ListBulletConfigurationRecord>)
    ensures
        r@.len() == 0,
{
    Vec::new()
}

} // verus!
