//! Modifiers: the patterns that identify NMD syntax.

pub mod base_modifier;
pub mod constants;
pub mod standard_heading_modifier;
pub mod standard_paragraph_modifier;
pub mod standard_text_modifier;

use vstd::prelude::*;
use crate::resource::bucket::Bucket;

verus! {

/// The modifiers that a part of text is not compatible with.
pub type ModifiersBucket = Bucket;

/// Identifier of a modifier.
pub type ModifierIdentifier = String;

/// Regular expression pattern of a modifier.
pub type ModifierPattern = String;

} // verus!
