//! Text utilities.

pub mod characters;
pub mod text_utility;
