//! Generic resources shared by the compiler.

pub mod bucket;
pub mod text_reference;
