//! Results and errors of compilations.

pub mod compilation_error;
pub mod compilation_outcome;
pub mod compiled_text_accessor;
