//! Errors of compilable strings.

pub mod compilable_string_error;
