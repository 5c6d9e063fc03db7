//! Core of an NMD (a Markdown dialect) compiler: texts made of fixed and
//! compilable parts, the rules that rewrite them, and the standard modifiers.

pub mod assembler;
pub mod base_parameter;
pub mod compilable_string;
pub mod compilation;
pub mod text_bytes;
pub mod regex_engine;
pub mod resource;
pub mod codex;
pub mod compilable_text;
pub mod output_format;
pub mod theme;
pub mod bibliography;
pub mod compiler;
pub mod utility;
