//! A structural source-code analyzer: it parses one Rust source text into a
//! syntax tree, walks the tree depth-first to extract a normalized inventory
//! of declarations (functions, data structures, traits, implementation
//! blocks, imports), classifies the text against a small set of
//! smart-contract framework signatures, and assembles everything into one
//! report. Malformed input never makes it fail: a text that does not parse
//! yields a well-formed report with an empty inventory and one error entry.

pub mod classify;
pub mod model;
pub mod parse;
pub mod records;
pub mod text;
pub mod visitor;
