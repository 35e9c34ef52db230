//! Symbol extraction for TypeScript source files: the grammar parser's tree
//! is copied into plain values, and two verified depth-first pre-order
//! walks collect the definitions (functions, methods, classes) and the
//! usages (calls and instantiations) the file holds.

pub mod ast;
pub mod defs;
pub mod laws;
pub mod parser;
pub mod symbols;
pub mod usages;
