//! Build-time generator for the abstract-syntax-tree layer of a
//! tree-walking interpreter.
//!
//! A small declarative schema — one line per node kind — is parsed into an
//! ordered list of node specifications, and three artifact families are
//! synthesized from it: one type definition per node kind, a closed sum type
//! unifying all node kinds, and a visitor-style dispatch interface with one
//! method per node kind.  Rendering the structural artifacts into formatted
//! source text, and writing them out, is left to an external renderer.

pub mod error;
pub mod nodes;
pub mod pipeline;
pub mod registry;
pub mod schema;
pub mod sum;
pub mod text;
pub mod visitor;
