//! Type universe kernel of a statically typed language: the builtin
//! class/trait hierarchy, the subtyping relation over it, and a small
//! const-expression evaluator that performs type-level computation
//! (bounds-checked indexing, generic-length arithmetic) during checking.

pub mod builtins;
pub mod error;
pub mod eval;
pub mod laws;
pub mod render;
pub mod resource;
pub mod subtype;
pub mod ty;
pub mod universe;
pub mod value;
