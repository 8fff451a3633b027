//! A tree-walking evaluator for a small dynamically typed scripting language.
pub mod ast;
pub mod value;
pub mod error;
pub mod env;
pub mod semantics;
pub mod interpreter;
pub mod laws;
pub mod scoping;
pub mod arena;
