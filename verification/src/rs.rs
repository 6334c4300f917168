//! Expressions over bare symbols.
pub mod ast;
