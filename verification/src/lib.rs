//! Symbolic terms of a small computer algebra system.
pub mod ast;
pub mod expression;
pub mod fmt;
pub mod number;
pub mod py;
pub mod rs;
pub mod symbol;
pub mod term;
pub mod types;

pub use term::Term;
