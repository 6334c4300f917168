//! What the Python binding offers, on the library's own values.

pub mod ast;
pub mod expression;
