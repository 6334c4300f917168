//! The types of the leaves of an expression.
pub use crate::number::integer::Integer;
pub use crate::symbol::Symbol;
