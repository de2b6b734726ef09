//! A minimal symbolic-expression engine: arithmetic expressions over named
//! variables and integer constants, evaluated against a variable-binding
//! environment, with structural symbolic differentiation (sum rule and
//! product rule) and fully parenthesized textual rendering.

pub mod bindings;
pub mod expr;
pub mod laws;
pub mod render;
pub mod symbol;

pub use bindings::Bindings;
pub use expr::Expr;
pub use expr::UnboundVariable;
pub use symbol::Symbol;
