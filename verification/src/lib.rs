//! Checked arithmetic by expression rewriting.
//!
//! An arithmetic expression is held as a tree. The rewriter replaces each
//! arithmetic operator of the tree by an application of its checked
//! primitive that stops the whole computation on failure, and records where
//! the operator stands in the text of the expression. On failure that record
//! is turned into a message that points at the operator.

pub mod arith;
pub mod decimal;
pub mod error;
pub mod eval;
pub mod expr;
pub mod generate;
pub mod ops;
pub mod rewrite;
pub mod syntax;
pub mod text;

pub use arith::Arithmetic;
pub use error::Error;
pub use eval::{evaluate, lookup, run, Evaluation, Outcome};
pub use expr::{Expression, Site, Tree};
pub use ops::{BinOp, Primitive, UnOp};
pub use generate::checked;
pub use rewrite::{checked_inner, rewrite};
pub use syntax::parse;
