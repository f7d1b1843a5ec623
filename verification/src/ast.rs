//! The expression model: an immutable tree representing programs.
//!
//! Sub-expressions are held by shared, immutable ownership (`Arc`) so that
//! large trees can be reused across many evaluations without duplication.

use std::sync::Arc;
use vstd::prelude::*;

verus! {

/// Immutable abstract syntax tree of the language.
#[derive(Debug, PartialEq)]
pub enum Expr {
    /// Integer literal.
    Int(i64),
    /// Boolean literal.
    Bool(bool),
    /// Lexical variable reference.
    Var(String),
    /// Single-parameter function literal: `fn param => body`.
    Lambda { param: String, body: Arc<Expr> },
    /// Function call: `func arg`.
    Apply { func: Arc<Expr>, arg: Arc<Expr> },
    /// Non-recursive local binding: `let name = value in body`.
    Let { name: String, value: Arc<Expr>, body: Arc<Expr> },
    /// Conditional: `if cond then then_branch else else_branch`.
    If { cond: Arc<Expr>, then_branch: Arc<Expr>, else_branch: Arc<Expr> },
    /// Ordered tuple of sub-expressions.
    Tuple(Vec<Expr>),
    /// Ordered record of named sub-expressions; names need not be unique.
    Record(Vec<(String, Expr)>),
}

} // verus!
