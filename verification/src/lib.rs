//! A small, pure, immutable expression evaluator: an abstract syntax tree,
//! a value model with closures, a persistent lexical environment with
//! structural sharing, a recursive evaluator, and a data-parallel driver
//! that evaluates many independent expressions over one shared environment.

pub mod ast;
pub mod env;
pub mod eval;
pub mod example;
pub mod parallel;
pub mod value;

pub use ast::Expr;
pub use env::Env;
pub use eval::{eval, EvalError};
pub use value::Value;
