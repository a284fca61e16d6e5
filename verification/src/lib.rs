//! A tree-walking evaluator for a small expression language with two value
//! domains, integers and booleans. Expression trees are built by the caller;
//! `eval` walks a tree and returns the `Value` it denotes, or reports a
//! `DivisionByZero` fault, which propagates through every enclosing node.
//!
//! Arithmetic is 64-bit signed with two's-complement wraparound on overflow.
//! Integer division truncates toward zero. Evaluation is strict: both operands
//! of every binary operator are evaluated, so `And` and `Or` do not
//! short-circuit and cannot suppress a fault in their right operand.

pub mod ast;
pub mod eval;
pub mod laws;
pub mod semantics;

pub use ast::ArithCmpOp;
pub use ast::ArithExpr;
pub use ast::BinArithOp;
pub use ast::BinLogicOp;
pub use ast::BoolExpr;
pub use ast::EvalError;
pub use ast::Expr;
pub use ast::Value;
pub use eval::eval;
pub use eval::eval_arith_expr;
pub use eval::eval_bool_expr;
