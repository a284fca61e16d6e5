//! The expression data model: two mutually referencing grammars (arithmetic
//! and boolean expressions) unified under a top-level `Expr`, the `Value`
//! result type, and the single fault kind `EvalError`.
//!
//! Every tree is finite and acyclic by construction: each node owns its
//! children exclusively through `Box`, so no sharing or back-references can
//! exist. A node's operator fully determines the kinds of its operands.

use vstd::prelude::*;

verus! {

/// The root of an evaluation tree: either an arithmetic subtree, which
/// denotes a 64-bit signed integer, or a boolean subtree, which denotes a
/// boolean.
pub enum Expr {
    ArithExpr(ArithExpr),
    BoolExpr(BoolExpr),
}

/// An arithmetic expression: an integer literal leaf, or a binary node
/// combining two arithmetic subtrees with one of the four arithmetic
/// operators.
pub enum ArithExpr {
    BinArithExpr { left: Box<ArithExpr>, right: Box<ArithExpr>, op: BinArithOp },
    IntLit(i64),
}

/// A boolean expression: a boolean literal leaf, a comparison of two
/// arithmetic subtrees (the bridge between the two grammars), a binary
/// connective over two boolean subtrees, or a negation.
pub enum BoolExpr {
    ArithCmpExpr { left: Box<ArithExpr>, right: Box<ArithExpr>, op: ArithCmpOp },
    BinBoolExpr { left: Box<BoolExpr>, right: Box<BoolExpr>, op: BinLogicOp },
    NotExpr(Box<BoolExpr>),
    BoolLit(bool),
}

/// The four binary arithmetic operators. Addition, subtraction and
/// multiplication wrap on overflow; division truncates toward zero and
/// faults when the divisor is zero.
pub enum BinArithOp {
    AddOp,
    SubOp,
    MulOp,
    IntDivOp,
}

/// The six comparison operators on integers, under the standard signed
/// total order.
pub enum ArithCmpOp {
    LtOp,
    LteOp,
    GtOp,
    GteOp,
    ArithEqOp,
    ArithNeqOp,
}

/// The four binary boolean connectives. None of them short-circuits: both
/// operands are always evaluated.
pub enum BinLogicOp {
    AndOp,
    OrOp,
    BoolEqOp,
    BoolNeqOp,
}

/// The result of evaluating an expression tree. Equality is structural and
/// type-discriminated: an `IntValue` is never equal to a `BoolValue`.
#[derive(Debug, PartialEq, Eq, Structural)]
pub enum Value {
    BoolValue(bool),
    IntValue(i64),
}

/// The only domain-level fault: an integer division whose right operand
/// evaluated to zero. It is not recoverable at any intermediate node and
/// unwinds to the top-level caller.
#[derive(Debug, PartialEq, Eq, Structural)]
pub enum EvalError {
    DivisionByZero,
}

} // verus!
