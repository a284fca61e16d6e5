//! The denotational semantics of the expression language, as spec functions.
//!
//! Each evaluator in `eval` is proved to return exactly what the
//! corresponding spec function here denotes. A result of
//! `Err(EvalError::DivisionByZero)` stands for the division-by-zero fault;
//! every composite node propagates a fault from any of its operands.

use vstd::prelude::*;
use vstd::wrapping::i64_specs;

use crate::ast::ArithCmpOp;
use crate::ast::ArithExpr;
use crate::ast::BinArithOp;
use crate::ast::BinLogicOp;
use crate::ast::BoolExpr;
use crate::ast::EvalError;
use crate::ast::Expr;
use crate::ast::Value;

verus! {

/// Signed integer division truncated toward zero (the quotient of the
/// magnitudes, carrying the sign), as opposed to the flooring `/` on `int`.
pub open spec fn div_trunc(x: int, d: int) -> int
    recommends
        d != 0,
{
    if x == 0 {
        0
    } else if x > 0 && d > 0 {
        x / d
    } else if x < 0 && d < 0 {
        (x * -1) / (d * -1)
    } else if x < 0 {
        ((x * -1) / d) * -1
    } else {
        (x / (d * -1)) * -1
    }
}

/// What one binary arithmetic operator denotes on two already-evaluated
/// operands: a wrapped 64-bit result, or the fault when dividing by zero.
/// Division wraps too: the one overflowing quotient, `i64::MIN / -1`, comes
/// back as `i64::MIN`.
pub open spec fn arith_op_denotes(op: BinArithOp, l: i64, r: i64) -> Result<i64, EvalError> {
    match op {
        BinArithOp::AddOp => Ok(i64_specs::wrapping_add(l, r)),
        BinArithOp::SubOp => Ok(i64_specs::wrapping_sub(l, r)),
        BinArithOp::MulOp => Ok(i64_specs::wrapping_mul(l, r)),
        BinArithOp::IntDivOp => if r == 0 {
            Err(EvalError::DivisionByZero)
        } else {
            Ok(i64_specs::signed_crop(div_trunc(l as int, r as int)))
        },
    }
}

/// What one comparison operator denotes on two already-evaluated integers,
/// under the standard signed total order.
pub open spec fn cmp_op_denotes(op: ArithCmpOp, l: i64, r: i64) -> bool {
    match op {
        ArithCmpOp::LtOp => l < r,
        ArithCmpOp::LteOp => l <= r,
        ArithCmpOp::GtOp => l > r,
        ArithCmpOp::GteOp => l >= r,
        ArithCmpOp::ArithEqOp => l == r,
        ArithCmpOp::ArithNeqOp => l != r,
    }
}

/// What one boolean connective denotes on two already-evaluated booleans.
pub open spec fn logic_op_denotes(op: BinLogicOp, l: bool, r: bool) -> bool {
    match op {
        BinLogicOp::AndOp => l && r,
        BinLogicOp::OrOp => l || r,
        BinLogicOp::BoolEqOp => l == r,
        BinLogicOp::BoolNeqOp => l != r,
    }
}

/// The integer an arithmetic tree denotes, or the fault. Both operands of a
/// binary node are evaluated; a fault in either one is the fault of the node.
pub open spec fn arith_denotes(e: ArithExpr) -> Result<i64, EvalError>
    decreases e,
{
    match e {
        ArithExpr::IntLit(v) => Ok(v),
        ArithExpr::BinArithExpr { left, right, op } => match (arith_denotes(*left), arith_denotes(
            *right,
        )) {
            (Ok(l), Ok(r)) => arith_op_denotes(op, l, r),
            _ => Err(EvalError::DivisionByZero),
        },
    }
}

/// The boolean a boolean tree denotes, or the fault. Evaluation is strict:
/// `And` and `Or` evaluate both operands, so a fault in the right operand
/// surfaces even when the left one already determines the connective.
pub open spec fn bool_denotes(e: BoolExpr) -> Result<bool, EvalError>
    decreases e,
{
    match e {
        BoolExpr::BoolLit(v) => Ok(v),
        BoolExpr::ArithCmpExpr { left, right, op } => match (arith_denotes(*left), arith_denotes(
            *right,
        )) {
            (Ok(l), Ok(r)) => Ok(cmp_op_denotes(op, l, r)),
            _ => Err(EvalError::DivisionByZero),
        },
        BoolExpr::BinBoolExpr { left, right, op } => match (bool_denotes(*left), bool_denotes(
            *right,
        )) {
            (Ok(l), Ok(r)) => Ok(logic_op_denotes(op, l, r)),
            _ => Err(EvalError::DivisionByZero),
        },
        BoolExpr::NotExpr(operand) => match bool_denotes(*operand) {
            Ok(v) => Ok(!v),
            Err(f) => Err(f),
        },
    }
}

/// Whether `sub` occurs somewhere in the arithmetic tree `e`, the whole tree
/// included.
pub open spec fn arith_contains(e: ArithExpr, sub: ArithExpr) -> bool
    decreases e,
{
    e == sub || match e {
        ArithExpr::IntLit(_) => false,
        ArithExpr::BinArithExpr { left, right, op: _ } => arith_contains(*left, sub)
            || arith_contains(*right, sub),
    }
}

/// Whether the arithmetic tree `sub` occurs somewhere below the boolean tree
/// `e`, on either side of a comparison at any depth.
pub open spec fn bool_contains_arith(e: BoolExpr, sub: ArithExpr) -> bool
    decreases e,
{
    match e {
        BoolExpr::BoolLit(_) => false,
        BoolExpr::ArithCmpExpr { left, right, op: _ } => arith_contains(*left, sub)
            || arith_contains(*right, sub),
        BoolExpr::BinBoolExpr { left, right, op: _ } => bool_contains_arith(*left, sub)
            || bool_contains_arith(*right, sub),
        BoolExpr::NotExpr(operand) => bool_contains_arith(*operand, sub),
    }
}

/// Whether the arithmetic tree `sub` occurs somewhere in the top-level
/// expression `e`.
pub open spec fn expr_contains_arith(e: Expr, sub: ArithExpr) -> bool {
    match e {
        Expr::ArithExpr(a) => arith_contains(a, sub),
        Expr::BoolExpr(b) => bool_contains_arith(b, sub),
    }
}

/// The `Value` a top-level expression denotes: an arithmetic subtree gives an
/// `IntValue`, a boolean subtree a `BoolValue`; a fault passes through.
pub open spec fn expr_denotes(e: Expr) -> Result<Value, EvalError> {
    match e {
        Expr::ArithExpr(a) => match arith_denotes(a) {
            Ok(v) => Ok(Value::IntValue(v)),
            Err(f) => Err(f),
        },
        Expr::BoolExpr(b) => match bool_denotes(b) {
            Ok(v) => Ok(Value::BoolValue(v)),
            Err(f) => Err(f),
        },
    }
}

} // verus!
