//! The executable evaluators: recursive descent over a tree, one per grammar,
//! each proved to return exactly the denotation from `semantics`.
//!
//! All three are pure functions of the tree alone, so two evaluations of
//! equal trees return equal results. None of them panics: the one runtime
//! fault, division by zero, comes back as `Err(EvalError::DivisionByZero)`
//! and propagates through every enclosing node.

use vstd::prelude::*;

use crate::ast::ArithCmpOp;
use crate::ast::ArithExpr;
use crate::ast::BinArithOp;
use crate::ast::BinLogicOp;
use crate::ast::BoolExpr;
use crate::ast::EvalError;
use crate::ast::Expr;
use crate::ast::Value;
use crate::semantics::arith_denotes;
use crate::semantics::bool_denotes;
use crate::semantics::expr_denotes;

verus! {

/// Evaluates a top-level expression: an arithmetic subtree to an `IntValue`,
/// a boolean subtree to a `BoolValue`, or the propagated fault.
pub fn eval(expr: Expr) -> (r: Result<Value, EvalError>)
    ensures
        r == expr_denotes(expr),
{
    match expr {
        Expr::ArithExpr(e) => match eval_arith_expr(e) {
            Ok(v) => Ok(Value::IntValue(v)),
            Err(f) => Err(f),
        },
        Expr::BoolExpr(e) => match eval_bool_expr(e) {
            Ok(v) => Ok(Value::BoolValue(v)),
            Err(f) => Err(f),
        },
    }
}

/// Evaluates an arithmetic tree to its 64-bit signed integer, wrapping on
/// overflow, or faults when a division meets a zero divisor. Both operands
/// of a binary node are evaluated, left first.
pub fn eval_arith_expr(arith_expr: ArithExpr) -> (r: Result<i64, EvalError>)
    ensures
        r == arith_denotes(arith_expr),
    decreases arith_expr,
{
    match arith_expr {
        ArithExpr::IntLit(v) => Ok(v),
        ArithExpr::BinArithExpr { left, right, op } => {
            let l = match eval_arith_expr(*left) {
                Ok(v) => v,
                Err(f) => {
                    return Err(f);
                },
            };
            let r = match eval_arith_expr(*right) {
                Ok(v) => v,
                Err(f) => {
                    return Err(f);
                },
            };
            match op {
                BinArithOp::AddOp => Ok(l.wrapping_add(r)),
                BinArithOp::SubOp => Ok(l.wrapping_sub(r)),
                BinArithOp::MulOp => Ok(l.wrapping_mul(r)),
                BinArithOp::IntDivOp => {
                    if r == 0 {
                        Err(EvalError::DivisionByZero)
                    } else {
                        match l.checked_div(r) {
                            Some(q) => Ok(q),
                            // the one overflowing quotient wraps: MIN / -1 is MIN
                            None => Ok(i64::MIN),
                        }
                    }
                },
            }
        },
    }
}

/// Evaluates a boolean tree to its boolean, or propagates a fault from an
/// arithmetic subtree. Strict throughout: `And` and `Or` evaluate both
/// operands even when the left one already determines the result.
pub fn eval_bool_expr(my_bool_expr: BoolExpr) -> (r: Result<bool, EvalError>)
    ensures
        r == bool_denotes(my_bool_expr),
    decreases my_bool_expr,
{
    match my_bool_expr {
        BoolExpr::BoolLit(v) => Ok(v),
        BoolExpr::ArithCmpExpr { left, right, op } => {
            let l = match eval_arith_expr(*left) {
                Ok(v) => v,
                Err(f) => {
                    return Err(f);
                },
            };
            let r = match eval_arith_expr(*right) {
                Ok(v) => v,
                Err(f) => {
                    return Err(f);
                },
            };
            match op {
                ArithCmpOp::LtOp => Ok(l < r),
                ArithCmpOp::LteOp => Ok(l <= r),
                ArithCmpOp::GtOp => Ok(l > r),
                ArithCmpOp::GteOp => Ok(l >= r),
                ArithCmpOp::ArithEqOp => Ok(l == r),
                ArithCmpOp::ArithNeqOp => Ok(l != r),
            }
        },
        BoolExpr::BinBoolExpr { left, right, op } => {
            let l = match eval_bool_expr(*left) {
                Ok(v) => v,
                Err(f) => {
                    return Err(f);
                },
            };
            let r = match eval_bool_expr(*right) {
                Ok(v) => v,
                Err(f) => {
                    return Err(f);
                },
            };
            match op {
                BinLogicOp::AndOp => Ok(l && r),
                BinLogicOp::OrOp => Ok(l || r),
                BinLogicOp::BoolEqOp => Ok(l == r),
                BinLogicOp::BoolNeqOp => Ok(l != r),
            }
        },
        BoolExpr::NotExpr(operand) => match eval_bool_expr(*operand) {
            Ok(v) => Ok(!v),
            Err(f) => Err(f),
        },
    }
}

} // verus!
