//! The laws of the evaluator, each proved from the denotations in
//! `semantics` that the evaluators in `eval` are contracted to return:
//! literals denote themselves, division by zero raises the one fault, a
//! fault anywhere in a tree is the fault of the whole tree, the boolean
//! connectives are strict, evaluation is deterministic, and values of the
//! two domains are never equal.

use vstd::prelude::*;

use crate::ast::ArithExpr;
use crate::ast::BinArithOp;
use crate::ast::BoolExpr;
use crate::ast::EvalError;
use crate::ast::Expr;
use crate::ast::Value;
use crate::semantics::arith_contains;
use crate::semantics::arith_denotes;
use crate::semantics::bool_contains_arith;
use crate::semantics::bool_denotes;
use crate::semantics::expr_contains_arith;
use crate::semantics::expr_denotes;

verus! {

/// An integer literal denotes itself: evaluating it as a top-level
/// expression yields exactly `IntValue(n)`, for every `n`.
pub proof fn lemma_int_literal_denotes_itself(n: i64)
    ensures
        expr_denotes(Expr::ArithExpr(ArithExpr::IntLit(n))) == Ok::<Value, EvalError>(
            Value::IntValue(n),
        ),
{
}

/// A boolean literal denotes itself: evaluating it as a top-level
/// expression yields exactly `BoolValue(b)`, for every `b`.
pub proof fn lemma_bool_literal_denotes_itself(b: bool)
    ensures
        expr_denotes(Expr::BoolExpr(BoolExpr::BoolLit(b))) == Ok::<Value, EvalError>(
            Value::BoolValue(b),
        ),
{
}

/// A division node whose right operand denotes zero raises the fault, for
/// any left operand.
pub proof fn lemma_division_by_zero_faults(e: ArithExpr)
    ensures
        (e matches ArithExpr::BinArithExpr { left: _, right, op } && op is IntDivOp
            && arith_denotes(*right) == Ok::<i64, EvalError>(0)) ==> arith_denotes(e)
            == Err::<i64, EvalError>(EvalError::DivisionByZero),
{
}

/// A fault is not locally recoverable: an arithmetic tree containing a
/// faulting subtree anywhere, at any depth and beside any sibling operands,
/// itself denotes the fault.
pub proof fn lemma_fault_propagates_arith(e: ArithExpr, sub: ArithExpr)
    requires
        arith_contains(e, sub),
        arith_denotes(sub) is Err,
    ensures
        arith_denotes(e) == Err::<i64, EvalError>(EvalError::DivisionByZero),
    decreases e,
{
    if e != sub {
        match e {
            ArithExpr::IntLit(_) => {},
            ArithExpr::BinArithExpr { left, right, op: _ } => {
                if arith_contains(*left, sub) {
                    lemma_fault_propagates_arith(*left, sub);
                } else {
                    lemma_fault_propagates_arith(*right, sub);
                }
            },
        }
    }
}

/// A boolean tree containing a faulting arithmetic subtree anywhere, at any
/// depth, itself denotes the fault.
pub proof fn lemma_fault_propagates_bool(e: BoolExpr, sub: ArithExpr)
    requires
        bool_contains_arith(e, sub),
        arith_denotes(sub) is Err,
    ensures
        bool_denotes(e) == Err::<bool, EvalError>(EvalError::DivisionByZero),
    decreases e,
{
    match e {
        BoolExpr::BoolLit(_) => {},
        BoolExpr::ArithCmpExpr { left, right, op: _ } => {
            if arith_contains(*left, sub) {
                lemma_fault_propagates_arith(*left, sub);
            } else {
                lemma_fault_propagates_arith(*right, sub);
            }
        },
        BoolExpr::BinBoolExpr { left, right, op: _ } => {
            if bool_contains_arith(*left, sub) {
                lemma_fault_propagates_bool(*left, sub);
            } else {
                lemma_fault_propagates_bool(*right, sub);
            }
        },
        BoolExpr::NotExpr(operand) => {
            lemma_fault_propagates_bool(*operand, sub);
        },
    }
}

/// A top-level expression containing a faulting arithmetic subtree anywhere
/// denotes the fault: the whole evaluation aborts, in either grammar.
pub proof fn lemma_fault_propagates(e: Expr, sub: ArithExpr)
    requires
        expr_contains_arith(e, sub),
        arith_denotes(sub) is Err,
    ensures
        expr_denotes(e) == Err::<Value, EvalError>(EvalError::DivisionByZero),
{
    match e {
        Expr::ArithExpr(a) => lemma_fault_propagates_arith(a, sub),
        Expr::BoolExpr(b) => lemma_fault_propagates_bool(b, sub),
    }
}

/// The boolean connectives are strict: a binary-logic node faults exactly
/// when one of its operands faults, whatever the operator — a `false` left
/// operand of `And` does not suppress a fault on the right.
pub proof fn lemma_binary_logic_is_strict(e: BoolExpr)
    ensures
        e matches BoolExpr::BinBoolExpr { left, right, op: _ } ==> (bool_denotes(e) is Err <==> (
        bool_denotes(*left) is Err || bool_denotes(*right) is Err)),
{
}

/// Evaluation is deterministic, so re-evaluating the same immutable tree any
/// number of times yields identical results: the denotation is a function of
/// the tree alone, and equal trees denote equal results.
pub proof fn lemma_evaluation_is_deterministic(e1: Expr, e2: Expr)
    requires
        e1 == e2,
    ensures
        expr_denotes(e1) == expr_denotes(e2),
{
}

/// Equality of values is type-discriminated: an `IntValue` is never equal to
/// a `BoolValue`, even where a numeric encoding coincides.
pub proof fn lemma_value_domains_disjoint(n: i64, b: bool)
    ensures
        Value::IntValue(n) != Value::BoolValue(b),
{
}

} // verus!
