use expr_eval::eval;
use expr_eval::eval_arith_expr;
use expr_eval::eval_bool_expr;
use expr_eval::ArithCmpOp;
use expr_eval::ArithExpr::BinArithExpr;
use expr_eval::ArithExpr::IntLit;
use expr_eval::BinArithOp;
use expr_eval::BinLogicOp;
use expr_eval::BoolExpr::ArithCmpExpr;
use expr_eval::BoolExpr::BinBoolExpr;
use expr_eval::BoolExpr::BoolLit;
use expr_eval::BoolExpr::NotExpr;
use expr_eval::EvalError;
use expr_eval::Expr::ArithExpr;
use expr_eval::Expr::BoolExpr;
use expr_eval::Value::BoolValue;
use expr_eval::Value::IntValue;

/// `1 / 0`, the smallest faulting tree.
fn division_by_zero() -> expr_eval::ArithExpr {
    BinArithExpr {
        left: Box::new(IntLit(1)),
        right: Box::new(IntLit(0)),
        op: BinArithOp::IntDivOp,
    }
}

#[test]
fn integer_literal_denotes_itself() {
    assert_eq!(eval(ArithExpr(IntLit(0))), Ok(IntValue(0)));
    assert_eq!(eval(ArithExpr(IntLit(-7))), Ok(IntValue(-7)));
    assert_eq!(eval(ArithExpr(IntLit(i64::MAX))), Ok(IntValue(i64::MAX)));
    assert_eq!(eval(ArithExpr(IntLit(i64::MIN))), Ok(IntValue(i64::MIN)));
}

#[test]
fn boolean_literal_denotes_itself() {
    assert_eq!(eval(BoolExpr(BoolLit(true))), Ok(BoolValue(true)));
    assert_eq!(eval(BoolExpr(BoolLit(false))), Ok(BoolValue(false)));
}

#[test]
fn division_by_zero_faults() {
    assert_eq!(
        eval_arith_expr(division_by_zero()),
        Err(EvalError::DivisionByZero)
    );
}

#[test]
fn fault_propagates_through_arithmetic() {
    // ((1 / 0) + 5) * 3 faults, whatever the sibling operands
    let inner = BinArithExpr {
        left: Box::new(division_by_zero()),
        right: Box::new(IntLit(5)),
        op: BinArithOp::AddOp,
    };
    let outer = BinArithExpr {
        left: Box::new(inner),
        right: Box::new(IntLit(3)),
        op: BinArithOp::MulOp,
    };
    assert_eq!(eval(ArithExpr(outer)), Err(EvalError::DivisionByZero));
}

#[test]
fn fault_propagates_through_comparison_and_negation() {
    let cmp = ArithCmpExpr {
        left: Box::new(IntLit(1)),
        right: Box::new(division_by_zero()),
        op: ArithCmpOp::LtOp,
    };
    let negated = NotExpr(Box::new(cmp));
    assert_eq!(eval(BoolExpr(negated)), Err(EvalError::DivisionByZero));
}

#[test]
fn logic_is_strict_no_short_circuit() {
    // And with a false left operand must still evaluate the faulting right one
    let faulting_cmp = || ArithCmpExpr {
        left: Box::new(IntLit(1)),
        right: Box::new(division_by_zero()),
        op: ArithCmpOp::ArithEqOp,
    };
    let and_expr = BinBoolExpr {
        left: Box::new(BoolLit(false)),
        right: Box::new(faulting_cmp()),
        op: BinLogicOp::AndOp,
    };
    assert_eq!(eval_bool_expr(and_expr), Err(EvalError::DivisionByZero));

    // Or with a true left operand must fault too
    let or_expr = BinBoolExpr {
        left: Box::new(BoolLit(true)),
        right: Box::new(faulting_cmp()),
        op: BinLogicOp::OrOp,
    };
    assert_eq!(eval_bool_expr(or_expr), Err(EvalError::DivisionByZero));
}

#[test]
fn addition_wraps_on_overflow() {
    let expr = BinArithExpr {
        left: Box::new(IntLit(i64::MAX)),
        right: Box::new(IntLit(1)),
        op: BinArithOp::AddOp,
    };
    assert_eq!(eval_arith_expr(expr), Ok(i64::MIN));
}

#[test]
fn subtraction_wraps_on_overflow() {
    let expr = BinArithExpr {
        left: Box::new(IntLit(i64::MIN)),
        right: Box::new(IntLit(1)),
        op: BinArithOp::SubOp,
    };
    assert_eq!(eval_arith_expr(expr), Ok(i64::MAX));
}

#[test]
fn multiplication_wraps_on_overflow() {
    let expr = BinArithExpr {
        left: Box::new(IntLit(i64::MAX)),
        right: Box::new(IntLit(2)),
        op: BinArithOp::MulOp,
    };
    assert_eq!(eval_arith_expr(expr), Ok(-2));
}

#[test]
fn division_wraps_on_overflow() {
    let expr = BinArithExpr {
        left: Box::new(IntLit(i64::MIN)),
        right: Box::new(IntLit(-1)),
        op: BinArithOp::IntDivOp,
    };
    assert_eq!(eval_arith_expr(expr), Ok(i64::MIN));
}

#[test]
fn division_truncates_toward_zero() {
    let quotient = |l: i64, r: i64| {
        eval_arith_expr(BinArithExpr {
            left: Box::new(IntLit(l)),
            right: Box::new(IntLit(r)),
            op: BinArithOp::IntDivOp,
        })
    };
    assert_eq!(quotient(7, 2), Ok(3));
    assert_eq!(quotient(-7, 2), Ok(-3));
    assert_eq!(quotient(7, -2), Ok(-3));
    assert_eq!(quotient(-7, -2), Ok(3));
}

#[test]
fn re_evaluation_yields_identical_results() {
    let build = || {
        BoolExpr(ArithCmpExpr {
            left: Box::new(BinArithExpr {
                left: Box::new(IntLit(24)),
                right: Box::new(IntLit(32)),
                op: BinArithOp::SubOp,
            }),
            right: Box::new(IntLit(-8)),
            op: ArithCmpOp::ArithEqOp,
        })
    };
    let first = eval(build());
    let second = eval(build());
    let third = eval(build());
    assert_eq!(first, Ok(BoolValue(true)));
    assert_eq!(first, second);
    assert_eq!(second, third);
}

#[test]
fn value_equality_is_type_discriminated() {
    assert_ne!(IntValue(1), BoolValue(true));
    assert_ne!(IntValue(0), BoolValue(false));
    assert_eq!(IntValue(5), IntValue(5));
    assert_ne!(IntValue(5), IntValue(6));
    assert_eq!(BoolValue(true), BoolValue(true));
    assert_ne!(BoolValue(true), BoolValue(false));
}
