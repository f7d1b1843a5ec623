use axis_core::ast::Expr;
use axis_core::env::Env;
use axis_core::eval::{eval, EvalError};
use axis_core::example::{make_big_expr, make_complex_expr, make_full_expr};
use axis_core::parallel::{eval_many, eval_many_parallel};
use axis_core::value::Value;
use std::sync::Arc;

fn var(name: &str) -> Expr {
    Expr::Var(name.to_string())
}

fn mixed_expressions() -> Vec<Expr> {
    let mut exprs = Vec::new();
    for i in 0..200 {
        exprs.push(match i % 4 {
            0 => Expr::Int(i),
            1 => Expr::Let {
                name: "x".to_string(),
                value: Arc::new(Expr::Int(i)),
                body: Arc::new(var("x")),
            },
            2 => var("missing"),
            _ => Expr::If {
                cond: Arc::new(Expr::Bool(true)),
                then_branch: Arc::new(Expr::Int(i)),
                else_branch: Arc::new(Expr::Int(0)),
            },
        });
    }
    exprs
}

#[test]
fn parallel_results_match_sequential_evaluation_in_order() {
    let exprs = mixed_expressions();
    let env = Env::empty().extend("y".to_string(), Value::Int(5));
    let parallel = eval_many_parallel(&exprs, &env, 1000);
    let sequential: Vec<_> = exprs.iter().map(|e| eval(e, &env, 1000)).collect();
    assert_eq!(parallel.len(), exprs.len());
    assert_eq!(parallel, sequential);
}

#[test]
fn eval_many_matches_single_evaluations() {
    let exprs = mixed_expressions();
    let env = Env::empty();
    let many = eval_many(&exprs, &env, 1000);
    let singly: Vec<_> = exprs.iter().map(|e| eval(e, &env, 1000)).collect();
    assert_eq!(many, singly);
}

#[test]
fn one_failure_does_not_affect_other_expressions() {
    let exprs = vec![Expr::Int(1), var("missing"), Expr::Int(2)];
    let env = Env::empty();
    let results = eval_many_parallel(&exprs, &env, 1000);
    assert_eq!(
        results,
        vec![
            Some(Ok(Value::Int(1))),
            Some(Err(EvalError::UnboundVar("missing".to_string()))),
            Some(Ok(Value::Int(2))),
        ]
    );
}

#[test]
fn workers_share_one_environment_without_interference() {
    let env = Env::empty().extend("x".to_string(), Value::Int(3));
    let mut exprs = Vec::new();
    for _ in 0..100 {
        exprs.push(Expr::Let {
            name: "x".to_string(),
            value: Arc::new(Expr::Int(9)),
            body: Arc::new(var("x")),
        });
        exprs.push(var("x"));
    }
    let results = eval_many_parallel(&exprs, &env, 1000);
    for pair in results.chunks(2) {
        // A let-shadowed x inside one expression never leaks into another.
        assert_eq!(pair[0], Some(Ok(Value::Int(9))));
        assert_eq!(pair[1], Some(Ok(Value::Int(3))));
    }
    assert_eq!(env.lookup("x"), Some(&Value::Int(3)));
}

#[test]
fn big_expression_evaluates_to_its_tuple() {
    let e = make_big_expr();
    match eval(&e, &Env::empty(), 1000) {
        Some(Ok(Value::Tuple(items))) => {
            assert_eq!(items.len(), 50_000);
            assert_eq!(items[0], Value::Int(0));
            assert_eq!(items[49_999], Value::Int(49_999));
        }
        other => panic!("expected a tuple, got {:?}", other),
    }
}

#[test]
fn complex_expression_evaluates_to_its_tuple() {
    let e = make_complex_expr();
    assert_eq!(
        eval(&e, &Env::empty(), 1000),
        Some(Ok(Value::Tuple(vec![
            Value::Int(2),
            Value::Int(3),
            Value::Int(999)
        ])))
    );
}

#[test]
fn full_expression_evaluates_like_the_complex_body() {
    let e = make_full_expr();
    assert_eq!(
        eval(&e, &Env::empty(), 1000),
        Some(Ok(Value::Tuple(vec![
            Value::Int(2),
            Value::Int(3),
            Value::Int(999)
        ])))
    );
}

#[test]
fn many_full_expressions_in_parallel() {
    let mut exprs = Vec::new();
    for _ in 0..8 {
        exprs.push(make_full_expr());
    }
    let env = Env::empty();
    let results = eval_many_parallel(&exprs, &env, 1000);
    let expected = Some(Ok(Value::Tuple(vec![
        Value::Int(2),
        Value::Int(3),
        Value::Int(999),
    ])));
    assert_eq!(results.len(), 8);
    for r in results {
        assert_eq!(r, expected);
    }
}
