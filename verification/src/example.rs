//! Ready-made example expressions: a small lambda example and the larger
//! trees used to exercise sequential and parallel evaluation.

use crate::ast::Expr;
use std::sync::Arc;
use vstd::prelude::*;

verus! {

/// Holds of the identity-lambda example: `let inc = fn x => x in inc 41`.
pub open spec fn is_simple_lambda_example(e: Expr) -> bool {
    &&& e matches Expr::Let { name, value, body }
    &&& name@ == "inc"@
    &&& *value matches Expr::Lambda { param, body: lbody }
    &&& param@ == "x"@
    &&& *lbody matches Expr::Var(v)
    &&& v@ == "x"@
    &&& *body matches Expr::Apply { func, arg }
    &&& *func matches Expr::Var(f)
    &&& f@ == "inc"@
    &&& *arg == Expr::Int(41)
}

/// `let inc = fn x => x in inc 41`: binds the identity function and applies
/// it to `41`.
pub fn simple_lambda_example() -> (e: Expr)
    ensures
        is_simple_lambda_example(e),
{
    let inc = Expr::Lambda { param: "x".to_owned(), body: Arc::new(Expr::Var("x".to_owned())) };

    let body = Expr::Apply {
        func: Arc::new(Expr::Var("inc".to_owned())),
        arg: Arc::new(Expr::Int(41)),
    };

    Expr::Let { name: "inc".to_owned(), value: Arc::new(inc), body: Arc::new(body) }
}

/// Holds of the big tuple: the integers `0` to `49999` in order.
pub open spec fn is_big_expr(e: Expr) -> bool {
    &&& e matches Expr::Tuple(items)
    &&& items@.len() == 50000
    &&& forall|i: int| 0 <= i < 50000 ==> items@[i] == Expr::Int(i as i64)
}

/// A large tuple of 50000 integers, stressing memory traversal.
#[verifier::loop_isolation(false)]
pub fn make_big_expr() -> (e: Expr)
    ensures
        is_big_expr(e),
{
    let mut items: Vec<Expr> = Vec::new();
    let mut i: usize = 0;
    while i < 50000
        invariant
            i <= 50000,
            items@.len() == i,
            forall|j: int| 0 <= j < i ==> items@[j] == Expr::Int(j as i64),
        decreases 50000 - i,
    {
        items.push(Expr::Int(i as i64));
        i += 1;
    }
    Expr::Tuple(items)
}

/// Holds of the nested-let example:
/// `let y = 2 in let z = 3 in (y, z, 999)`.
pub open spec fn is_complex_expr(e: Expr) -> bool {
    &&& e matches Expr::Let { name: ny, value: vy, body: by }
    &&& ny@ == "y"@
    &&& *vy == Expr::Int(2)
    &&& *by matches Expr::Let { name: nz, value: vz, body: bz }
    &&& nz@ == "z"@
    &&& *vz == Expr::Int(3)
    &&& *bz matches Expr::Tuple(items)
    &&& items@.len() == 3
    &&& items@[0] matches Expr::Var(y)
    &&& y@ == "y"@
    &&& items@[1] matches Expr::Var(z)
    &&& z@ == "z"@
    &&& items@[2] == Expr::Int(999)
}

/// A nested `Let` expression that forces closure and environment usage:
/// `let y = 2 in let z = 3 in (y, z, 999)`.
pub fn make_complex_expr() -> (e: Expr)
    ensures
        is_complex_expr(e),
{
    Expr::Let {
        name: "y".to_owned(),
        value: Arc::new(Expr::Int(2)),
        body: Arc::new(
            Expr::Let {
                name: "z".to_owned(),
                value: Arc::new(Expr::Int(3)),
                body: Arc::new(
                    Expr::Tuple(
                        vec![
                            Expr::Var("y".to_owned()),
                            Expr::Var("z".to_owned()),
                            Expr::Int(999),
                        ],
                    ),
                ),
            },
        ),
    }
}

/// `let x = big_expr in complex_expr`: the big tuple is bound and then
/// ignored by the nested-let body.
pub fn make_full_expr() -> (e: Expr)
    ensures
        e matches Expr::Let { name, value, body } && name@ == "x"@ && is_big_expr(*value)
            && is_complex_expr(*body),
{
    let big_expr = make_big_expr();
    let complex_expr = make_complex_expr();

    Expr::Let {
        name: "x".to_owned(),
        value: Arc::new(big_expr),
        body: Arc::new(complex_expr),
    }
}

} // verus!
