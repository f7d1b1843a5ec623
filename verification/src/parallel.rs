//! The parallel evaluation driver: fans an ordered collection of expressions
//! out to the evaluator across concurrent workers over one shared
//! environment, and gathers the outcomes in input order.
//!
//! This layer adds no new semantics, only concurrency: sharing is safe with
//! no locking because every expression, value and environment is immutable,
//! so workers only ever read shared data.

use crate::ast::Expr;
use crate::env::Env;
use crate::eval::{eval, eval_model, outcome_model, EvalError};
use crate::value::Value;
use rayon::iter::{IntoParallelRefIterator, ParallelIterator};
use vstd::prelude::*;

verus! {

/// Evaluates each expression independently under the same shared
/// environment, one at a time, returning one outcome per expression in
/// input order.
#[verifier::loop_isolation(false)]
pub fn eval_many(exprs: &Vec<Expr>, env: &Env, fuel: u64) -> (r: Vec<
    Option<Result<Value, EvalError>>,
>)
    ensures
        r@.len() == exprs@.len(),
        forall|i: int|
            0 <= i < exprs@.len() ==> outcome_model(r@[i]) == eval_model(
                &exprs@[i],
                env@,
                fuel as nat,
            ),
{
    let n: usize = exprs.len();
    let mut out: Vec<Option<Result<Value, EvalError>>> = Vec::new();
    let mut idx: usize = 0;
    while idx < n
        invariant
            idx <= n,
            out@.len() == idx,
            forall|i: int|
                0 <= i < idx ==> outcome_model(out@[i]) == eval_model(
                    &exprs@[i],
                    env@,
                    fuel as nat,
                ),
        decreases n - idx,
    {
        out.push(eval(&exprs[idx], env, fuel));
        idx += 1;
    }
    out
}

/// Evaluates each expression independently across parallel workers over the
/// same shared environment, returning one outcome per expression in input
/// order, regardless of the order in which workers complete. Failure of one
/// expression does not affect any other: its error simply sits at its index.
///
/// Relies on rayon's `par_iter`, `ParallelIterator::map` and `collect`: the
/// closure is applied to each element exactly once and the collected vector
/// keeps input order (the iterator is indexed). The closure only calls the
/// verified evaluator, whose contract gives each outcome's model.
#[verifier::external_body]
pub fn eval_many_parallel(exprs: &Vec<Expr>, env: &Env, fuel: u64) -> (r: Vec<
    Option<Result<Value, EvalError>>,
>)
    ensures
        r@.len() == exprs@.len(),
        forall|i: int|
            0 <= i < exprs@.len() ==> outcome_model(r@[i]) == eval_model(
                &exprs@[i],
                env@,
                fuel as nat,
            ),
{
    exprs.par_iter().map(|expr| eval(expr, env, fuel)).collect()
}

/// Parallel/sequential equivalence: an outcome vector satisfying the
/// contract of `eval_many_parallel` agrees, index by index and in model,
/// with one satisfying the contract of the sequential `eval_many` — both
/// are pinned to `eval_model` at every index.
pub proof fn lemma_parallel_sequential_equivalence(
    exprs: Seq<Expr>,
    env: Map<Seq<char>, crate::value::ValueModel>,
    fuel: nat,
    rs: Seq<Option<Result<Value, EvalError>>>,
    rp: Seq<Option<Result<Value, EvalError>>>,
)
    requires
        rs.len() == exprs.len(),
        forall|i: int| 0 <= i < exprs.len() ==> outcome_model(rs[i]) == eval_model(
            &exprs[i],
            env,
            fuel,
        ),
        rp.len() == exprs.len(),
        forall|i: int| 0 <= i < exprs.len() ==> outcome_model(rp[i]) == eval_model(
            &exprs[i],
            env,
            fuel,
        ),
    ensures
        rs.len() == rp.len(),
        forall|i: int| 0 <= i < exprs.len() ==> outcome_model(rs[i]) == outcome_model(rp[i]),
{
}

} // verus!
