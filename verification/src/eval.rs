//! The evaluator: a pure recursive function from expression and environment
//! to value or error, together with its mathematical model.
//!
//! The language's `Apply` evaluates a closure body under an extended copy of
//! the closure's captured environment, so evaluation of an ill-founded
//! program (a self-application applied to itself) need not terminate. Every
//! evaluation therefore carries a fuel bound: one unit is spent on each
//! recursive step, and an exhausted budget is reported as `None`, never as a
//! wrong answer.

use crate::ast::Expr;
use crate::env::{clone_arc, Env};
use crate::value::{field_seq_model, value_model, value_seq_model, Value, ValueModel};
use vstd::prelude::*;

verus! {

/// An evaluation failure. Every error is a returned outcome, never a
/// process-terminating fault.
#[derive(Debug, PartialEq)]
pub enum EvalError {
    /// A variable was referenced that is absent from the environment.
    UnboundVar(String),
    /// A value was used in a context requiring another shape; currently only
    /// a non-boolean `If` condition.
    TypeError(String),
    /// The function position of an `Apply` evaluated to a non-closure value.
    NotAFunction,
}

/// Mathematical model of an evaluation failure.
pub enum ErrModel {
    UnboundVar(Seq<char>),
    TypeError(Seq<char>),
    NotAFunction,
}

impl View for EvalError {
    type V = ErrModel;

    open spec fn view(&self) -> ErrModel {
        match *self {
            EvalError::UnboundVar(ref n) => ErrModel::UnboundVar(n@),
            EvalError::TypeError(ref m) => ErrModel::TypeError(m@),
            EvalError::NotAFunction => ErrModel::NotAFunction,
        }
    }
}

/// The message carried by the error for a non-boolean `If` condition.
pub open spec fn if_condition_message() -> Seq<char> {
    "if condition must be a boolean"@
}

/// The model of one evaluation: `None` when the fuel budget is exhausted,
/// otherwise the value or error the evaluator returns.
///
/// One unit of fuel is spent on each recursive step, so any outcome reached
/// with some fuel is the final answer (see `lemma_eval_model_fuel_monotone`).
pub open spec fn eval_model(
    e: &Expr,
    env: Map<Seq<char>, ValueModel>,
    fuel: nat,
) -> Option<Result<ValueModel, ErrModel>>
    decreases fuel, 0int,
{
    if fuel == 0 {
        None
    } else {
        let f = (fuel - 1) as nat;
        match e {
            Expr::Int(i) => Some(Ok(ValueModel::Int(*i as int))),
            Expr::Bool(b) => Some(Ok(ValueModel::Bool(*b))),
            Expr::Var(name) => if env.contains_key(name@) {
                Some(Ok(env[name@]))
            } else {
                Some(Err(ErrModel::UnboundVar(name@)))
            },
            Expr::Lambda { param, body } => Some(
                Ok(ValueModel::Closure { param: param@, body: *body, env }),
            ),
            Expr::Apply { func, arg } => match eval_model(&**func, env, f) {
                None => None,
                Some(Err(er)) => Some(Err(er)),
                Some(Ok(fv)) => match eval_model(&**arg, env, f) {
                    None => None,
                    Some(Err(er)) => Some(Err(er)),
                    Some(Ok(av)) => match fv {
                        ValueModel::Closure { param, body, env: cenv } => eval_model(
                            &*body,
                            cenv.insert(param, av),
                            f,
                        ),
                        _ => Some(Err(ErrModel::NotAFunction)),
                    },
                },
            },
            Expr::Let { name, value, body } => match eval_model(&**value, env, f) {
                None => None,
                Some(Err(er)) => Some(Err(er)),
                Some(Ok(v)) => eval_model(&**body, env.insert(name@, v), f),
            },
            Expr::If { cond, then_branch, else_branch } => match eval_model(&**cond, env, f) {
                None => None,
                Some(Err(er)) => Some(Err(er)),
                Some(Ok(cv)) => match cv {
                    ValueModel::Bool(true) => eval_model(&**then_branch, env, f),
                    ValueModel::Bool(false) => eval_model(&**else_branch, env, f),
                    _ => Some(Err(ErrModel::TypeError(if_condition_message()))),
                },
            },
            Expr::Tuple(items) => match eval_list_model(items@, env, f) {
                None => None,
                Some(Err(er)) => Some(Err(er)),
                Some(Ok(vs)) => Some(Ok(ValueModel::Tuple(vs))),
            },
            Expr::Record(fields) => match eval_fields_model(fields@, env, f) {
                None => None,
                Some(Err(er)) => Some(Err(er)),
                Some(Ok(fs)) => Some(Ok(ValueModel::Record(fs))),
            },
        }
    }
}

/// The model of evaluating a sequence of expressions strictly left to right
/// under one environment, stopping at the first non-success.
pub open spec fn eval_list_model(
    items: Seq<Expr>,
    env: Map<Seq<char>, ValueModel>,
    fuel: nat,
) -> Option<Result<Seq<ValueModel>, ErrModel>>
    decreases fuel, items.len(),
{
    if items.len() == 0 {
        Some(Ok(Seq::<ValueModel>::empty()))
    } else {
        match eval_list_model(items.drop_last(), env, fuel) {
            None => None,
            Some(Err(er)) => Some(Err(er)),
            Some(Ok(vs)) => match eval_model(&items.last(), env, fuel) {
                None => None,
                Some(Err(er)) => Some(Err(er)),
                Some(Ok(v)) => Some(Ok(vs.push(v))),
            },
        }
    }
}

/// The model of evaluating record fields strictly left to right under one
/// environment, preserving field names and order, stopping at the first
/// non-success.
pub open spec fn eval_fields_model(
    fields: Seq<(String, Expr)>,
    env: Map<Seq<char>, ValueModel>,
    fuel: nat,
) -> Option<Result<Seq<(Seq<char>, ValueModel)>, ErrModel>>
    decreases fuel, fields.len(),
{
    if fields.len() == 0 {
        Some(Ok(Seq::<(Seq<char>, ValueModel)>::empty()))
    } else {
        match eval_fields_model(fields.drop_last(), env, fuel) {
            None => None,
            Some(Err(er)) => Some(Err(er)),
            Some(Ok(fs)) => match eval_model(&fields.last().1, env, fuel) {
                None => None,
                Some(Err(er)) => Some(Err(er)),
                Some(Ok(v)) => Some(Ok(fs.push((fields.last().0@, v)))),
            },
        }
    }
}

/// The model of an outcome the executable evaluator returns.
pub open spec fn outcome_model(r: Option<Result<Value, EvalError>>) -> Option<
    Result<ValueModel, ErrModel>,
> {
    match r {
        None => None,
        Some(Ok(v)) => Some(Ok(value_model(v))),
        Some(Err(e)) => Some(Err(e@)),
    }
}

/// A non-success among the first `k` items settles the whole sequence:
/// the items after the first failure are never evaluated.
proof fn lemma_eval_list_settled(
    items: Seq<Expr>,
    env: Map<Seq<char>, ValueModel>,
    fuel: nat,
    k: int,
)
    requires
        0 <= k <= items.len(),
        !(eval_list_model(items.subrange(0, k), env, fuel) matches Some(Ok(_))),
    ensures
        eval_list_model(items, env, fuel) == eval_list_model(items.subrange(0, k), env, fuel),
    decreases items.len() - k,
{
    if k == items.len() {
        assert(items.subrange(0, k) =~= items);
    } else {
        assert(items.subrange(0, k + 1).drop_last() =~= items.subrange(0, k));
        lemma_eval_list_settled(items, env, fuel, k + 1);
    }
}

/// A non-success among the first `k` fields settles the whole record.
proof fn lemma_eval_fields_settled(
    fields: Seq<(String, Expr)>,
    env: Map<Seq<char>, ValueModel>,
    fuel: nat,
    k: int,
)
    requires
        0 <= k <= fields.len(),
        !(eval_fields_model(fields.subrange(0, k), env, fuel) matches Some(Ok(_))),
    ensures
        eval_fields_model(fields, env, fuel) == eval_fields_model(fields.subrange(0, k), env, fuel),
    decreases fields.len() - k,
{
    if k == fields.len() {
        assert(fields.subrange(0, k) =~= fields);
    } else {
        assert(fields.subrange(0, k + 1).drop_last() =~= fields.subrange(0, k));
        lemma_eval_fields_settled(fields, env, fuel, k + 1);
    }
}

/// Spending more fuel never changes a settled outcome: once evaluation of an
/// expression returns a value or an error under some budget, every larger
/// budget returns exactly the same outcome. `None` only ever means the
/// budget ran out too early, never a different answer.
pub proof fn lemma_eval_model_fuel_monotone(
    e: &Expr,
    env: Map<Seq<char>, ValueModel>,
    f1: nat,
    f2: nat,
)
    requires
        f1 <= f2,
        eval_model(e, env, f1) matches Some(_),
    ensures
        eval_model(e, env, f2) == eval_model(e, env, f1),
    decreases f1, 0int,
{
    let g1 = (f1 - 1) as nat;
    let g2 = (f2 - 1) as nat;
    match e {
        Expr::Apply { func, arg } => {
            lemma_eval_model_fuel_monotone(&**func, env, g1, g2);
            if let Some(Ok(fv)) = eval_model(&**func, env, g1) {
                lemma_eval_model_fuel_monotone(&**arg, env, g1, g2);
                if let Some(Ok(av)) = eval_model(&**arg, env, g1) {
                    if let ValueModel::Closure { param, body, env: cenv } = fv {
                        lemma_eval_model_fuel_monotone(&*body, cenv.insert(param, av), g1, g2);
                    }
                }
            }
        },
        Expr::Let { name, value, body } => {
            lemma_eval_model_fuel_monotone(&**value, env, g1, g2);
            if let Some(Ok(v)) = eval_model(&**value, env, g1) {
                lemma_eval_model_fuel_monotone(&**body, env.insert(name@, v), g1, g2);
            }
        },
        Expr::If { cond, then_branch, else_branch } => {
            lemma_eval_model_fuel_monotone(&**cond, env, g1, g2);
            if let Some(Ok(cv)) = eval_model(&**cond, env, g1) {
                match cv {
                    ValueModel::Bool(true) => {
                        lemma_eval_model_fuel_monotone(&**then_branch, env, g1, g2);
                    },
                    ValueModel::Bool(false) => {
                        lemma_eval_model_fuel_monotone(&**else_branch, env, g1, g2);
                    },
                    _ => {},
                }
            }
        },
        Expr::Tuple(items) => {
            lemma_eval_list_model_fuel_monotone(items@, env, g1, g2);
        },
        Expr::Record(fields) => {
            lemma_eval_fields_model_fuel_monotone(fields@, env, g1, g2);
        },
        _ => {},
    }
}

/// Fuel monotonicity for sequences of expressions.
proof fn lemma_eval_list_model_fuel_monotone(
    items: Seq<Expr>,
    env: Map<Seq<char>, ValueModel>,
    f1: nat,
    f2: nat,
)
    requires
        f1 <= f2,
        eval_list_model(items, env, f1) matches Some(_),
    ensures
        eval_list_model(items, env, f2) == eval_list_model(items, env, f1),
    decreases f1, items.len(),
{
    if items.len() > 0 {
        lemma_eval_list_model_fuel_monotone(items.drop_last(), env, f1, f2);
        if let Some(Ok(vs)) = eval_list_model(items.drop_last(), env, f1) {
            lemma_eval_model_fuel_monotone(&items.last(), env, f1, f2);
        }
    }
}

/// Fuel monotonicity for sequences of record fields.
proof fn lemma_eval_fields_model_fuel_monotone(
    fields: Seq<(String, Expr)>,
    env: Map<Seq<char>, ValueModel>,
    f1: nat,
    f2: nat,
)
    requires
        f1 <= f2,
        eval_fields_model(fields, env, f1) matches Some(_),
    ensures
        eval_fields_model(fields, env, f2) == eval_fields_model(fields, env, f1),
    decreases f1, fields.len(),
{
    if fields.len() > 0 {
        lemma_eval_fields_model_fuel_monotone(fields.drop_last(), env, f1, f2);
        if let Some(Ok(fs)) = eval_fields_model(fields.drop_last(), env, f1) {
            lemma_eval_model_fuel_monotone(&fields.last().1, env, f1, f2);
        }
    }
}

/// Referential transparency: the outcome of evaluation is a function of the
/// expression, the environment's bindings and the fuel alone — no hidden
/// state. Any two outcomes that satisfy `eval`'s contract for the same
/// expression and bindings have the same model; and if both are settled
/// (not a fuel exhaustion), they have the same model even under different
/// budgets.
pub proof fn lemma_referential_transparency(
    e: &Expr,
    env: Map<Seq<char>, ValueModel>,
    fuel1: nat,
    fuel2: nat,
    r1: Option<Result<Value, EvalError>>,
    r2: Option<Result<Value, EvalError>>,
)
    requires
        outcome_model(r1) == eval_model(e, env, fuel1),
        outcome_model(r2) == eval_model(e, env, fuel2),
    ensures
        fuel1 == fuel2 ==> outcome_model(r1) == outcome_model(r2),
        r1 is Some && r2 is Some ==> outcome_model(r1) == outcome_model(r2),
{
    if r1 is Some && r2 is Some {
        if fuel1 <= fuel2 {
            lemma_eval_model_fuel_monotone(e, env, fuel1, fuel2);
        } else {
            lemma_eval_model_fuel_monotone(e, env, fuel2, fuel1);
        }
    }
}

/// Evaluates `expr` under `env`, spending at most `fuel` recursive steps.
///
/// Returns `None` exactly when the fuel budget is exhausted; otherwise the
/// outcome is exactly the one `eval_model` assigns to the expression and the
/// environment's bindings. Evaluation never mutates `env`: closures capture
/// it by shared ownership, and `Let`/`Apply` extend private derivations.
#[verifier::loop_isolation(false)]
pub fn eval(expr: &Expr, env: &Env, fuel: u64) -> (r: Option<Result<Value, EvalError>>)
    ensures
        outcome_model(r) == eval_model(expr, env@, fuel as nat),
    decreases fuel,
{
    if fuel == 0 {
        return None;
    }
    let f: u64 = fuel - 1;
    match expr {
        Expr::Int(i) => Some(Ok(Value::Int(*i))),
        Expr::Bool(b) => Some(Ok(Value::Bool(*b))),
        Expr::Var(name) => match env.lookup(name.as_str()) {
            Some(v) => Some(Ok(v.clone())),
            None => Some(Err(EvalError::UnboundVar(name.clone()))),
        },
        Expr::Lambda { param, body } => Some(
            Ok(
                Value::Closure {
                    param: param.clone(),
                    body: clone_arc(body),
                    env: env.clone(),
                },
            ),
        ),
        Expr::Apply { func, arg } => match eval(&**func, env, f) {
            None => None,
            Some(Err(e)) => Some(Err(e)),
            Some(Ok(func_val)) => match eval(&**arg, env, f) {
                None => None,
                Some(Err(e)) => Some(Err(e)),
                Some(Ok(arg_val)) => match func_val {
                    Value::Closure { param, body, env: closure_env } => {
                        let new_env = closure_env.extend(param, arg_val);
                        eval(&*body, &new_env, f)
                    },
                    _ => Some(Err(EvalError::NotAFunction)),
                },
            },
        },
        Expr::Let { name, value, body } => match eval(&**value, env, f) {
            None => None,
            Some(Err(e)) => Some(Err(e)),
            Some(Ok(v)) => {
                let new_env = env.extend(name.clone(), v);
                eval(&**body, &new_env, f)
            },
        },
        Expr::If { cond, then_branch, else_branch } => match eval(&**cond, env, f) {
            None => None,
            Some(Err(e)) => Some(Err(e)),
            Some(Ok(cond_val)) => match cond_val {
                Value::Bool(true) => eval(&**then_branch, env, f),
                Value::Bool(false) => eval(&**else_branch, env, f),
                _ => Some(
                    Err(EvalError::TypeError("if condition must be a boolean".to_owned())),
                ),
            },
        },
        Expr::Tuple(items) => {
            let n: usize = items.len();
            let mut vals: Vec<Value> = Vec::new();
            let mut idx: usize = 0;
            while idx < n
                invariant
                    idx <= n,
                    vals@.len() == idx,
                    eval_list_model(items@.subrange(0, idx as int), env@, f as nat) == Some(
                        Ok::<Seq<ValueModel>, ErrModel>(value_seq_model(vals@)),
                    ),
                decreases n - idx,
            {
                let ghost prefix = items@.subrange(0, idx as int);
                let ghost step = items@.subrange(0, idx as int + 1);
                proof {
                    assert(step.drop_last() =~= prefix);
                    assert(step.last() == items@[idx as int]);
                }
                match eval(&items[idx], env, f) {
                    None => {
                        proof {
                            lemma_eval_list_settled(items@, env@, f as nat, idx as int + 1);
                        }
                        return None;
                    },
                    Some(Err(e)) => {
                        proof {
                            lemma_eval_list_settled(items@, env@, f as nat, idx as int + 1);
                        }
                        return Some(Err(e));
                    },
                    Some(Ok(v)) => {
                        let ghost old_vals = vals@;
                        vals.push(v);
                        proof {
                            assert(vals@.drop_last() =~= old_vals);
                        }
                    },
                }
                idx += 1;
            }
            proof {
                assert(items@.subrange(0, n as int) =~= items@);
            }
            Some(Ok(Value::Tuple(vals)))
        },
        Expr::Record(fields) => {
            let n: usize = fields.len();
            let mut vals: Vec<(String, Value)> = Vec::new();
            let mut idx: usize = 0;
            while idx < n
                invariant
                    idx <= n,
                    vals@.len() == idx,
                    eval_fields_model(fields@.subrange(0, idx as int), env@, f as nat) == Some(
                        Ok::<Seq<(Seq<char>, ValueModel)>, ErrModel>(field_seq_model(vals@)),
                    ),
                decreases n - idx,
            {
                let ghost prefix = fields@.subrange(0, idx as int);
                let ghost step = fields@.subrange(0, idx as int + 1);
                proof {
                    assert(step.drop_last() =~= prefix);
                    assert(step.last() == fields@[idx as int]);
                }
                let pair = &fields[idx];
                match eval(&pair.1, env, f) {
                    None => {
                        proof {
                            lemma_eval_fields_settled(fields@, env@, f as nat, idx as int + 1);
                        }
                        return None;
                    },
                    Some(Err(e)) => {
                        proof {
                            lemma_eval_fields_settled(fields@, env@, f as nat, idx as int + 1);
                        }
                        return Some(Err(e));
                    },
                    Some(Ok(v)) => {
                        let ghost old_vals = vals@;
                        vals.push((pair.0.clone(), v));
                        proof {
                            assert(vals@.drop_last() =~= old_vals);
                        }
                    },
                }
                idx += 1;
            }
            proof {
                assert(fields@.subrange(0, n as int) =~= fields@);
            }
            Some(Ok(Value::Record(vals)))
        },
    }
}

} // verus!
