//! The value model: the immutable result of evaluation, including closures,
//! together with its mathematical model.

use crate::ast::Expr;
use crate::env::{env_model, Env};
use std::sync::Arc;
use vstd::prelude::*;

verus! {

/// Immutable result of evaluation.
#[derive(Debug, PartialEq)]
pub enum Value {
    /// Integer value.
    Int(i64),
    /// Boolean value.
    Bool(bool),
    /// Ordered tuple of values.
    Tuple(Vec<Value>),
    /// Ordered record of named values; names need not be unique.
    Record(Vec<(String, Value)>),
    /// A function value pairing a parameter name and body with the
    /// environment captured at its definition site (static lexical scoping).
    Closure { param: String, body: Arc<Expr>, env: Env },
}

/// Mathematical model of a `Value`: names become character sequences,
/// collections become sequences, and a captured environment becomes the
/// finite map of its visible bindings.
pub enum ValueModel {
    Int(int),
    Bool(bool),
    Tuple(Seq<ValueModel>),
    Record(Seq<(Seq<char>, ValueModel)>),
    Closure { param: Seq<char>, body: Arc<Expr>, env: Map<Seq<char>, ValueModel> },
}

/// The model of a value.
pub open spec fn value_model(v: Value) -> ValueModel
    decreases v,
{
    match v {
        Value::Int(i) => ValueModel::Int(i as int),
        Value::Bool(b) => ValueModel::Bool(b),
        Value::Tuple(items) => ValueModel::Tuple(value_seq_model(items@)),
        Value::Record(fields) => ValueModel::Record(field_seq_model(fields@)),
        Value::Closure { param, body, env } => ValueModel::Closure {
            param: param@,
            body,
            env: env_model(env),
        },
    }
}

/// The models of a sequence of values, elementwise.
pub open spec fn value_seq_model(s: Seq<Value>) -> Seq<ValueModel>
    decreases s,
{
    if s.len() == 0 {
        Seq::<ValueModel>::empty()
    } else {
        value_seq_model(s.drop_last()).push(value_model(s.last()))
    }
}

/// The models of a sequence of named values, elementwise.
pub open spec fn field_seq_model(s: Seq<(String, Value)>) -> Seq<(Seq<char>, ValueModel)>
    decreases s,
{
    if s.len() == 0 {
        Seq::<(Seq<char>, ValueModel)>::empty()
    } else {
        field_seq_model(s.drop_last()).push((s.last().0@, value_model(s.last().1)))
    }
}

/// `value_seq_model` is the elementwise model of the sequence.
pub proof fn lemma_value_seq_model(s: Seq<Value>)
    ensures
        value_seq_model(s).len() == s.len(),
        forall|i: int| 0 <= i < s.len() ==> value_seq_model(s)[i] == value_model(s[i]),
    decreases s.len(),
{
    if s.len() > 0 {
        lemma_value_seq_model(s.drop_last());
    }
}

/// `field_seq_model` keeps each field name and models each field value.
pub proof fn lemma_field_seq_model(s: Seq<(String, Value)>)
    ensures
        field_seq_model(s).len() == s.len(),
        forall|i: int| 0 <= i < s.len() ==> field_seq_model(s)[i] == (s[i].0@, value_model(
            s[i].1,
        )),
    decreases s.len(),
{
    if s.len() > 0 {
        lemma_field_seq_model(s.drop_last());
    }
}

impl View for Value {
    type V = ValueModel;

    open spec fn view(&self) -> ValueModel {
        value_model(*self)
    }
}

impl Clone for Value {
    /// Duplicating a value preserves its model exactly. Closures share their
    /// body and captured environment with the original instead of copying
    /// them structurally.
    #[verifier::loop_isolation(false)]
    fn clone(&self) -> (r: Self)
        ensures
            r@ == self@,
        decreases self,
    {
        match self {
            Value::Int(i) => Value::Int(*i),
            Value::Bool(b) => Value::Bool(*b),
            Value::Tuple(items) => {
                let n = items.len();
                let mut out: Vec<Value> = Vec::new();
                let mut idx: usize = 0;
                while idx < n
                    invariant
                        idx <= n,
                        out@.len() == idx,
                        forall|j: int|
                            0 <= j < idx ==> value_model(out@[j]) == value_model(items@[j]),
                    decreases n - idx,
                {
                    out.push(items[idx].clone());
                    idx += 1;
                }
                proof {
                    lemma_value_seq_model(out@);
                    lemma_value_seq_model(items@);
                    assert(value_seq_model(out@) =~= value_seq_model(items@));
                }
                Value::Tuple(out)
            },
            Value::Record(fields) => {
                let n = fields.len();
                let mut out: Vec<(String, Value)> = Vec::new();
                let mut idx: usize = 0;
                while idx < n
                    invariant
                        idx <= n,
                        out@.len() == idx,
                        forall|j: int|
                            0 <= j < idx ==> out@[j].0 == fields@[j].0 && value_model(out@[j].1)
                                == value_model(fields@[j].1),
                    decreases n - idx,
                {
                    let pair = &fields[idx];
                    out.push((pair.0.clone(), pair.1.clone()));
                    idx += 1;
                }
                proof {
                    lemma_field_seq_model(out@);
                    lemma_field_seq_model(fields@);
                    assert(field_seq_model(out@) =~= field_seq_model(fields@));
                }
                Value::Record(out)
            },
            Value::Closure { param, body, env } => Value::Closure {
                param: param.clone(),
                body: crate::env::clone_arc(body),
                env: env.clone(),
            },
        }
    }
}

} // verus!
