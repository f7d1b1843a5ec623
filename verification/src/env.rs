//! The persistent lexical environment: an immutable mapping from variable
//! name to value, supporting cheap derivation.
//!
//! An environment is a chain of binding nodes shared through `Arc`:
//! `extend` allocates one new node pointing at its parent's chain, so a
//! derived environment shares all of its parent's storage, and no operation
//! ever mutates an existing environment.

use crate::value::{value_model, Value, ValueModel};
use std::sync::Arc;
use vstd::prelude::*;

verus! {

/// A persistent mapping from variable name to value.
#[derive(Debug, PartialEq)]
pub struct Env {
    head: Option<Arc<Binding>>,
}

/// One binding node: a name, its value, and the rest of the chain.
#[derive(Debug, PartialEq)]
struct Binding {
    name: String,
    value: Value,
    rest: Env,
}

/// The model of an environment: the finite map from each bound name to the
/// most recently bound (innermost) value for that name.
pub closed spec fn env_model(env: Env) -> Map<Seq<char>, ValueModel>
    decreases env,
{
    match env.head {
        None => Map::<Seq<char>, ValueModel>::empty(),
        Some(b) => env_model(b.rest).insert(b.name@, value_model(b.value)),
    }
}

impl View for Env {
    type V = Map<Seq<char>, ValueModel>;

    open spec fn view(&self) -> Map<Seq<char>, ValueModel> {
        env_model(*self)
    }
}

/// Relies on `Arc::clone`: returns a new handle to the same shared
/// allocation, hence to the very same value.
#[verifier::external_body]
pub(crate) fn clone_arc<T>(a: &Arc<T>) -> (r: Arc<T>)
    ensures
        r == *a,
{
    Arc::clone(a)
}

/// Relies on `str`'s `PartialEq`: two string slices compare equal exactly
/// when their character sequences are equal.
#[verifier::external_body]
fn str_eq(a: &str, b: &str) -> (r: bool)
    ensures
        r == (a@ == b@),
{
    a == b
}

impl Clone for Env {
    /// Duplicating an environment shares the whole binding chain and
    /// preserves the bindings exactly.
    fn clone(&self) -> (r: Self)
        ensures
            r == *self,
    {
        match &self.head {
            None => Env { head: None },
            Some(b) => Env { head: Some(clone_arc(b)) },
        }
    }
}

impl Env {
    /// The environment with no bindings.
    pub fn empty() -> (r: Env)
        ensures
            r@ == Map::<Seq<char>, ValueModel>::empty(),
    {
        Env { head: None }
    }

    /// Returns a new environment containing all of `self`'s bindings plus
    /// `name` bound to `value`; a previous binding of `name` is shadowed.
    /// `self` itself is unaffected: it shares storage with the result but
    /// is never mutated.
    pub fn extend(&self, name: String, value: Value) -> (r: Env)
        ensures
            r@ == self@.insert(name@, value@),
    {
        Env { head: Some(Arc::new(Binding { name, value, rest: self.clone() })) }
    }

    /// Returns the most recently bound value for `name` reachable from
    /// `self`, or `None` if `name` was never bound.
    pub fn lookup<'a>(&'a self, name: &str) -> (r: Option<&'a Value>)
        ensures
            match r {
                Some(v) => self@.contains_key(name@) && v@ == self@[name@],
                None => !self@.contains_key(name@),
            },
        decreases self,
    {
        match &self.head {
            None => None,
            Some(b) => {
                let node: &Binding = &**b;
                if str_eq(node.name.as_str(), name) {
                    Some(&node.value)
                } else {
                    node.rest.lookup(name)
                }
            },
        }
    }
}

/// Non-interference of extend: for any environment `env`, any result `ext`
/// of `env.extend(n, v)` (characterised by `extend`'s contract) binds `n` to
/// `v`, while every other name `m` is bound in `ext` exactly as it is in
/// `env`. `env` itself is unaffected by the extension: `extend` takes its
/// receiver by shared reference and never mutates it, so a `lookup` on `env`
/// before and after the call reads the very same bindings.
pub proof fn lemma_extend_non_interference(env: Env, ext: Env, n: String, v: Value, m: String)
    requires
        ext@ == env@.insert(n@, v@),
    ensures
        ext@.contains_key(n@),
        ext@[n@] == v@,
        m@ != n@ ==> (ext@.contains_key(m@) <==> env@.contains_key(m@)),
        m@ != n@ && env@.contains_key(m@) ==> ext@[m@] == env@[m@],
{
}

/// Shadowing: binding `n` twice (first to `v1`, then to `v2`) yields an
/// environment in which `n` reads as `v2`, while the intermediate
/// environment still reads `n` as `v1`.
pub proof fn lemma_shadowing(env: Env, mid: Env, top: Env, n: String, v1: Value, v2: Value)
    requires
        mid@ == env@.insert(n@, v1@),
        top@ == mid@.insert(n@, v2@),
    ensures
        top@.contains_key(n@),
        top@[n@] == v2@,
        mid@.contains_key(n@),
        mid@[n@] == v1@,
{
}

} // verus!
