use axis_core::ast::Expr;
use axis_core::env::Env;
use axis_core::eval::eval;
use axis_core::value::Value;

#[test]
fn empty_environment_has_no_bindings() {
    let env = Env::empty();
    assert_eq!(env.lookup("x"), None);
}

#[test]
fn extend_binds_the_new_name() {
    let env = Env::empty().extend("n".to_string(), Value::Int(7));
    assert_eq!(env.lookup("n"), Some(&Value::Int(7)));
}

#[test]
fn extend_does_not_interfere_with_other_names() {
    let base = Env::empty().extend("m".to_string(), Value::Bool(true));
    let ext = base.extend("n".to_string(), Value::Int(7));
    // The other name is bound exactly as before.
    assert_eq!(ext.lookup("m"), Some(&Value::Bool(true)));
    // A name never bound stays absent.
    assert_eq!(ext.lookup("q"), None);
    // The original environment is unaffected by the later extension.
    assert_eq!(base.lookup("n"), None);
    assert_eq!(base.lookup("m"), Some(&Value::Bool(true)));
}

#[test]
fn shadowing_keeps_both_environments_intact() {
    let env = Env::empty();
    let mid = env.extend("x".to_string(), Value::Int(1));
    let top = mid.extend("x".to_string(), Value::Int(2));
    assert_eq!(top.lookup("x"), Some(&Value::Int(2)));
    assert_eq!(mid.lookup("x"), Some(&Value::Int(1)));
    assert_eq!(env.lookup("x"), None);
}

#[test]
fn looked_up_structured_values_are_returned_whole() {
    let inner = Value::Record(vec![("a".to_string(), Value::Int(1))]);
    let tup = Value::Tuple(vec![Value::Int(7), Value::Bool(false), inner]);
    let env = Env::empty().extend("t".to_string(), tup);
    let e = Expr::Var("t".to_string());
    match eval(&e, &env, 10) {
        Some(Ok(v)) => assert_eq!(env.lookup("t"), Some(&v)),
        other => panic!("expected the bound tuple, got {:?}", other),
    }
}

#[test]
fn lookup_finds_the_innermost_binding_among_many() {
    let mut env = Env::empty();
    for i in 0..100 {
        env = env.extend(format!("v{}", i % 10), Value::Int(i));
    }
    // Each name v0..v9 was rebound ten times; the last binding wins.
    assert_eq!(env.lookup("v0"), Some(&Value::Int(90)));
    assert_eq!(env.lookup("v9"), Some(&Value::Int(99)));
    assert_eq!(env.lookup("v10"), None);
}
