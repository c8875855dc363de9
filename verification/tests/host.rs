//! End-to-end tests of the registry and dispatcher against the real
//! engine: loading text modules, invoking exports, and every error family.

use wasm_host::errors::{ArgumentError, CallError, LoadError, LookupError};
use wasm_host::kinds::ValKind;
use wasm_host::marshal::{ExternalArgument, ExternalResult, ExternalVal};
use wasm_host::registry::Registry;

fn arg(text: &str) -> ExternalArgument {
    ExternalArgument {
        text: text.to_string(),
        bits32: text.parse::<f32>().ok().map(f32::to_bits),
        bits64: text.parse::<f64>().ok().map(f64::to_bits),
    }
}

fn args(texts: &[&str]) -> Vec<ExternalArgument> {
    texts.iter().map(|t| arg(t)).collect()
}

const ADD_MODULE: &str = r#"(module
  (func (export "add") (param i32 i32) (result i32)
    local.get 0
    local.get 1
    i32.add))"#;

#[test]
fn scenario_add_module() {
    let mut reg = Registry::new();
    reg.register("ns".to_string(), ADD_MODULE.as_bytes())
        .expect("module should load");

    let r = reg.invoke(&"ns".to_string(), &"add".to_string(), &args(&["2", "3"]));
    assert_eq!(r, Ok(ExternalResult::One(ExternalVal::I32Text("5".to_string()))));

    let r = reg.invoke(&"ns".to_string(), &"add".to_string(), &args(&["2"]));
    assert_eq!(
        r,
        Err(CallError::Argument(ArgumentError::ArityMismatch { expected: 2, supplied: 1 }))
    );

    let r = reg.invoke(&"ns".to_string(), &"missing".to_string(), &args(&[]));
    assert_eq!(r, Err(CallError::Lookup(LookupError::FunctionNotFound)));

    let r = reg.register("ns".to_string(), b"not a wasm module at all \x00\x01");
    assert!(matches!(r, Err(LoadError::CompileFailed(_))));

    // the failed load left the prior registration untouched
    let r = reg.invoke(&"ns".to_string(), &"add".to_string(), &args(&["40", "2"]));
    assert_eq!(r, Ok(ExternalResult::One(ExternalVal::I32Text("42".to_string()))));
}

#[test]
fn namespace_not_found() {
    let mut reg = Registry::new();
    let r = reg.invoke(&"nowhere".to_string(), &"f".to_string(), &args(&[]));
    assert_eq!(r, Err(CallError::Lookup(LookupError::NamespaceNotFound)));
}

#[test]
fn coercion_failure_names_first_position() {
    let mut reg = Registry::new();
    reg.register("ns".to_string(), ADD_MODULE.as_bytes()).unwrap();
    let r = reg.invoke(&"ns".to_string(), &"add".to_string(), &args(&["7", "oops"]));
    assert_eq!(
        r,
        Err(CallError::Argument(ArgumentError::TypeCoercionFailed {
            position: 1,
            expected: ValKind::I32,
        }))
    );
    // out-of-range 32-bit text is a coercion error, never a truncation
    let r = reg.invoke(&"ns".to_string(), &"add".to_string(), &args(&["2147483648", "0"]));
    assert_eq!(
        r,
        Err(CallError::Argument(ArgumentError::TypeCoercionFailed {
            position: 0,
            expected: ValKind::I32,
        }))
    );
}

#[test]
fn float_arguments_round_trip() {
    let mut reg = Registry::new();
    let wat = r#"(module
      (func (export "half") (param f64) (result f64)
        local.get 0
        f64.const 2
        f64.div))"#;
    reg.register("f".to_string(), wat.as_bytes()).unwrap();
    let r = reg.invoke(&"f".to_string(), &"half".to_string(), &args(&["3.0"]));
    match r {
        Ok(ExternalResult::One(ExternalVal::F64Bits(b))) => {
            assert_eq!(f64::from_bits(b), 1.5);
        },
        other => panic!("unexpected result: {other:?}"),
    }
}

#[test]
fn zero_results_give_explicit_no_value() {
    let mut reg = Registry::new();
    let wat = r#"(module (func (export "nop")))"#;
    reg.register("n".to_string(), wat.as_bytes()).unwrap();
    let r = reg.invoke(&"n".to_string(), &"nop".to_string(), &args(&[]));
    assert_eq!(r, Ok(ExternalResult::NoValue));
}

#[test]
fn trap_is_reported_as_trap() {
    let mut reg = Registry::new();
    let wat = r#"(module (func (export "boom") (result i32) unreachable))"#;
    reg.register("t".to_string(), wat.as_bytes()).unwrap();
    let r = reg.invoke(&"t".to_string(), &"boom".to_string(), &args(&[]));
    assert!(matches!(r, Err(CallError::Trap(_))));
}

#[test]
fn unsatisfied_import_is_instantiate_failure() {
    let mut reg = Registry::new();
    let wat = r#"(module (import "not" "there" (func)))"#;
    let r = reg.register("i".to_string(), wat.as_bytes());
    assert!(matches!(r, Err(LoadError::InstantiateFailed(_))));
    // the failure registered nothing
    let r = reg.invoke(&"i".to_string(), &"f".to_string(), &args(&[]));
    assert_eq!(r, Err(CallError::Lookup(LookupError::NamespaceNotFound)));
}

#[test]
fn replacement_keeps_resolved_handle_on_old_instance() {
    const FORTY_ONE: &str = r#"(module (func (export "answer") (result i32) i32.const 41))"#;
    const FORTY_TWO: &str = r#"(module (func (export "answer") (result i32) i32.const 42))"#;
    let mut reg = Registry::new();
    reg.register("ns".to_string(), FORTY_ONE.as_bytes()).unwrap();
    let h1 = reg.resolve(&"ns".to_string()).unwrap();
    reg.register("ns".to_string(), FORTY_TWO.as_bytes()).unwrap();

    // the handle resolved before the replacement still runs the old instance
    let r = reg.invoke_handle(h1, &"answer".to_string(), &args(&[]));
    assert_eq!(r, Ok(ExternalResult::One(ExternalVal::I32Text("41".to_string()))));

    // a fresh resolution sees only the new instance
    let h2 = reg.resolve(&"ns".to_string()).unwrap();
    assert_ne!(h1, h2);
    let r = reg.invoke(&"ns".to_string(), &"answer".to_string(), &args(&[]));
    assert_eq!(r, Ok(ExternalResult::One(ExternalVal::I32Text("42".to_string()))));
}

const COUNTER_MODULE: &str = r#"(module
  (global $g (mut i32) (i32.const 0))
  (func (export "bump") (result i32)
    global.get $g
    i32.const 1
    i32.add
    global.set $g
    global.get $g))"#;

#[test]
fn namespaces_do_not_observe_each_other() {
    let mut reg = Registry::new();
    reg.register("a".to_string(), COUNTER_MODULE.as_bytes()).unwrap();
    reg.register("b".to_string(), COUNTER_MODULE.as_bytes()).unwrap();
    let bump = "bump".to_string();
    let one = Ok(ExternalResult::One(ExternalVal::I32Text("1".to_string())));
    let two = Ok(ExternalResult::One(ExternalVal::I32Text("2".to_string())));
    assert_eq!(reg.invoke(&"a".to_string(), &bump, &args(&[])), one.clone());
    assert_eq!(reg.invoke(&"a".to_string(), &bump, &args(&[])), two);
    // namespace b keeps its own state: a's calls did not touch it
    assert_eq!(reg.invoke(&"b".to_string(), &bump, &args(&[])), one);
}

#[test]
fn signature_of_reports_declared_kinds() {
    let mut reg = Registry::new();
    reg.register("ns".to_string(), ADD_MODULE.as_bytes()).unwrap();
    let h = reg.resolve(&"ns".to_string()).unwrap();
    let (params, results) = reg.signature_of(h, &"add".to_string()).unwrap();
    assert_eq!(params, vec![ValKind::I32, ValKind::I32]);
    assert_eq!(results, vec![ValKind::I32]);
    let r = reg.signature_of(h, &"missing".to_string());
    assert_eq!(r, Err(LookupError::FunctionNotFound));
}

#[test]
fn i64_values_cross_the_boundary_exactly() {
    let mut reg = Registry::new();
    let wat = r#"(module
      (func (export "same") (param i64) (result i64)
        local.get 0))"#;
    reg.register("ns".to_string(), wat.as_bytes()).unwrap();
    let r = reg.invoke(&"ns".to_string(), &"same".to_string(), &args(&["-9223372036854775808"]));
    assert_eq!(
        r,
        Ok(ExternalResult::One(ExternalVal::I64Text("-9223372036854775808".to_string())))
    );
}
