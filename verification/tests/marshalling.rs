//! Unit tests of the text marshalling and the command argument rules.

use wasm_host::command::{parse_call_args, parse_load_args};
use wasm_host::errors::ArgumentError;
use wasm_host::kinds::{NativeValue, ValKind};
use wasm_host::marshal::{decode_arguments, encode_result, ExternalArgument, ExternalResult, ExternalVal};
use wasm_host::numtext::{i64_to_dec, parse_i32, parse_i64};

fn arg(text: &str) -> ExternalArgument {
    ExternalArgument {
        text: text.to_string(),
        bits32: text.parse::<f32>().ok().map(f32::to_bits),
        bits64: text.parse::<f64>().ok().map(f64::to_bits),
    }
}

#[test]
fn parse_i32_exact_values() {
    assert_eq!(parse_i32("0"), Some(0));
    assert_eq!(parse_i32("5"), Some(5));
    assert_eq!(parse_i32("+7"), Some(7));
    assert_eq!(parse_i32("-0"), Some(0));
    assert_eq!(parse_i32("007"), Some(7));
    assert_eq!(parse_i32("2147483647"), Some(i32::MAX));
    assert_eq!(parse_i32("-2147483648"), Some(i32::MIN));
}

#[test]
fn parse_i32_rejects_malformed_and_out_of_range() {
    assert_eq!(parse_i32(""), None);
    assert_eq!(parse_i32("+"), None);
    assert_eq!(parse_i32("-"), None);
    assert_eq!(parse_i32("12a"), None);
    assert_eq!(parse_i32(" 5"), None);
    assert_eq!(parse_i32("5.0"), None);
    assert_eq!(parse_i32("2147483648"), None);
    assert_eq!(parse_i32("-2147483649"), None);
    assert_eq!(parse_i32("99999999999999999999999999"), None);
}

#[test]
fn parse_i64_exact_values() {
    assert_eq!(parse_i64("9223372036854775807"), Some(i64::MAX));
    assert_eq!(parse_i64("-9223372036854775808"), Some(i64::MIN));
    assert_eq!(parse_i64("9223372036854775808"), None);
    assert_eq!(parse_i64("-9223372036854775809"), None);
    assert_eq!(parse_i64("00000000000000000000042"), Some(42));
}

#[test]
fn decimal_rendering_is_exact() {
    assert_eq!(i64_to_dec(0), "0");
    assert_eq!(i64_to_dec(5), "5");
    assert_eq!(i64_to_dec(-1), "-1");
    assert_eq!(i64_to_dec(1234567890123), "1234567890123");
    assert_eq!(i64_to_dec(i64::MAX), "9223372036854775807");
    assert_eq!(i64_to_dec(i64::MIN), "-9223372036854775808");
}

#[test]
fn decode_preserves_order_and_position() {
    let params = vec![ValKind::I32, ValKind::I64, ValKind::F64];
    let supplied = vec![arg("1"), arg("-2"), arg("2.5")];
    let vs = decode_arguments(&params, &supplied).unwrap();
    assert_eq!(vs[0], NativeValue::I32(1));
    assert_eq!(vs[1], NativeValue::I64(-2));
    assert_eq!(vs[2], NativeValue::F64Bits(2.5f64.to_bits()));
}

#[test]
fn decode_arity_mismatch() {
    let params = vec![ValKind::I32, ValKind::I32];
    let supplied = vec![arg("1")];
    assert_eq!(
        decode_arguments(&params, &supplied),
        Err(ArgumentError::ArityMismatch { expected: 2, supplied: 1 })
    );
}

#[test]
fn decode_reports_first_failing_position() {
    let params = vec![ValKind::I32, ValKind::F32, ValKind::I32];
    let supplied = vec![arg("1"), arg("not a number"), arg("also not")];
    assert_eq!(
        decode_arguments(&params, &supplied),
        Err(ArgumentError::TypeCoercionFailed { position: 1, expected: ValKind::F32 })
    );
}

#[test]
fn encode_keeps_kind_and_value() {
    let vals = vec![NativeValue::I32(-7), NativeValue::F32Bits(1.25f32.to_bits())];
    let r = encode_result(&vals);
    assert_eq!(
        r,
        ExternalResult::Tuple(vec![
            ExternalVal::I32Text("-7".to_string()),
            ExternalVal::F32Bits(1.25f32.to_bits()),
        ])
    );
    assert_eq!(encode_result(&vec![]), ExternalResult::NoValue);
}

#[test]
fn load_command_takes_exactly_two_arguments() {
    let three = vec!["wasm.load".to_string(), "ns".to_string(), "/m.wasm".to_string()];
    let (ns, path) = parse_load_args(&three).unwrap();
    assert_eq!(ns, "ns");
    assert_eq!(path, "/m.wasm");
    let err = parse_load_args(&three[..2].to_vec()).unwrap_err();
    assert_eq!(err.required, 3);
    assert_eq!(err.supplied, 2);
    let mut four = three.clone();
    four.push("extra".to_string());
    assert!(parse_load_args(&four).is_err());
}

#[test]
fn call_command_takes_at_least_two_arguments() {
    let v = vec![
        "wasm.call".to_string(),
        "ns".to_string(),
        "add".to_string(),
        "2".to_string(),
        "3".to_string(),
    ];
    let (ns, fname, rest) = parse_call_args(&v).unwrap();
    assert_eq!(ns, "ns");
    assert_eq!(fname, "add");
    assert_eq!(rest, vec!["2".to_string(), "3".to_string()]);
    let err = parse_call_args(&v[..2].to_vec()).unwrap_err();
    assert_eq!(err.required, 3);
    assert_eq!(err.supplied, 2);
}
