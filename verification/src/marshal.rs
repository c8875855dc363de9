//! The signature resolver's marshalling half: decoding caller-supplied
//! arguments into the native values an exported function expects, and
//! encoding returned native values back to an external representation.
//!
//! Decoding preserves order and position; a wrong argument count is an
//! arity error, and a value that cannot be read as its parameter's kind
//! is a coercion error naming the position and the expected kind.
//!
//! The verified core holds no floating-point code: an argument destined
//! for a float parameter travels as the IEEE 754 bit pattern its text
//! parses to, supplied alongside the text by the host layer, and a float
//! result travels back as a bit pattern for the host layer to render.

use vstd::prelude::*;
use crate::kinds::{NativeValue, ValKind};
use crate::errors::ArgumentError;
use crate::numtext::{dec_text, i64_to_dec, int_text_ok, int_text_val, parse_i32, parse_i64};

verus! {

/// One positional argument as the dispatcher receives it: the caller's
/// text, and, for use when the target parameter has a float kind, the bit
/// patterns that text parses to as a 32-bit and as a 64-bit float. The
/// host layer, which owns all floating-point conversion, fills the bit
/// patterns in; they are absent when the text does not parse as a float.
#[derive(Clone, Debug)]
pub struct ExternalArgument {
    /// The untyped text the caller supplied.
    pub text: String,
    /// The 32-bit float bit pattern of `text`, if it parses as one.
    pub bits32: Option<u32>,
    /// The 64-bit float bit pattern of `text`, if it parses as one.
    pub bits64: Option<u64>,
}

/// The native value an argument decodes to under a given kind, if any:
/// for the integer kinds the exact value of well-formed in-range decimal
/// text, and for the float kinds the supplied bit pattern.
pub open spec fn decode1(k: ValKind, text: Seq<char>, b32: Option<u32>, b64: Option<u64>) -> Option<
    NativeValue,
> {
    match k {
        ValKind::I32 => if int_text_ok(text) && i32::MIN <= int_text_val(text) <= i32::MAX {
            Some(NativeValue::I32(int_text_val(text) as i32))
        } else {
            None
        },
        ValKind::I64 => if int_text_ok(text) && i64::MIN <= int_text_val(text) <= i64::MAX {
            Some(NativeValue::I64(int_text_val(text) as i64))
        } else {
            None
        },
        ValKind::F32 => match b32 {
            Some(b) => Some(NativeValue::F32Bits(b)),
            None => None,
        },
        ValKind::F64 => match b64 {
            Some(b) => Some(NativeValue::F64Bits(b)),
            None => None,
        },
    }
}

/// The value `decode1` gives for a whole argument.
pub open spec fn decode_arg(k: ValKind, a: ExternalArgument) -> Option<NativeValue> {
    decode1(k, a.text@, a.bits32, a.bits64)
}

/// Decodes one argument as one parameter kind.
fn decode_one(k: ValKind, arg: &ExternalArgument) -> (r: Option<NativeValue>)
    ensures
        r == decode_arg(k, *arg),
{
    match k {
        ValKind::I32 => match parse_i32(arg.text.as_str()) {
            Some(v) => Some(NativeValue::I32(v)),
            None => None,
        },
        ValKind::I64 => match parse_i64(arg.text.as_str()) {
            Some(v) => Some(NativeValue::I64(v)),
            None => None,
        },
        ValKind::F32 => match arg.bits32 {
            Some(b) => Some(NativeValue::F32Bits(b)),
            None => None,
        },
        ValKind::F64 => match arg.bits64 {
            Some(b) => Some(NativeValue::F64Bits(b)),
            None => None,
        },
    }
}

/// Whether every argument decodes as its parameter's kind.
pub open spec fn all_decodable(ps: Seq<ValKind>, args: Seq<ExternalArgument>) -> bool
    recommends
        ps.len() == args.len(),
{
    forall|i: int| 0 <= i < ps.len() ==> decode_arg(ps[i], args[i]) is Some
}

/// Whether `p` is the first position whose argument does not decode.
pub open spec fn is_first_fail(ps: Seq<ValKind>, args: Seq<ExternalArgument>, p: int) -> bool {
    &&& 0 <= p < ps.len()
    &&& decode_arg(ps[p], args[p]) is None
    &&& forall|j: int| 0 <= j < p ==> decode_arg(ps[j], args[j]) is Some
}

/// The first position whose argument does not decode.
pub open spec fn first_fail(ps: Seq<ValKind>, args: Seq<ExternalArgument>) -> int {
    choose|p: int| is_first_fail(ps, args, p)
}

/// There is at most one first failing position.
pub proof fn lemma_first_fail_unique(ps: Seq<ValKind>, args: Seq<ExternalArgument>, p1: int, p2: int)
    requires
        is_first_fail(ps, args, p1),
        is_first_fail(ps, args, p2),
    ensures
        p1 == p2,
{
}

/// Decodes the caller's arguments against a parameter list: exactly one
/// native value per parameter, in order; an arity error when the counts
/// differ, and otherwise a coercion error naming the first position whose
/// argument does not decode as the expected kind.
pub fn decode_arguments(params: &Vec<ValKind>, args: &Vec<ExternalArgument>) -> (r: Result<
    Vec<NativeValue>,
    ArgumentError,
>)
    ensures
        (args@.len() != params@.len()) <==> r == Err::<Vec<NativeValue>, ArgumentError>(
            ArgumentError::ArityMismatch { expected: params.len(), supplied: args.len() },
        ),
        r is Ok <==> (args@.len() == params@.len() && forall|i: int|
            0 <= i < params@.len() ==> decode_arg(params@[i], args@[i]) is Some),
        r matches Ok(vs) ==> vs@.len() == params@.len() && forall|i: int|
            0 <= i < params@.len() ==> decode_arg(params@[i], args@[i]) == Some(vs@[i]),
        r matches Err(ArgumentError::ArityMismatch { expected, supplied }) ==> expected
            == params@.len() && supplied == args@.len() && args@.len() != params@.len(),
        r matches Err(ArgumentError::TypeCoercionFailed { position, expected }) ==> {
            &&& args@.len() == params@.len()
            &&& 0 <= position < params@.len()
            &&& expected == params@[position as int]
            &&& decode_arg(params@[position as int], args@[position as int]) is None
            &&& forall|j: int| 0 <= j < position ==> decode_arg(params@[j], args@[j]) is Some
        },
{
    if args.len() != params.len() {
        return Err(ArgumentError::ArityMismatch { expected: params.len(), supplied: args.len() });
    }
    let mut out: Vec<NativeValue> = Vec::new();
    let mut i: usize = 0;
    while i < params.len()
        invariant
            args@.len() == params@.len(),
            0 <= i <= params@.len(),
            out@.len() == i,
            forall|j: int| 0 <= j < i ==> decode_arg(params@[j], args@[j]) == Some(out@[j]),
        decreases params@.len() - i,
    {
        let k = params[i];
        match decode_one(k, &args[i]) {
            Some(v) => {
                out.push(v);
            },
            None => {
                return Err(ArgumentError::TypeCoercionFailed { position: i, expected: k });
            },
        }
        i = i + 1;
    }
    Ok(out)
}

/// One encoded result value. Integer kinds carry exact decimal text; float
/// kinds carry the value's bit pattern, which the host layer renders.
#[derive(Clone, Debug, PartialEq, Eq)]
pub enum ExternalVal {
    /// A 32-bit integer result, as decimal text.
    I32Text(String),
    /// A 64-bit integer result, as decimal text.
    I64Text(String),
    /// A 32-bit float result, as its IEEE 754 bit pattern.
    F32Bits(u32),
    /// A 64-bit float result, as its IEEE 754 bit pattern.
    F64Bits(u64),
}

/// Whether `e` is the encoding of `v`: the same kind, and the value kept
/// exactly — as its decimal text for the integer kinds, as its bit pattern
/// for the float kinds.
pub open spec fn val_encodes(e: ExternalVal, v: NativeValue) -> bool {
    match v {
        NativeValue::I32(x) => e matches ExternalVal::I32Text(t) && t@ == dec_text(x as int),
        NativeValue::I64(x) => e matches ExternalVal::I64Text(t) && t@ == dec_text(x as int),
        NativeValue::F32Bits(b) => e == ExternalVal::F32Bits(b),
        NativeValue::F64Bits(b) => e == ExternalVal::F64Bits(b),
    }
}

/// The encoded results of a call: an explicit "no value" for a function
/// with zero results, a single value, or a tuple of values.
#[derive(Clone, Debug, PartialEq, Eq)]
pub enum ExternalResult {
    /// The function declares zero results.
    NoValue,
    /// The function's single result.
    One(ExternalVal),
    /// All results of a function with more than one, in declaration order.
    Tuple(Vec<ExternalVal>),
}

/// Whether `r` encodes the result values `vs`, kind and numeric value
/// preserved, in order.
pub open spec fn result_encodes(r: ExternalResult, vs: Seq<NativeValue>) -> bool {
    match r {
        ExternalResult::NoValue => vs.len() == 0,
        ExternalResult::One(e) => vs.len() == 1 && val_encodes(e, vs[0]),
        ExternalResult::Tuple(es) => vs.len() > 1 && es@.len() == vs.len() && forall|i: int|
            0 <= i < vs.len() ==> val_encodes(es@[i], vs[i]),
    }
}

/// Encodes one native value.
fn encode_one(v: NativeValue) -> (e: ExternalVal)
    ensures
        val_encodes(e, v),
{
    match v {
        NativeValue::I32(x) => ExternalVal::I32Text(i64_to_dec(x as i64)),
        NativeValue::I64(x) => ExternalVal::I64Text(i64_to_dec(x)),
        NativeValue::F32Bits(b) => ExternalVal::F32Bits(b),
        NativeValue::F64Bits(b) => ExternalVal::F64Bits(b),
    }
}

/// Encodes the native values a call returned back to their external
/// representation, preserving numeric value, kind and order; zero results
/// become an explicit "no value" result.
pub fn encode_result(values: &Vec<NativeValue>) -> (r: ExternalResult)
    ensures
        result_encodes(r, values@),
{
    if values.len() == 0 {
        ExternalResult::NoValue
    } else if values.len() == 1 {
        ExternalResult::One(encode_one(values[0]))
    } else {
        let mut out: Vec<ExternalVal> = Vec::new();
        let mut i: usize = 0;
        while i < values.len()
            invariant
                0 <= i <= values@.len(),
                out@.len() == i,
                forall|j: int| 0 <= j < i ==> val_encodes(out@[j], values@[j]),
            decreases values@.len() - i,
        {
            let e = encode_one(values[i]);
            out.push(e);
            i = i + 1;
        }
        ExternalResult::Tuple(out)
    }
}

/// Decoding integer text for a 32-bit parameter is exact: well-formed text
/// within the 32-bit range yields precisely its numeric value, and
/// well-formed text out of range yields nothing — never a silently
/// truncated value.
pub proof fn lemma_i32_decode_exact(text: Seq<char>, b32: Option<u32>, b64: Option<u64>)
    ensures
        (int_text_ok(text) && i32::MIN <= int_text_val(text) <= i32::MAX) ==> decode1(
            ValKind::I32,
            text,
            b32,
            b64,
        ) == Some(NativeValue::I32(int_text_val(text) as i32)),
        (int_text_ok(text) && !(i32::MIN <= int_text_val(text) <= i32::MAX)) ==> decode1(
            ValKind::I32,
            text,
            b32,
            b64,
        ) is None,
{
}

} // verus!
