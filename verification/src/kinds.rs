//! Value kinds of exported WebAssembly functions and the native values
//! passed to and returned from them.
//!
//! Floating-point values are carried by their IEEE 754 bit patterns, so
//! that every value is plain integer data; only the engine itself ever
//! operates on them as floats.

use vstd::prelude::*;

verus! {

/// The four numeric value kinds an exported function's signature may use.
#[derive(Clone, Copy, Debug, PartialEq, Eq, Structural)]
pub enum ValKind {
    I32,
    I64,
    F32,
    F64,
}

/// A value kind as reported by the engine: one of the four numeric kinds,
/// or some other kind (reference, vector) that this host does not marshal.
#[derive(Clone, Copy, Debug, PartialEq, Eq, Structural)]
pub enum RawKind {
    I32,
    I64,
    F32,
    F64,
    Other,
}

/// The raw parameter and result kinds of a function export, as the engine
/// reports them.
pub struct RawSig {
    /// Parameter kinds, in declaration order.
    pub params: Vec<RawKind>,
    /// Result kinds, in declaration order.
    pub results: Vec<RawKind>,
}

/// A native value ready to be passed to, or just returned from, the engine.
/// Float kinds carry raw bit patterns.
#[derive(Clone, Copy, Debug, PartialEq, Eq, Structural)]
pub enum NativeValue {
    I32(i32),
    I64(i64),
    F32Bits(u32),
    F64Bits(u64),
}

impl NativeValue {
    /// The kind a native value belongs to.
    pub open spec fn kind(self) -> ValKind {
        match self {
            NativeValue::I32(_) => ValKind::I32,
            NativeValue::I64(_) => ValKind::I64,
            NativeValue::F32Bits(_) => ValKind::F32,
            NativeValue::F64Bits(_) => ValKind::F64,
        }
    }
}

/// The numeric kind a raw kind stands for, if any.
pub open spec fn refine_kind(r: RawKind) -> Option<ValKind> {
    match r {
        RawKind::I32 => Some(ValKind::I32),
        RawKind::I64 => Some(ValKind::I64),
        RawKind::F32 => Some(ValKind::F32),
        RawKind::F64 => Some(ValKind::F64),
        RawKind::Other => None,
    }
}

/// Whether every raw kind in the sequence is one of the four numeric kinds.
pub open spec fn all_numeric(s: Seq<RawKind>) -> bool {
    forall|i: int| 0 <= i < s.len() ==> refine_kind(s[i]) is Some
}

/// The numeric kinds a sequence of raw kinds stands for, where all are numeric.
pub open spec fn refined_kinds(s: Seq<RawKind>) -> Seq<ValKind> {
    s.map_values(|r: RawKind| refine_kind(r).unwrap())
}

/// Turns a list of engine-reported kinds into the numeric kinds this host
/// marshals; fails exactly when some kind is not numeric.
pub fn refine_kinds(raw: &Vec<RawKind>) -> (r: Option<Vec<ValKind>>)
    ensures
        r is Some <==> all_numeric(raw@),
        r matches Some(ks) ==> ks@ == refined_kinds(raw@),
{
    let mut out: Vec<ValKind> = Vec::new();
    let mut i: usize = 0;
    while i < raw.len()
        invariant
            0 <= i <= raw.len(),
            forall|j: int| 0 <= j < i ==> refine_kind(raw@[j]) is Some,
            out@ =~= refined_kinds(raw@.take(i as int)),
        decreases raw.len() - i,
    {
        let k = match raw[i] {
            RawKind::I32 => ValKind::I32,
            RawKind::I64 => ValKind::I64,
            RawKind::F32 => ValKind::F32,
            RawKind::F64 => ValKind::F64,
            RawKind::Other => {
                return None;
            },
        };
        out.push(k);
        i = i + 1;
        proof {
            assert(raw@.take(i as int).drop_last() =~= raw@.take(i - 1));
        }
    }
    proof {
        assert(raw@.take(raw@.len() as int) =~= raw@);
    }
    Some(out)
}

} // verus!
