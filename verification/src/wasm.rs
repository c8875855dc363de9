//! The trusted boundary to the WebAssembly engine: declarations of the
//! engine's opaque types, branded owners for the store-paired handles, and
//! thin wrappers around the engine calls the registry and dispatcher make.
//! Everything else in the crate is verified against the contracts stated
//! here.
//!
//! The engine panics when an instance or function handle is used with a
//! store other than the one it was created in. To keep that input out of
//! every verified caller, the store and the handles created in it carry an
//! opaque brand: the wrappers state that a handle's brand equals the brand
//! of the store it came from, and the calls that would panic on a foreign
//! handle require the brands to agree. The fields are private and the
//! brand accessors are closed, so the pairing can neither be forged nor
//! re-paired from outside this module, and brand equality is provable only
//! along the creation chain from one store.

use vstd::prelude::*;
use crate::kinds::{NativeValue, RawKind, RawSig};
use crate::registry::{callable_table, FuncEntryV};

verus! {

#[verifier::external_type_specification]
#[verifier::external_body]
pub struct ExEngine(wasmtime::Engine);

#[verifier::external_type_specification]
#[verifier::external_body]
#[verifier::reject_recursive_types(T)]
pub struct ExStore<T: 'static>(wasmtime::Store<T>);

#[verifier::external_type_specification]
#[verifier::external_body]
pub struct ExModule(wasmtime::Module);

#[verifier::external_type_specification]
#[verifier::external_body]
pub struct ExInstance(wasmtime::Instance);

#[verifier::external_type_specification]
#[verifier::external_body]
pub struct ExFunc(wasmtime::Func);

#[verifier::external_type_specification]
#[verifier::external_body]
pub struct ExVal(wasmtime::Val);

/// The execution context: the engine's store, owned together with the
/// brand that every instance and function handle created in it carries.
/// The brand is the address of an allocation the store owns, so brands of
/// live stores are pairwise distinct; the fields are private, so no brand
/// can be forged or re-paired from outside this module.
pub struct EngineStore {
    store: wasmtime::Store<()>,
    anchor: Vec<u8>,
    brand: u64,
}

impl EngineStore {
    /// The brand shared by this store and every handle created in it. The
    /// verifier learns nothing of its value beyond what the wrappers here
    /// state, so brands of separately created stores can never be proved
    /// equal.
    pub closed spec fn brand(self) -> u64 {
        self.brand
    }
}

/// An instance handle together with the brand of the store it lives in.
pub struct HostInstance {
    instance: wasmtime::Instance,
    brand: u64,
}

impl HostInstance {
    /// The brand of the store this instance lives in.
    pub closed spec fn brand(self) -> u64 {
        self.brand
    }
}

/// A function handle together with the brand of the store it lives in.
pub struct HostFunc {
    func: wasmtime::Func,
    brand: u64,
}

impl HostFunc {
    /// The brand of the store this function lives in.
    pub closed spec fn brand(self) -> u64 {
        self.brand
    }
}

/// The names of a compiled module's exports, in export order: what
/// `Module::exports` lists for it.
pub uninterp spec fn export_names(m: wasmtime::Module) -> Seq<Seq<char>>;

/// The raw parameter and result kinds of a compiled module's function
/// export of the given name: what `Module::get_export` reports, or nothing
/// where the module has no such export or it is not a function.
pub uninterp spec fn func_sig(m: wasmtime::Module, name: Seq<char>) -> Option<RawSig>;

/// What compiling the bytes against an engine yields: nothing where the
/// module source is malformed for that engine's configuration, and
/// otherwise the callable-export table of the compiled module. Both halves
/// are functions of the engine and the bytes alone.
pub uninterp spec fn compile_result(e: wasmtime::Engine, b: Seq<u8>) -> Option<Seq<FuncEntryV>>;

/// Relies on wasmtime::Engine::default: process-wide immutable
/// configuration and compilation context.
#[verifier::external_body]
pub(crate) fn new_engine() -> wasmtime::Engine {
    wasmtime::Engine::default()
}

/// Relies on wasmtime::Store::new: a fresh execution context holding the
/// runtime state all instances of this registry run against. The brand is
/// the address of a heap allocation owned for the store's lifetime, so no
/// two live stores share it; nothing here relates it to any other store's,
/// so a handle from one store can never be proved to match another.
#[verifier::external_body]
pub(crate) fn new_store(engine: &wasmtime::Engine) -> EngineStore {
    let anchor: Vec<u8> = vec![0];
    let brand = anchor.as_ptr() as u64;
    EngineStore { store: wasmtime::Store::new(engine, ()), anchor, brand }
}

/// Relies on wasmtime::Module::new: compiles a binary (or text) module
/// against the engine, failing exactly on input malformed for the engine's
/// configuration; the compiled module's exports are determined by the
/// engine and the bytes alone.
#[verifier::external_body]
pub(crate) fn compile_module(engine: &wasmtime::Engine, bytes: &[u8]) -> (r: Result<
    wasmtime::Module,
    String,
>)
    ensures
        r is Ok <==> compile_result(*engine, bytes@) is Some,
        r matches Ok(m) ==> callable_table(m) == compile_result(*engine, bytes@).unwrap(),
{
    wasmtime::Module::new(engine, bytes).map_err(|e| format!("{e:?}"))
}

/// Relies on wasmtime::Module::exports: lists the module's export names in
/// export order.
#[verifier::external_body]
pub(crate) fn module_export_names(m: &wasmtime::Module) -> (r: Vec<String>)
    ensures
        r@.map_values(|s: String| s@) == export_names(*m),
{
    m.exports().map(|e| e.name().to_string()).collect()
}

/// Relies on wasmtime::Module::get_export: reports the declared parameter
/// and result kinds of the named export where it is a function, and
/// nothing otherwise.
#[verifier::external_body]
pub(crate) fn module_func_sig(m: &wasmtime::Module, name: &str) -> (r: Option<RawSig>)
    ensures
        r == func_sig(*m, name@),
{
    let kind = |t: wasmtime::ValType| match t {
        wasmtime::ValType::I32 => RawKind::I32,
        wasmtime::ValType::I64 => RawKind::I64,
        wasmtime::ValType::F32 => RawKind::F32,
        wasmtime::ValType::F64 => RawKind::F64,
        _ => RawKind::Other,
    };
    match m.get_export(name) {
        Some(wasmtime::ExternType::Func(ft)) => Some(
            RawSig { params: ft.params().map(kind).collect(), results: ft.results().map(kind).collect() },
        ),
        _ => None,
    }
}

/// Relies on wasmtime::Instance::new: instantiates the module against the
/// execution context with no imports, failing on unsatisfied imports, a
/// trapping start function, or a module from a foreign engine. The new
/// instance lives in this store, so it carries the store's brand.
#[verifier::external_body]
pub(crate) fn instantiate(store: &mut EngineStore, m: &wasmtime::Module) -> (r: Result<
    HostInstance,
    String,
>)
    ensures
        final(store).brand() == old(store).brand(),
        r matches Ok(i) ==> i.brand() == old(store).brand(),
{
    match wasmtime::Instance::new(&mut store.store, m, &[]) {
        Ok(i) => Ok(HostInstance { instance: i, brand: store.brand }),
        Err(e) => Err(format!("{e:?}")),
    }
}

/// Relies on wasmtime::Instance::get_func: the instance's function export
/// of that name, if it has one. wasmtime panics when the instance does not
/// belong to the store; the brand precondition confines the call to the
/// instance's own store. A found function lives in that same store.
#[verifier::external_body]
pub(crate) fn get_func(store: &mut EngineStore, inst: &HostInstance, name: &str) -> (r: Option<
    HostFunc,
>)
    requires
        inst.brand() == old(store).brand(),
    ensures
        final(store).brand() == old(store).brand(),
        r matches Some(f) ==> f.brand() == old(store).brand(),
{
    inst.instance.get_func(&mut store.store, name).map(
        |f| HostFunc { func: f, brand: store.brand },
    )
}

/// Relies on wasmtime::Val's numeric constructors: carries one native
/// value into the engine's form, bit patterns kept as they are.
#[verifier::external_body]
fn val_of(a: &NativeValue) -> wasmtime::Val {
    match a {
        NativeValue::I32(x) => wasmtime::Val::I32(*x),
        NativeValue::I64(x) => wasmtime::Val::I64(*x),
        NativeValue::F32Bits(b) => wasmtime::Val::F32(*b),
        NativeValue::F64Bits(b) => wasmtime::Val::F64(*b),
    }
}

/// Relies on wasmtime::Val's numeric accessors: reads one numeric engine
/// value back, bit patterns kept as they are; a non-numeric value is
/// nothing.
#[verifier::external_body]
fn native_of(v: &wasmtime::Val) -> Option<NativeValue> {
    match v {
        wasmtime::Val::I32(x) => Some(NativeValue::I32(*x)),
        wasmtime::Val::I64(x) => Some(NativeValue::I64(*x)),
        wasmtime::Val::F32(b) => Some(NativeValue::F32Bits(*b)),
        wasmtime::Val::F64(b) => Some(NativeValue::F64Bits(*b)),
        _ => None,
    }
}

/// Relies on wasmtime::Func::call: runs the function against the execution
/// context; on success the engine fills exactly one value per requested
/// result, and a guest fault or an argument/result mismatch is an error.
/// wasmtime panics when the function does not belong to the store; the
/// brand precondition confines the call to the function's own store.
#[verifier::external_body]
pub(crate) fn call_func(
    store: &mut EngineStore,
    f: &HostFunc,
    args: &Vec<NativeValue>,
    n_results: usize,
) -> (r: Result<Vec<NativeValue>, String>)
    requires
        f.brand() == old(store).brand(),
    ensures
        final(store).brand() == old(store).brand(),
        r matches Ok(vs) ==> vs@.len() == n_results,
{
    let ps: Vec<wasmtime::Val> = args.iter().map(val_of).collect();
    let mut rs = vec![wasmtime::Val::I32(0); n_results];
    f.func.call(&mut store.store, &ps, &mut rs).map_err(|e| format!("{e:?}"))?;
    rs.iter().map(native_of).collect::<Option<Vec<NativeValue>>>().ok_or(
        "unsupported result kind".to_owned(),
    )
}

} // verus!
