//! The module registry and the invocation dispatcher.
//!
//! The registry maps caller-chosen namespaces to instantiated modules.
//! Instances live in an arena that only grows: re-registering a namespace
//! binds it to a fresh slot and leaves the superseded slot intact, so a
//! handle resolved before the replacement keeps denoting the instance it
//! resolved, and only a later resolution sees the new one.
//!
//! All instances run against one shared execution context owned by the
//! registry; a host that serves concurrent callers wraps the registry in
//! its own mutual-exclusion lock, so every call and instantiation is
//! serialized process-wide.

use vstd::prelude::*;
use crate::kinds::{refine_kinds, refined_kinds, all_numeric, NativeValue, ValKind};
use crate::errors::{ArgumentError, CallError, LoadError, LookupError};
use crate::marshal::{
    all_decodable, decode_arguments, encode_result, first_fail, is_first_fail,
    lemma_first_fail_unique, result_encodes, ExternalArgument, ExternalResult,
};
use crate::wasm;
use crate::wasm::{compile_result, export_names, func_sig, EngineStore, HostFunc, HostInstance};

verus! {

/// One callable function export of a registered instance: its name, its
/// resolved signature, and the engine's handle to it.
pub struct FuncEntry {
    /// The export's name.
    pub name: String,
    /// Parameter kinds, in declaration order.
    pub params: Vec<ValKind>,
    /// Result kinds, in declaration order.
    pub results: Vec<ValKind>,
    pub func: HostFunc,
}

/// The mathematical content of a function entry.
pub ghost struct FuncEntryV {
    pub name: Seq<char>,
    pub params: Seq<ValKind>,
    pub results: Seq<ValKind>,
}

impl View for FuncEntry {
    type V = FuncEntryV;

    open spec fn view(&self) -> FuncEntryV {
        FuncEntryV { name: self.name@, params: self.params@, results: self.results@ }
    }
}

/// The mathematical content of a function table.
pub open spec fn funcs_view(funcs: Vec<FuncEntry>) -> Seq<FuncEntryV> {
    funcs@.map_values(|f: FuncEntry| f@)
}

/// One arena slot: an instantiated module and its callable exports.
pub struct InstanceSlot {
    pub instance: HostInstance,
    /// The instance's callable exports: every function export whose
    /// parameter and result kinds are all numeric, in export order.
    pub funcs: Vec<FuncEntry>,
}

impl InstanceSlot {
    /// The slot's instance and every function handle in its table live in
    /// the store carrying brand `b`.
    pub open spec fn slot_branded(self, b: u64) -> bool {
        &&& self.instance.brand() == b
        &&& forall|j: int|
            0 <= j < self.funcs@.len() ==> (#[trigger] self.funcs@[j]).func.brand() == b
    }
}

/// One namespace binding: bindings are append-only and the latest binding
/// for a name wins, so superseded instances stay reachable by handle.
pub struct NsBinding {
    pub name: String,
    pub index: usize,
}

/// A resolved reference to a registered instance: an index into the
/// registry's arena. The arena only grows, so a handle stays valid, and
/// keeps denoting the slot it resolved, across later re-registrations.
/// The index is private: a handle can only come from `resolve`.
#[derive(Clone, Copy, Debug, PartialEq, Eq, Structural)]
pub struct InstanceHandle {
    index: usize,
}

impl InstanceHandle {
    /// The arena slot this handle denotes.
    pub closed spec fn slot(self) -> int {
        self.index as int
    }
}

/// Whether the named export is callable through this host: it is a
/// function and all its parameter and result kinds are numeric.
pub open spec fn is_callable(m: wasmtime::Module, name: Seq<char>) -> bool {
    match func_sig(m, name) {
        Some(raw) => all_numeric(raw.params@) && all_numeric(raw.results@),
        None => false,
    }
}

/// The table entry for a callable export.
pub open spec fn entry_of(m: wasmtime::Module, name: Seq<char>) -> FuncEntryV {
    let raw = func_sig(m, name).unwrap();
    FuncEntryV {
        name: name,
        params: refined_kinds(raw.params@),
        results: refined_kinds(raw.results@),
    }
}

/// The function table for the callable exports among `names`, in order.
pub open spec fn table_for(m: wasmtime::Module, names: Seq<Seq<char>>) -> Seq<FuncEntryV>
    decreases names.len(),
{
    if names.len() == 0 {
        Seq::empty()
    } else {
        let rest = table_for(m, names.drop_last());
        if is_callable(m, names.last()) {
            rest.push(entry_of(m, names.last()))
        } else {
            rest
        }
    }
}

/// The full function table of a compiled module: one entry per callable
/// export, in export order.
pub open spec fn callable_table(m: wasmtime::Module) -> Seq<FuncEntryV> {
    table_for(m, export_names(m))
}

/// The latest binding for `ns` in `b`, if any.
pub open spec fn slot_from_end(b: Seq<NsBinding>, ns: Seq<char>) -> Option<int>
    decreases b.len(),
{
    if b.len() == 0 {
        None
    } else if b.last().name@ == ns {
        Some(b.len() - 1)
    } else {
        slot_from_end(b.drop_last(), ns)
    }
}

/// A found binding slot is in range and matches; a missing one means no
/// binding matches.
pub proof fn lemma_slot_from_end_props(b: Seq<NsBinding>, ns: Seq<char>)
    ensures
        match slot_from_end(b, ns) {
            Some(i) => 0 <= i < b.len() && b[i].name@ == ns,
            None => forall|i: int| 0 <= i < b.len() ==> (#[trigger] b[i]).name@ != ns,
        },
    decreases b.len(),
{
    if b.len() > 0 && b.last().name@ != ns {
        lemma_slot_from_end_props(b.drop_last(), ns);
        match slot_from_end(b.drop_last(), ns) {
            Some(i) => {
                assert(b.drop_last()[i] == b[i]);
            },
            None => {
                assert forall|i: int| 0 <= i < b.len() implies (#[trigger] b[i]).name@ != ns by {
                    if i < b.len() - 1 {
                        assert(b.drop_last()[i] == b[i]);
                    }
                }
            },
        }
    }
}

/// The latest function entry named `fname` in a table, if any.
pub open spec fn func_slot(t: Seq<FuncEntryV>, fname: Seq<char>) -> Option<int>
    decreases t.len(),
{
    if t.len() == 0 {
        None
    } else if t.last().name == fname {
        Some(t.len() - 1)
    } else {
        func_slot(t.drop_last(), fname)
    }
}

/// A found function slot is in range and matches; a missing one means no
/// entry matches.
pub proof fn lemma_func_slot_props(t: Seq<FuncEntryV>, fname: Seq<char>)
    ensures
        match func_slot(t, fname) {
            Some(j) => 0 <= j < t.len() && t[j].name == fname,
            None => forall|j: int| 0 <= j < t.len() ==> (#[trigger] t[j]).name != fname,
        },
    decreases t.len(),
{
    if t.len() > 0 && t.last().name != fname {
        lemma_func_slot_props(t.drop_last(), fname);
        match func_slot(t.drop_last(), fname) {
            Some(j) => {
                assert(t.drop_last()[j] == t[j]);
            },
            None => {
                assert forall|j: int| 0 <= j < t.len() implies (#[trigger] t[j]).name != fname by {
                    if j < t.len() - 1 {
                        assert(t.drop_last()[j] == t[j]);
                    }
                }
            },
        }
    }
}

/// The registry: the shared engine and execution context, the instance
/// arena, and the namespace bindings. The fields are private: the store
/// and the handles created in it can only be paired along the creation
/// chain the brand contracts track, so no caller the type system admits
/// can hand the engine a handle from a foreign store.
pub struct Registry {
    engine: wasmtime::Engine,
    store: EngineStore,
    entries: Vec<InstanceSlot>,
    bindings: Vec<NsBinding>,
}

impl Registry {
    /// The engine this registry compiles against.
    pub closed spec fn engine_of(self) -> wasmtime::Engine {
        self.engine
    }

    /// The function table of arena slot `i`.
    pub closed spec fn entry_funcs(self, i: int) -> Seq<FuncEntryV>
        recommends
            0 <= i < self.n_entries(),
    {
        funcs_view(self.entries@[i].funcs)
    }

    /// How many arena slots exist.
    pub closed spec fn n_entries(self) -> int {
        self.entries@.len() as int
    }

    /// Every binding points into the arena, and every stored instance and
    /// function handle lives in this registry's own execution context: the
    /// engine panics on a handle used with a foreign store, and this
    /// clause is what keeps such a pairing out of every verified call.
    pub closed spec fn wf(self) -> bool {
        &&& (forall|i: int|
            0 <= i < self.bindings@.len() ==> (#[trigger] self.bindings@[i]).index
                < self.entries@.len())
        &&& (forall|i: int|
            0 <= i < self.entries@.len() ==> (#[trigger] self.entries@[i]).slot_branded(
                self.store.brand(),
            ))
    }

    /// The arena slot the namespace currently resolves to, if any.
    pub closed spec fn resolves_to(self, ns: Seq<char>) -> Option<int> {
        match slot_from_end(self.bindings@, ns) {
            Some(i) => Some(self.bindings@[i].index as int),
            None => None,
        }
    }

    /// Whether the namespace is registered.
    pub closed spec fn registered(self, ns: Seq<char>) -> bool {
        self.resolves_to(ns) is Some
    }

    /// The current function table of a namespace, if registered.
    pub closed spec fn ns_funcs(self, ns: Seq<char>) -> Option<Seq<FuncEntryV>> {
        match self.resolves_to(ns) {
            Some(i) => Some(self.entry_funcs(i)),
            None => None,
        }
    }

    /// The function entry an invocation of `(ns, fname)` targets, if any.
    pub closed spec fn lookup_func(self, ns: Seq<char>, fname: Seq<char>) -> Option<FuncEntryV> {
        match self.ns_funcs(ns) {
            Some(t) => match func_slot(t, fname) {
                Some(j) => Some(t[j]),
                None => None,
            },
            None => None,
        }
    }

    /// A fresh registry with no namespaces, its own engine and its own
    /// execution context.
    pub fn new() -> (r: Registry)
        ensures
            r.wf(),
            r.n_entries() == 0,
            forall|ns: Seq<char>| !(#[trigger] r.registered(ns)),
    {
        let engine = wasm::new_engine();
        let store = wasm::new_store(&engine);
        Registry { engine, store, entries: Vec::new(), bindings: Vec::new() }
    }
}

/// Both registries present the same engine, the same namespaces, the same
/// slots, and the same tables: nothing a caller can observe through
/// resolution differs.
pub open spec fn same_registry_view(a: Registry, b: Registry) -> bool {
    &&& a.engine_of() == b.engine_of()
    &&& a.n_entries() == b.n_entries()
    &&& forall|i: int| 0 <= i < a.n_entries() ==> a.entry_funcs(i) == #[trigger] b.entry_funcs(i)
    &&& forall|ns: Seq<char>| a.resolves_to(ns) == #[trigger] b.resolves_to(ns)
}

impl Registry {
    /// Looks up the latest binding for `ns`.
    fn find_binding(&self, ns: &String) -> (r: Option<usize>)
        ensures
            match slot_from_end(self.bindings@, ns@) {
                Some(i) => r == Some(self.bindings@[i].index as usize),
                None => r is None,
            },
    {
        let mut i: usize = self.bindings.len();
        proof {
            assert(self.bindings@.take(i as int) =~= self.bindings@);
        }
        while i > 0
            invariant
                i <= self.bindings@.len(),
                slot_from_end(self.bindings@, ns@) == slot_from_end(
                    self.bindings@.take(i as int),
                    ns@,
                ),
            decreases i,
        {
            i = i - 1;
            proof {
                assert(self.bindings@.take(i + 1).last() == self.bindings@[i as int]);
                assert(self.bindings@.take(i + 1).drop_last() =~= self.bindings@.take(i as int));
            }
            if self.bindings[i].name == *ns {
                return Some(self.bindings[i].index);
            }
        }
        proof {
            assert(self.bindings@.take(0) =~= Seq::<NsBinding>::empty());
        }
        None
    }

    /// Resolves a namespace to a handle on its current instance, or fails
    /// with `NamespaceNotFound` exactly when the namespace is unregistered.
    pub fn resolve(&self, ns: &String) -> (r: Result<InstanceHandle, LookupError>)
        requires
            self.wf(),
        ensures
            match self.resolves_to(ns@) {
                Some(i) => r matches Ok(h) && h.slot() == i && h.slot() < self.n_entries(),
                None => r == Err::<InstanceHandle, LookupError>(LookupError::NamespaceNotFound),
            },
    {
        proof {
            lemma_slot_from_end_props(self.bindings@, ns@);
        }
        match self.find_binding(ns) {
            Some(idx) => Ok(InstanceHandle { index: idx }),
            None => Err(LookupError::NamespaceNotFound),
        }
    }
}

/// Builds the function table of a fresh instance: one entry per callable
/// export of its module, in export order, each carrying the engine's
/// handle to that function; fails when the engine will not hand one out.
fn build_func_table(
    store: &mut EngineStore,
    m: &wasmtime::Module,
    inst: &HostInstance,
) -> (r: Result<Vec<FuncEntry>, String>)
    requires
        inst.brand() == old(store).brand(),
    ensures
        final(store).brand() == old(store).brand(),
        r matches Ok(t) ==> funcs_view(t) == callable_table(*m) && forall|j: int|
            0 <= j < t@.len() ==> (#[trigger] t@[j]).func.brand() == old(store).brand(),
{
    let names = wasm::module_export_names(m);
    let ghost names_v = names@.map_values(|s: String| s@);
    let mut out: Vec<FuncEntry> = Vec::new();
    let mut i: usize = 0;
    while i < names.len()
        invariant
            0 <= i <= names@.len(),
            names_v == names@.map_values(|s: String| s@),
            names_v == export_names(*m),
            funcs_view(out) == table_for(*m, names_v.take(i as int)),
            store.brand() == old(store).brand(),
            inst.brand() == old(store).brand(),
            forall|j: int|
                0 <= j < out@.len() ==> (#[trigger] out@[j]).func.brand() == old(store).brand(),
        decreases names@.len() - i,
    {
        let name = &names[i];
        proof {
            assert(names_v[i as int] == name@);
            assert(names_v.take(i + 1).drop_last() =~= names_v.take(i as int));
            assert(names_v.take(i + 1).last() == names_v[i as int]);
        }
        match wasm::module_func_sig(m, name.as_str()) {
            Some(raw) => {
                match (refine_kinds(&raw.params), refine_kinds(&raw.results)) {
                    (Some(ps), Some(rs)) => {
                        match wasm::get_func(store, inst, name.as_str()) {
                            Some(f) => {
                                let entry = FuncEntry {
                                    name: name.clone(),
                                    params: ps,
                                    results: rs,
                                    func: f,
                                };
                                proof {
                                    assert(is_callable(*m, names_v[i as int]));
                                    assert(entry@ == entry_of(*m, names_v[i as int]));
                                }
                                out.push(entry);
                                proof {
                                    assert(funcs_view(out) =~= table_for(
                                        *m,
                                        names_v.take(i + 1),
                                    ));
                                }
                            },
                            None => {
                                return Err("engine refused a callable export".to_owned());
                            },
                        }
                    },
                    _ => {
                        proof {
                            assert(!is_callable(*m, names_v[i as int]));
                        }
                    },
                }
            },
            None => {
                proof {
                    assert(!is_callable(*m, names_v[i as int]));
                }
            },
        }
        i = i + 1;
    }
    proof {
        assert(names_v.take(names_v.len() as int) =~= names_v);
    }
    Ok(out)
}

impl Registry {
    /// Instantiates an already-compiled module and binds it under `ns`,
    /// replacing any current binding while leaving the superseded slot
    /// intact; on failure the registry is observably unchanged.
    pub fn register_module(&mut self, ns: String, m: &wasmtime::Module) -> (r: Result<
        (),
        LoadError,
    >)
        requires
            old(self).wf(),
        ensures
            final(self).wf(),
            final(self).engine_of() == old(self).engine_of(),
            r matches Err(e) ==> {
                &&& e matches LoadError::InstantiateFailed(_)
                &&& same_registry_view(*old(self), *final(self))
            },
            r is Ok ==> {
                &&& final(self).n_entries() == old(self).n_entries() + 1
                &&& (forall|i: int|
                    0 <= i < old(self).n_entries() ==> old(self).entry_funcs(i)
                        == #[trigger] final(self).entry_funcs(i))
                &&& final(self).entry_funcs(old(self).n_entries()) == callable_table(*m)
                &&& final(self).resolves_to(ns@) == Some(old(self).n_entries())
                &&& (forall|ns2: Seq<char>|
                    ns2 != ns@ ==> old(self).resolves_to(ns2)
                        == #[trigger] final(self).resolves_to(ns2))
            },
    {
        let inst = match wasm::instantiate(&mut self.store, m) {
            Ok(i) => i,
            Err(e) => {
                return Err(LoadError::InstantiateFailed(e));
            },
        };
        let funcs = match build_func_table(&mut self.store, m, &inst) {
            Ok(t) => t,
            Err(e) => {
                return Err(LoadError::InstantiateFailed(e));
            },
        };
        let idx = self.entries.len();
        self.entries.push(InstanceSlot { instance: inst, funcs });
        self.bindings.push(NsBinding { name: ns, index: idx });
        proof {
            let ghost post = *self;
            let ghost pre = *old(self);
            assert(post.bindings@.drop_last() =~= pre.bindings@);
            assert(post.entries@.drop_last() =~= pre.entries@);
            assert(post.bindings@.last().name@ == ns@);
            assert(post.bindings@.last().index == idx);
            assert(slot_from_end(post.bindings@, ns@) == Some(post.bindings@.len() - 1));
            assert forall|i: int|
                0 <= i < post.bindings@.len() implies (#[trigger] post.bindings@[i]).index
                < post.entries@.len() by {
                if i < post.bindings@.len() - 1 {
                    assert(post.bindings@[i] == pre.bindings@[i]);
                }
            }
            assert forall|ns2: Seq<char>| ns2 != ns@ implies pre.resolves_to(ns2)
                == #[trigger] post.resolves_to(ns2) by {
                assert(slot_from_end(post.bindings@, ns2) == slot_from_end(pre.bindings@, ns2));
                lemma_slot_from_end_props(pre.bindings@, ns2);
                if slot_from_end(pre.bindings@, ns2) is Some {
                    let i = slot_from_end(pre.bindings@, ns2).unwrap();
                    assert(post.bindings@[i] == pre.bindings@[i]);
                }
            }
            assert forall|i: int| 0 <= i < pre.n_entries() implies pre.entry_funcs(i)
                == #[trigger] post.entry_funcs(i) by {
                assert(post.entries@[i] == pre.entries@[i]);
            }
            assert(post.store.brand() == pre.store.brand());
            assert forall|i: int|
                0 <= i < post.entries@.len() implies (#[trigger] post.entries@[i]).slot_branded(
                post.store.brand(),
            ) by {
                if i < post.entries@.len() - 1 {
                    assert(post.entries@[i] == pre.entries@[i]);
                    assert(pre.entries@[i].slot_branded(pre.store.brand()));
                } else {
                    assert(post.entries@[i].instance.brand() == post.store.brand());
                }
            }
        }
        Ok(())
    }

    /// Compiles module source against the engine and registers it under
    /// `ns`: a malformed module is a `CompileFailed`, a failing
    /// instantiation an `InstantiateFailed`, and either failure leaves the
    /// registry observably unchanged.
    pub fn register(&mut self, ns: String, module_bytes: &[u8]) -> (r: Result<(), LoadError>)
        requires
            old(self).wf(),
        ensures
            final(self).wf(),
            final(self).engine_of() == old(self).engine_of(),
            r is Err ==> same_registry_view(*old(self), *final(self)),
            r matches Err(LoadError::CompileFailed(_)) <==> compile_result(
                old(self).engine_of(),
                module_bytes@,
            ) is None,
            r is Ok ==> {
                &&& final(self).n_entries() == old(self).n_entries() + 1
                &&& (forall|i: int|
                    0 <= i < old(self).n_entries() ==> old(self).entry_funcs(i)
                        == #[trigger] final(self).entry_funcs(i))
                &&& final(self).entry_funcs(old(self).n_entries()) == compile_result(
                    old(self).engine_of(),
                    module_bytes@,
                ).unwrap()
                &&& final(self).resolves_to(ns@) == Some(old(self).n_entries())
                &&& (forall|ns2: Seq<char>|
                    ns2 != ns@ ==> old(self).resolves_to(ns2)
                        == #[trigger] final(self).resolves_to(ns2))
            },
    {
        let m = match wasm::compile_module(&self.engine, module_bytes) {
            Ok(m) => m,
            Err(e) => {
                return Err(LoadError::CompileFailed(e));
            },
        };
        let r = self.register_module(ns, &m);
        match r {
            Ok(()) => Ok(()),
            Err(e) => Err(e),
        }
    }
}

/// What an invocation against the function table `t` must produce:
/// `FunctionNotFound` exactly when the table has no entry for the name; an
/// arity error exactly when the argument count differs from the entry's
/// parameter count; a coercion error naming exactly the first undecodable
/// position; and otherwise either the encoding of one value per declared
/// result, or a trap the guest raised.
pub open spec fn call_outcome(
    t: Seq<FuncEntryV>,
    fname: Seq<char>,
    args: Seq<ExternalArgument>,
    r: Result<ExternalResult, CallError>,
) -> bool {
    match func_slot(t, fname) {
        None => r == Err::<ExternalResult, CallError>(
            CallError::Lookup(LookupError::FunctionNotFound),
        ),
        Some(j) => {
            let fe = t[j];
            if args.len() != fe.params.len() {
                r == Err::<ExternalResult, CallError>(
                    CallError::Argument(
                        ArgumentError::ArityMismatch {
                            expected: fe.params.len() as usize,
                            supplied: args.len() as usize,
                        },
                    ),
                )
            } else if !all_decodable(fe.params, args) {
                let p = first_fail(fe.params, args);
                r == Err::<ExternalResult, CallError>(
                    CallError::Argument(
                        ArgumentError::TypeCoercionFailed {
                            position: p as usize,
                            expected: fe.params[p],
                        },
                    ),
                )
            } else {
                match r {
                    Ok(ext) => exists|vs: Seq<NativeValue>|
                        vs.len() == fe.results.len() && #[trigger] result_encodes(ext, vs),
                    Err(e) => e matches CallError::Trap(_),
                }
            }
        },
    }
}

/// What an invocation of `(ns, fname)` against registry state `pre` must
/// produce: `NamespaceNotFound` exactly when the namespace is unregistered,
/// and otherwise the outcome of calling into its current function table.
pub open spec fn invoke_outcome(
    pre: Registry,
    ns: Seq<char>,
    fname: Seq<char>,
    args: Seq<ExternalArgument>,
    r: Result<ExternalResult, CallError>,
) -> bool {
    match pre.resolves_to(ns) {
        None => r == Err::<ExternalResult, CallError>(
            CallError::Lookup(LookupError::NamespaceNotFound),
        ),
        Some(i) => call_outcome(pre.entry_funcs(i), fname, args, r),
    }
}

/// Looks up the latest function entry named `fname`.
fn find_func(funcs: &Vec<FuncEntry>, fname: &String) -> (r: Option<usize>)
    ensures
        r is Some <==> func_slot(funcs_view(*funcs), fname@) is Some,
        r matches Some(u) ==> func_slot(funcs_view(*funcs), fname@) == Some(u as int) && u
            < funcs@.len(),
{
    let ghost t = funcs_view(*funcs);
    let mut i: usize = funcs.len();
    proof {
        assert(t.take(i as int) =~= t);
    }
    while i > 0
        invariant
            i <= funcs@.len(),
            t == funcs_view(*funcs),
            func_slot(t, fname@) == func_slot(t.take(i as int), fname@),
        decreases i,
    {
        i = i - 1;
        proof {
            assert(t.take(i + 1).last() == t[i as int]);
            assert(t.take(i + 1).drop_last() =~= t.take(i as int));
            assert(t[i as int] == funcs@[i as int]@);
        }
        if funcs[i].name == *fname {
            return Some(i);
        }
    }
    proof {
        assert(t.take(0) =~= Seq::<FuncEntryV>::empty());
    }
    None
}

/// Copies a kind list.
fn copy_kinds(v: &Vec<ValKind>) -> (r: Vec<ValKind>)
    ensures
        r@ == v@,
{
    let mut out: Vec<ValKind> = Vec::new();
    let mut i: usize = 0;
    while i < v.len()
        invariant
            0 <= i <= v@.len(),
            out@ == v@.subrange(0, i as int),
        decreases v@.len() - i,
    {
        out.push(v[i]);
        i = i + 1;
        proof {
            assert(out@ =~= v@.subrange(0, i as int));
        }
    }
    proof {
        assert(v@.subrange(0, v@.len() as int) =~= v@);
    }
    out
}

impl Registry {
    /// The declared signature of the named export of the instance a handle
    /// denotes: its parameter kinds and result kinds, in order; fails with
    /// `FunctionNotFound` exactly when the instance has no callable export
    /// of that name.
    pub fn signature_of(&self, h: InstanceHandle, fname: &String) -> (r: Result<
        (Vec<ValKind>, Vec<ValKind>),
        LookupError,
    >)
        requires
            self.wf(),
            h.slot() < self.n_entries(),
        ensures
            match func_slot(self.entry_funcs(h.slot()), fname@) {
                Some(j) => r matches Ok(sig) && sig.0@ == self.entry_funcs(h.slot())[j].params
                    && sig.1@ == self.entry_funcs(h.slot())[j].results,
                None => r == Err::<(Vec<ValKind>, Vec<ValKind>), LookupError>(
                    LookupError::FunctionNotFound,
                ),
            },
    {
        let ghost t = self.entry_funcs(h.slot());
        match find_func(&self.entries[h.index].funcs, fname) {
            None => Err(LookupError::FunctionNotFound),
            Some(j) => {
                proof {
                    lemma_func_slot_props(t, fname@);
                }
                Ok(
                    (
                        copy_kinds(&self.entries[h.index].funcs[j].params),
                        copy_kinds(&self.entries[h.index].funcs[j].results),
                    ),
                )
            },
        }
    }
}

impl Registry {
    /// Invokes the named export of the instance a handle denotes: resolves
    /// its signature, decodes the arguments against it, runs the function
    /// against the shared execution context, and encodes the results. The
    /// registry's registrations are left untouched; only the execution
    /// context advances, and any of its effects from before a trap persist.
    pub fn invoke_handle(
        &mut self,
        h: InstanceHandle,
        fname: &String,
        args: &Vec<ExternalArgument>,
    ) -> (r: Result<ExternalResult, CallError>)
        requires
            old(self).wf(),
            h.slot() < old(self).n_entries(),
        ensures
            final(self).wf(),
            same_registry_view(*old(self), *final(self)),
            call_outcome(old(self).entry_funcs(h.slot()), fname@, args@, r),
    {
        let ghost t = old(self).entry_funcs(h.slot());
        proof {
            assert(self.entries@ == old(self).entries@);
            assert(t == funcs_view(self.entries@[h.index as int].funcs));
        }
        match find_func(&self.entries[h.index].funcs, fname) {
            None => Err(CallError::Lookup(LookupError::FunctionNotFound)),
            Some(j) => {
                proof {
                    lemma_func_slot_props(t, fname@);
                    assert(func_slot(t, fname@) == Some(j as int));
                }
                let ghost fe = t[func_slot(t, fname@).unwrap()];
                proof {
                    assert(fe == self.entries@[h.index as int].funcs@[j as int]@);
                }
                let n_results = self.entries[h.index].funcs[j].results.len();
                let decoded = decode_arguments(&self.entries[h.index].funcs[j].params, args);
                match decoded {
                    Err(ae) => {
                        proof {
                            match ae {
                                ArgumentError::TypeCoercionFailed { position, expected } => {
                                    assert(is_first_fail(fe.params, args@, position as int));
                                    lemma_first_fail_unique(
                                        fe.params,
                                        args@,
                                        position as int,
                                        first_fail(fe.params, args@),
                                    );
                                },
                                _ => {},
                            }
                        }
                        Err(CallError::Argument(ae))
                    },
                    Ok(vals) => {
                        proof {
                            assert(self.entries@[h.slot()].slot_branded(self.store.brand()));
                        }
                        let callres = wasm::call_func(
                            &mut self.store,
                            &self.entries[h.index].funcs[j].func,
                            &vals,
                            n_results,
                        );
                        proof {
                            assert(self.store.brand() == old(self).store.brand());
                            assert forall|i: int|
                                0 <= i < self.entries@.len() implies (
                            #[trigger] self.entries@[i]).slot_branded(self.store.brand()) by {
                                assert(old(self).entries@[i].slot_branded(
                                    old(self).store.brand(),
                                ));
                            }
                        }
                        match callres {
                            Ok(vs) => {
                                let ext = encode_result(&vs);
                                proof {
                                    assert(result_encodes(ext, vs@));
                                }
                                Ok(ext)
                            },
                            Err(e) => Err(CallError::Trap(e)),
                        }
                    },
                }
            },
        }
    }

    /// Invokes `fname` in the module registered under `ns`: the dispatcher
    /// of the host. Composes resolution, signature lookup, argument
    /// decoding, execution and result encoding, and returns exactly one
    /// result or one typed failure.
    pub fn invoke(&mut self, ns: &String, fname: &String, args: &Vec<ExternalArgument>) -> (r:
        Result<ExternalResult, CallError>)
        requires
            old(self).wf(),
        ensures
            final(self).wf(),
            same_registry_view(*old(self), *final(self)),
            invoke_outcome(*old(self), ns@, fname@, args@, r),
    {
        let h = match self.resolve(ns) {
            Ok(h) => h,
            Err(_) => {
                return Err(CallError::Lookup(LookupError::NamespaceNotFound));
            },
        };
        self.invoke_handle(h, fname, args)
    }
}

/// Registering a module and then resolving its namespace round-trips: the
/// resolved instance carries exactly the registered module's callable
/// export set. The premises are what a successful `register_module`
/// ensures about the registry it leaves behind.
pub proof fn lemma_register_then_resolve(
    pre: Registry,
    post: Registry,
    ns: Seq<char>,
    m: wasmtime::Module,
)
    requires
        post.n_entries() == pre.n_entries() + 1,
        post.entry_funcs(pre.n_entries()) == callable_table(m),
        post.resolves_to(ns) == Some(pre.n_entries()),
    ensures
        post.registered(ns),
        post.ns_funcs(ns) == Some(callable_table(m)),
{
}

/// Replacing a namespace's instance never disturbs an in-flight call: a
/// handle resolved before the replacement still denotes a slot with the
/// pre-replacement function table, while a resolution after the
/// replacement yields only the fresh slot. The premises are what a
/// successful registration ensures.
pub proof fn lemma_replacement_preserves_inflight(
    pre: Registry,
    post: Registry,
    ns: Seq<char>,
    h: InstanceHandle,
)
    requires
        0 <= h.slot() < pre.n_entries(),
        post.n_entries() == pre.n_entries() + 1,
        forall|i: int|
            0 <= i < pre.n_entries() ==> pre.entry_funcs(i) == #[trigger] post.entry_funcs(i),
        post.resolves_to(ns) == Some(pre.n_entries()),
    ensures
        post.entry_funcs(h.slot()) == pre.entry_funcs(h.slot()),
        post.resolves_to(ns) != Some(h.slot()),
{
}

/// An invocation leaves every namespace's registration and function table
/// exactly as it found them: calls into one namespace cannot disturb what
/// any other namespace (or the same one) resolves to. The premise is what
/// `invoke` ensures about the registry it leaves behind.
pub proof fn lemma_invoke_preserves_registrations(pre: Registry, post: Registry, ns: Seq<char>)
    requires
        pre.wf(),
        same_registry_view(pre, post),
    ensures
        post.resolves_to(ns) == pre.resolves_to(ns),
        post.ns_funcs(ns) == pre.ns_funcs(ns),
{
    lemma_slot_from_end_props(pre.bindings@, ns);
}

/// Calling a function with the wrong argument count yields exactly
/// `ArityMismatch`, naming the declared and the supplied counts; the
/// dispatcher reports it before anything reaches the guest.
pub proof fn lemma_wrong_arity_rejected(
    pre: Registry,
    ns: Seq<char>,
    fname: Seq<char>,
    args: Seq<ExternalArgument>,
    r: Result<ExternalResult, CallError>,
    fe: FuncEntryV,
)
    requires
        pre.lookup_func(ns, fname) == Some(fe),
        args.len() != fe.params.len(),
        invoke_outcome(pre, ns, fname, args, r),
    ensures
        r == Err::<ExternalResult, CallError>(
            CallError::Argument(
                ArgumentError::ArityMismatch {
                    expected: fe.params.len() as usize,
                    supplied: args.len() as usize,
                },
            ),
        ),
{
}

} // verus!
