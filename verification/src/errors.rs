//! The error taxonomy of the host: every failure is a value returned to
//! the immediate caller, and nothing is retried automatically.

use vstd::prelude::*;
use crate::kinds::ValKind;

verus! {

/// The command itself was given the wrong number of positional arguments.
#[derive(Clone, Debug, PartialEq, Eq)]
pub struct ArityError {
    /// How many positional arguments the command needs at least.
    pub required: usize,
    /// How many were supplied.
    pub supplied: usize,
}

/// Loading a module failed; the registry entry for the namespace, if any,
/// is left untouched.
#[derive(Clone, Debug, PartialEq, Eq)]
pub enum LoadError {
    /// The module source was malformed or could not be compiled.
    CompileFailed(String),
    /// The compiled module could not be instantiated (unsatisfied imports,
    /// a trapping start function, or an export that is not callable).
    InstantiateFailed(String),
}

/// The caller referenced something the registry does not hold.
#[derive(Clone, Copy, Debug, PartialEq, Eq, Structural)]
pub enum LookupError {
    /// No module is registered under the given namespace.
    NamespaceNotFound,
    /// The registered module has no callable function export of that name
    /// with numeric parameter and result kinds.
    FunctionNotFound,
}

/// The caller-supplied arguments do not match the target function's signature.
#[derive(Clone, Copy, Debug, PartialEq, Eq, Structural)]
pub enum ArgumentError {
    /// The number of supplied arguments differs from the parameter count.
    ArityMismatch { expected: usize, supplied: usize },
    /// The argument at `position` could not be parsed as `expected`:
    /// non-numeric text, or text out of range for the kind.
    TypeCoercionFailed { position: usize, expected: ValKind },
}

/// Any failure of an invocation, by family.
#[derive(Clone, Debug, PartialEq, Eq)]
pub enum CallError {
    /// The namespace or function could not be found.
    Lookup(LookupError),
    /// The arguments did not fit the function's signature.
    Argument(ArgumentError),
    /// Guest code faulted during execution. Observable side effects in the
    /// instance's linear memory or globals from before the fault persist:
    /// WebAssembly execution is not transactional.
    Trap(String),
}

} // verus!
