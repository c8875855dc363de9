//! A verified core for hosting WebAssembly modules inside a long-lived
//! process: a namespace registry of instantiated modules, a signature
//! resolver that marshals textual arguments to and from the numeric
//! WebAssembly value kinds, and an invocation dispatcher that composes
//! lookup, decoding, execution and result encoding.

pub mod kinds;
pub mod errors;
pub mod numtext;
pub mod marshal;
pub mod wasm;
pub mod registry;
pub mod command;
