//! Errors on the host side: a `WasmError` raised by the host, and what a
//! host function that the guest calls into can fail with.

use crate::linear_memory::MemoryAccessError;
use crate::result::{WasmError, WasmErrorInner};
use vstd::prelude::*;

verus! {

/// A `WasmError` raised on the host side.
#[derive(Clone, Debug, PartialEq, Eq, Hash, PartialOrd, Ord)]
pub struct WasmHostError(pub WasmError);

impl From<WasmError> for WasmHostError {
    fn from(wasm_error: WasmError) -> (r: WasmHostError) {
        WasmHostError(wasm_error)
    }
}

impl vstd::std_specs::convert::FromSpecImpl<WasmError> for WasmHostError {
    open spec fn obeys_from_spec() -> bool {
        true
    }

    open spec fn from_spec(v: WasmError) -> Self {
        WasmHostError(v)
    }
}

/// Why a call between host and guest failed: an error that one of them
/// raised, or an out-of-bounds access to the guest's memory.
#[derive(Clone, Debug, PartialEq, Eq)]
pub enum RuntimeError {
    /// A `WasmError` raised by the host or the guest.
    User(WasmError),
    /// Reading or writing the guest's memory failed.
    MemoryAccess(MemoryAccessError),
}

impl RuntimeError {
    /// The kind of `WasmError` this is, if it is one.
    pub open spec fn kind(self) -> Option<WasmErrorInner> {
        match self {
            RuntimeError::User(e) => Some(e.error),
            RuntimeError::MemoryAccess(_) => None,
        }
    }
}

/// A host error becomes a runtime error that carries it.
impl From<WasmHostError> for RuntimeError {
    fn from(e: WasmHostError) -> (r: RuntimeError) {
        RuntimeError::User(e.0)
    }
}

impl vstd::std_specs::convert::FromSpecImpl<WasmHostError> for RuntimeError {
    open spec fn obeys_from_spec() -> bool {
        true
    }

    open spec fn from_spec(v: WasmHostError) -> Self {
        RuntimeError::User(v.0)
    }
}

/// A failed memory access becomes a runtime error.
impl From<MemoryAccessError> for RuntimeError {
    fn from(e: MemoryAccessError) -> (r: RuntimeError) {
        RuntimeError::MemoryAccess(e)
    }
}

impl vstd::std_specs::convert::FromSpecImpl<MemoryAccessError> for RuntimeError {
    open spec fn obeys_from_spec() -> bool {
        true
    }

    open spec fn from_spec(v: MemoryAccessError) -> Self {
        RuntimeError::MemoryAccess(v)
    }
}

/// A runtime error carrying a host error of the given kind, raised in
/// `file` at `line`.
pub fn host_error(file: &str, line: u32, error: WasmErrorInner) -> (r: RuntimeError)
    ensures
        r.kind() == Some(error),
        r matches RuntimeError::User(w) && w.file@ == file@ && w.line == line,
{
    RuntimeError::User(WasmError::new(String::from_str(file), line, error))
}

} // verus!
