//! The error model shared by the host and the guest.

use holochain_serialized_bytes::SerializedBytesError;
use vstd::prelude::*;

verus! {

/// Every error state that crossing the host/guest boundary can run into.
#[derive(Clone, Debug, PartialEq, Eq, Hash, PartialOrd, Ord)]
pub enum WasmErrorInner {
    /// An unsafe conversion of a pointer or a length, such as a value out of range.
    PointerMap,
    /// These bytes failed to deserialize.
    Deserialize(Vec<u8>),
    /// Something failed to serialize.
    Serialize(SerializedBytesError),
    /// An error was hit while reporting an error.
    ErrorWhileError,
    /// Reading or writing wasm memory went wrong.
    Memory,
    /// The host failed to handle bytes taken out of the guest.
    GuestResultHandling(String),
    /// Guest logic that the host knows nothing about failed.
    Guest(String),
    /// Host logic that the guest knows nothing about failed.
    Host(String),
    /// Host logic demands that wasm execution halts at once; the bytes are
    /// the encoded value to hand back as though the guest had returned it.
    HostShortCircuit(Vec<u8>),
    /// Compiling machine code from wasm byte code failed.
    Compile(String),
    /// Building or serializing a module from wasm byte code failed.
    ModuleBuild(String),
    /// Deserializing a previously serialized module failed.
    ModuleDeserialize(String),
    /// The host failed to call a function in the guest.
    CallError(String),
    /// The module cache was used before it was initialized.
    UninitializedSerializedModuleCache,
}

/// A `WasmErrorInner` with the file and the line it was raised at.
#[derive(Clone, Debug, PartialEq, Eq, Hash, PartialOrd, Ord)]
pub struct WasmError {
    pub file: String,
    pub line: u32,
    pub error: WasmErrorInner,
}

impl WasmErrorInner {
    /// Whether this error means the guest may be corrupt, so that the host
    /// must not reuse the instance (for example from a cache of instances).
    pub open spec fn spec_maybe_corrupt(self) -> bool {
        match self {
            WasmErrorInner::PointerMap
            | WasmErrorInner::ErrorWhileError
            | WasmErrorInner::Memory
            | WasmErrorInner::GuestResultHandling(_)
            | WasmErrorInner::Compile(_)
            | WasmErrorInner::ModuleBuild(_)
            | WasmErrorInner::ModuleDeserialize(_)
            | WasmErrorInner::CallError(_)
            | WasmErrorInner::UninitializedSerializedModuleCache => true,
            WasmErrorInner::Deserialize(_)
            | WasmErrorInner::Serialize(_)
            | WasmErrorInner::Guest(_)
            | WasmErrorInner::Host(_)
            | WasmErrorInner::HostShortCircuit(_) => false,
        }
    }

    /// Some errors mean the wasm guest may be corrupt, so the host MUST NOT
    /// reuse it; the others MAY leave a cache of instances untouched.
    pub fn maybe_corrupt(&self) -> (r: bool)
        ensures
            r == self.spec_maybe_corrupt(),
            *self is Deserialize || *self is Serialize || *self is Guest || *self is Host
                || *self is HostShortCircuit ==> !r,
            *self is PointerMap || *self is ErrorWhileError || *self is Memory || *self is GuestResultHandling
                || *self is Compile || *self is ModuleBuild || *self is ModuleDeserialize || *self is CallError
                || *self is UninitializedSerializedModuleCache ==> r,
    {
        match self {
            WasmErrorInner::PointerMap
            | WasmErrorInner::ErrorWhileError
            | WasmErrorInner::Memory
            | WasmErrorInner::GuestResultHandling(_)
            | WasmErrorInner::Compile(_)
            | WasmErrorInner::ModuleBuild(_)
            | WasmErrorInner::ModuleDeserialize(_)
            | WasmErrorInner::CallError(_)
            | WasmErrorInner::UninitializedSerializedModuleCache => true,
            WasmErrorInner::Deserialize(_)
            | WasmErrorInner::Serialize(_)
            | WasmErrorInner::Guest(_)
            | WasmErrorInner::Host(_)
            | WasmErrorInner::HostShortCircuit(_) => false,
        }
    }
}

/// Whether two errors are of the same kind, whatever they carry.
pub open spec fn same_variant(a: WasmErrorInner, b: WasmErrorInner) -> bool {
    ||| a is PointerMap && b is PointerMap
    ||| a is Deserialize && b is Deserialize
    ||| a is Serialize && b is Serialize
    ||| a is ErrorWhileError && b is ErrorWhileError
    ||| a is Memory && b is Memory
    ||| a is GuestResultHandling && b is GuestResultHandling
    ||| a is Guest && b is Guest
    ||| a is Host && b is Host
    ||| a is HostShortCircuit && b is HostShortCircuit
    ||| a is Compile && b is Compile
    ||| a is ModuleBuild && b is ModuleBuild
    ||| a is ModuleDeserialize && b is ModuleDeserialize
    ||| a is CallError && b is CallError
    ||| a is UninitializedSerializedModuleCache && b is UninitializedSerializedModuleCache
}

/// Whether an error leaves the guest possibly corrupt depends on its kind
/// alone, never on what it carries: two errors of one kind agree. Failing
/// to serialize or deserialize, and errors of guest or host logic
/// (short circuits too), never leave the guest corrupt; every other kind
/// may.
pub proof fn lemma_maybe_corrupt_by_kind(a: WasmErrorInner, b: WasmErrorInner)
    ensures
        same_variant(a, b) ==> a.spec_maybe_corrupt() == b.spec_maybe_corrupt(),
        a is Deserialize || a is Serialize || a is Guest || a is Host || a is HostShortCircuit
            <==> !a.spec_maybe_corrupt(),
{
}

/// A failed integer conversion while moving a pointer or a length is a `PointerMap` error.
impl From<core::num::TryFromIntError> for WasmErrorInner {
    fn from(_e: core::num::TryFromIntError) -> (r: Self) {
        WasmErrorInner::PointerMap
    }
}

impl vstd::std_specs::convert::FromSpecImpl<core::num::TryFromIntError> for WasmErrorInner {
    open spec fn obeys_from_spec() -> bool {
        true
    }

    open spec fn from_spec(v: core::num::TryFromIntError) -> Self {
        WasmErrorInner::PointerMap
    }
}

/// std's error for a slice whose length does not match the array it is
/// converted to; carried through opaquely.
#[verifier::external_type_specification]
#[verifier::external_body]
pub struct ExTryFromSliceError(core::array::TryFromSliceError);

/// A failed slice-to-array conversion while reading memory is a `Memory` error.
impl From<core::array::TryFromSliceError> for WasmErrorInner {
    fn from(_e: core::array::TryFromSliceError) -> (r: Self) {
        WasmErrorInner::Memory
    }
}

impl vstd::std_specs::convert::FromSpecImpl<core::array::TryFromSliceError> for WasmErrorInner {
    open spec fn obeys_from_spec() -> bool {
        true
    }

    open spec fn from_spec(v: core::array::TryFromSliceError) -> Self {
        WasmErrorInner::Memory
    }
}

/// holochain_serialized_bytes' error for a value that failed to encode or
/// bytes that failed to decode; carried through opaquely.
#[verifier::external_type_specification]
#[verifier::external_body]
pub struct ExSerializedBytesError(SerializedBytesError);

/// The derived `Clone` of holochain_serialized_bytes' error, so that errors
/// holding one can be cloned; nothing is claimed of the clone.
pub assume_specification[ <SerializedBytesError as Clone>::clone ](e: &SerializedBytesError) -> SerializedBytesError;

/// A failure to encode or decode is a `Serialize` error.
impl From<SerializedBytesError> for WasmErrorInner {
    fn from(e: SerializedBytesError) -> (r: Self) {
        WasmErrorInner::Serialize(e)
    }
}

impl vstd::std_specs::convert::FromSpecImpl<SerializedBytesError> for WasmErrorInner {
    open spec fn obeys_from_spec() -> bool {
        true
    }

    open spec fn from_spec(v: SerializedBytesError) -> Self {
        WasmErrorInner::Serialize(v)
    }
}

/// A bare message becomes an error of host logic: this library classifies
/// the strings that hosts build as host errors.
impl From<String> for WasmErrorInner {
    fn from(s: String) -> (r: Self) {
        WasmErrorInner::Host(s)
    }
}

impl vstd::std_specs::convert::FromSpecImpl<String> for WasmErrorInner {
    open spec fn obeys_from_spec() -> bool {
        true
    }

    open spec fn from_spec(v: String) -> Self {
        WasmErrorInner::Host(v)
    }
}

impl WasmErrorInner {
    /// A borrowed message as an error of host logic, as `From<String>` does
    /// for an owned one.
    pub fn from_message(s: &str) -> (r: Self)
        ensures
            r matches WasmErrorInner::Host(t) && t@ == s@,
    {
        WasmErrorInner::Host(String::from_str(s))
    }

    /// A bare message as an error of host logic, as `From<String>` gives it.
    pub fn host(s: String) -> (r: Self)
        ensures
            r == WasmErrorInner::Host(s),
    {
        WasmErrorInner::Host(s)
    }

    /// A bare message as an error of guest logic: what a guest that builds
    /// its error strings uses in place of `From<String>`.
    pub fn guest(s: String) -> (r: Self)
        ensures
            r == WasmErrorInner::Guest(s),
    {
        WasmErrorInner::Guest(s)
    }
}

impl WasmError {
    /// An error of the given kind raised at `file` and `line`.
    pub fn new(file: String, line: u32, error: WasmErrorInner) -> (e: WasmError)
        ensures
            e.file == file,
            e.line == line,
            e.error == error,
    {
        WasmError { file, line, error }
    }
}

} // verus!
