//! Looking a compiled module up in the two caches of a module cache: the
//! in-memory cache of deserialized modules, then the filesystem cache of
//! serialized ones, and building it from wasm on a miss or when the cached
//! file turns out to be corrupt. The decisions
//! between the steps stand here; the caller runs each action against the
//! caches and the compiler and reports the outcome back as the next event.

use crate::result::{WasmError, WasmErrorInner};
use vstd::prelude::*;

verus! {

/// How far a lookup has got.
#[derive(Clone, Debug, PartialEq, Eq)]
pub enum LookupState {
    /// Nothing has happened yet.
    Start,
    /// The in-memory cache is being asked for the module.
    CheckingMemory,
    /// The filesystem cache is being asked for the serialized module.
    ReadingFile,
    /// The serialized module from the filesystem is being deserialized.
    Deserializing,
    /// The file could not be deserialized and is being removed, so that the
    /// module is built afresh.
    RemovingFile,
    /// The module is being compiled from its wasm.
    Building,
    /// The compiled module is being serialized.
    Serializing,
    /// The serialized module is being deserialized with the runtime engine.
    Reloading,
    /// The serialized module is being written to the filesystem cache.
    StoringFile,
    /// The module is being put in the in-memory cache.
    StoringMemory,
    /// The lookup is over.
    Done,
}

/// What the filesystem cache held for the key.
#[derive(Clone, Copy, Debug, PartialEq, Eq, Structural)]
pub enum FileLookup {
    /// A serialized module.
    Found,
    /// Nothing, or there is no filesystem cache.
    Missing,
    /// The file could not be read.
    Failed,
}

/// What came of the last action.
#[derive(Debug, PartialEq, Eq)]
pub enum LookupEvent {
    /// The lookup starts.
    Begin,
    /// The in-memory cache held the module, or did not.
    InMemory(bool),
    /// What the filesystem cache held.
    FileCache(FileLookup),
    /// Deserializing the file worked, or failed with this message.
    Deserialized(Result<(), String>),
    /// Compiling the wasm worked, or failed with this message.
    Built(Result<(), String>),
    /// Serializing the compiled module worked, or failed with this message.
    Serialized(Result<(), String>),
    /// Deserializing the serialized module worked, or failed with this message.
    Reloaded(Result<(), String>),
    /// The file write was attempted; a failure to write is only logged.
    FileStored,
    /// The file removal was attempted; its outcome does not matter.
    FileRemoved,
    /// The module is in the in-memory cache.
    MemoryStored,
}

/// What to do next.
#[derive(Clone, Debug, PartialEq, Eq)]
pub enum LookupAction {
    /// Look the key up in the in-memory cache.
    CheckMemory,
    /// Look the key up in the filesystem cache.
    ReadFile,
    /// Deserialize the file that was found.
    Deserialize,
    /// Remove the file, which failed to deserialize.
    RemoveFile,
    /// Compile the wasm with a fresh compiler engine.
    Build,
    /// Serialize the compiled module.
    Serialize,
    /// Deserialize the serialized module with the runtime engine.
    Reload,
    /// Write the serialized module to the filesystem cache.
    StoreFile,
    /// Put the module in the in-memory cache.
    StoreMemory,
    /// Return the module at hand.
    ReturnModule,
    /// The lookup failed with this error.
    Fail(WasmError),
}

/// Whether `event` is what the action that leads to `state` reports.
pub open spec fn lookup_expects(state: LookupState, event: LookupEvent) -> bool {
    match (state, event) {
        (LookupState::Start, LookupEvent::Begin) => true,
        (LookupState::CheckingMemory, LookupEvent::InMemory(_)) => true,
        (LookupState::ReadingFile, LookupEvent::FileCache(_)) => true,
        (LookupState::Deserializing, LookupEvent::Deserialized(_)) => true,
        (LookupState::RemovingFile, LookupEvent::FileRemoved) => true,
        (LookupState::Building, LookupEvent::Built(_)) => true,
        (LookupState::Serializing, LookupEvent::Serialized(_)) => true,
        (LookupState::Reloading, LookupEvent::Reloaded(_)) => true,
        (LookupState::StoringFile, LookupEvent::FileStored) => true,
        (LookupState::StoringMemory, LookupEvent::MemoryStored) => true,
        _ => false,
    }
}

/// Whether the action fails the lookup with this kind of error.
pub open spec fn fails_with_kind(a: LookupAction, kind: WasmErrorInner) -> bool {
    a matches LookupAction::Fail(e) && e.error == kind
}

/// An error of the given kind raised while getting a module.
fn failed_lookup(line: u32, kind: WasmErrorInner) -> (a: LookupAction)
    ensures
        fails_with_kind(a, kind),
{
    LookupAction::Fail(WasmError::new(String::from_str("src/module_cache.rs"), line, kind))
}

/// The next state and action of a lookup, given what the last action came to.
pub fn lookup_step(state: LookupState, event: LookupEvent) -> (r: (LookupState, LookupAction))
    requires
        lookup_expects(state, event),
    ensures
        r.1 is Fail || r.1 is ReturnModule <==> r.0 is Done,
        r.1 is ReturnModule ==> state is CheckingMemory || state is StoringMemory,
        r.1 is StoreMemory ==> state is Deserializing || state is StoringFile,
        r.1 is StoreFile ==> state is Reloading,
        r.1 is RemoveFile ==> state is Deserializing,
        r.1 is Build ==> state is ReadingFile || state is RemovingFile,
        r.1 is Fail ==> state is Building || state is Serializing || state is Reloading,
        match (state, event) {
            (LookupState::Start, LookupEvent::Begin) => r == (LookupState::CheckingMemory, LookupAction::CheckMemory),
            (LookupState::CheckingMemory, LookupEvent::InMemory(hit)) => if hit {
                r == (LookupState::Done, LookupAction::ReturnModule)
            } else {
                r == (LookupState::ReadingFile, LookupAction::ReadFile)
            },
            (LookupState::ReadingFile, LookupEvent::FileCache(found)) => if found is Found {
                r == (LookupState::Deserializing, LookupAction::Deserialize)
            } else {
                r == (LookupState::Building, LookupAction::Build)
            },
            (LookupState::Deserializing, LookupEvent::Deserialized(result)) => match result {
                Ok(()) => r == (LookupState::StoringMemory, LookupAction::StoreMemory),
                Err(_) => r == (LookupState::RemovingFile, LookupAction::RemoveFile),
            },
            (LookupState::RemovingFile, LookupEvent::FileRemoved) => r == (LookupState::Building, LookupAction::Build),
            (LookupState::Building, LookupEvent::Built(result)) => match result {
                Ok(()) => r == (LookupState::Serializing, LookupAction::Serialize),
                Err(message) => r.0 == LookupState::Done && fails_with_kind(r.1, WasmErrorInner::ModuleBuild(message)),
            },
            (LookupState::Serializing, LookupEvent::Serialized(result)) => match result {
                Ok(()) => r == (LookupState::Reloading, LookupAction::Reload),
                Err(message) => r.0 == LookupState::Done && fails_with_kind(r.1, WasmErrorInner::ModuleBuild(message)),
            },
            (LookupState::Reloading, LookupEvent::Reloaded(result)) => match result {
                Ok(()) => r == (LookupState::StoringFile, LookupAction::StoreFile),
                Err(message) => r.0 == LookupState::Done && fails_with_kind(
                    r.1,
                    WasmErrorInner::ModuleDeserialize(message),
                ),
            },
            (LookupState::StoringFile, LookupEvent::FileStored) => r == (
                LookupState::StoringMemory,
                LookupAction::StoreMemory,
            ),
            (LookupState::StoringMemory, LookupEvent::MemoryStored) => r == (
                LookupState::Done,
                LookupAction::ReturnModule,
            ),
            _ => false,
        },
{
    match (state, event) {
        (LookupState::Start, LookupEvent::Begin) => (LookupState::CheckingMemory, LookupAction::CheckMemory),
        (LookupState::CheckingMemory, LookupEvent::InMemory(hit)) => {
            if hit {
                (LookupState::Done, LookupAction::ReturnModule)
            } else {
                (LookupState::ReadingFile, LookupAction::ReadFile)
            }
        },
        (LookupState::ReadingFile, LookupEvent::FileCache(found)) => match found {
            FileLookup::Found => (LookupState::Deserializing, LookupAction::Deserialize),
            _ => (LookupState::Building, LookupAction::Build),
        },
        (LookupState::Deserializing, LookupEvent::Deserialized(result)) => match result {
            Ok(()) => (LookupState::StoringMemory, LookupAction::StoreMemory),
            Err(_) => (LookupState::RemovingFile, LookupAction::RemoveFile),
        },
        (LookupState::RemovingFile, LookupEvent::FileRemoved) => (LookupState::Building, LookupAction::Build),
        (LookupState::Building, LookupEvent::Built(result)) => match result {
            Ok(()) => (LookupState::Serializing, LookupAction::Serialize),
            Err(message) => (LookupState::Done, failed_lookup(209, WasmErrorInner::ModuleBuild(message))),
        },
        (LookupState::Serializing, LookupEvent::Serialized(result)) => match result {
            Ok(()) => (LookupState::Reloading, LookupAction::Reload),
            Err(message) => (LookupState::Done, failed_lookup(213, WasmErrorInner::ModuleBuild(message))),
        },
        (LookupState::Reloading, LookupEvent::Reloaded(result)) => match result {
            Ok(()) => (LookupState::StoringFile, LookupAction::StoreFile),
            Err(message) => (LookupState::Done, failed_lookup(217, WasmErrorInner::ModuleDeserialize(message))),
        },
        (LookupState::StoringFile, LookupEvent::FileStored) => (LookupState::StoringMemory, LookupAction::StoreMemory),
        (LookupState::StoringMemory, LookupEvent::MemoryStored) => (LookupState::Done, LookupAction::ReturnModule),
        _ => {
            proof {
                assert(false);
            }
            (LookupState::Done, LookupAction::ReturnModule)
        },
    }
}

} // verus!
