//! Compiling a module from wasm bytes with wasmer, and what a failed
//! compile is reported as.

use crate::result::{WasmError, WasmErrorInner};
use vstd::prelude::*;
use wasmer::{Engine, Module};

verus! {

/// wasmer's compiler engine; carried through opaquely.
#[verifier::external_type_specification]
#[verifier::external_body]
pub struct ExEngine(Engine);

/// wasmer's compiled module; carried through opaquely.
#[verifier::external_type_specification]
#[verifier::external_body]
pub struct ExModule(Module);

/// wasmer's `Module::from_binary`: validates and compiles `wasm` with
/// `engine`, giving the module or the compile error's message. What comes
/// out depends on the engine's compiler and its settings as well as on the
/// bytes, so nothing is claimed of which way it goes.
#[verifier::external_body]
fn module_from_binary(engine: &Engine, wasm: &[u8]) -> (r: Result<Module, String>) {
    match Module::from_binary(engine, wasm) {
        Ok(m) => Ok(m),
        Err(e) => Err(e.to_string()),
    }
}

/// What a compile comes to: the module, or a `ModuleBuild` error carrying
/// the compiler's message.
pub fn built_module(outcome: Result<Module, String>) -> (r: Result<Module, WasmError>)
    ensures
        outcome matches Ok(m) ==> r == Ok::<Module, WasmError>(m),
        outcome matches Err(message) ==> (r matches Err(e) && e.error == WasmErrorInner::ModuleBuild(message)
            && e.file@ == "src/module_build.rs"@),
{
    match outcome {
        Ok(m) => Ok(m),
        Err(message) => Err(WasmError::new(String::from_str("src/module_build.rs"), 42, WasmErrorInner::ModuleBuild(message))),
    }
}

/// Compiles a module from `wasm` with `engine`, which validates it; a
/// module wasmer refuses is a `ModuleBuild` error, as `built_module` says.
pub fn build_module(engine: &Engine, wasm: &[u8]) -> (r: Result<Module, WasmError>)
    ensures
        r matches Err(e) ==> e.error is ModuleBuild,
{
    built_module(module_from_binary(engine, wasm))
}

} // verus!
