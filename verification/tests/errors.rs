use holochain_wasmer::error::Error;
use holochain_wasmer::host_error::{host_error, RuntimeError, WasmHostError};
use holochain_wasmer::linear_memory::MemoryAccessError;
use holochain_wasmer::result::{WasmError, WasmErrorInner};

fn host_wasm_error(error: WasmErrorInner) -> WasmHostError {
    WasmHostError(WasmError::new("src/guest.rs".to_string(), 270, error))
}

#[test]
fn wasm_error_macro_host() {
    assert_eq!(
        host_wasm_error(WasmErrorInner::from_message("foo")).0.error,
        WasmErrorInner::Host("foo".into()),
    );

    assert_eq!(
        host_wasm_error(WasmErrorInner::from(format!("{} {}", "foo", "bar"))).0.error,
        WasmErrorInner::Host("foo bar".into())
    );

    assert_eq!(
        host_wasm_error(WasmErrorInner::Host("foo".into())).0.error,
        WasmErrorInner::Host("foo".into()),
    );
}

#[test]
fn maybe_corrupt_marks_what_may_break_the_guest() {
    for corrupt in [
        WasmErrorInner::PointerMap,
        WasmErrorInner::ErrorWhileError,
        WasmErrorInner::Memory,
        WasmErrorInner::GuestResultHandling("x".into()),
        WasmErrorInner::Compile("x".into()),
        WasmErrorInner::ModuleBuild("x".into()),
        WasmErrorInner::ModuleDeserialize("x".into()),
        WasmErrorInner::CallError("x".into()),
        WasmErrorInner::UninitializedSerializedModuleCache,
    ] {
        assert!(corrupt.maybe_corrupt());
    }
    for fine in [
        WasmErrorInner::Deserialize(vec![1]),
        WasmErrorInner::Guest("x".into()),
        WasmErrorInner::Host("x".into()),
        WasmErrorInner::HostShortCircuit(vec![2]),
    ] {
        assert!(!fine.maybe_corrupt());
    }
    let decode_error = holochain_serialized_bytes::decode::<[u8], String>(&[0xc1][..]).unwrap_err();
    assert!(!WasmErrorInner::Serialize(decode_error).maybe_corrupt());
}

#[test]
fn conversions_pick_the_error_kind() {
    let int_error = u8::try_from(300u32).unwrap_err();
    assert_eq!(WasmErrorInner::from(int_error), WasmErrorInner::PointerMap);
    assert_eq!(Error::from(int_error), Error::PointerMap);

    let slice_error = <[u8; 2]>::try_from(&[1u8, 2, 3][..]).unwrap_err();
    assert_eq!(WasmErrorInner::from(slice_error), WasmErrorInner::Memory);

    let utf8_error = std::str::from_utf8(&[0xff]).unwrap_err();
    assert_eq!(Error::from(utf8_error), Error::Utf8);

    assert_eq!(WasmErrorInner::from(String::from("oh no!")), WasmErrorInner::Host("oh no!".into()));
    assert_eq!(WasmErrorInner::from_message("oh no!"), WasmErrorInner::Host("oh no!".into()));
    assert_eq!(WasmErrorInner::guest(String::from("oh no!")), WasmErrorInner::Guest("oh no!".into()));
    assert_eq!(WasmErrorInner::host(String::from("oh no!")), WasmErrorInner::Host("oh no!".into()));

    let decode_error = holochain_serialized_bytes::decode::<[u8], String>(&[0xc1][..]).unwrap_err();
    assert!(matches!(WasmErrorInner::from(decode_error), WasmErrorInner::Serialize(_)));
}

#[test]
fn runtime_errors_carry_their_cause() {
    let e = WasmError::new("src/wasm.rs".into(), 101, WasmErrorInner::Guest("oh no!".into()));
    assert_eq!(e.file, "src/wasm.rs");
    assert_eq!(e.line, 101);
    assert_eq!(RuntimeError::from(WasmHostError::from(e.clone())), RuntimeError::User(e));
    assert_eq!(
        RuntimeError::from(MemoryAccessError::HeapOutOfBounds),
        RuntimeError::MemoryAccess(MemoryAccessError::HeapOutOfBounds)
    );
    match host_error("src/env.rs", 7, WasmErrorInner::Memory) {
        RuntimeError::User(w) => assert_eq!(w.error, WasmErrorInner::Memory),
        other => panic!("{:?}", other),
    }
}
