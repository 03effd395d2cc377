use holochain_wasmer::call::{step, CallAction, CallEvent, CallState, GuestFailure};
use holochain_wasmer::env::Value;
use holochain_wasmer::host_error::RuntimeError;
use holochain_wasmer::linear_memory::MemoryAccessError;
use holochain_wasmer::result::{WasmError, WasmErrorInner};

fn failed_kind(action: CallAction) -> WasmErrorInner {
    match action {
        CallAction::Fail(RuntimeError::User(e)) => e.error,
        other => panic!("not a failure: {:?}", other),
    }
}

#[test]
fn a_call_that_succeeds_walks_every_step() {
    let (s, a) = step(CallState::Start, CallEvent::Begin { payload: vec![0xa5, 1, 2, 3, 4] });
    assert_eq!(a, CallAction::Allocate { len: 5 });
    let (s, a) = step(s, CallEvent::Allocated(Ok(Some(Value::I32(1024)))));
    assert_eq!(a, CallAction::WriteInput { ptr: 1024, bytes: vec![0xa5, 1, 2, 3, 4] });
    let (s, a) = step(s, CallEvent::Written(Ok(())));
    assert_eq!(a, CallAction::CallGuest { ptr: 1024, len: 5 });
    let (s, a) = step(s, CallEvent::Returned(Ok(Some(Value::I64((2048 << 32) | 7)))));
    assert_eq!(a, CallAction::ReadOutput { ptr: 2048, len: 7 });
    let (s, a) = step(s, CallEvent::Read(Ok(())));
    assert_eq!(a, CallAction::FindDeallocator);
    let (s, a) = step(s, CallEvent::DeallocatorFound(Ok(())));
    assert_eq!(a, CallAction::Deallocate { ptr: 2048, len: 7 });
    let (s, a) = step(s, CallEvent::Deallocated(Ok(())));
    assert_eq!(a, CallAction::Finish);
    assert_eq!(s, CallState::Done);
}

#[test]
fn a_short_circuit_hands_back_its_bytes() {
    let raised = WasmError::new("src/import.rs".into(), 9, WasmErrorInner::HostShortCircuit(vec![0xa3, 1, 2, 3]));
    let (s, a) = step(CallState::Calling, CallEvent::Returned(Err(GuestFailure::Raised(raised))));
    assert_eq!(s, CallState::Done);
    assert_eq!(a, CallAction::DecodeShortCircuit(vec![0xa3, 1, 2, 3]));
}

#[test]
fn guest_errors_pass_through() {
    let raised = WasmError::new("src/wasm.rs".into(), 101, WasmErrorInner::Guest("oh no!".into()));
    let (_, a) = step(CallState::Calling, CallEvent::Returned(Err(GuestFailure::Raised(raised.clone()))));
    assert_eq!(a, CallAction::Fail(RuntimeError::User(raised)));
    let (_, a) = step(CallState::Calling, CallEvent::Returned(Err(GuestFailure::Trapped("unreachable".into()))));
    assert_eq!(failed_kind(a), WasmErrorInner::CallError("unreachable".into()));
}

#[test]
fn bad_values_fail_the_call() {
    let out_of_range = WasmErrorInner::CallError("out of range integral type conversion attempted".into());
    let (_, a) = step(CallState::Start, CallEvent::Begin { payload: vec![0; 1 << 31] });
    assert_eq!(failed_kind(a), out_of_range);
    let (_, a) = step(CallState::Allocating { payload: vec![1, 2, 3] }, CallEvent::Allocated(Ok(Some(Value::I64(8)))));
    assert_eq!(failed_kind(a), WasmErrorInner::CallError("Not I32 return from __hc__allocate_1".into()));
    let (_, a) = step(CallState::Allocating { payload: vec![1, 2, 3] }, CallEvent::Allocated(Ok(Some(Value::I32(-1)))));
    assert_eq!(failed_kind(a), out_of_range);
    let (_, a) = step(CallState::Allocating { payload: vec![1, 2, 3] }, CallEvent::Allocated(Err("trap".into())));
    assert_eq!(failed_kind(a), WasmErrorInner::CallError("trap".into()));
    let (_, a) = step(CallState::Calling, CallEvent::Returned(Ok(Some(Value::I32(8)))));
    assert_eq!(failed_kind(a), WasmErrorInner::PointerMap);
    let (_, a) = step(CallState::Calling, CallEvent::Returned(Ok(Some(Value::I64(-1)))));
    assert_eq!(failed_kind(a), WasmErrorInner::PointerMap);
    let (_, a) = step(CallState::FindingDeallocator { output_ptr: u32::MAX, output_len: 1 }, CallEvent::DeallocatorFound(Ok(())));
    assert_eq!(failed_kind(a), WasmErrorInner::PointerMap);
    let missing = "Missing export __hc__deallocate_1".to_string();
    let (_, a) = step(CallState::FindingDeallocator { output_ptr: u32::MAX, output_len: 1 }, CallEvent::DeallocatorFound(Err(missing.clone())));
    assert_eq!(failed_kind(a), WasmErrorInner::CallError(missing));
    let (_, a) = step(CallState::Deallocating, CallEvent::Deallocated(Err("trap".into())));
    assert_eq!(failed_kind(a), WasmErrorInner::CallError("trap".into()));
}

#[test]
fn memory_errors_fail_the_call_as_they_are() {
    let oob = RuntimeError::MemoryAccess(MemoryAccessError::HeapOutOfBounds);
    let (s, a) = step(CallState::Writing { input_ptr: 8, input_len: 3 }, CallEvent::Written(Err(oob.clone())));
    assert_eq!((s, a), (CallState::Done, CallAction::Fail(oob.clone())));
    let (s, a) = step(CallState::Reading { output_ptr: 8, output_len: 3 }, CallEvent::Read(Err(oob.clone())));
    assert_eq!((s, a), (CallState::Done, CallAction::Fail(oob)));
}
