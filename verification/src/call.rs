//! The host calling a guest function: the decisions between the steps that
//! run guest code. The caller serializes the input, then follows the
//! actions `step` returns, running each against the guest and reporting the
//! outcome back as the next event, until an action ends the call.

use crate::env::Value;
use crate::host_error::RuntimeError;
use crate::numeric::split_u64;
use crate::result::{WasmError, WasmErrorInner};
use crate::{GuestPtr, Len};
use vstd::prelude::*;

verus! {

/// How far a call has got.
#[derive(Clone, Debug, PartialEq, Eq)]
pub enum CallState {
    /// Nothing has happened yet.
    Start,
    /// The guest was asked to allocate room for the serialized input `payload`.
    Allocating { payload: Vec<u8> },
    /// The input is being written at `input_ptr`.
    Writing { input_ptr: i32, input_len: i32 },
    /// The guest function is running.
    Calling,
    /// The output, `output_len` bytes at `output_ptr`, is being read and deserialized.
    Reading { output_ptr: GuestPtr, output_len: Len },
    /// The guest's `__hc__deallocate_1` is being looked up to free the output.
    FindingDeallocator { output_ptr: GuestPtr, output_len: Len },
    /// The guest was asked to free the output.
    Deallocating,
    /// The call is over.
    Done,
}

/// How running guest code failed.
#[derive(Clone, Debug, PartialEq, Eq)]
pub enum GuestFailure {
    /// The guest, or a host function it called, raised this error.
    Raised(WasmError),
    /// The guest trapped or the function could not be called; the message says why.
    Trapped(String),
}

/// What came of the last action.
#[derive(Debug, PartialEq, Eq)]
pub enum CallEvent {
    /// The call starts with this serialized input.
    Begin { payload: Vec<u8> },
    /// `__hc__allocate_1` returned its first value, or failed with a message.
    Allocated(Result<Option<Value>, String>),
    /// The input was written, or writing failed.
    Written(Result<(), RuntimeError>),
    /// The guest function returned its first value, or failed.
    Returned(Result<Option<Value>, GuestFailure>),
    /// The output was read and deserialized, or that failed.
    Read(Result<(), RuntimeError>),
    /// The instance exports `__hc__deallocate_1`, or looking it up failed with a message.
    DeallocatorFound(Result<(), String>),
    /// `__hc__deallocate_1` returned, or failed with a message.
    Deallocated(Result<(), String>),
}

/// What to do next.
#[derive(Clone, Debug, PartialEq, Eq)]
pub enum CallAction {
    /// Call `__hc__allocate_1` with `len`.
    Allocate { len: i32 },
    /// Write `bytes`, the serialized input, into the guest's memory at `ptr`.
    WriteInput { ptr: GuestPtr, bytes: Vec<u8> },
    /// Call the guest function with the input's pointer and length.
    CallGuest { ptr: i32, len: i32 },
    /// Read `len` bytes at `ptr` and deserialize them as the guest's result.
    ReadOutput { ptr: GuestPtr, len: Len },
    /// Look up the instance's `__hc__deallocate_1`.
    FindDeallocator,
    /// Call `__hc__deallocate_1` on the output.
    Deallocate { ptr: i32, len: i32 },
    /// A host function short-circuited the call: these bytes are the encoded output.
    DecodeShortCircuit(Vec<u8>),
    /// The call failed with this error.
    Fail(RuntimeError),
    /// The call is complete: return the output that was deserialized.
    Finish,
}

/// Whether `event` is what the action that leads to `state` reports.
pub open spec fn expects(state: CallState, event: CallEvent) -> bool {
    match (state, event) {
        (CallState::Start, CallEvent::Begin { .. }) => true,
        (CallState::Allocating { .. }, CallEvent::Allocated(_)) => true,
        (CallState::Writing { .. }, CallEvent::Written(_)) => true,
        (CallState::Calling, CallEvent::Returned(_)) => true,
        (CallState::Reading { .. }, CallEvent::Read(_)) => true,
        (CallState::FindingDeallocator { .. }, CallEvent::DeallocatorFound(_)) => true,
        (CallState::Deallocating, CallEvent::Deallocated(_)) => true,
        _ => false,
    }
}

/// Whether the action fails the call with a `CallError` whose message reads `message`.
pub open spec fn fails_with_call_message(a: CallAction, message: Seq<char>) -> bool {
    a matches CallAction::Fail(RuntimeError::User(e)) && e.error matches WasmErrorInner::CallError(m) && m@
        == message
}

/// Whether the action fails the call with this kind of error.
pub open spec fn fails_with(a: CallAction, kind: WasmErrorInner) -> bool {
    a matches CallAction::Fail(RuntimeError::User(e)) && e.error == kind
}

/// A `CallError` raised by the host while calling the guest.
fn call_error(line: u32, message: String) -> (e: RuntimeError)
    ensures
        e matches RuntimeError::User(w) && w.error == WasmErrorInner::CallError(message),
{
    RuntimeError::User(WasmError::new(String::from_str("src/call.rs"), line, WasmErrorInner::CallError(message)))
}

/// An error of the given kind raised by the host while calling the guest.
fn raised(line: u32, kind: WasmErrorInner) -> (e: RuntimeError)
    ensures
        e matches RuntimeError::User(w) && w.error == kind,
{
    RuntimeError::User(WasmError::new(String::from_str("src/call.rs"), line, kind))
}

/// The next state and action of a call, given what the last action came to.
pub fn step(state: CallState, event: CallEvent) -> (r: (CallState, CallAction))
    requires
        expects(state, event),
    ensures
        r.1 is Fail || r.1 is DecodeShortCircuit || r.1 is Finish <==> r.0 is Done,
        r.1 is Finish ==> state is Deallocating,
        match (state, event) {
            (CallState::Start, CallEvent::Begin { payload }) => if payload@.len() <= i32::MAX {
                r == (CallState::Allocating { payload }, CallAction::Allocate { len: payload@.len() as i32 })
            } else {
                r.0 == CallState::Done && fails_with_call_message(r.1, "out of range integral type conversion attempted"@)
            },
            (CallState::Allocating { payload }, CallEvent::Allocated(result)) => match result {
                Ok(Some(Value::I32(p))) => if p >= 0 && payload@.len() <= i32::MAX {
                    r == (
                        CallState::Writing { input_ptr: p, input_len: payload@.len() as i32 },
                        CallAction::WriteInput { ptr: p as u32, bytes: payload },
                    )
                } else {
                    r.0 == CallState::Done && fails_with_call_message(r.1, "out of range integral type conversion attempted"@)
                },
                Ok(_) => r.0 == CallState::Done && fails_with_call_message(r.1, "Not I32 return from __hc__allocate_1"@),
                Err(message) => fails_with(r.1, WasmErrorInner::CallError(message)),
            },
            (CallState::Writing { input_ptr, input_len }, CallEvent::Written(result)) => match result {
                Ok(()) => r == (CallState::Calling, CallAction::CallGuest { ptr: input_ptr, len: input_len }),
                Err(e) => r.1 == CallAction::Fail(e),
            },
            (CallState::Calling, CallEvent::Returned(result)) => match result {
                Ok(Some(Value::I64(i))) => if i >= 0 {
                    r == (
                        CallState::Reading {
                            output_ptr: (i / 0x1_0000_0000) as u32,
                            output_len: (i % 0x1_0000_0000) as u32,
                        },
                        CallAction::ReadOutput {
                            ptr: (i / 0x1_0000_0000) as u32,
                            len: (i % 0x1_0000_0000) as u32,
                        },
                    )
                } else {
                    fails_with(r.1, WasmErrorInner::PointerMap)
                },
                Ok(_) => fails_with(r.1, WasmErrorInner::PointerMap),
                Err(GuestFailure::Raised(w)) => match w.error {
                    WasmErrorInner::HostShortCircuit(encoded) => r.1 == CallAction::DecodeShortCircuit(
                        encoded,
                    ),
                    _ => r.1 == CallAction::Fail(RuntimeError::User(w)),
                },
                Err(GuestFailure::Trapped(message)) => fails_with(
                    r.1,
                    WasmErrorInner::CallError(message),
                ),
            },
            (CallState::Reading { output_ptr, output_len }, CallEvent::Read(result)) => match result {
                Ok(()) => r == (
                    CallState::FindingDeallocator { output_ptr, output_len },
                    CallAction::FindDeallocator,
                ),
                Err(e) => r.1 == CallAction::Fail(e),
            },
            (
                CallState::FindingDeallocator { output_ptr, output_len },
                CallEvent::DeallocatorFound(result),
            ) => match result {
                Ok(()) => if output_ptr <= i32::MAX && output_len <= i32::MAX {
                    r == (CallState::Deallocating, CallAction::Deallocate {
                        ptr: output_ptr as i32,
                        len: output_len as i32,
                    })
                } else {
                    fails_with(r.1, WasmErrorInner::PointerMap)
                },
                Err(message) => fails_with(r.1, WasmErrorInner::CallError(message)),
            },
            (CallState::Deallocating, CallEvent::Deallocated(result)) => match result {
                Ok(()) => r == (CallState::Done, CallAction::Finish),
                Err(message) => fails_with(r.1, WasmErrorInner::CallError(message)),
            },
            _ => false,
        },
{
    match (state, event) {
        (CallState::Start, CallEvent::Begin { payload }) => {
            if payload.len() <= 0x7fff_ffffusize {
                let len: i32 = payload.len() as i32;
                (CallState::Allocating { payload }, CallAction::Allocate { len })
            } else {
                (
                    CallState::Done,
                    CallAction::Fail(
                        call_error(221, String::from_str("out of range integral type conversion attempted")),
                    ),
                )
            }
        },
        (CallState::Allocating { payload }, CallEvent::Allocated(result)) => match result {
            Ok(Some(Value::I32(p))) => {
                if p >= 0 && payload.len() <= 0x7fff_ffffusize {
                    let input_len: i32 = payload.len() as i32;
                    (
                        CallState::Writing { input_ptr: p, input_len },
                        CallAction::WriteInput { ptr: p as u32, bytes: payload },
                    )
                } else {
                    (
                        CallState::Done,
                        CallAction::Fail(
                            call_error(238, String::from_str("out of range integral type conversion attempted")),
                        ),
                    )
                }
            },
            Ok(_) => (
                CallState::Done,
                CallAction::Fail(call_error(245, String::from_str("Not I32 return from __hc__allocate_1"))),
            ),
            Err(message) => (CallState::Done, CallAction::Fail(call_error(247, message))),
        },
        (CallState::Writing { input_ptr, input_len }, CallEvent::Written(result)) => match result {
            Ok(()) => (CallState::Calling, CallAction::CallGuest { ptr: input_ptr, len: input_len }),
            Err(e) => (CallState::Done, CallAction::Fail(e)),
        },
        (CallState::Calling, CallEvent::Returned(result)) => match result {
            Ok(Some(Value::I64(i))) => {
                if i >= 0 {
                    match split_u64(i as u64) {
                        Ok((ptr, len)) => (
                            CallState::Reading { output_ptr: ptr, output_len: len },
                            CallAction::ReadOutput { ptr, len },
                        ),
                        Err(e) => (CallState::Done, CallAction::Fail(RuntimeError::User(e))),
                    }
                } else {
                    (CallState::Done, CallAction::Fail(raised(264, WasmErrorInner::PointerMap)))
                }
            },
            Ok(_) => (CallState::Done, CallAction::Fail(raised(267, WasmErrorInner::PointerMap))),
            Err(GuestFailure::Raised(w)) => match w.error {
                WasmErrorInner::HostShortCircuit(encoded) => (
                    CallState::Done,
                    CallAction::DecodeShortCircuit(encoded),
                ),
                error => (
                    CallState::Done,
                    CallAction::Fail(RuntimeError::User(WasmError { file: w.file, line: w.line, error })),
                ),
            },
            Err(GuestFailure::Trapped(message)) => (CallState::Done, CallAction::Fail(call_error(278, message))),
        },
        (CallState::Reading { output_ptr, output_len }, CallEvent::Read(result)) => match result {
            Ok(()) => (CallState::FindingDeallocator { output_ptr, output_len }, CallAction::FindDeallocator),
            Err(e) => (CallState::Done, CallAction::Fail(e)),
        },
        (CallState::FindingDeallocator { output_ptr, output_len }, CallEvent::DeallocatorFound(result)) => match result {
            Ok(()) => {
                if output_ptr <= 0x7fff_ffffu32 && output_len <= 0x7fff_ffffu32 {
                    (
                        CallState::Deallocating,
                        CallAction::Deallocate { ptr: output_ptr as i32, len: output_len as i32 },
                    )
                } else {
                    (CallState::Done, CallAction::Fail(raised(292, WasmErrorInner::PointerMap)))
                }
            },
            Err(message) => (CallState::Done, CallAction::Fail(call_error(295, message))),
        },
        (CallState::Deallocating, CallEvent::Deallocated(result)) => match result {
            Ok(()) => (CallState::Done, CallAction::Finish),
            Err(message) => (CallState::Done, CallAction::Fail(call_error(299, message))),
        },
        _ => {
            proof {
                assert(false);
            }
            (CallState::Done, CallAction::Finish)
        },
    }
}

} // verus!
