//! The guest's side of a call: handing a serialized value back to the host
//! as a packed pointer and length, and the steps of calling into the host.

use crate::guest_allocation::{consume_bytes, write_bytes};
use crate::linear_memory::{holds_block, leak_content, leak_live, leak_ptr, LinearMemory};
use crate::numeric::{merge_usize, split_usize, usize_radix};
use crate::result::{WasmError, WasmErrorInner};
use crate::DoubleUSize;
use holochain_serialized_bytes::SerializedBytesError;
use vstd::prelude::*;

verus! {

/// Leaks already serialized bytes for the host to read and returns their
/// pointer and length packed into one `DoubleUSize` (pointer high, length low).
pub fn return_ptr(memory: &mut LinearMemory, bytes: Vec<u8>) -> (r: DoubleUSize)
    requires
        old(memory).wf(),
        old(memory).has_room(bytes@.len() as int),
    ensures
        final(memory).wf(),
        r == leak_ptr(old(memory).live(), bytes@.len() as int) * usize_radix() + bytes@.len(),
        final(memory).live() == leak_live(old(memory).live(), bytes@.len() as int),
        final(memory).content() == leak_content(old(memory).content(), old(memory).live(), bytes@),
{
    let len: usize = bytes.len();
    let ptr: usize = write_bytes(memory, bytes);
    match merge_usize(ptr, len) {
        Ok(v) => v,
        Err(_) => 0,
    }
}

/// What to do next while turning a `WasmError` into bytes for the host.
pub enum ErrPtrStep {
    /// Serialize `Err` of this error next.
    Encode(WasmError),
    /// These bytes are what to hand back with `return_ptr`.
    Write(Vec<u8>),
    /// Even the simplest error failed to serialize: give up (the guest panics).
    GiveUp,
}

/// The fallback of reporting an error: `attempt` counts the serializations
/// tried so far (the first being of the error itself), `outcome` is what the
/// last one gave. Success hands the bytes back; a failure of the error itself
/// is reported as a `Serialize` error; a failure of that as
/// `ErrorWhileError`; a failure of that gives up.
pub fn return_err_ptr_step(attempt: u8, outcome: Result<Vec<u8>, SerializedBytesError>) -> (s: ErrPtrStep)
    ensures
        outcome matches Ok(b) ==> s matches ErrPtrStep::Write(w) && w == b,
        outcome is Err && attempt == 0 ==> (s matches ErrPtrStep::Encode(w) && w.error
            == WasmErrorInner::Serialize(outcome->Err_0)),
        outcome is Err && attempt == 1 ==> (s matches ErrPtrStep::Encode(w) && w.error
            == WasmErrorInner::ErrorWhileError),
        outcome is Err && attempt >= 2 ==> s is GiveUp,
{
    match outcome {
        Ok(bytes) => ErrPtrStep::Write(bytes),
        Err(e) => {
            if attempt == 0 {
                ErrPtrStep::Encode(WasmError::new(String::from_str("src/guest.rs"), 62, WasmErrorInner::Serialize(e)))
            } else if attempt == 1 {
                ErrPtrStep::Encode(WasmError::new(String::from_str("src/guest.rs"), 64, WasmErrorInner::ErrorWhileError))
            } else {
                ErrPtrStep::GiveUp
            }
        },
    }
}

/// The first half of calling the host: leaks the serialized input and
/// returns the pointer and the length to hand to the host function, which
/// frees the input when it is done with it.
pub fn host_call_input(memory: &mut LinearMemory, input_bytes: Vec<u8>) -> (r: (usize, usize))
    requires
        old(memory).wf(),
        old(memory).has_room(input_bytes@.len() as int),
    ensures
        final(memory).wf(),
        r.0 == leak_ptr(old(memory).live(), input_bytes@.len() as int),
        r.1 == input_bytes@.len(),
        final(memory).live() == leak_live(old(memory).live(), input_bytes@.len() as int),
        final(memory).content() == leak_content(old(memory).content(), old(memory).live(), input_bytes@),
{
    let input_len: usize = input_bytes.len();
    let input_guest_ptr: usize = write_bytes(memory, input_bytes);
    (input_guest_ptr, input_len)
}

/// The second half of calling the host: splits what the host function
/// returned into the pointer and the length of its serialized output and
/// takes those bytes back, for the caller to deserialize. A pointer that does
/// not fit a `usize` is a `PointerMap` error.
pub fn host_call_output(memory: &mut LinearMemory, returned: DoubleUSize) -> (r: Result<Vec<u8>, WasmError>)
    requires
        old(memory).wf(),
        returned as int / usize_radix() <= usize::MAX ==> (returned as int % usize_radix() == 0
            || holds_block(
            old(memory).live(),
            returned as int / usize_radix(),
            returned as int % usize_radix(),
        )),
    ensures
        final(memory).wf(),
        final(memory).content() == old(memory).content(),
        ({
            let ptr = returned as int / usize_radix();
            let len = returned as int % usize_radix();
            &&& !(ptr <= usize::MAX) ==> (r matches Err(e) && e.error
                == WasmErrorInner::PointerMap) && final(memory).live() == old(memory).live()
            &&& ptr <= usize::MAX && len == 0 ==> r is Ok && r.unwrap()@.len() == 0
                && final(memory).live() == old(memory).live()
            &&& ptr <= usize::MAX && len > 0 ==> r is Ok && r.unwrap()@
                == old(memory).content().subrange(ptr, ptr + len)
            &&& ptr <= usize::MAX && len > 0 ==> forall|k: int|
                0 <= k < old(memory).live().len() && #[trigger] old(memory).live()[k].start == ptr
                    ==> final(memory).live() == old(memory).live().remove(k)
        }),
{
    let (output_guest_ptr, output_len) = match split_usize(returned) {
        Ok(pair) => pair,
        Err(e) => {
            return Err(e);
        },
    };
    Ok(consume_bytes(memory, output_guest_ptr, output_len))
}

} // verus!
