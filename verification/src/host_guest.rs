//! The host's access to guest memory: checked writes and reads of byte
//! ranges that the guest's allocator handed out.

use crate::host_error::{host_error, RuntimeError};
use crate::linear_memory::{splice, LinearMemory, MemoryAccessError};
use crate::result::WasmErrorInner;
use crate::{GuestPtr, Len};
use vstd::prelude::*;

verus! {

/// Writes `slice` into the guest's memory from `guest_ptr` on. The guest
/// and the host agree on the length separately, and the guest must have
/// reserved the range. A slice longer than a `Len` is a `PointerMap` error;
/// a range past the end of the memory is an out-of-bounds access; either
/// way the memory is left as it was.
pub fn write_bytes(memory: &mut LinearMemory, guest_ptr: GuestPtr, slice: &[u8]) -> (r: Result<(), RuntimeError>)
    requires
        old(memory).wf(),
    ensures
        final(memory).wf(),
        final(memory).live() == old(memory).live(),
        r is Ok <==> slice@.len() <= u32::MAX && guest_ptr + slice@.len() <= old(memory).spec_size(),
        r is Ok ==> final(memory).content() == splice(old(memory).content(), guest_ptr as int, slice@),
        r is Err ==> final(memory).content() == old(memory).content(),
        slice@.len() > u32::MAX ==> (r matches Err(e) && e.kind() == Some(WasmErrorInner::PointerMap)),
        slice@.len() <= u32::MAX && r is Err ==> r == Err::<(), RuntimeError>(
            RuntimeError::MemoryAccess(MemoryAccessError::HeapOutOfBounds),
        ),
{
    if slice.len() > 0xffff_ffffusize {
        return Err(host_error("src/host_guest.rs", 32, WasmErrorInner::PointerMap));
    }
    match memory.write(guest_ptr, slice) {
        Ok(()) => Ok(()),
        Err(e) => Err(RuntimeError::MemoryAccess(e)),
    }
}

/// Reads `len` bytes of the guest's memory from `guest_ptr` on, or fails
/// with an out-of-bounds access when they reach past its end.
pub fn read_bytes(memory: &LinearMemory, guest_ptr: GuestPtr, len: Len) -> (r: Result<Vec<u8>, MemoryAccessError>)
    requires
        memory.wf(),
    ensures
        r is Ok <==> guest_ptr + len <= memory.spec_size(),
        r matches Ok(v) ==> v@ == memory.content().subrange(guest_ptr as int, guest_ptr + len),
        r matches Err(e) ==> e == MemoryAccessError::HeapOutOfBounds,
{
    memory.read(guest_ptr, len)
}

/// The bytes of a serialized value that the guest left at `guest_ptr`, for
/// the caller to deserialize; an out-of-bounds range is a runtime error.
pub fn from_guest_ptr(memory: &LinearMemory, guest_ptr: GuestPtr, len: Len) -> (r: Result<Vec<u8>, RuntimeError>)
    requires
        memory.wf(),
    ensures
        r is Ok <==> guest_ptr + len <= memory.spec_size(),
        r matches Ok(v) ==> v@ == memory.content().subrange(guest_ptr as int, guest_ptr + len),
        r is Err ==> r == Err::<Vec<u8>, RuntimeError>(
            RuntimeError::MemoryAccess(MemoryAccessError::HeapOutOfBounds),
        ),
{
    match memory.read(guest_ptr, len) {
        Ok(v) => Ok(v),
        Err(e) => Err(RuntimeError::MemoryAccess(e)),
    }
}

/// Reading back the range that `write_bytes` just wrote gives the written
/// bytes, and the memory keeps its size.
pub proof fn lemma_write_then_read(content: Seq<u8>, guest_ptr: GuestPtr, data: Seq<u8>)
    requires
        guest_ptr + data.len() <= content.len(),
    ensures
        splice(content, guest_ptr as int, data).len() == content.len(),
        splice(content, guest_ptr as int, data).subrange(guest_ptr as int, guest_ptr + data.len()) == data,
{
    assert(splice(content, guest_ptr as int, data).subrange(guest_ptr as int, guest_ptr + data.len()) =~= data);
}

} // verus!
