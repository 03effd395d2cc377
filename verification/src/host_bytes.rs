//! The host copying bytes into and out of the guest's memory by offset,
//! and following allocation pointers on either side.

use crate::allocation::{from_allocation_ptr, AllocationPtr, Ptr};
use crate::bytes::{allocation_in_bounds, bytes_at_allocation};
use crate::error::Error;
use crate::linear_memory::{splice, LinearMemory};
use vstd::prelude::*;
use vstd::string::StrSliceExecFns;
use vstd::utf8::{decode_utf8, encode_utf8, valid_utf8};

verus! {

/// Copies `bytes` into the guest's memory from `guest_ptr` on; the range must
/// lie inside the memory.
pub fn write_to_guest(guest: &mut LinearMemory, guest_ptr: Ptr, bytes: Vec<u8>)
    requires
        old(guest).wf(),
        guest_ptr + bytes@.len() <= old(guest).spec_size(),
    ensures
        final(guest).wf(),
        final(guest).live() == old(guest).live(),
        final(guest).content() == splice(old(guest).content(), guest_ptr as int, bytes@),
{
    guest.write_at(guest_ptr as usize, bytes.as_slice());
}

/// Copies the bytes that the host's allocation at `host_allocation_ptr`
/// points to into the guest's memory from `guest_bytes_ptr` on.
pub fn write_to_guest_using_host_allocation_ptr(
    guest: &mut LinearMemory,
    host: &LinearMemory,
    host_allocation_ptr: AllocationPtr,
    guest_bytes_ptr: Ptr,
)
    requires
        old(guest).wf(),
        host.wf(),
        allocation_in_bounds(host.content(), host_allocation_ptr as int),
        guest_bytes_ptr + bytes_at_allocation(host.content(), host_allocation_ptr as int).len()
            <= old(guest).spec_size(),
    ensures
        final(guest).wf(),
        final(guest).live() == old(guest).live(),
        final(guest).content() == splice(
            old(guest).content(),
            guest_bytes_ptr as int,
            bytes_at_allocation(host.content(), host_allocation_ptr as int),
        ),
{
    let bytes = crate::bytes::from_allocation_ptr(host, host_allocation_ptr);
    write_to_guest(guest, guest_bytes_ptr, bytes);
}

/// Copies `len` bytes out of the guest's memory from `ptr` on; the range must
/// lie inside the memory.
pub fn read_from_guest(guest: &LinearMemory, ptr: Ptr, len: Ptr) -> (r: Vec<u8>)
    requires
        guest.wf(),
        ptr + len <= guest.spec_size(),
    ensures
        r@ == guest.content().subrange(ptr as int, ptr + len),
{
    guest.bytes_at(ptr as usize, len as usize)
}

/// Copies out of the guest's memory the bytes that the guest's allocation at
/// `guest_allocation_ptr` points to.
pub fn read_from_guest_using_allocation_ptr(guest: &LinearMemory, guest_allocation_ptr: AllocationPtr) -> (r: Result<Vec<u8>, Error>)
    requires
        guest.wf(),
        allocation_in_bounds(guest.content(), guest_allocation_ptr as int),
    ensures
        r matches Ok(v) && v@ == bytes_at_allocation(guest.content(), guest_allocation_ptr as int),
{
    let guest_allocation = from_allocation_ptr(guest, guest_allocation_ptr);
    Ok(read_from_guest(guest, guest_allocation[0], guest_allocation[1]))
}

/// Copies `len` bytes out of the guest's memory from `ptr` on, as
/// `read_from_guest` does.
pub fn read_guest_bytes(guest: &LinearMemory, ptr: Ptr, len: Ptr) -> (r: Vec<u8>)
    requires
        guest.wf(),
        ptr + len <= guest.spec_size(),
    ensures
        r@ == guest.content().subrange(ptr as int, ptr + len),
{
    read_from_guest(guest, ptr, len)
}

/// Copies out the bytes that the guest's allocation at `guest_allocation_ptr`
/// points to, as `read_from_guest_using_allocation_ptr` does.
pub fn read_guest_bytes_from_allocation_ptr(guest: &LinearMemory, guest_allocation_ptr: AllocationPtr) -> (r: Result<Vec<u8>, Error>)
    requires
        guest.wf(),
        allocation_in_bounds(guest.content(), guest_allocation_ptr as int),
    ensures
        r matches Ok(v) && v@ == bytes_at_allocation(guest.content(), guest_allocation_ptr as int),
{
    read_from_guest_using_allocation_ptr(guest, guest_allocation_ptr)
}

/// Copies the UTF-8 bytes of `s` into the guest's memory from `guest_ptr` on;
/// the range must lie inside the memory.
pub fn copy_string_to_guest(guest: &mut LinearMemory, guest_ptr: Ptr, s: String)
    requires
        old(guest).wf(),
        guest_ptr + encode_utf8(s@).len() <= old(guest).spec_size(),
    ensures
        final(guest).wf(),
        final(guest).live() == old(guest).live(),
        final(guest).content() == splice(old(guest).content(), guest_ptr as int, encode_utf8(s@)),
{
    let bytes = s.as_str().as_bytes_vec();
    write_to_guest(guest, guest_ptr, bytes);
}

/// Copies the string that the host's allocation at `host_allocation_ptr`
/// points to into the guest's memory from `guest_string_ptr` on.
pub fn host_copy_string(
    guest: &mut LinearMemory,
    host: &LinearMemory,
    host_allocation_ptr: AllocationPtr,
    guest_string_ptr: Ptr,
)
    requires
        old(guest).wf(),
        host.wf(),
        allocation_in_bounds(host.content(), host_allocation_ptr as int),
        valid_utf8(bytes_at_allocation(host.content(), host_allocation_ptr as int)),
        guest_string_ptr + bytes_at_allocation(host.content(), host_allocation_ptr as int).len()
            <= old(guest).spec_size(),
    ensures
        final(guest).wf(),
        final(guest).live() == old(guest).live(),
        final(guest).content() == splice(
            old(guest).content(),
            guest_string_ptr as int,
            bytes_at_allocation(host.content(), host_allocation_ptr as int),
        ),
{
    let s = crate::string::from_allocation_ptr(host, host_allocation_ptr);
    proof {
        vstd::utf8::decode_utf8_encode_utf8(bytes_at_allocation(host.content(), host_allocation_ptr as int));
    }
    copy_string_to_guest(guest, guest_string_ptr, s);
}

} // verus!
