//! The host calling a guest function by allocation pointers: the payload is
//! leaked on the host and the guest is called with the pointer to its
//! allocation; the guest answers with the pointer to an allocation of its
//! own whose bytes are a UTF-8 string. The call itself runs between the
//! two halves here.

use crate::allocation::AllocationPtr;
use crate::bytes::{allocation_in_bounds, bytes_at_allocation, leak_with_allocation, to_allocation_ptr};
use crate::error::Error;
use crate::host_bytes::read_from_guest_using_allocation_ptr;
use crate::linear_memory::{LinearMemory, HEAP_BASE, PAGE_SIZE};
use crate::string::str_from_utf8;
use vstd::prelude::*;
use vstd::string::{StrSliceExecFns, StringExecFns};
use vstd::utf8::{decode_utf8, valid_utf8};

verus! {

/// Leaks `payload` and an allocation pointing to it in the host's memory,
/// and returns the argument to call the guest with: the allocation's
/// pointer as an `i64`, or a `PointerMap` error when it does not fit.
pub fn guest_call_argument(host: &mut LinearMemory, payload: Vec<u8>) -> (r: Result<i64, Error>)
    requires
        old(host).wf(),
        old(host).has_room(payload@.len() + 16 + HEAP_BASE + PAGE_SIZE),
    ensures
        final(host).wf(),
        ({
            let (blocks, content, p) = leak_with_allocation(old(host).live(), old(host).content(), payload@);
            &&& final(host).live() == blocks
            &&& final(host).content() == content
            &&& p <= i64::MAX ==> r == Ok::<i64, Error>(p as i64)
            &&& p > i64::MAX ==> r == Err::<i64, Error>(Error::PointerMap)
        }),
{
    let host_allocation_ptr: AllocationPtr = to_allocation_ptr(host, payload);
    if host_allocation_ptr <= 0x7fff_ffff_ffff_ffffu64 {
        Ok(host_allocation_ptr as i64)
    } else {
        Err(Error::PointerMap)
    }
}

/// The string the guest answered with: the bytes of the guest's allocation
/// at the pointer it returned (taken as a `u64`), or a `Utf8` error when they
/// are not valid UTF-8.
pub fn guest_call_result(guest: &LinearMemory, returned: i64) -> (r: Result<String, Error>)
    requires
        guest.wf(),
        allocation_in_bounds(guest.content(), returned as u64 as int),
    ensures
        r is Ok <==> valid_utf8(bytes_at_allocation(guest.content(), returned as u64 as int)),
        r matches Ok(s) ==> s@ == decode_utf8(bytes_at_allocation(guest.content(), returned as u64 as int)),
        r matches Err(e) ==> e == Error::Utf8,
{
    let guest_allocation_ptr: AllocationPtr = returned as u64;
    let bytes = match read_from_guest_using_allocation_ptr(guest, guest_allocation_ptr) {
        Ok(b) => b,
        Err(e) => {
            return Err(e);
        },
    };
    match str_from_utf8(bytes.as_slice()) {
        Some(s) => {
            proof {
                vstd::utf8::encode_utf8_decode_utf8(s@);
            }
            Ok(String::from_str(s))
        },
        None => Err(Error::Utf8),
    }
}

} // verus!
