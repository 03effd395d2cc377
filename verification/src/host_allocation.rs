//! The host copying one of its allocations into the guest's memory.

use crate::allocation::{allocation_at, encode_allocation, from_allocation_ptr, pair_bytes, AllocationPtr};
use crate::linear_memory::{splice, LinearMemory};
use vstd::prelude::*;

verus! {

/// Copies the 16 bytes of the host's allocation at `host_allocation_ptr` into
/// the guest's memory at `guest_allocation_ptr`, which the guest reserved.
pub fn write_to_guest(
    guest: &mut LinearMemory,
    guest_allocation_ptr: AllocationPtr,
    host: &LinearMemory,
    host_allocation_ptr: AllocationPtr,
)
    requires
        old(guest).wf(),
        host.wf(),
        host_allocation_ptr + 16 <= host.spec_size(),
        guest_allocation_ptr + 16 <= old(guest).spec_size(),
    ensures
        final(guest).wf(),
        final(guest).live() == old(guest).live(),
        final(guest).content() == splice(
            old(guest).content(),
            guest_allocation_ptr as int,
            pair_bytes(
                allocation_at(host.content(), host_allocation_ptr as int).0,
                allocation_at(host.content(), host_allocation_ptr as int).1,
            ),
        ),
{
    let host_allocation = from_allocation_ptr(host, host_allocation_ptr);
    let bytes = encode_allocation(host_allocation);
    proof {
        crate::allocation::lemma_allocation_bytes_round_trip(host_allocation);
    }
    guest.write_at(guest_allocation_ptr as usize, bytes.as_slice());
}

/// Copies the host's allocation at `host_allocation_ptr` into the guest's
/// memory at `guest_allocation_ptr`, as `write_to_guest` does.
pub fn copy_allocation_to_guest(
    guest: &mut LinearMemory,
    guest_allocation_ptr: AllocationPtr,
    host: &LinearMemory,
    host_allocation_ptr: AllocationPtr,
)
    requires
        old(guest).wf(),
        host.wf(),
        host_allocation_ptr + 16 <= host.spec_size(),
        guest_allocation_ptr + 16 <= old(guest).spec_size(),
    ensures
        final(guest).wf(),
        final(guest).live() == old(guest).live(),
        final(guest).content() == splice(
            old(guest).content(),
            guest_allocation_ptr as int,
            pair_bytes(
                allocation_at(host.content(), host_allocation_ptr as int).0,
                allocation_at(host.content(), host_allocation_ptr as int).1,
            ),
        ),
{
    write_to_guest(guest, guest_allocation_ptr, host, host_allocation_ptr);
}

} // verus!
