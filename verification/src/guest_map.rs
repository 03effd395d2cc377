//! The guest taking a copy of bytes that the host holds: it reserves room,
//! asks the host to copy its allocation and then its bytes in, and hands
//! back a pointer to a guest allocation of its own.

pub use crate::allocation::{allocate, deallocate};
use crate::allocation::{
    allocation_at, allocation_bytes, from_allocation_ptr, lemma_allocation_bytes_round_trip,
    lemma_allocation_ptr_round_trip, pair_bytes, to_allocation_ptr, Allocation, AllocationPtr,
    ALLOCATION_BYTES_ITEMS,
};
use crate::bytes::{allocation_in_bounds, bytes_at_allocation};
use crate::host_allocation::copy_allocation_to_guest;
use crate::host_bytes::write_to_guest_using_host_allocation_ptr;
use crate::linear_memory::{
    lemma_leak_growth, lemma_leak_keeps_live_bytes, splice, LinearMemory, HEAP_BASE, MAX_SIZE,
    PAGE_SIZE,
};
use vstd::prelude::*;

verus! {

/// Copies the host's allocation at `host_allocation_ptr`, and the bytes it
/// points to, into the guest, and returns the pointer to the guest's own
/// allocation of those bytes.
pub fn map_bytes(guest: &mut LinearMemory, host: &LinearMemory, host_allocation_ptr: AllocationPtr) -> (r:
    AllocationPtr)
    requires
        old(guest).wf(),
        host.wf(),
        allocation_in_bounds(host.content(), host_allocation_ptr as int),
        old(guest).spec_size() + bytes_at_allocation(host.content(), host_allocation_ptr as int).len()
            + 3 * (HEAP_BASE + PAGE_SIZE) + 32 <= MAX_SIZE,
    ensures
        final(guest).wf(),
        allocation_in_bounds(final(guest).content(), r as int),
        bytes_at_allocation(final(guest).content(), r as int) == bytes_at_allocation(
            host.content(),
            host_allocation_ptr as int,
        ),
{
    let ghost hb = bytes_at_allocation(host.content(), host_allocation_ptr as int);
    let ghost hp = allocation_at(host.content(), host_allocation_ptr as int).0;
    let ghost hl = allocation_at(host.content(), host_allocation_ptr as int).1;
    proof {
        lemma_leak_growth(old(guest).live(), old(guest).content(), Seq::new(16, |i: int| 0u8));
    }
    let tmp = allocate(guest, ALLOCATION_BYTES_ITEMS as u64);
    let ghost size1 = guest.spec_size();
    copy_allocation_to_guest(guest, tmp, host, host_allocation_ptr);
    proof {
        let h: Allocation = [hp, hl];
        lemma_allocation_bytes_round_trip(h);
        assert(allocation_bytes(h) == pair_bytes(hp, hl));
        assert(guest.content().subrange(tmp as int, tmp + 16) =~= pair_bytes(hp, hl));
    }
    let a = from_allocation_ptr(guest, tmp);
    let len = a[1];
    assert(len == hl);
    let ghost blocks2 = guest.live();
    let ghost content2 = guest.content();
    proof {
        lemma_leak_growth(blocks2, content2, Seq::new(len as nat, |i: int| 0u8));
    }
    let guest_bytes_ptr = allocate(guest, len);
    write_to_guest_using_host_allocation_ptr(guest, host, host_allocation_ptr, guest_bytes_ptr);
    let ghost blocks4 = guest.live();
    let ghost content4 = guest.content();
    assert(content4.subrange(guest_bytes_ptr as int, guest_bytes_ptr + len) =~= hb);
    let allocation: Allocation = [guest_bytes_ptr, len];
    proof {
        lemma_allocation_bytes_round_trip(allocation);
        assert(content4.len() <= old(guest).spec_size() + len + 2 * (HEAP_BASE + PAGE_SIZE) + 16);
        lemma_allocation_ptr_round_trip(blocks4, content4, allocation);
        lemma_leak_growth(blocks4, content4, allocation_bytes(allocation));
        if len > 0 {
            lemma_leak_keeps_live_bytes(blocks4, content4.len() as int, content4, allocation_bytes(allocation));
        }
    }
    let r = to_allocation_ptr(guest, allocation);
    proof {
        if len > 0 {
            let k = choose|k: int|
                0 <= k < blocks4.len() && blocks4[k].start == guest_bytes_ptr && blocks4[k].len == len;
            assert(guest.content().subrange(blocks4[k].start as int, blocks4[k].end())
                == content4.subrange(blocks4[k].start as int, blocks4[k].end()));
        } else {
            assert(guest.content().subrange(guest_bytes_ptr as int, guest_bytes_ptr as int) =~= hb);
        }
    }
    r
}

} // verus!
