//! Leaking an offset/length pair, or a string, so that a pointer to it can
//! cross the boundary.

use crate::allocation::{pair_bytes, to_allocation_ptr, Allocation, AllocationPtr, Len, Ptr};
use crate::bytes::leak_with_allocation;
use crate::linear_memory::{leak_content, leak_live, leak_ptr, LinearMemory, HEAP_BASE, PAGE_SIZE};
use vstd::prelude::*;
use vstd::string::StrSliceExecFns;
use vstd::utf8::encode_utf8;

verus! {

/// Leaks the allocation `[ptr, len]` and returns the pointer to it.
pub fn allocate_allocation_ptr(memory: &mut LinearMemory, ptr: Ptr, len: Len) -> (r: AllocationPtr)
    requires
        old(memory).wf(),
        old(memory).has_room(16),
    ensures
        final(memory).wf(),
        r == leak_ptr(old(memory).live(), 16),
        final(memory).live() == leak_live(old(memory).live(), 16),
        final(memory).content() == leak_content(
            old(memory).content(),
            old(memory).live(),
            pair_bytes(ptr, len),
        ),
{
    let allocation: Allocation = [ptr, len];
    to_allocation_ptr(memory, allocation)
}

/// Leaks the UTF-8 bytes of `s`, then an allocation pointing to them, and
/// returns the pointer to the allocation.
pub fn string_allocation_ptr(memory: &mut LinearMemory, s: String) -> (r: AllocationPtr)
    requires
        old(memory).wf(),
        old(memory).has_room(encode_utf8(s@).len() + 16 + HEAP_BASE + PAGE_SIZE),
    ensures
        final(memory).wf(),
        ({
            let (blocks, content, p) = leak_with_allocation(
                old(memory).live(),
                old(memory).content(),
                encode_utf8(s@),
            );
            &&& final(memory).live() == blocks
            &&& final(memory).content() == content
            &&& r == p
        }),
{
    let bytes = s.as_str().as_bytes_vec();
    let ghost v = bytes@;
    let s_len: usize = bytes.len();
    proof {
        crate::linear_memory::lemma_leak_growth(old(memory).live(), old(memory).content(), v);
    }
    let s_ptr: usize = memory.leak(bytes);
    allocate_allocation_ptr(memory, s_ptr as u64, s_len as u64)
}

} // verus!
