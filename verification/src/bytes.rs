//! Byte vectors handed across the boundary by a pointer to their allocation.

use crate::allocation::{
    allocation_at, allocation_bytes, from_allocation_ptr as read_allocation, lemma_allocation_ptr_round_trip,
    pair_bytes, to_allocation_ptr as leak_allocation, Allocation, AllocationPtr,
};
use crate::linear_memory::{
    blocks_ok, holds_block, leak_content, leak_live, leak_ptr, lemma_leak_growth,
    lemma_leak_keeps_live_bytes, lemma_leak_then_reclaim, Block, LinearMemory, HEAP_BASE, MAX_SIZE,
    PAGE_SIZE,
};
use vstd::prelude::*;

verus! {

/// Whether the allocation at `allocation_ptr` and the bytes it points to both
/// lie inside a memory with these bytes.
pub open spec fn allocation_in_bounds(content: Seq<u8>, allocation_ptr: int) -> bool {
    &&& allocation_ptr + 16 <= content.len()
    &&& allocation_at(content, allocation_ptr).0 + allocation_at(content, allocation_ptr).1
        <= content.len()
}

/// The bytes that the allocation at `allocation_ptr` points to.
pub open spec fn bytes_at_allocation(content: Seq<u8>, allocation_ptr: int) -> Seq<u8> {
    let (p, l) = allocation_at(content, allocation_ptr);
    content.subrange(p as int, p + l)
}

/// The memory `to_allocation_ptr` leaves behind: the bytes leaked first, then
/// the allocation that points to them; and the pointer to the allocation.
pub open spec fn leak_with_allocation(blocks: Seq<Block>, content: Seq<u8>, v: Seq<u8>) -> (
    Seq<Block>,
    Seq<u8>,
    int,
) {
    let q = leak_ptr(blocks, v.len() as int);
    let blocks1 = leak_live(blocks, v.len() as int);
    let content1 = leak_content(content, blocks, v);
    let a = pair_bytes(q as u64, v.len() as u64);
    (leak_live(blocks1, 16), leak_content(content1, blocks1, a), leak_ptr(blocks1, 16))
}

/// Copies the bytes that the allocation at `allocation_ptr` points to. Both
/// stay in memory.
pub fn from_allocation_ptr(memory: &LinearMemory, allocation_ptr: AllocationPtr) -> (r: Vec<u8>)
    requires
        memory.wf(),
        allocation_in_bounds(memory.content(), allocation_ptr as int),
    ensures
        r@ == bytes_at_allocation(memory.content(), allocation_ptr as int),
{
    let allocation: Allocation = read_allocation(memory, allocation_ptr);
    memory.bytes_at(allocation[0] as usize, allocation[1] as usize)
}

/// Leaks `bytes` and then an allocation pointing to them, and returns the
/// pointer to that allocation.
pub fn to_allocation_ptr(memory: &mut LinearMemory, bytes: Vec<u8>) -> (ptr: AllocationPtr)
    requires
        old(memory).wf(),
        old(memory).has_room(bytes@.len() + 16 + HEAP_BASE + PAGE_SIZE),
    ensures
        final(memory).wf(),
        ({
            let (blocks, content, p) = leak_with_allocation(
                old(memory).live(),
                old(memory).content(),
                bytes@,
            );
            &&& final(memory).live() == blocks
            &&& final(memory).content() == content
            &&& ptr == p
        }),
{
    let ghost v = bytes@;
    let len: usize = bytes.len();
    proof {
        lemma_leak_growth(old(memory).live(), old(memory).content(), v);
    }
    let bytes_ptr: usize = memory.leak(bytes);
    let allocation: Allocation = [bytes_ptr as u64, len as u64];
    assert(allocation_bytes(allocation) == pair_bytes(bytes_ptr as u64, len as u64));
    leak_allocation(memory, allocation)
}

/// Reading back the bytes right after handing them over gives them back,
/// and both blocks stay live.
pub proof fn lemma_bytes_round_trip(blocks: Seq<Block>, content: Seq<u8>, v: Seq<u8>)
    requires
        blocks_ok(blocks, content.len() as int),
        (content.len() as int) % (PAGE_SIZE as int) == 0,
        content.len() + v.len() + 2 * (HEAP_BASE + PAGE_SIZE) + 16 <= MAX_SIZE,
    ensures
        ({
            let (blocks2, content2, p) = leak_with_allocation(blocks, content, v);
            &&& holds_block(blocks2, p, 16)
            &&& allocation_in_bounds(content2, p)
            &&& bytes_at_allocation(content2, p) == v
        }),
{
    let len = v.len() as int;
    let q = leak_ptr(blocks, len);
    let blocks1 = leak_live(blocks, len);
    let content1 = leak_content(content, blocks, v);
    lemma_leak_growth(blocks, content, v);
    let a: Allocation = [q as u64, len as u64];
    assert(allocation_bytes(a) == pair_bytes(q as u64, len as u64));
    lemma_allocation_ptr_round_trip(blocks1, content1, a);
    crate::allocation::lemma_allocation_bytes_round_trip(a);
    let content2 = leak_content(content1, blocks1, allocation_bytes(a));
    let p = leak_ptr(blocks1, 16);
    lemma_leak_growth(blocks1, content1, allocation_bytes(a));
    if len > 0 {
        lemma_leak_then_reclaim(blocks, content.len() as int, content, v);
        assert(content1.subrange(q, q + len) == v);
        lemma_leak_keeps_live_bytes(blocks1, content1.len() as int, content1, allocation_bytes(a));
        let k = choose|k: int| 0 <= k < blocks1.len() && blocks1[k].start == q && blocks1[k].len == len;
        assert(content2.subrange(blocks1[k].start as int, blocks1[k].end()) == content1.subrange(
            blocks1[k].start as int,
            blocks1[k].end(),
        ));
    } else {
        assert(content2.subrange(1, 1) =~= v);
    }
}

} // verus!
