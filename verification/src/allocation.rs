//! An allocation is an offset/length pair of `u64`s. To hand one across the
//! host/guest boundary it is itself leaked into memory as 16 bytes, and the
//! pointer to those bytes is what crosses.

use crate::linear_memory::{
    blocks_ok, holds_block, leak_content, leak_live, leak_ptr, lemma_leak_growth,
    lemma_leak_then_reclaim, reserve_content, Block, LinearMemory, HEAP_BASE, MAX_SIZE, PAGE_SIZE,
};
use vstd::bytes::{spec_u64_from_le_bytes, spec_u64_to_le_bytes, u64_from_le_bytes, u64_to_le_bytes};
use vstd::prelude::*;

verus! {

/// An allocation holds two items: an offset and a length.
pub const ALLOCATION_ITEMS: usize = 2;

/// The bytes an allocation takes up in memory.
pub const ALLOCATION_BYTES_ITEMS: usize = 16;

/// Every pointer is a `u64` on both sides of the boundary.
pub type Ptr = u64;

/// Every length of memory is a `u64`, to match `Ptr`.
pub type Len = u64;

/// A pointer to a leaked allocation.
pub type AllocationPtr = u64;

/// An offset and a length.
pub type Allocation = [u64; 2];

/// The 16 bytes an offset and a length are stored as: both little endian,
/// as wasm linear memory stores integers.
pub open spec fn pair_bytes(ptr: u64, len: u64) -> Seq<u8> {
    spec_u64_to_le_bytes(ptr) + spec_u64_to_le_bytes(len)
}

/// The 16 bytes an allocation is stored as.
pub open spec fn allocation_bytes(a: Allocation) -> Seq<u8> {
    pair_bytes(a@[0], a@[1])
}

/// The offset and the length stored in 16 bytes.
pub open spec fn decode_allocation(b: Seq<u8>) -> (u64, u64) {
    (spec_u64_from_le_bytes(b.subrange(0, 8)), spec_u64_from_le_bytes(b.subrange(8, 16)))
}

/// The allocation stored at offset `p` of a memory's bytes.
pub open spec fn allocation_at(content: Seq<u8>, p: int) -> (u64, u64) {
    decode_allocation(content.subrange(p, p + 16))
}

/// Decoding what was encoded gives the allocation back.
pub proof fn lemma_allocation_bytes_round_trip(a: Allocation)
    ensures
        allocation_bytes(a).len() == 16,
        decode_allocation(allocation_bytes(a)) == (a@[0], a@[1]),
{
    vstd::bytes::lemma_auto_spec_u64_to_from_le_bytes();
    let b = allocation_bytes(a);
    assert(b.subrange(0, 8) =~= spec_u64_to_le_bytes(a@[0]));
    assert(b.subrange(8, 16) =~= spec_u64_to_le_bytes(a@[1]));
}

/// The 16 bytes that store `a`.
pub fn encode_allocation(a: Allocation) -> (v: Vec<u8>)
    ensures
        v@ == allocation_bytes(a),
{
    let mut v = u64_to_le_bytes(a[0]);
    let mut w = u64_to_le_bytes(a[1]);
    v.append(&mut w);
    v
}

/// The allocation that 16 bytes store.
pub fn decode_allocation_bytes(b: &[u8]) -> (a: Allocation)
    requires
        b@.len() == 16,
    ensures
        (a@[0], a@[1]) == decode_allocation(b@),
{
    let lo = u64_from_le_bytes(vstd::slice::slice_subrange(b, 0, 8));
    let hi = u64_from_le_bytes(vstd::slice::slice_subrange(b, 8, 16));
    [lo, hi]
}

/// Reserves `len` bytes that are not freed until `deallocate` is called
/// on them, and returns where they start.
pub fn allocate(memory: &mut LinearMemory, len: Len) -> (ptr: Ptr)
    requires
        old(memory).wf(),
        old(memory).has_room(len as int),
    ensures
        final(memory).wf(),
        ptr == leak_ptr(old(memory).live(), len as int),
        final(memory).live() == leak_live(old(memory).live(), len as int),
        final(memory).content() == reserve_content(old(memory).content(), old(memory).live(), len as int),
{
    memory.reserve(len as usize) as u64
}

/// Frees the `len` bytes at `ptr` that `allocate` reserved.
pub fn deallocate(memory: &mut LinearMemory, ptr: Ptr, len: Len)
    requires
        old(memory).wf(),
        len == 0 || holds_block(old(memory).live(), ptr as int, len as int),
    ensures
        final(memory).wf(),
        final(memory).content() == old(memory).content(),
        len == 0 ==> final(memory).live() == old(memory).live(),
        len > 0 ==> forall|k: int|
            0 <= k < old(memory).live().len() && #[trigger] old(memory).live()[k].start == ptr
                ==> final(memory).live() == old(memory).live().remove(k),
{
    proof {
        if len > 0 {
            let k = choose|k: int|
                0 <= k < old(memory).live().len() && old(memory).live()[k].start == ptr
                    && old(memory).live()[k].len == len;
            assert(old(memory).live()[k].end() <= old(memory).spec_size());
        }
    }
    memory.free(ptr as usize, len as usize);
}

/// Leaks `allocation` into memory as its 16 bytes and returns the pointer to
/// them; `from_allocation_ptr` reads it back.
pub fn to_allocation_ptr(memory: &mut LinearMemory, allocation: Allocation) -> (ptr: AllocationPtr)
    requires
        old(memory).wf(),
        old(memory).has_room(16),
    ensures
        final(memory).wf(),
        ptr == leak_ptr(old(memory).live(), 16),
        final(memory).live() == leak_live(old(memory).live(), 16),
        final(memory).content() == leak_content(
            old(memory).content(),
            old(memory).live(),
            allocation_bytes(allocation),
        ),
{
    let bytes = encode_allocation(allocation);
    proof {
        lemma_allocation_bytes_round_trip(allocation);
    }
    memory.leak(bytes) as u64
}

/// The allocation stored at `allocation_ptr`, which stays in memory.
pub fn from_allocation_ptr(memory: &LinearMemory, allocation_ptr: AllocationPtr) -> (a: Allocation)
    requires
        memory.wf(),
        allocation_ptr + 16 <= memory.spec_size(),
    ensures
        (a@[0], a@[1]) == allocation_at(memory.content(), allocation_ptr as int),
{
    let b = memory.bytes_at(allocation_ptr as usize, 16);
    decode_allocation_bytes(b.as_slice())
}

/// Takes the allocation stored at `allocation_ptr` back out of memory,
/// freeing its 16 bytes: the inverse of `to_allocation_ptr`.
pub fn take_allocation(memory: &mut LinearMemory, allocation_ptr: AllocationPtr) -> (a: Allocation)
    requires
        old(memory).wf(),
        holds_block(old(memory).live(), allocation_ptr as int, 16),
    ensures
        final(memory).wf(),
        final(memory).content() == old(memory).content(),
        (a@[0], a@[1]) == allocation_at(old(memory).content(), allocation_ptr as int),
        forall|k: int|
            0 <= k < old(memory).live().len() && #[trigger] old(memory).live()[k].start
                == allocation_ptr ==> final(memory).live() == old(memory).live().remove(k),
{
    proof {
        let k = choose|k: int|
            0 <= k < old(memory).live().len() && old(memory).live()[k].start == allocation_ptr
                && old(memory).live()[k].len == 16;
        assert(old(memory).live()[k].end() <= old(memory).spec_size());
    }
    let b = memory.reclaim(allocation_ptr as usize, 16);
    decode_allocation_bytes(b.as_slice())
}

/// Reading back an allocation right after leaking it gives it back.
pub proof fn lemma_allocation_ptr_round_trip(blocks: Seq<Block>, content: Seq<u8>, a: Allocation)
    requires
        blocks_ok(blocks, content.len() as int),
        (content.len() as int) % (PAGE_SIZE as int) == 0,
        content.len() + HEAP_BASE + 16 + PAGE_SIZE <= MAX_SIZE,
    ensures
        ({
            let p = leak_ptr(blocks, 16);
            let after = leak_content(content, blocks, allocation_bytes(a));
            &&& p + 16 <= after.len()
            &&& holds_block(leak_live(blocks, 16), p, 16)
            &&& allocation_at(after, p) == (a@[0], a@[1])
        }),
{
    lemma_allocation_bytes_round_trip(a);
    lemma_leak_growth(blocks, content, allocation_bytes(a));
    lemma_leak_then_reclaim(blocks, content.len() as int, content, allocation_bytes(a));
}

} // verus!
