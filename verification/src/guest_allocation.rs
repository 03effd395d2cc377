//! The guest's side of memory handed across the boundary: leaking bytes for
//! the host to read, and taking back bytes the host wrote.

use crate::linear_memory::{
    holds_block, leak_content, leak_live, leak_ptr, reserve_content, LinearMemory,
};
use vstd::prelude::*;

verus! {

/// Reserves `len` bytes that the allocator will not reuse until they are
/// freed, and returns where they start so the host can write into them.
pub fn __allocate(memory: &mut LinearMemory, len: usize) -> (ptr: usize)
    requires
        old(memory).wf(),
        old(memory).has_room(len as int),
    ensures
        final(memory).wf(),
        ptr == leak_ptr(old(memory).live(), len as int),
        final(memory).live() == leak_live(old(memory).live(), len as int),
        final(memory).content() == reserve_content(old(memory).content(), old(memory).live(), len as int),
{
    memory.reserve(len)
}

/// Frees an allocation: needed because every `__allocate` and `write_bytes`
/// leaks.
pub fn __deallocate(memory: &mut LinearMemory, guest_ptr: usize, len: usize)
    requires
        old(memory).wf(),
        len == 0 || holds_block(old(memory).live(), guest_ptr as int, len as int),
    ensures
        final(memory).wf(),
        final(memory).content() == old(memory).content(),
        len == 0 ==> final(memory).live() == old(memory).live(),
        len > 0 ==> forall|k: int|
            0 <= k < old(memory).live().len() && #[trigger] old(memory).live()[k].start == guest_ptr
                ==> final(memory).live() == old(memory).live().remove(k),
{
    let _ = consume_bytes(memory, guest_ptr, len);
}

/// Takes ownership of `len` previously leaked bytes at `guest_ptr`: those the
/// host wrote into an `__allocate`d block, or those `write_bytes` leaked.
pub fn consume_bytes(memory: &mut LinearMemory, guest_ptr: usize, len: usize) -> (r: Vec<u8>)
    requires
        old(memory).wf(),
        len == 0 || holds_block(old(memory).live(), guest_ptr as int, len as int),
    ensures
        final(memory).wf(),
        final(memory).content() == old(memory).content(),
        len == 0 ==> r@ == Seq::<u8>::empty() && final(memory).live() == old(memory).live(),
        len > 0 ==> r@ == old(memory).content().subrange(guest_ptr as int, guest_ptr + len),
        len > 0 ==> forall|k: int|
            0 <= k < old(memory).live().len() && #[trigger] old(memory).live()[k].start == guest_ptr
                ==> final(memory).live() == old(memory).live().remove(k),
{
    memory.reclaim(guest_ptr, len)
}

/// Leaks `v` and returns a pointer the host can read its bytes from. The
/// length is not stored: the guest tracks it separately. The host must see
/// that `__deallocate` is called on it, or the leak is permanent.
pub fn write_bytes(memory: &mut LinearMemory, v: Vec<u8>) -> (ptr: usize)
    requires
        old(memory).wf(),
        old(memory).has_room(v@.len() as int),
    ensures
        final(memory).wf(),
        ptr == leak_ptr(old(memory).live(), v@.len() as int),
        final(memory).live() == leak_live(old(memory).live(), v@.len() as int),
        final(memory).content() == leak_content(old(memory).content(), old(memory).live(), v@),
{
    memory.leak(v)
}

/// Consuming the bytes `write_bytes` just leaked gives them back and leaves
/// the live allocations as they were.
pub proof fn lemma_write_then_consume(memory: LinearMemory, v: Seq<u8>)
    requires
        memory.wf(),
        memory.has_room(v.len() as int),
    ensures
        ({
            let ptr = leak_ptr(memory.live(), v.len() as int);
            let live = leak_live(memory.live(), v.len() as int);
            let content = leak_content(memory.content(), memory.live(), v);
            &&& v.len() == 0 || holds_block(live, ptr, v.len() as int)
            &&& v.len() > 0 ==> content.subrange(ptr, ptr + v.len()) == v
            &&& v.len() > 0 ==> forall|k: int|
                0 <= k < live.len() && #[trigger] live[k].start == ptr ==> live.remove(k)
                    == memory.live()
        }),
{
    if v.len() > 0 {
        crate::linear_memory::lemma_leak_growth(memory.live(), memory.content(), v);
        crate::linear_memory::lemma_leak_then_reclaim(
            memory.live(),
            memory.spec_size(),
            memory.content(),
            v,
        );
    }
}

/// Once bytes have been leaked and consumed again, leaking as many bytes
/// once more needs no more memory: a guest that frees what it leaks keeps a
/// constant number of pages however often it does so.
pub proof fn lemma_round_trip_keeps_pages(memory: LinearMemory, v: Seq<u8>, w: Seq<u8>)
    requires
        memory.wf(),
        memory.has_room(v.len() as int),
        w.len() == v.len(),
    ensures
        ({
            let content = leak_content(memory.content(), memory.live(), v);
            &&& leak_content(content, memory.live(), w).len() == content.len()
            &&& leak_ptr(memory.live(), w.len() as int) == leak_ptr(memory.live(), v.len() as int)
        }),
{
    let content = leak_content(memory.content(), memory.live(), v);
    crate::linear_memory::lemma_leak_growth(memory.live(), memory.content(), v);
    if v.len() > 0 {
        let c = crate::linear_memory::placement(memory.live(), v.len() as int).1;
        crate::linear_memory::lemma_grown_size(memory.spec_size(), c + v.len());
        crate::linear_memory::lemma_grown_size_idempotent(memory.spec_size(), c + v.len());
        crate::linear_memory::lemma_grown_size(content.len() as int, c + w.len());
    }
}

} // verus!
