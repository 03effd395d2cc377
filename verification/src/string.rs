//! Strings handed across the boundary as their UTF-8 bytes.

use crate::allocation::AllocationPtr;
use crate::bytes::{allocation_in_bounds, bytes_at_allocation, leak_with_allocation};
use crate::linear_memory::{LinearMemory, HEAP_BASE, PAGE_SIZE};
use vstd::prelude::*;
use vstd::string::{StrSliceExecFns, StringSliceAdditionalSpecFns};
use vstd::utf8::{decode_utf8, encode_utf8, valid_utf8};

verus! {

/// std's `str::from_utf8`: the bytes read as a string slice, which it returns
/// exactly when they are valid UTF-8 (and then the slice's bytes are those
/// bytes). The wrapper drops std's error value, which says where decoding failed.
#[verifier::external_body]
pub(crate) fn str_from_utf8(bytes: &[u8]) -> (r: Option<&str>)
    ensures
        r is Some <==> valid_utf8(bytes@),
        r matches Some(s) ==> s.spec_bytes() == bytes@,
{
    std::str::from_utf8(bytes).ok()
}

/// The string stored as the bytes that the allocation at `allocation_ptr`
/// points to, which must be valid UTF-8. Both stay in memory.
pub fn from_allocation_ptr(memory: &LinearMemory, allocation_ptr: AllocationPtr) -> (s: String)
    requires
        memory.wf(),
        allocation_in_bounds(memory.content(), allocation_ptr as int),
        valid_utf8(bytes_at_allocation(memory.content(), allocation_ptr as int)),
    ensures
        s@ == decode_utf8(bytes_at_allocation(memory.content(), allocation_ptr as int)),
{
    let bytes = crate::bytes::from_allocation_ptr(memory, allocation_ptr);
    match str_from_utf8(bytes.as_slice()) {
        Some(text) => {
            proof {
                vstd::utf8::encode_utf8_decode_utf8(text@);
            }
            String::from_str(text)
        },
        None => {
            proof {
                assert(false);
            }
            String::new()
        },
    }
}

/// Leaks the UTF-8 bytes of `s` and an allocation pointing to them, and
/// returns the pointer to that allocation.
pub fn to_allocation_ptr(memory: &mut LinearMemory, s: String) -> (ptr: AllocationPtr)
    requires
        old(memory).wf(),
        old(memory).has_room(encode_utf8(s@).len() + 16 + HEAP_BASE + PAGE_SIZE),
    ensures
        final(memory).wf(),
        ({
            let (blocks, content, p) = leak_with_allocation(
                old(memory).live(),
                old(memory).content(),
                encode_utf8(s@),
            );
            &&& final(memory).live() == blocks
            &&& final(memory).content() == content
            &&& ptr == p
        }),
{
    let bytes = s.as_str().as_bytes_vec();
    crate::bytes::to_allocation_ptr(memory, bytes)
}

/// Reading a string back right after handing it over gives it back.
pub proof fn lemma_string_round_trip(
    blocks: Seq<crate::linear_memory::Block>,
    content: Seq<u8>,
    s: Seq<char>,
)
    requires
        crate::linear_memory::blocks_ok(blocks, content.len() as int),
        (content.len() as int) % (PAGE_SIZE as int) == 0,
        content.len() + encode_utf8(s).len() + 2 * (HEAP_BASE + PAGE_SIZE) + 16
            <= crate::linear_memory::MAX_SIZE,
    ensures
        ({
            let (blocks2, content2, p) = leak_with_allocation(blocks, content, encode_utf8(s));
            &&& allocation_in_bounds(content2, p)
            &&& valid_utf8(bytes_at_allocation(content2, p))
            &&& decode_utf8(bytes_at_allocation(content2, p)) == s
        }),
{
    crate::bytes::lemma_bytes_round_trip(blocks, content, encode_utf8(s));
    vstd::utf8::encode_utf8_valid_utf8(s);
    vstd::utf8::encode_utf8_decode_utf8(s);
}

} // verus!
