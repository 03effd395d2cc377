//! An offset/length pair of `WasmSize`s locating bytes in the guest's linear
//! memory, in a form both sides agree on byte for byte.

use crate::result::{WasmError, WasmErrorInner};
use crate::{GuestPtr, Len, WasmSize};
use byte_slice_cast::{AsSliceOf, Error as CastError};
use vstd::prelude::*;

verus! {

/// A slice holds two items: an offset and a length.
pub const WASM_SLICE_ITEMS: usize = 2;

/// The bytes a slice takes up: two `WasmSize`s.
pub const WASM_SLICE_BYTES: usize = 8;

/// The `u32` that 4 bytes make in one byte order: least significant byte
/// first when `little`, else most significant byte first.
pub open spec fn u32_of(b: Seq<u8>, little: bool) -> u32 {
    if little {
        (b[0] + b[1] * 0x100 + b[2] * 0x1_0000 + b[3] * 0x100_0000) as u32
    } else {
        (b[3] + b[2] * 0x100 + b[1] * 0x1_0000 + b[0] * 0x100_0000) as u32
    }
}

/// The `u32`s that `v` makes, each of 4 consecutive bytes, all in one byte
/// order.
pub open spec fn u32_items(v: Seq<u8>, little: bool) -> Seq<u32> {
    Seq::new(v.len() / 4, |i: int| u32_of(v.subrange(4 * i, 4 * i + 4), little))
}

/// byte_slice_cast's `as_slice_of::<u32>`: the bytes of `v` viewed as
/// `u32`s, each of 4 bytes in the machine's own byte order. It fails when the
/// length is not a multiple of 4, and also when `v` does not start on a
/// 4-byte boundary, which depends on where `v` happens to lie; so success is
/// not claimed. The items are the bytes themselves read in place, so every
/// 4 consecutive bytes make one item, all in the machine's byte order,
/// which is little-endian or big-endian; which of the two is not claimed.
#[verifier::external_body]
fn as_u32s(v: &[u8]) -> (r: Result<&[u32], CastError>)
    ensures
        v@.len() % 4 != 0 ==> r is Err,
        r matches Ok(s) ==> s@.len() * 4 == v@.len(),
        r matches Ok(s) ==> s@ == u32_items(v@, true) || s@ == u32_items(v@, false),
{
    v.as_slice_of::<u32>()
}

/// The offset and the length out of the items a byte slice was viewed as:
/// exactly two items make the pair; any other number is a `Memory` error.
pub fn size_pair_of(items: &[u32]) -> (r: Result<[WasmSize; 2], WasmError>)
    ensures
        items@.len() == 2 <==> r is Ok,
        r matches Ok(a) ==> a@ == items@,
        r matches Err(e) ==> e.error == WasmErrorInner::Memory,
{
    if items.len() != 2 {
        return Err(WasmError::new(String::from_str("src/slice.rs"), 41, WasmErrorInner::Memory));
    }
    let a = [items[0], items[1]];
    assert(a@ =~= items@);
    Ok(a)
}

/// Reads the offset/length pair out of the 8 bytes that store it, viewed as
/// two `u32`s by byte_slice_cast; bytes it cannot view so, or any number of
/// bytes but 8, are a `Memory` error, and `size_pair_of` decides the rest.
pub fn size_pair_from_bytes(v: &[u8]) -> (r: Result<[WasmSize; 2], WasmError>)
    ensures
        r is Ok ==> v@.len() == 8,
        r matches Ok(a) ==> a@ == u32_items(v@, true) || a@ == u32_items(v@, false),
        r matches Err(e) ==> e.error == WasmErrorInner::Memory,
{
    match as_u32s(v) {
        Ok(items) => size_pair_of(items),
        Err(_) => Err(WasmError::new(String::from_str("src/slice.rs"), 58, WasmErrorInner::Memory)),
    }
}

/// Read out of 8 bytes, the offset is the `u32` the first 4 bytes make and
/// the length the `u32` the last 4 make, both in the same byte order; so
/// every offset and every length, however large, is read whole.
pub proof fn lemma_size_pair_halves(v: Seq<u8>, little: bool)
    requires
        v.len() == 8,
    ensures
        u32_items(v, little).len() == 2,
        u32_items(v, little)[0] == u32_of(v.subrange(0, 4), little),
        u32_items(v, little)[1] == u32_of(v.subrange(4, 8), little),
{
}

/// A 2 item `WasmSize` array of offset/length. The offset is always a
/// position in the guest's linear memory, never on the host, and the length
/// always counts bytes, not items.
pub struct WasmSlice(pub [WasmSize; 2]);

impl WasmSlice {
    /// The offset of the first byte.
    pub fn ptr(&self) -> (p: GuestPtr)
        ensures
            p == self.0@[0],
    {
        self.0[0]
    }

    /// How many bytes the slice covers.
    pub fn len(&self) -> (l: Len)
        ensures
            l == self.0@[1],
    {
        self.0[1]
    }

    /// Reads a slice out of the 8 bytes that store it, as
    /// `size_pair_from_bytes` does; any other number of bytes cannot make a
    /// slice and is a `Memory` error.
    pub fn try_from_bytes(v: Vec<u8>) -> (r: Result<WasmSlice, WasmError>)
        ensures
            r is Ok ==> v@.len() == 8,
            r matches Ok(s) ==> s.0@ == u32_items(v@, true) || s.0@ == u32_items(v@, false),
            r matches Err(e) ==> e.error == WasmErrorInner::Memory,
    {
        match size_pair_from_bytes(v.as_slice()) {
            Ok(a) => Ok(WasmSlice(a)),
            Err(e) => Err(e),
        }
    }
}

/// Wraps a bare offset/length array.
impl From<[WasmSize; 2]> for WasmSlice {
    fn from(array: [WasmSize; 2]) -> (s: Self) {
        WasmSlice(array)
    }
}

impl vstd::std_specs::convert::FromSpecImpl<[WasmSize; 2]> for WasmSlice {
    open spec fn obeys_from_spec() -> bool {
        true
    }

    open spec fn from_spec(v: [WasmSize; 2]) -> Self {
        WasmSlice(v)
    }
}

} // verus!
