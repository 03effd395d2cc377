//! The older name for an offset/length pair of `WasmSize`s in the guest's
//! linear memory.

use crate::result::WasmError;
use crate::slice::{size_pair_from_bytes, u32_items};
use crate::{GuestPtr, Len, WasmSize};
use vstd::prelude::*;

verus! {

/// A fat pointer holds two items: an offset and a length.
pub const WASM_FAT_PTR_ITEMS: usize = 2;

/// The bytes a fat pointer takes up: two `WasmSize`s.
pub const WASM_FAT_PTR_BYTES_LEN: usize = 8;

/// A 2 item `WasmSize` array of offset/length. The offset is always a
/// position in the guest's linear memory, never on the host, and the length
/// always counts bytes, not items.
pub struct WasmFatPtr(pub [WasmSize; 2]);

impl WasmFatPtr {
    /// The offset of the first byte.
    pub fn ptr_offset(&self) -> (p: GuestPtr)
        ensures
            p == self.0@[0],
    {
        self.0[0]
    }

    /// How many bytes the pointer covers.
    pub fn ptr_len(&self) -> (l: Len)
        ensures
            l == self.0@[1],
    {
        self.0[1]
    }

    /// Reads a fat pointer out of the 8 bytes that store it, as
    /// `size_pair_from_bytes` does; any other number of bytes is a `Memory`
    /// error.
    pub fn try_from_bytes(v: Vec<u8>) -> (r: Result<WasmFatPtr, WasmError>)
        ensures
            r is Ok ==> v@.len() == 8,
            r matches Ok(p) ==> p.0@ == u32_items(v@, true) || p.0@ == u32_items(v@, false),
            r matches Err(e) ==> e.error == crate::result::WasmErrorInner::Memory,
    {
        match size_pair_from_bytes(v.as_slice()) {
            Ok(a) => Ok(WasmFatPtr(a)),
            Err(e) => Err(e),
        }
    }
}

/// Wraps a bare offset/length array.
impl From<[WasmSize; 2]> for WasmFatPtr {
    fn from(array: [WasmSize; 2]) -> (p: Self) {
        WasmFatPtr(array)
    }
}

impl vstd::std_specs::convert::FromSpecImpl<[WasmSize; 2]> for WasmFatPtr {
    open spec fn obeys_from_spec() -> bool {
        true
    }

    open spec fn from_spec(v: [WasmSize; 2]) -> Self {
        WasmFatPtr(v)
    }
}

} // verus!
