//! Host/guest plumbing for wasm modules: the pointer/length packing used to
//! cross the boundary, the error model shared by both sides, and a linear
//! memory with the guest allocator that the host and guest negotiate over.

pub mod allocate;
pub mod allocation;
pub mod bytes;
pub mod call;
pub mod deserialized_cache;
pub mod env;
pub mod error;
pub mod fat_ptr;
pub mod guest;
pub mod guest_allocation;
pub mod guest_call;
pub mod guest_map;
pub mod host_allocation;
pub mod host_bytes;
pub mod host_env;
pub mod host_error;
pub mod host_guest;
pub mod leak_batch;
pub mod linear_memory;
pub mod module_build;
pub mod module_cache;
pub mod numeric;
pub mod payloads;
pub mod plru;
pub mod result;
pub mod slice;
pub mod string;
pub mod wasms;

use vstd::prelude::*;

verus! {

/// Something like `usize` for wasm: offsets and lengths in a 4 GiB linear memory.
pub type WasmSize = u32;

/// A `WasmSize` that points to a position in wasm linear memory that the host
/// and guest are sharing to communicate across function calls.
pub type GuestPtr = WasmSize;

/// A `WasmSize` that holds a number of bytes to read or write.
pub type Len = WasmSize;

/// A pointer and a length packed together so a single integer can be returned.
pub type GuestPtrLen = u64;

/// Twice the width of a host `usize`, used to return a pointer and a length at once.
pub type DoubleUSize = u128;

} // verus!
