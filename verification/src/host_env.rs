//! The host's handle on a running guest instance: its exported memory and
//! allocator functions and its metering globals, as wasmer holds them. Moving
//! serialized data into the guest and consuming it back out goes through
//! wasmer here; what comes of each outcome is decided by the functions below
//! that take the outcome as an argument.

use crate::env::err_kind;
use crate::host_error::{host_error, RuntimeError};
use crate::linear_memory::MemoryAccessError;
use crate::numeric::merge_u32;
use crate::result::WasmErrorInner;
use crate::{GuestPtr, GuestPtrLen, Len};
use vstd::prelude::*;
use wasmer::{Memory, StoreMut, TypedFunction};

verus! {

/// wasmer's linear memory of an instance; carried through opaquely.
#[verifier::external_type_specification]
#[verifier::external_body]
pub struct ExMemory(Memory);

/// wasmer's global of an instance; carried through opaquely.
#[verifier::external_type_specification]
#[verifier::external_body]
pub struct ExWasmerGlobal(wasmer::Global);

/// wasmer's exported function with known parameter and result types;
/// carried through opaquely.
#[verifier::external_type_specification]
#[verifier::external_body]
#[verifier::reject_recursive_types(Args)]
#[verifier::reject_recursive_types(Rets)]
pub struct ExTypedFunction<Args, Rets>(TypedFunction<Args, Rets>);

/// wasmer's mutable borrow of the store the instance lives in; carried
/// through opaquely.
#[verifier::external_type_specification]
#[verifier::external_body]
pub struct ExStoreMut<'a>(StoreMut<'a>);

/// A call the host made into a guest instance through wasmer: what it
/// handed over and what came of it (`None` where the function or memory
/// belongs to another store and wasmer was not called).
#[derive(Debug)]
pub enum HostCall<'b> {
    /// The guest's allocator was asked for `len` bytes.
    Allocate { len: i32, answer: Option<Result<i32, String>> },
    /// `bytes` were written at `at`.
    Write { at: GuestPtr, bytes: &'b [u8], done: Option<Result<(), MemoryAccessError>> },
    /// `len` bytes were read at `at`.
    Read { at: GuestPtr, len: Len, got: Option<Result<Vec<u8>, MemoryAccessError>> },
    /// The guest's deallocator was asked to free `len` bytes at `ptr`.
    Deallocate { ptr: i32, len: i32, answer: Option<Result<(), String>> },
}

/// wasmer's `TypedFunction::call` on the guest's `__hc__allocate_1` with
/// `len`, as a record of the call: the pointer the guest allocated at, or
/// the message of the trap. wasmer panics when a function is called with a
/// store it does not belong to, so that case is told apart first with
/// wasmer's `is_from_store` and recorded as `None`. What the guest answers
/// is its own affair, so nothing is claimed of it.
#[verifier::external_body]
fn guest_allocate<'a, 'b>(f: &TypedFunction<i32, i32>, store: &mut StoreMut<'a>, len: i32) -> (r: HostCall<'b>)
    ensures
        r is Allocate,
        r->Allocate_len == len,
{
    if !wasmer::Function::from(f.clone()).is_from_store(store) {
        return HostCall::Allocate { len, answer: None };
    }
    let answer = match f.call(store, len) {
        Ok(ptr) => Ok(ptr),
        Err(e) => Err(e.to_string()),
    };
    HostCall::Allocate { len, answer: Some(answer) }
}

/// wasmer's `TypedFunction::call` on the guest's `__hc__deallocate_1` with
/// `ptr` and `len`, as a record of the call: done, or the message of the
/// trap; `None` for a function of another store, as for `guest_allocate`.
/// Nothing is claimed of the outcome.
#[verifier::external_body]
fn guest_deallocate<'a, 'b>(f: &TypedFunction<(i32, i32), ()>, store: &mut StoreMut<'a>, ptr: i32, len: i32) -> (r:
    HostCall<'b>)
    ensures
        r is Deallocate,
        r->ptr == ptr,
        r->Deallocate_len == len,
{
    if !wasmer::Function::from(f.clone()).is_from_store(store) {
        return HostCall::Deallocate { ptr, len, answer: None };
    }
    let answer = match f.call(store, ptr, len) {
        Ok(()) => Ok(()),
        Err(e) => Err(e.to_string()),
    };
    HostCall::Deallocate { ptr, len, answer: Some(answer) }
}

/// wasmer's `MemoryView::write` of `data` at `ptr`, as a record of the
/// write: done when it fits in the memory, else wasmer's access error, each
/// kind kept (wasmer leaves its error enum open to new kinds; one it adds
/// later is `Unlisted`). A view of a memory from another store panics in
/// wasmer, so that case is told apart first with `Memory::is_from_store`
/// and recorded as `None`. The memory's size is the store's state, so
/// nothing is claimed of which way the write goes.
#[verifier::external_body]
fn memory_write<'a, 'b>(m: &Memory, store: &StoreMut<'a>, ptr: u32, data: &'b [u8]) -> (r: HostCall<'b>)
    ensures
        r is Write,
        r->Write_at == ptr,
        r->bytes == data,
{
    if !m.is_from_store(store) {
        return HostCall::Write { at: ptr, bytes: data, done: None };
    }
    let done = Some(match m.view(store).write(ptr as u64, data) {
        Ok(()) => Ok(()),
        Err(wasmer::MemoryAccessError::HeapOutOfBounds) => Err(MemoryAccessError::HeapOutOfBounds),
        Err(wasmer::MemoryAccessError::Overflow) => Err(MemoryAccessError::Overflow),
        Err(wasmer::MemoryAccessError::NonUtf8String) => Err(MemoryAccessError::NonUtf8String),
        Err(wasmer::MemoryAccessError::UnalignedPointerRead) => Err(MemoryAccessError::UnalignedPointerRead),
        Err(_) => Err(MemoryAccessError::Unlisted),
    });
    HostCall::Write { at: ptr, bytes: data, done }
}

/// wasmer's `MemoryView::read` of `len` bytes at `ptr` into a buffer, which
/// it fills completely or else fails, as a record of the read; which way it
/// goes depends on the memory's size. `None` for a memory of another store,
/// as for `memory_write`.
#[verifier::external_body]
fn memory_read<'a, 'b>(m: &Memory, store: &StoreMut<'a>, ptr: u32, len: u32) -> (r: HostCall<'b>)
    ensures
        r is Read,
        r->Read_at == ptr,
        r->Read_len == len,
        r->got matches Some(Ok(v)) ==> v@.len() == len,
{
    if !m.is_from_store(store) {
        return HostCall::Read { at: ptr, len, got: None };
    }
    let mut buf: Vec<u8> = vec![0u8; len as usize];
    let got = Some(match m.view(store).read(ptr as u64, &mut buf) {
        Ok(()) => Ok(buf),
        Err(wasmer::MemoryAccessError::HeapOutOfBounds) => Err(MemoryAccessError::HeapOutOfBounds),
        Err(wasmer::MemoryAccessError::Overflow) => Err(MemoryAccessError::Overflow),
        Err(wasmer::MemoryAccessError::NonUtf8String) => Err(MemoryAccessError::NonUtf8String),
        Err(wasmer::MemoryAccessError::UnalignedPointerRead) => Err(MemoryAccessError::UnalignedPointerRead),
        Err(_) => Err(MemoryAccessError::Unlisted),
    });
    HostCall::Read { at: ptr, len, got }
}

/// What the host keeps of a guest instance to serve the guest's calls into
/// it: the guest's memory, its allocator's two exports, and the two globals
/// through which metering counts the guest's operations. Each is `None`
/// until bound.
pub struct HostEnv {
    pub memory: Option<Memory>,
    pub allocate: Option<TypedFunction<i32, i32>>,
    pub deallocate: Option<TypedFunction<(i32, i32), ()>>,
    pub wasmer_metering_points_exhausted: Option<wasmer::Global>,
    pub wasmer_metering_remaining_points: Option<wasmer::Global>,
}

impl HostEnv {
    /// An environment with nothing bound yet.
    pub fn new() -> (env: HostEnv)
        ensures
            env.memory is None,
            env.allocate is None,
            env.deallocate is None,
            env.wasmer_metering_points_exhausted is None,
            env.wasmer_metering_remaining_points is None,
    {
        HostEnv {
            memory: None,
            allocate: None,
            deallocate: None,
            wasmer_metering_points_exhausted: None,
            wasmer_metering_remaining_points: None,
        }
    }
}

/// Where to write, given what the guest's allocator answered: a pointer
/// that is not negative is the place; a negative one is a `PointerMap`
/// error; a trap is a `Host` error carrying its message.
pub fn allocated_guest_ptr(answer: Result<i32, String>) -> (r: Result<GuestPtr, RuntimeError>)
    ensures
        answer matches Ok(p) ==> (p >= 0 ==> r == Ok::<GuestPtr, RuntimeError>(p as u32)) && (p < 0
            ==> err_kind(r) == Some(WasmErrorInner::PointerMap)),
        answer matches Err(m) ==> err_kind(r) == Some(WasmErrorInner::Host(m)),
{
    match answer {
        Ok(p) => {
            if p >= 0 {
                Ok(p as u32)
            } else {
                Err(host_error("src/host_env.rs", 202, WasmErrorInner::PointerMap))
            }
        },
        Err(m) => Err(host_error("src/host_env.rs", 205, WasmErrorInner::host(m))),
    }
}

/// What moving `len` bytes to `guest_ptr` comes to once the write is done:
/// the pointer and the length packed together, or the failed access.
pub fn moved_data(guest_ptr: GuestPtr, len: Len, written: Result<(), MemoryAccessError>) -> (r: Result<
    GuestPtrLen,
    RuntimeError,
>)
    ensures
        written is Ok ==> r == Ok::<GuestPtrLen, RuntimeError>((guest_ptr * 0x1_0000_0000 + len) as u64),
        written matches Err(e) ==> r == Err::<GuestPtrLen, RuntimeError>(RuntimeError::MemoryAccess(e)),
{
    match written {
        Ok(()) => match merge_u32(guest_ptr, len) {
            Ok(v) => Ok(v),
            Err(e) => Err(RuntimeError::User(e)),
        },
        Err(e) => Err(RuntimeError::MemoryAccess(e)),
    }
}

/// The pointer and the length to hand the guest's deallocator, each as an
/// `i32`; one that does not fit is a `PointerMap` error.
pub fn deallocate_args(guest_ptr: GuestPtr, len: Len) -> (r: Result<(i32, i32), RuntimeError>)
    ensures
        r is Ok <==> guest_ptr <= i32::MAX && len <= i32::MAX,
        r matches Ok((p, l)) ==> p == guest_ptr && l == len,
        r is Err ==> err_kind(r) == Some(WasmErrorInner::PointerMap),
{
    if guest_ptr <= 0x7fff_ffffu32 && len <= 0x7fff_ffffu32 {
        Ok((guest_ptr as i32, len as i32))
    } else {
        Err(host_error("src/host_env.rs", 239, WasmErrorInner::PointerMap))
    }
}

/// What consuming `bytes` comes to once the guest was asked to free them:
/// the bytes, or a `Host` error carrying the message of the trap.
pub fn consumed_bytes(bytes: Vec<u8>, freed: Result<(), String>) -> (r: Result<Vec<u8>, RuntimeError>)
    ensures
        freed is Ok ==> (r matches Ok(b) && b@ == bytes@),
        freed matches Err(m) ==> err_kind(r) == Some(WasmErrorInner::Host(m)),
{
    match freed {
        Ok(()) => Ok(bytes),
        Err(m) => Err(host_error("src/host_env.rs", 252, WasmErrorInner::host(m))),
    }
}

/// What a write into the instance's memory comes to: done, wasmer's access
/// error, or a `Memory` error when the memory belongs to another store.
pub fn written(outcome: Option<Result<(), MemoryAccessError>>) -> (r: Result<(), RuntimeError>)
    ensures
        outcome is None ==> err_kind(r) == Some(WasmErrorInner::Memory),
        outcome matches Some(Ok(())) ==> r is Ok,
        outcome matches Some(Err(e)) ==> r == Err::<(), RuntimeError>(RuntimeError::MemoryAccess(e)),
{
    match outcome {
        None => Err(host_error("src/host_env.rs", 265, WasmErrorInner::Memory)),
        Some(Ok(())) => Ok(()),
        Some(Err(e)) => Err(RuntimeError::MemoryAccess(e)),
    }
}

/// What a read of the instance's memory comes to: the bytes, wasmer's
/// access error, or a `Memory` error when the memory belongs to another
/// store.
pub fn read_result(got: &Option<Result<Vec<u8>, MemoryAccessError>>) -> (r: Result<Vec<u8>, RuntimeError>)
    ensures
        *got is None ==> err_kind(r) == Some(WasmErrorInner::Memory),
        *got matches Some(Ok(w)) ==> (r matches Ok(v) && v@ == w@),
        *got matches Some(Err(e)) ==> r == Err::<Vec<u8>, RuntimeError>(RuntimeError::MemoryAccess(e)),
{
    match got {
        None => Err(host_error("src/host_env.rs", 281, WasmErrorInner::Memory)),
        Some(Ok(w)) => Ok(vstd::slice::slice_to_vec(w.as_slice())),
        Some(Err(e)) => Err(RuntimeError::MemoryAccess(*e)),
    }
}

/// Writes `slice` into the instance's memory at `guest_ptr`, where the guest
/// reserved room for it, and returns what came of it with the record of
/// the write. A slice longer than a `Len` is a `PointerMap` error before
/// memory is touched; otherwise exactly `slice` is written at `guest_ptr`
/// and `written` decides the outcome.
pub fn write_bytes<'a, 'b>(store: &mut StoreMut<'a>, memory: &Memory, guest_ptr: GuestPtr, slice: &'b [u8]) -> (r: (
    Result<(), RuntimeError>,
    Vec<HostCall<'b>>,
))
    ensures
        slice@.len() > u32::MAX ==> err_kind(r.0) == Some(WasmErrorInner::PointerMap) && r.1@.len() == 0,
        slice@.len() <= u32::MAX ==> r.1@.len() == 1 && (r.1@[0] matches HostCall::Write { at, bytes, done }
            && at == guest_ptr && bytes == slice && (done is None ==> err_kind(r.0) == Some(
            WasmErrorInner::Memory)) && (done matches Some(Ok(())) ==> r.0 is Ok) && (done matches Some(Err(e))
            ==> r.0 == Err::<(), RuntimeError>(RuntimeError::MemoryAccess(e)))),
{
    let mut calls: Vec<HostCall<'b>> = Vec::new();
    if slice.len() > 0xffff_ffffusize {
        return (Err(host_error("src/host_env.rs", 305, WasmErrorInner::PointerMap)), calls);
    }
    let call = memory_write(memory, store, guest_ptr, slice);
    let result = match &call {
        HostCall::Write { done, .. } => written(*done),
        _ => {
            proof {
                assert(false);
            }
            Ok(())
        },
    };
    calls.push(call);
    (result, calls)
}

/// Reads `len` bytes of the instance's memory at `guest_ptr`, with the
/// record of the read: exactly the bytes the read got, wasmer's access
/// error, or a `Memory` error when the memory belongs to another store.
pub fn read_bytes<'a, 'b>(store: &StoreMut<'a>, memory: &Memory, guest_ptr: GuestPtr, len: Len) -> (r: (
    Result<Vec<u8>, RuntimeError>,
    HostCall<'b>,
))
    ensures
        r.1 matches HostCall::Read { at, len: l, got } && at == guest_ptr && l == len && (got is None ==> err_kind(
            r.0,
        ) == Some(WasmErrorInner::Memory)) && (got matches Some(Ok(w)) ==> (r.0 matches Ok(v) && v@ == w@)) && (
        got matches Some(Err(e)) ==> r.0 == Err::<Vec<u8>, RuntimeError>(RuntimeError::MemoryAccess(e))),
        r.0 matches Ok(v) ==> v@.len() == len,
{
    let call = memory_read(memory, store, guest_ptr, len);
    let result = match &call {
        HostCall::Read { got, .. } => read_result(got),
        _ => {
            proof {
                assert(false);
            }
            Ok(Vec::new())
        },
    };
    (result, call)
}

/// What moving `data` comes to once the guest's allocator gave `answer`:
/// the error of a failed or refused allocation with no more calls, else a
/// write of exactly `data` at the pointer the allocator answered, whose
/// outcome decides the result.
pub open spec fn move_outcome<'b>(
    answer: Option<Result<i32, String>>,
    memory_bound: bool,
    data: &'b [u8],
    r: (Result<GuestPtrLen, RuntimeError>, Vec<HostCall<'b>>),
) -> bool {
    match answer {
        None => err_kind(r.0) == Some(WasmErrorInner::Memory) && r.1@.len() == 1,
        Some(Err(m)) => err_kind(r.0) == Some(WasmErrorInner::Host(m)) && r.1@.len() == 1,
        Some(Ok(p)) => if p < 0 {
            err_kind(r.0) == Some(WasmErrorInner::PointerMap) && r.1@.len() == 1
        } else if !memory_bound {
            err_kind(r.0) == Some(WasmErrorInner::Memory) && r.1@.len() == 1
        } else {
            &&& r.1@.len() == 2
            &&& r.1@[1] is Write
            &&& r.1@[1]->Write_at == p as u32
            &&& r.1@[1]->bytes == data
            &&& match r.1@[1]->done {
                None => err_kind(r.0) == Some(WasmErrorInner::Memory),
                Some(Ok(())) => r.0 == Ok::<GuestPtrLen, RuntimeError>((p * 0x1_0000_0000 + data@.len()) as u64),
                Some(Err(e)) => r.0 == Err::<GuestPtrLen, RuntimeError>(RuntimeError::MemoryAccess(e)),
            }
        },
    }
}

/// A pointer and a length below 2^31 packed as `p * 2^32 + len` split back
/// into the pointer in the high half and the length in the low half.
proof fn lemma_packed_halves(p: int, len: int)
    requires
        0 <= p <= i32::MAX,
        0 <= len <= i32::MAX,
    ensures
        ((p * 0x1_0000_0000 + len) as u64) / 0x1_0000_0000 == p,
        ((p * 0x1_0000_0000 + len) as u64) % 0x1_0000_0000 == len,
        (p * 0x1_0000_0000 + len) as u64 == p * 0x1_0000_0000 + len,
{
    assert(0 <= p * 0x1_0000_0000 + len <= u64::MAX) by (nonlinear_arith)
        requires
            0 <= p <= i32::MAX,
            0 <= len <= i32::MAX,
    ;
    assert((p * 0x1_0000_0000 + len) / 0x1_0000_0000 == p) by (nonlinear_arith)
        requires
            0 <= p,
            0 <= len < 0x1_0000_0000,
    ;
    assert((p * 0x1_0000_0000 + len) % 0x1_0000_0000 == len) by (nonlinear_arith)
        requires
            0 <= p,
            0 <= len < 0x1_0000_0000,
    ;
}

/// When the guest's allocator answers `p` and the write of `data` goes
/// through, the move returns the pointer `p` in the high 32 bits and the
/// length of `data` in the low 32 bits, as `split_u64` takes them apart.
pub proof fn lemma_move_packs_pointer_high<'b>(
    p: i32,
    data: &'b [u8],
    r: (Result<GuestPtrLen, RuntimeError>, Vec<HostCall<'b>>),
)
    requires
        0 <= p,
        data@.len() <= i32::MAX,
        move_outcome(Some(Ok(p)), true, data, r),
        r.1@[1]->done == Some(Ok::<(), MemoryAccessError>(())),
    ensures
        r.0 matches Ok(v) && v / 0x1_0000_0000 == p && v % 0x1_0000_0000 == data@.len(),
{
    lemma_packed_halves(p as int, data@.len() as int);
}

/// Asks the guest to allocate room for `data` (already serialized), copies
/// it there and returns the pointer and the length packed together, with
/// the record of each call made into the instance; the guest must take
/// ownership of the bytes later or they leak. No bound allocator is a
/// `Memory` error, and data longer than an `i32` is a `PointerMap` error,
/// both before the guest is asked anything. Otherwise the allocator is
/// asked for exactly `data`'s length, and `move_outcome` says what comes of
/// its answer.
pub fn move_data_to_guest<'a, 'b>(env: &HostEnv, store: &mut StoreMut<'a>, data: &'b [u8]) -> (r: (
    Result<GuestPtrLen, RuntimeError>,
    Vec<HostCall<'b>>,
))
    ensures
        env.allocate is None ==> err_kind(r.0) == Some(WasmErrorInner::Memory) && r.1@.len() == 0,
        env.allocate is Some && data@.len() > i32::MAX ==> err_kind(r.0) == Some(WasmErrorInner::PointerMap)
            && r.1@.len() == 0,
        env.allocate is Some && data@.len() <= i32::MAX ==> r.1@.len() >= 1 && r.1@[0] is Allocate
            && r.1@[0]->Allocate_len == data@.len() as i32 && move_outcome(
            r.1@[0]->Allocate_answer,
            env.memory is Some,
            data,
            r,
        ),
        r.0 matches Ok(v) ==> r.1@.len() == 2 && r.1@[0] is Allocate && r.1@[0]->Allocate_answer == Some(
            Ok::<i32, String>((v / 0x1_0000_0000) as i32),
        ) && v % 0x1_0000_0000 == data@.len() && r.1@[1] is Write && r.1@[1]->Write_at == v / 0x1_0000_0000
            && r.1@[1]->bytes == data,
        r.1@.len() == 2 && r.1@[0] is Allocate && r.1@[1] is Write && r.1@[1]->done == Some(
            Ok::<(), MemoryAccessError>(()),
        ) ==> (r.1@[0]->Allocate_answer matches Some(Ok(p)) && r.0 matches Ok(v) && v / 0x1_0000_0000 == p
            && v % 0x1_0000_0000 == data@.len()),
{
    let mut calls: Vec<HostCall<'b>> = Vec::new();
    let allocate = match &env.allocate {
        None => {
            return (Err(host_error("src/host_env.rs", 406, WasmErrorInner::Memory)), calls);
        },
        Some(f) => f,
    };
    if data.len() > 0x7fff_ffffusize {
        return (Err(host_error("src/host_env.rs", 411, WasmErrorInner::PointerMap)), calls);
    }
    let len: i32 = data.len() as i32;
    let asked = guest_allocate(allocate, store, len);
    let answer: Option<Result<i32, String>> = match &asked {
        HostCall::Allocate { answer: Some(Ok(p)), .. } => Some(Ok(*p)),
        HostCall::Allocate { answer: Some(Err(m)), .. } => Some(Err(m.clone())),
        _ => None,
    };
    calls.push(asked);
    let answer = match answer {
        None => {
            return (Err(host_error("src/host_env.rs", 423, WasmErrorInner::Memory)), calls);
        },
        Some(a) => a,
    };
    let guest_ptr = match allocated_guest_ptr(answer) {
        Ok(p) => p,
        Err(e) => {
            return (Err(e), calls);
        },
    };
    let memory = match &env.memory {
        None => {
            return (Err(host_error("src/host_env.rs", 435, WasmErrorInner::Memory)), calls);
        },
        Some(m) => m,
    };
    let call = memory_write(memory, store, guest_ptr, data);
    let result = match &call {
        HostCall::Write { done: Some(outcome), .. } => {
            proof {
                lemma_packed_halves(guest_ptr as int, len as int);
            }
            moved_data(guest_ptr, len as u32, *outcome)
        },
        _ => Err(host_error("src/host_env.rs", 442, WasmErrorInner::Memory)),
    };
    calls.push(call);
    (result, calls)
}

/// What consuming `len` bytes at `guest_ptr` comes to once the read got
/// `got`: a `Memory` error with no more calls unless the read got the
/// bytes; then a `Memory` error with no bound deallocator and a
/// `PointerMap` error for a pointer or length beyond an `i32`; else a
/// request to free exactly `len` bytes at `guest_ptr`, whose answer
/// decides between the bytes read and an error.
pub open spec fn consume_outcome<'b>(
    got: Option<Result<Vec<u8>, MemoryAccessError>>,
    deallocator_bound: bool,
    guest_ptr: GuestPtr,
    len: Len,
    r: (Result<Vec<u8>, RuntimeError>, Vec<HostCall<'b>>),
) -> bool {
    match got {
        Some(Ok(w)) => if !deallocator_bound {
            err_kind(r.0) == Some(WasmErrorInner::Memory) && r.1@.len() == 1
        } else if !(guest_ptr <= i32::MAX && len <= i32::MAX) {
            err_kind(r.0) == Some(WasmErrorInner::PointerMap) && r.1@.len() == 1
        } else {
            &&& r.1@.len() == 2
            &&& r.1@[1] is Deallocate
            &&& r.1@[1]->ptr == guest_ptr as i32
            &&& r.1@[1]->Deallocate_len == len as i32
            &&& match r.1@[1]->Deallocate_answer {
                None => err_kind(r.0) == Some(WasmErrorInner::Memory),
                Some(Ok(())) => r.0 matches Ok(b) && b@ == w@,
                Some(Err(m)) => err_kind(r.0) == Some(WasmErrorInner::Host(m)),
            }
        },
        _ => err_kind(r.0) == Some(WasmErrorInner::Memory) && r.1@.len() == 1,
    }
}

/// When the read of `len` bytes at `guest_ptr` got them and a deallocator
/// is bound, the guest is asked to free exactly the region that was read:
/// its pointer first, then its length, each as an `i32`; a pointer or
/// length beyond an `i32` frees nothing.
pub proof fn lemma_consume_frees_what_was_read<'b>(
    w: Vec<u8>,
    guest_ptr: GuestPtr,
    len: Len,
    r: (Result<Vec<u8>, RuntimeError>, Vec<HostCall<'b>>),
)
    requires
        consume_outcome(Some(Ok(w)), true, guest_ptr, len, r),
    ensures
        guest_ptr <= i32::MAX && len <= i32::MAX ==> r.1@.len() == 2 && r.1@[1] is Deallocate && r.1@[1]->ptr
            == guest_ptr && r.1@[1]->Deallocate_len == len,
        !(guest_ptr <= i32::MAX && len <= i32::MAX) ==> r.1@.len() == 1 && r.0 is Err,
        r.0 matches Ok(b) ==> b@ == w@,
{
}

/// Copies `len` bytes at `guest_ptr` out of the guest and asks the guest to
/// free them, returning the bytes with the record of each call made into
/// the instance; the caller deserializes them, whatever they turn out to
/// hold. No bound memory is a `Memory` error before any call; otherwise
/// exactly `len` bytes at `guest_ptr` are read, and `consume_outcome` says
/// what comes of the read.
pub fn consume_bytes_from_guest<'a, 'b>(env: &HostEnv, store: &mut StoreMut<'a>, guest_ptr: GuestPtr, len: Len) -> (r:
    (Result<Vec<u8>, RuntimeError>, Vec<HostCall<'b>>))
    ensures
        env.memory is None ==> err_kind(r.0) == Some(WasmErrorInner::Memory) && r.1@.len() == 0,
        env.memory is Some ==> r.1@.len() >= 1 && r.1@[0] is Read && r.1@[0]->Read_at == guest_ptr
            && r.1@[0]->Read_len == len && consume_outcome(r.1@[0]->got, env.deallocate is Some, guest_ptr, len, r),
        r.0 matches Ok(b) ==> b@.len() == len,
        r.1@.len() == 2 ==> r.1@[0] is Read && r.1@[1] is Deallocate && r.1@[1]->ptr == r.1@[0]->Read_at as i32
            && r.1@[1]->Deallocate_len == r.1@[0]->Read_len as i32 && r.1@[0]->Read_at == guest_ptr
            && r.1@[0]->Read_len == len,
        r.0 matches Ok(b) ==> r.1@.len() == 2 && r.1@[1] is Deallocate && r.1@[1]->ptr == guest_ptr as i32
            && r.1@[1]->Deallocate_len == len as i32 && (r.1@[0]->got matches Some(Ok(w)) && w@ == b@),
        env.memory is Some && env.deallocate is Some && guest_ptr <= i32::MAX && len <= i32::MAX && (
        r.1@[0]->got matches Some(Ok(_))) ==> r.1@.len() == 2 && r.1@[1] is Deallocate && r.1@[1]->ptr
            == guest_ptr as i32 && r.1@[1]->Deallocate_len == len as i32,
{
    let mut calls: Vec<HostCall<'b>> = Vec::new();
    let memory = match &env.memory {
        None => {
            return (Err(host_error("src/host_env.rs", 498, WasmErrorInner::Memory)), calls);
        },
        Some(m) => m,
    };
    let call = memory_read(memory, store, guest_ptr, len);
    let read = match &call {
        HostCall::Read { got: Some(Ok(w)), .. } => Some(vstd::slice::slice_to_vec(w.as_slice())),
        _ => None,
    };
    calls.push(call);
    let bytes = match read {
        Some(b) => b,
        None => {
            return (Err(host_error("src/host_env.rs", 511, WasmErrorInner::Memory)), calls);
        },
    };
    let deallocate = match &env.deallocate {
        None => {
            return (Err(host_error("src/host_env.rs", 516, WasmErrorInner::Memory)), calls);
        },
        Some(f) => f,
    };
    let (p, l) = match deallocate_args(guest_ptr, len) {
        Ok(args) => args,
        Err(e) => {
            return (Err(e), calls);
        },
    };
    let asked = guest_deallocate(deallocate, store, p, l);
    let freed: Option<Result<(), String>> = match &asked {
        HostCall::Deallocate { answer: Some(Ok(())), .. } => Some(Ok(())),
        HostCall::Deallocate { answer: Some(Err(m)), .. } => Some(Err(m.clone())),
        _ => None,
    };
    calls.push(asked);
    let freed = match freed {
        None => {
            return (Err(host_error("src/host_env.rs", 535, WasmErrorInner::Memory)), calls);
        },
        Some(f) => f,
    };
    (consumed_bytes(bytes, freed), calls)
}

} // verus!
