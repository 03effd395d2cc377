//! What the host keeps of a guest instance to serve the guest's calls into
//! it: the guest's memory (with the allocator that the guest exports) and
//! the two globals through which metering counts the guest's operations.

use crate::host_error::{host_error, RuntimeError};
use crate::host_guest::{read_bytes, write_bytes};
use crate::linear_memory::{
    holds_block, leak_live, leak_ptr, reserve_content, splice, LinearMemory, MemoryAccessError,
};
use crate::numeric::merge_u32;
use crate::result::WasmErrorInner;
use crate::{GuestPtr, GuestPtrLen, Len};
use vstd::prelude::*;

verus! {

/// A wasm value as far as the host reads it: a 32- or 64-bit integer, or
/// anything else.
#[derive(Clone, Copy, Debug, PartialEq, Eq, Structural)]
pub enum Value {
    I32(i32),
    I64(i64),
    /// A float, a reference or a vector: never what the host expects here.
    Other,
}

/// A wasm global: its value, whose kind is the global's type, and whether
/// it may be set.
#[derive(Clone, Copy, Debug, PartialEq, Eq, Structural)]
pub struct GlobalState {
    pub mutable: bool,
    pub value: Value,
}

/// Whether two values are of the same wasm type.
pub open spec fn same_type(a: Value, b: Value) -> bool {
    match (a, b) {
        (Value::I32(_), Value::I32(_)) => true,
        (Value::I64(_), Value::I64(_)) => true,
        (Value::Other, Value::Other) => true,
        _ => false,
    }
}

impl GlobalState {
    /// Sets the global to `value`, which succeeds when the global is mutable
    /// and `value` has the global's type; otherwise nothing changes.
    pub fn set(&mut self, value: Value) -> (r: Result<(), ()>)
        ensures
            r is Ok <==> old(self).mutable && same_type(old(self).value, value),
            r is Ok ==> *final(self) == (GlobalState { mutable: old(self).mutable, value }),
            r is Err ==> *final(self) == *old(self),
    {
        let same: bool = match (self.value, value) {
            (Value::I32(_), Value::I32(_)) => true,
            (Value::I64(_), Value::I64(_)) => true,
            (Value::Other, Value::Other) => true,
            _ => false,
        };
        if self.mutable && same {
            self.value = value;
            Ok(())
        } else {
            Err(())
        }
    }
}

/// How many metering points a guest has left.
#[derive(Clone, Copy, Debug, PartialEq, Eq, Structural)]
pub enum MeteringPoints {
    /// This many points are left.
    Remaining(u64),
    /// The points ran out.
    Exhausted,
}

/// The host's handle on a guest instance.
pub struct Env {
    /// The guest's memory, with the allocator whose `__hc__allocate_1` and
    /// `__hc__deallocate_1` the guest exports; `None` until bound.
    pub memory: Option<LinearMemory>,
    /// The `i32` global metering sets above zero when the points run out.
    pub wasmer_metering_points_exhausted: Option<GlobalState>,
    /// The `i64` global that holds the points left.
    pub wasmer_metering_remaining_points: Option<GlobalState>,
}

/// The metering points that the two globals report, or the kind of error
/// reading them raises: `Memory` for a global that is not bound,
/// `PointerMap` for one of the wrong type.
pub open spec fn points_of(exhausted: Option<GlobalState>, remaining: Option<GlobalState>) -> Result<
    MeteringPoints,
    WasmErrorInner,
> {
    match exhausted {
        None => Err(WasmErrorInner::Memory),
        Some(g) => match g.value {
            Value::I32(x) => if x > 0 {
                Ok(MeteringPoints::Exhausted)
            } else {
                match remaining {
                    None => Err(WasmErrorInner::Memory),
                    Some(h) => match h.value {
                        Value::I64(p) => Ok(MeteringPoints::Remaining(p as u64)),
                        _ => Err(WasmErrorInner::PointerMap),
                    },
                }
            },
            _ => Err(WasmErrorInner::PointerMap),
        },
    }
}

/// The kind of `WasmError` a failed call raised, if it failed with one.
pub open spec fn err_kind<T>(r: Result<T, RuntimeError>) -> Option<WasmErrorInner> {
    match r {
        Ok(_) => None,
        Err(e) => e.kind(),
    }
}

/// Whether a call failed with a `Host` error, whatever its message.
pub open spec fn err_is_host<T>(r: Result<T, RuntimeError>) -> bool {
    err_kind(r) matches Some(k) && k is Host
}

/// Whether the result of a call is the given metering points, or the error
/// of the given kind that the metering globals raise.
pub open spec fn points_result_is(
    r: Result<MeteringPoints, RuntimeError>,
    expected: Result<MeteringPoints, WasmErrorInner>,
) -> bool {
    match expected {
        Ok(p) => r == Ok::<MeteringPoints, RuntimeError>(p),
        Err(kind) => r matches Err(e) && is_env_error(e, kind),
    }
}

/// Whether `e` is the error of this kind that reading or writing the
/// metering globals raises: a host error raised by `env_error`.
pub open spec fn is_env_error(e: RuntimeError, kind: WasmErrorInner) -> bool {
    e matches RuntimeError::User(w) && w.file@ == "src/env.rs"@ && w.line == ENV_ERROR_LINE && w.error == kind
}

/// The line of `src/env.rs` that raises the metering globals' errors.
pub const ENV_ERROR_LINE: u32 = 156;

/// The error of this kind that reading or writing the metering globals
/// raises; every such error is raised here, so that decreasing the points
/// hands on the very error reading them gave.
fn env_error(kind: WasmErrorInner) -> (e: RuntimeError)
    ensures
        is_env_error(e, kind),
{
    host_error("src/env.rs", ENV_ERROR_LINE, kind)
}

/// What decreasing the points by `points` leaves in the remaining-points
/// global, and what it returns (or the kind of error it raises). When fewer
/// points are left than asked for, the global is to be zeroed with an `i32`,
/// which an `i64` global refuses, so that request is a `PointerMap` error.
pub open spec fn decreased(exhausted: Option<GlobalState>, remaining: Option<GlobalState>, points: u64) -> (
    Option<GlobalState>,
    Result<MeteringPoints, WasmErrorInner>,
) {
    match points_of(exhausted, remaining) {
        Ok(MeteringPoints::Remaining(left)) => {
            let g = remaining.unwrap();
            if left < points {
                (remaining, Err(WasmErrorInner::PointerMap))
            } else if g.mutable {
                (
                    Some(GlobalState { mutable: true, value: Value::I64((left - points) as i64) }),
                    Ok(MeteringPoints::Remaining((left - points) as u64)),
                )
            } else {
                (remaining, Err(WasmErrorInner::PointerMap))
            }
        },
        other => (remaining, other),
    }
}

impl Env {
    /// An environment with nothing bound yet.
    pub fn new() -> (env: Env)
        ensures
            env.memory is None,
            env.wasmer_metering_points_exhausted is None,
            env.wasmer_metering_remaining_points is None,
    {
        Env { memory: None, wasmer_metering_points_exhausted: None, wasmer_metering_remaining_points: None }
    }

    /// The points the guest has left: `Exhausted` once the exhausted flag
    /// is above zero, else what the remaining-points global holds.
    pub fn get_remaining_points(&self) -> (r: Result<MeteringPoints, RuntimeError>)
        ensures
            points_result_is(
                r,
                points_of(self.wasmer_metering_points_exhausted, self.wasmer_metering_remaining_points),
            ),
    {
        let exhausted: i32 = match &self.wasmer_metering_points_exhausted {
            None => {
                return Err(env_error(WasmErrorInner::Memory));
            },
            Some(g) => match g.value {
                Value::I32(x) => x,
                _ => {
                    return Err(env_error(WasmErrorInner::PointerMap));
                },
            },
        };
        if exhausted > 0 {
            return Ok(MeteringPoints::Exhausted);
        }
        let points: u64 = match &self.wasmer_metering_remaining_points {
            None => {
                return Err(env_error(WasmErrorInner::Memory));
            },
            Some(g) => match g.value {
                Value::I64(p) => p as u64,
                _ => {
                    return Err(env_error(WasmErrorInner::PointerMap));
                },
            },
        };
        Ok(MeteringPoints::Remaining(points))
    }

    /// Sets the points left to `points` and clears the exhausted flag. A
    /// global that is not bound is a `Memory` error; one that cannot take
    /// the value is a `PointerMap` error, and what was set before it stays.
    pub fn set_remaining_points(&mut self, points: u64) -> (r: Result<(), RuntimeError>)
        ensures
            final(self).memory == old(self).memory,
            old(self).wasmer_metering_remaining_points is None ==> (r matches Err(e) && e.kind()
                == Some(WasmErrorInner::Memory)) && *final(self) == *old(self),
            old(self).wasmer_metering_remaining_points matches Some(g) ==> {
                let remaining_ok = g.mutable && g.value is I64;
                &&& !remaining_ok ==> (r matches Err(e) && e.kind() == Some(WasmErrorInner::PointerMap))
                    && *final(self) == *old(self)
                &&& remaining_ok ==> final(self).wasmer_metering_remaining_points == Some(
                    GlobalState { mutable: true, value: Value::I64(points as i64) },
                )
                &&& remaining_ok ==> match old(self).wasmer_metering_points_exhausted {
                    None => (r matches Err(e) && e.kind() == Some(WasmErrorInner::Memory))
                        && final(self).wasmer_metering_points_exhausted is None,
                    Some(x) => if x.mutable && x.value is I32 {
                        r is Ok && final(self).wasmer_metering_points_exhausted == Some(
                            GlobalState { mutable: true, value: Value::I32(0) },
                        )
                    } else {
                        (r matches Err(e) && e.kind() == Some(WasmErrorInner::PointerMap))
                            && final(self).wasmer_metering_points_exhausted == Some(x)
                    },
                }
            },
    {
        match &mut self.wasmer_metering_remaining_points {
            None => {
                return Err(env_error(WasmErrorInner::Memory));
            },
            Some(g) => {
                if g.set(Value::I64(points as i64)).is_err() {
                    return Err(env_error(WasmErrorInner::PointerMap));
                }
            },
        }
        match &mut self.wasmer_metering_points_exhausted {
            None => {
                return Err(env_error(WasmErrorInner::Memory));
            },
            Some(g) => {
                if g.set(Value::I32(0)).is_err() {
                    return Err(env_error(WasmErrorInner::PointerMap));
                }
            },
        }
        Ok(())
    }

    /// Asks the guest's allocator for room for `data`, copies `data` there
    /// and returns the pointer and the length packed together. The guest
    /// must take ownership of the bytes later or they leak. No bound memory
    /// is a `Memory` error; data longer than an `i32` is a `PointerMap`
    /// error; a request the guest's allocator cannot meet (where the guest
    /// would trap) is a `Host` error; room the allocator reserves beyond
    /// `i32::MAX`, where a guest's `i32` pointer cannot point, is a
    /// `PointerMap` error. Nothing changes on any error but these last two
    /// and a failed write, which leave the reserved room behind: the guest
    /// has allocated it by then.
    pub fn move_data_to_guest(&mut self, data: &[u8]) -> (r: Result<GuestPtrLen, RuntimeError>)
        requires
            old(self).memory matches Some(m) ==> m.wf(),
        ensures
            final(self).wasmer_metering_points_exhausted == old(self).wasmer_metering_points_exhausted,
            final(self).wasmer_metering_remaining_points == old(self).wasmer_metering_remaining_points,
            final(self).memory is Some ==> final(self).memory.unwrap().wf(),
            old(self).memory is None ==> err_kind(r) == Some(WasmErrorInner::Memory)
                && final(self).memory is None,
            old(self).memory is Some ==> {
                let m = old(self).memory.unwrap();
                let m2 = final(self).memory.unwrap();
                let len = data@.len() as int;
                let ptr = leak_ptr(m.live(), len);
                let reserved = reserve_content(m.content(), m.live(), len);
                &&& final(self).memory is Some
                &&& len > i32::MAX ==> err_kind(r) == Some(WasmErrorInner::PointerMap) && m2 == m
                &&& len <= i32::MAX && !m.has_room(len) ==> err_is_host(r) && m2 == m
                &&& len <= i32::MAX && m.has_room(len) ==> m2.live() == leak_live(m.live(), len)
                &&& len <= i32::MAX && m.has_room(len) && ptr > i32::MAX ==> err_kind(r) == Some(
                    WasmErrorInner::PointerMap,
                ) && m2.content() == reserved
                &&& len <= i32::MAX && m.has_room(len) && ptr <= i32::MAX && ptr + len > reserved.len() ==> r == Err::<
                    GuestPtrLen,
                    RuntimeError,
                >(RuntimeError::MemoryAccess(MemoryAccessError::HeapOutOfBounds)) && m2.content()
                    == reserved
                &&& len <= i32::MAX && m.has_room(len) && ptr <= i32::MAX && ptr + len <= reserved.len() ==> r == Ok::<
                    GuestPtrLen,
                    RuntimeError,
                >((ptr * 0x1_0000_0000 + len) as u64) && m2.content() == splice(reserved, ptr, data@)
            },
    {
        let memory = match &mut self.memory {
            None => {
                return Err(host_error("src/env.rs", 330, WasmErrorInner::Memory));
            },
            Some(m) => m,
        };
        if data.len() > 0x7fff_ffffusize {
            return Err(host_error("src/env.rs", 335, WasmErrorInner::PointerMap));
        }
        if !memory.has_room_for(data.len()) {
            return Err(host_error("src/env.rs", 338, WasmErrorInner::host(String::from_str("the guest could not allocate"))));
        }
        proof {
            crate::linear_memory::lemma_leak_growth(memory.live(), memory.content(), data@);
        }
        let ptr: usize = memory.reserve(data.len());
        if ptr > 0x7fff_ffffusize {
            return Err(host_error("src/env.rs", 345, WasmErrorInner::PointerMap));
        }
        let guest_ptr: GuestPtr = ptr as u32;
        let len: Len = data.len() as u32;
        match write_bytes(memory, guest_ptr, data) {
            Ok(()) => {},
            Err(e) => {
                return Err(e);
            },
        }
        match merge_u32(guest_ptr, len) {
            Ok(v) => Ok(v),
            Err(e) => Err(RuntimeError::User(e)),
        }
    }

    /// Takes back `len` bytes the guest handed over at `guest_ptr`: copies
    /// them out and asks the guest to free them, whatever the bytes turn out
    /// to decode to. No bound memory, or a range past its end, is a `Memory`
    /// error; a pointer or length beyond an `i32` is a `PointerMap` error;
    /// freeing what is not a live allocation (where the guest would trap) is
    /// a `Host` error; nothing changes on any error.
    pub fn consume_bytes_from_guest(&mut self, guest_ptr: GuestPtr, len: Len) -> (r: Result<Vec<u8>, RuntimeError>)
        requires
            old(self).memory matches Some(m) ==> m.wf(),
        ensures
            final(self).wasmer_metering_points_exhausted == old(self).wasmer_metering_points_exhausted,
            final(self).wasmer_metering_remaining_points == old(self).wasmer_metering_remaining_points,
            final(self).memory is Some ==> final(self).memory.unwrap().wf(),
            old(self).memory is None ==> err_kind(r) == Some(WasmErrorInner::Memory)
                && final(self).memory is None,
            old(self).memory is Some ==> {
                let m = old(self).memory.unwrap();
                let m2 = final(self).memory.unwrap();
                let in_bounds = guest_ptr + len <= m.spec_size();
                let fits = guest_ptr <= i32::MAX && len <= i32::MAX;
                let live = len == 0 || holds_block(m.live(), guest_ptr as int, len as int);
                &&& final(self).memory is Some
                &&& !in_bounds ==> err_kind(r) == Some(WasmErrorInner::Memory)
                &&& in_bounds && !fits ==> err_kind(r) == Some(WasmErrorInner::PointerMap)
                &&& in_bounds && fits && !live ==> err_is_host(r)
                &&& !(in_bounds && fits && live) ==> m2 == m
                &&& in_bounds && fits && live ==> r is Ok && r.unwrap()@ == m.content().subrange(
                    guest_ptr as int,
                    guest_ptr + len,
                ) && m2.content() == m.content()
                &&& in_bounds && fits && live && len == 0 ==> m2.live() == m.live()
                &&& in_bounds && fits && live && len > 0 ==> forall|k: int|
                    0 <= k < m.live().len() && #[trigger] m.live()[k].start == guest_ptr ==> m2.live()
                        == m.live().remove(k)
            },
    {
        let memory = match &mut self.memory {
            None => {
                return Err(host_error("src/env.rs", 399, WasmErrorInner::Memory));
            },
            Some(m) => m,
        };
        let bytes = match read_bytes(memory, guest_ptr, len) {
            Ok(b) => b,
            Err(_) => {
                return Err(host_error("src/env.rs", 406, WasmErrorInner::Memory));
            },
        };
        if guest_ptr > 0x7fff_ffffu32 || len > 0x7fff_ffffu32 {
            return Err(host_error("src/env.rs", 410, WasmErrorInner::PointerMap));
        }
        if !memory.holds_allocation(guest_ptr as usize, len as usize) && len != 0 {
            return Err(host_error("src/env.rs", 413, WasmErrorInner::host(String::from_str("the guest could not deallocate"))));
        }
        memory.free(guest_ptr as usize, len as usize);
        Ok(bytes)
    }

    /// Takes `points` off the points the guest has left and returns what is
    /// left; `Exhausted` or an error from reading the points is returned as
    /// it is, with nothing changed: the very result `get_remaining_points`
    /// gives (an error of the same kind, file and line).
    pub fn decrease_points(&mut self, points: u64) -> (r: Result<MeteringPoints, RuntimeError>)
        ensures
            final(self).memory == old(self).memory,
            final(self).wasmer_metering_points_exhausted == old(self).wasmer_metering_points_exhausted,
            ({
                let (g, expected) = decreased(
                    old(self).wasmer_metering_points_exhausted,
                    old(self).wasmer_metering_remaining_points,
                    points,
                );
                &&& final(self).wasmer_metering_remaining_points == g
                &&& points_result_is(r, expected)
            }),
    {
        match self.get_remaining_points() {
            Ok(MeteringPoints::Remaining(remaining)) => {
                if remaining < points {
                    match &mut self.wasmer_metering_remaining_points {
                        None => {
                            return Err(env_error(WasmErrorInner::Memory));
                        },
                        Some(g) => {
                            if g.set(Value::I32(0)).is_err() {
                                return Err(env_error(WasmErrorInner::PointerMap));
                            }
                        },
                    }
                    Ok(MeteringPoints::Exhausted)
                } else {
                    let left: u64 = remaining - points;
                    match &mut self.wasmer_metering_remaining_points {
                        None => {
                            return Err(env_error(WasmErrorInner::Memory));
                        },
                        Some(g) => {
                            if g.set(Value::I64(left as i64)).is_err() {
                                return Err(env_error(WasmErrorInner::PointerMap));
                            }
                        },
                    }
                    Ok(MeteringPoints::Remaining(left))
                }
            },
            v => v,
        }
    }
}

/// Once points are taken off, reading the points gives what was returned:
/// the points left before, less those taken.
pub proof fn lemma_decrease_then_get(exhausted: Option<GlobalState>, remaining: Option<GlobalState>, points: u64)
    requires
        decreased(exhausted, remaining, points).1 is Ok,
    ensures
        ({
            let (g, r) = decreased(exhausted, remaining, points);
            &&& points_of(exhausted, g) == r
            &&& points_of(exhausted, remaining) matches Ok(MeteringPoints::Remaining(left)) ==> r
                == Ok::<MeteringPoints, WasmErrorInner>(
                MeteringPoints::Remaining((left - points) as u64),
            )
        }),
{
    let (g, r) = decreased(exhausted, remaining, points);
    if let Ok(MeteringPoints::Remaining(left)) = points_of(exhausted, remaining) {
        if left >= points {
            assert(((left - points) as i64) as u64 == (left - points) as u64) by (bit_vector)
                requires
                    left >= points,
            ;
        }
    }
}

/// When the points cannot be decreased because reading them gives
/// `Exhausted` or fails, decreasing returns exactly what reading returns and
/// leaves the remaining-points global alone; in no case does decreasing
/// raise the points left.
pub proof fn lemma_decrease_passes_read_through(
    exhausted: Option<GlobalState>,
    remaining: Option<GlobalState>,
    points: u64,
)
    ensures
        !(points_of(exhausted, remaining) matches Ok(MeteringPoints::Remaining(_))) ==> decreased(
            exhausted,
            remaining,
            points,
        ) == (remaining, points_of(exhausted, remaining)),
        points_of(exhausted, remaining) matches Ok(MeteringPoints::Remaining(left)) ==> (
        decreased(exhausted, remaining, points).1 matches Ok(MeteringPoints::Remaining(now)) ==> now <= left),
{
}

/// Once the points are set, reading them gives them back.
pub proof fn lemma_set_then_get(points: u64)
    ensures
        points_of(
            Some(GlobalState { mutable: true, value: Value::I32(0) }),
            Some(GlobalState { mutable: true, value: Value::I64(points as i64) }),
        ) == Ok::<MeteringPoints, WasmErrorInner>(MeteringPoints::Remaining(points)),
{
    assert((points as i64) as u64 == points) by (bit_vector);
}

/// What the host moves into the guest it can consume back: the move
/// succeeds, and consuming the range it returned gives the data back and
/// leaves the guest's live allocations as they were. This holds wherever the
/// reserved range starts at or below `i32::MAX`, as the guest's pointers
/// must; elsewhere the move itself fails.
pub proof fn lemma_move_then_consume(m: LinearMemory, data: Seq<u8>)
    requires
        m.wf(),
        0 < data.len() <= i32::MAX,
        m.has_room(data.len() as int),
        leak_ptr(m.live(), data.len() as int) <= i32::MAX,
    ensures
        ({
            let len = data.len() as int;
            let ptr = leak_ptr(m.live(), len);
            let reserved = reserve_content(m.content(), m.live(), len);
            let content = splice(reserved, ptr, data);
            let live = leak_live(m.live(), len);
            &&& ptr + len <= reserved.len()
            &&& ptr + len <= content.len()
            &&& holds_block(live, ptr, len)
            &&& content.subrange(ptr, ptr + len) == data
            &&& forall|k: int| 0 <= k < live.len() && #[trigger] live[k].start == ptr ==> live.remove(k) == m.live()
        }),
{
    let len = data.len() as int;
    crate::linear_memory::lemma_leak_growth(m.live(), m.content(), data);
    crate::linear_memory::lemma_leak_then_reclaim(m.live(), m.spec_size(), m.content(), data);
    let ptr = leak_ptr(m.live(), len);
    let reserved = reserve_content(m.content(), m.live(), len);
    assert(splice(reserved, ptr, data).subrange(ptr, ptr + len) =~= data);
}

} // verus!
