use holochain_wasmer::env::{Env, GlobalState, MeteringPoints, Value};
use holochain_wasmer::host_error::RuntimeError;
use holochain_wasmer::linear_memory::{LinearMemory, MemoryAccessError};
use holochain_wasmer::result::WasmErrorInner;

fn kind<T: std::fmt::Debug>(r: Result<T, RuntimeError>) -> WasmErrorInner {
    match r {
        Err(RuntimeError::User(e)) => e.error,
        other => panic!("not a user error: {:?}", other),
    }
}

fn metered_env(points: i64) -> Env {
    let mut env = Env::new();
    env.wasmer_metering_points_exhausted = Some(GlobalState { mutable: true, value: Value::I32(0) });
    env.wasmer_metering_remaining_points = Some(GlobalState { mutable: true, value: Value::I64(points) });
    env
}

#[test]
fn unbound_globals_are_memory_errors() {
    let mut env = Env::new();
    assert_eq!(kind(env.get_remaining_points()), WasmErrorInner::Memory);
    assert_eq!(kind(env.set_remaining_points(5)), WasmErrorInner::Memory);
    assert_eq!(kind(env.decrease_points(5)), WasmErrorInner::Memory);
}

#[test]
fn decrease_points_test() {
    let mut env = metered_env(10_000_000_000);
    let dec_by = 1_000_000_u64;
    let before_decrease = match env.get_remaining_points().unwrap() {
        MeteringPoints::Remaining(p) => p,
        MeteringPoints::Exhausted => unreachable!(),
    };
    let after_decrease = match env.decrease_points(dec_by).unwrap() {
        MeteringPoints::Remaining(p) => p,
        MeteringPoints::Exhausted => unreachable!(),
    };
    assert!(before_decrease - after_decrease == dec_by);
    assert_eq!(env.get_remaining_points().unwrap(), MeteringPoints::Remaining(after_decrease));
}

#[test]
fn decreasing_past_zero_is_refused() {
    let mut env = metered_env(10);
    assert_eq!(kind(env.decrease_points(11)), WasmErrorInner::PointerMap);
    assert_eq!(env.get_remaining_points().unwrap(), MeteringPoints::Remaining(10));
}

#[test]
fn set_then_get_remaining_points() {
    let mut env = metered_env(3);
    env.wasmer_metering_points_exhausted = Some(GlobalState { mutable: true, value: Value::I32(1) });
    assert_eq!(env.get_remaining_points().unwrap(), MeteringPoints::Exhausted);
    assert_eq!(env.decrease_points(1).unwrap(), MeteringPoints::Exhausted);
    env.set_remaining_points(42).unwrap();
    assert_eq!(env.get_remaining_points().unwrap(), MeteringPoints::Remaining(42));
}

#[test]
fn wrongly_typed_globals_are_pointer_map_errors() {
    let mut env = metered_env(3);
    env.wasmer_metering_remaining_points = Some(GlobalState { mutable: true, value: Value::I32(3) });
    assert_eq!(kind(env.get_remaining_points()), WasmErrorInner::PointerMap);
    assert_eq!(kind(env.set_remaining_points(1)), WasmErrorInner::PointerMap);
    let mut frozen = metered_env(3);
    frozen.wasmer_metering_remaining_points = Some(GlobalState { mutable: false, value: Value::I64(3) });
    assert_eq!(kind(frozen.decrease_points(1)), WasmErrorInner::PointerMap);
}

#[test]
fn global_set_keeps_the_type() {
    let mut g = GlobalState { mutable: true, value: Value::I64(1) };
    assert!(g.set(Value::I32(0)).is_err());
    assert_eq!(g.value, Value::I64(1));
    assert!(g.set(Value::I64(9)).is_ok());
    assert_eq!(g.value, Value::I64(9));
}

#[test]
fn move_data_then_consume_bytes() {
    let mut env = Env::new();
    assert_eq!(kind(env.move_data_to_guest(&[1, 2, 3])), WasmErrorInner::Memory);
    env.memory = Some(LinearMemory::new());
    let packed = env.move_data_to_guest(&[1, 2, 3]).unwrap();
    let ptr = (packed >> 32) as u32;
    let len = (packed & 0xffff_ffff) as u32;
    assert_eq!((ptr, len), (8, 3));
    assert_eq!(env.consume_bytes_from_guest(ptr, len).unwrap(), vec![1, 2, 3]);
    // freed: a second consume of the same bytes is refused by the guest
    assert!(matches!(kind(env.consume_bytes_from_guest(ptr, len)), WasmErrorInner::Host(_)));
    // reaching past the memory is a memory error
    assert_eq!(kind(env.consume_bytes_from_guest(u32::MAX - 1, 2)), WasmErrorInner::Memory);
}

#[test]
fn consuming_nothing_is_nothing() {
    let mut env = Env::new();
    env.memory = Some(LinearMemory::new());
    assert_eq!(env.consume_bytes_from_guest(0, 0).unwrap(), Vec::<u8>::new());
}

#[test]
fn memory_accesses_stop_at_the_end() {
    let mut memory = LinearMemory::with_pages(1);
    assert_eq!(memory.write(65535, &[7]), Ok(()));
    assert_eq!(memory.write(65535, &[7, 8]), Err(MemoryAccessError::HeapOutOfBounds));
    assert_eq!(memory.read(65535, 1).unwrap(), vec![7]);
    assert_eq!(memory.read(65535, 2), Err(MemoryAccessError::HeapOutOfBounds));
}
