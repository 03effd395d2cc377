use holochain_wasmer::host_env::{allocated_guest_ptr, consumed_bytes, deallocate_args, moved_data, read_result, written, HostEnv};
use holochain_wasmer::module_build::built_module;
use holochain_wasmer::host_error::RuntimeError;
use holochain_wasmer::linear_memory::MemoryAccessError;
use holochain_wasmer::result::WasmErrorInner;

fn kind<T: std::fmt::Debug>(r: Result<T, RuntimeError>) -> WasmErrorInner {
    match r {
        Err(RuntimeError::User(e)) => e.error,
        other => panic!("not a user error: {:?}", other),
    }
}

#[test]
fn new_env_binds_nothing() {
    let env = HostEnv::new();
    assert!(env.memory.is_none());
    assert!(env.allocate.is_none());
    assert!(env.deallocate.is_none());
    assert!(env.wasmer_metering_points_exhausted.is_none());
    assert!(env.wasmer_metering_remaining_points.is_none());
}

#[test]
fn outcomes_of_the_guest_calls() {
    assert_eq!(allocated_guest_ptr(Ok(1024)), Ok(1024));
    assert_eq!(kind(allocated_guest_ptr(Ok(-1))), WasmErrorInner::PointerMap);
    assert_eq!(kind(allocated_guest_ptr(Err("trap".into()))), WasmErrorInner::Host("trap".into()));
    assert_eq!(moved_data(1024, 3, Ok(())), Ok((1024 << 32) | 3));
    assert_eq!(
        moved_data(1024, 3, Err(MemoryAccessError::HeapOutOfBounds)),
        Err(RuntimeError::MemoryAccess(MemoryAccessError::HeapOutOfBounds))
    );
    assert_eq!(deallocate_args(7, 8), Ok((7, 8)));
    assert_eq!(kind(deallocate_args(u32::MAX, 8)), WasmErrorInner::PointerMap);
    assert_eq!(consumed_bytes(vec![1], Ok(())), Ok(vec![1]));
    assert_eq!(kind(consumed_bytes(vec![1], Err("trap".into()))), WasmErrorInner::Host("trap".into()));
}

#[test]
fn outcomes_of_a_write() {
    assert_eq!(written(Some(Ok(()))), Ok(()));
    assert_eq!(
        written(Some(Err(MemoryAccessError::UnalignedPointerRead))),
        Err(RuntimeError::MemoryAccess(MemoryAccessError::UnalignedPointerRead))
    );
    assert_eq!(kind(written(None)), WasmErrorInner::Memory);
}

#[test]
fn a_refused_compile_is_a_module_build_error() {
    match built_module(Err("unexpected end of section".to_string())) {
        Err(e) => assert_eq!(e.error, WasmErrorInner::ModuleBuild("unexpected end of section".into())),
        Ok(_) => panic!("a refused compile gave a module"),
    }
}

#[test]
fn outcomes_of_a_read() {
    assert_eq!(read_result(&Some(Ok(vec![1, 2, 3]))), Ok(vec![1, 2, 3]));
    assert_eq!(
        read_result(&Some(Err(MemoryAccessError::HeapOutOfBounds))),
        Err(RuntimeError::MemoryAccess(MemoryAccessError::HeapOutOfBounds))
    );
    assert_eq!(kind(read_result(&None)), WasmErrorInner::Memory);
}
