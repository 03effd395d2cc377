use holochain_wasmer::wasms::{BuiltWasms, TestWasm};

#[test]
fn every_module_has_a_distinct_key() {
    let all = [TestWasm::Empty, TestWasm::Io, TestWasm::Test, TestWasm::Memory];
    let mut keys = Vec::new();
    for wasm in all {
        for metered in [false, true] {
            keys.push(wasm.key(metered));
        }
    }
    for i in 0..keys.len() {
        assert_eq!(keys[i], [i as u8; 32]);
        for j in 0..i {
            assert_ne!(keys[i], keys[j]);
        }
    }
}

#[test]
fn names_and_files() {
    assert_eq!(TestWasm::Empty.name(), "empty");
    assert_eq!(TestWasm::Io.name(), "io");
    assert_eq!(TestWasm::Test.name(), "test");
    assert_eq!(TestWasm::Memory.name(), "memory");
    assert_eq!(TestWasm::Test.file_name(), "test_wasm.wasm");
    assert_eq!(TestWasm::Memory.file_name(), "test_wasm_memory.wasm");
}

#[test]
fn bytes_picks_the_module() {
    let built = BuiltWasms { empty: vec![0], io: vec![1], test: vec![2], memory: vec![3] };
    assert_eq!(TestWasm::Empty.bytes(&built), &[0]);
    assert_eq!(TestWasm::Io.bytes(&built), &[1]);
    assert_eq!(TestWasm::Test.bytes(&built), &[2]);
    assert_eq!(TestWasm::Memory.bytes(&built), &[3]);
}
