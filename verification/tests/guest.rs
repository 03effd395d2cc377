use holochain_wasmer::guest::{host_call_input, host_call_output, return_err_ptr_step, return_ptr, ErrPtrStep};
use holochain_wasmer::linear_memory::LinearMemory;
use holochain_wasmer::numeric::split_usize;
use holochain_wasmer::result::WasmErrorInner;

#[test]
fn return_ptr_packs_pointer_and_length() {
    let mut memory = LinearMemory::new();
    let packed = return_ptr(&mut memory, vec![0xa3, b'f', b'o', b'o']);
    let (ptr, len) = split_usize(packed).unwrap();
    assert_eq!((ptr, len), (8, 4));
    assert_eq!(memory.bytes_at(ptr, len), vec![0xa3, b'f', b'o', b'o']);
}

#[test]
fn return_err_ptr_falls_back_twice_then_gives_up() {
    assert!(matches!(return_err_ptr_step(0, Ok(vec![1, 2])), ErrPtrStep::Write(b) if b == vec![1, 2]));
    let failure = || holochain_serialized_bytes::decode::<[u8], String>(&[0xc1][..]).unwrap_err();
    match return_err_ptr_step(0, Err(failure())) {
        ErrPtrStep::Encode(e) => assert!(matches!(e.error, WasmErrorInner::Serialize(_))),
        _ => panic!("expected a Serialize error to encode"),
    }
    match return_err_ptr_step(1, Err(failure())) {
        ErrPtrStep::Encode(e) => assert_eq!(e.error, WasmErrorInner::ErrorWhileError),
        _ => panic!("expected an ErrorWhileError to encode"),
    }
    assert!(matches!(return_err_ptr_step(2, Err(failure())), ErrPtrStep::GiveUp));
}

#[test]
fn host_call_hands_over_input_and_takes_back_output() {
    let mut memory = LinearMemory::new();
    let (input_ptr, input_len) = host_call_input(&mut memory, vec![1, 2, 3]);
    assert_eq!((input_ptr, input_len), (8, 3));
    // the host frees the input and leaves its output in the guest
    let _ = holochain_wasmer::guest_allocation::consume_bytes(&mut memory, input_ptr, input_len);
    let out_ptr = holochain_wasmer::guest_allocation::write_bytes(&mut memory, vec![9, 9]);
    let returned = ((out_ptr as u128) << usize::BITS) | 2;
    assert_eq!(host_call_output(&mut memory, returned).unwrap(), vec![9, 9]);
    assert!(!memory.holds_allocation(out_ptr, 2));
    assert_eq!(host_call_output(&mut memory, 0).unwrap(), Vec::<u8>::new());
}
