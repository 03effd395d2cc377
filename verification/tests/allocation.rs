use holochain_wasmer::allocate::{allocate_allocation_ptr, string_allocation_ptr};
use holochain_wasmer::allocation::{
    allocate, deallocate, decode_allocation_bytes, encode_allocation, from_allocation_ptr, take_allocation,
    to_allocation_ptr, Allocation, AllocationPtr, Len, Ptr,
};
use holochain_wasmer::bytes;
use holochain_wasmer::linear_memory::LinearMemory;
use holochain_wasmer::string;

#[test]
fn allocation_allocate_allocation_ptr_test() {
    let mut memory = LinearMemory::new();
    let some_ptr = 50 as Ptr;
    let some_len = 100 as Len;

    let allocation_ptr = to_allocation_ptr(&mut memory, [some_ptr, some_len]);

    let restored_allocation: Allocation = take_allocation(&mut memory, allocation_ptr);

    assert_eq!([some_ptr, some_len], restored_allocation,);
}

#[test]
fn dellocate_test() {
    let mut memory = LinearMemory::new();
    let len = 3 as Len;

    let ptr = allocate(&mut memory, len);

    deallocate(&mut memory, ptr, len);

    let some_vec: Vec<u8> = vec![1_u8, 10_u8, 100_u8];
    let some_vec_ptr = memory.leak(some_vec.clone()) as Ptr;

    // the new vec takes the place of the first allocation after we deallocate
    assert_eq!(ptr, some_vec_ptr);

    // the same sized slice at the same pointer now looks like some_vec
    assert_eq!(memory.bytes_at(ptr as usize, len as usize), some_vec);
}

#[test]
fn allocation_ptr_round_trip() {
    let mut memory = LinearMemory::new();
    let allocation: Allocation = [1, 2];
    let allocation_ptr: AllocationPtr = to_allocation_ptr(&mut memory, allocation);

    // can peek without any deallocations
    assert_eq!(from_allocation_ptr(&memory, allocation_ptr), [1, 2],);
    assert_eq!(from_allocation_ptr(&memory, allocation_ptr), [1, 2],);

    // can round trip back
    let returned_allocation: Allocation = take_allocation(&mut memory, allocation_ptr);

    assert_eq!(returned_allocation, [1, 2]);

    // round tripping above deallocates the first allocation, so the next
    // allocation takes its place
    let _ = to_allocation_ptr(&mut memory, [3, 4]);
    assert_ne!(from_allocation_ptr(&memory, allocation_ptr), [1, 2]);
}

#[test]
fn allocation_serialized_bytes_from_allocation_test() {
    let mut memory = LinearMemory::new();
    let foo = String::from("foo");
    let foo_sb: Vec<u8> = holochain_serialized_bytes::encode(&foo).unwrap();
    let foo_sb_clone = foo_sb.clone();

    let ptr: AllocationPtr = bytes::to_allocation_ptr(&mut memory, foo_sb);

    let allocation: Allocation = from_allocation_ptr(&memory, ptr);
    let inner_bytes: Vec<u8> = memory.bytes_at(allocation[0] as usize, allocation[1] as usize);
    assert_eq!(inner_bytes, foo_sb_clone);

    let recovered_foo_sb: Vec<u8> = bytes::from_allocation_ptr(&memory, ptr);

    // taking the allocation back frees it for the next one
    let _ = take_allocation(&mut memory, ptr);
    let _ = to_allocation_ptr(&mut memory, [0, 0]);
    assert_ne!(from_allocation_ptr(&memory, ptr), allocation);

    assert_eq!(foo_sb_clone, recovered_foo_sb);

    let recovered_foo: String = holochain_serialized_bytes::decode(&recovered_foo_sb).unwrap();
    assert_eq!(foo, recovered_foo);
}

#[test]
fn serialized_bytes_serialized_bytes_from_allocation_test() {
    let mut memory = LinearMemory::new();
    let foo = String::from("foo");
    let foo_sb: Vec<u8> = holochain_serialized_bytes::encode(&foo).unwrap();

    let ptr: AllocationPtr = bytes::to_allocation_ptr(&mut memory, foo_sb.clone());
    let recovered_foo_sb: Vec<u8> = bytes::from_allocation_ptr(&memory, ptr);

    assert_eq!(foo_sb, recovered_foo_sb);

    let recovered_foo: String = holochain_serialized_bytes::decode(&recovered_foo_sb).unwrap();

    assert_eq!(foo, recovered_foo);
}

#[test]
fn bytes_from_allocation_test() {
    let mut memory = LinearMemory::new();
    let some_string = String::from("foo");

    let ptr = bytes::to_allocation_ptr(&mut memory, some_string.clone().into_bytes());
    let recovered_bytes = bytes::from_allocation_ptr(&memory, ptr);
    let recovered_string = String::from(std::str::from_utf8(&recovered_bytes).expect("bad utf8"));

    assert_eq!(some_string, recovered_string,);
}

#[test]
fn string_from_allocation_test() {
    let mut memory = LinearMemory::new();
    let some_string = String::from("foo");

    let ptr = string::to_allocation_ptr(&mut memory, some_string.clone());
    let recovered_string = string::from_allocation_ptr(&memory, ptr);

    assert_eq!(some_string, recovered_string,);
}

#[test]
fn allocation_is_sixteen_little_endian_bytes() {
    let bytes = encode_allocation([0x0102, 3]);
    assert_eq!(bytes, vec![2, 1, 0, 0, 0, 0, 0, 0, 3, 0, 0, 0, 0, 0, 0, 0]);
    assert_eq!(decode_allocation_bytes(&bytes), [0x0102, 3]);
}

#[test]
fn first_allocation_lands_above_the_heap_base() {
    let mut memory = LinearMemory::new();
    let ptr = allocate(&mut memory, 10);
    assert_eq!(ptr, 8);
    assert_eq!(memory.size(), 65536);
    let next = allocate(&mut memory, 4);
    assert_eq!(next, 18);
}

#[test]
fn empty_allocation_is_dangling() {
    let mut memory = LinearMemory::new();
    assert_eq!(allocate(&mut memory, 0), 1);
    assert_eq!(memory.size(), 0);
}

#[test]
fn allocate_allocation_ptr_stores_the_pair() {
    let mut memory = LinearMemory::new();
    let ptr = allocate_allocation_ptr(&mut memory, 77, 12);
    assert_eq!(from_allocation_ptr(&memory, ptr), [77, 12]);
}

#[test]
fn string_allocation_ptr_round_trips() {
    let mut memory = LinearMemory::new();
    let s = String::from("╰▐ ✖ 〜 ✖ ▐╯");
    let ptr = string_allocation_ptr(&mut memory, s.clone());
    assert_eq!(string::from_allocation_ptr(&memory, ptr), s);
    assert_eq!(bytes::from_allocation_ptr(&memory, ptr), s.into_bytes());
}
