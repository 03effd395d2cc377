use holochain_wasmer::guest_allocation::{__allocate, __deallocate, consume_bytes, write_bytes};
use holochain_wasmer::linear_memory::LinearMemory;

fn round_trip_allocation(memory: &mut LinearMemory, bytes: Vec<u8>) {
    let guest_ptr = write_bytes(memory, bytes.clone());
    let bytes_round = consume_bytes(memory, guest_ptr, bytes.len());

    assert_eq!(bytes, bytes_round);
}

fn alloc_dealloc(memory: &mut LinearMemory, len: usize) {
    let ptr = __allocate(memory, len);
    __deallocate(memory, ptr, len);
}

#[test]
fn round_trip_5_5() {
    let mut memory = LinearMemory::new();
    let guest_ptr = write_bytes(&mut memory, vec![1, 2, 3, 4, 5]);
    let bytes_round = consume_bytes(&mut memory, guest_ptr, 5);

    assert_eq!(bytes_round, vec![1, 2, 3, 4, 5]);
}

#[test]
fn some_round_trip_allocation() {
    let mut memory = LinearMemory::new();
    round_trip_allocation(&mut memory, vec![1, 2, 3]);
}

#[test]
fn some_alloc_dealloc() {
    let mut memory = LinearMemory::new();
    alloc_dealloc(&mut memory, 1_000_000_000_usize);
}

#[test]
fn round_trip_empty_and_repeated() {
    let mut memory = LinearMemory::new();
    round_trip_allocation(&mut memory, vec![]);
    round_trip_allocation(&mut memory, vec![9; 100]);
    round_trip_allocation(&mut memory, vec![7; 70_000]);
}

#[test]
fn consumed_bytes_are_free_again() {
    let mut memory = LinearMemory::new();
    let first = write_bytes(&mut memory, vec![1, 2, 3]);
    let _ = consume_bytes(&mut memory, first, 3);
    let second = write_bytes(&mut memory, vec![4, 5, 6]);
    assert_eq!(first, second);
    assert_eq!(memory.bytes_at(second, 3), vec![4, 5, 6]);
}

#[test]
fn allocate_grows_by_whole_pages() {
    let mut memory = LinearMemory::new();
    let ptr = __allocate(&mut memory, 65536);
    assert_eq!(ptr, 8);
    assert_eq!(memory.pages(), 2);
    __deallocate(&mut memory, ptr, 65536);
    assert!(!memory.holds_allocation(ptr, 65536));
    assert_eq!(memory.pages(), 2);
}

#[test]
fn bytes_round_trip() {
    let mut memory = LinearMemory::new();
    let mut old_pages = memory.pages();
    let mut current_pages = old_pages;

    // thrash this more times than there are bytes in a wasm page so that if even one byte leaks
    // we will see it in the page count
    for i in 0..70_000 {
        let bytes: Vec<[u8; 5]> = std::iter::repeat([1, 2, 3, 4, 5]).take(100).collect();

        let ptrs: Vec<usize> = bytes.iter().map(|b| write_bytes(&mut memory, b.to_vec())).collect();

        for i in 0..ptrs.len() {
            // consuming the bytes should give a vector of the same bytes as those written
            assert_eq!(bytes[i].to_vec(), consume_bytes(&mut memory, ptrs[i], 5));
        }

        // if we forget to deallocate properly then the number of allocated pages will grow
        old_pages = current_pages;
        current_pages = memory.pages();
        if i > 0 {
            assert_eq!(old_pages, current_pages);
        }
    }
}

#[test]
fn batch_leaked_again_reuses_the_same_blocks() {
    let mut memory = LinearMemory::new();
    let batch: Vec<Vec<u8>> = vec![vec![1, 2, 3], vec![4; 70_000], vec![5, 6], vec![7; 10]];

    let first: Vec<usize> = batch.iter().map(|b| write_bytes(&mut memory, b.clone())).collect();
    let pages = memory.pages();
    for (ptr, b) in first.iter().zip(batch.iter()) {
        assert_eq!(b.clone(), consume_bytes(&mut memory, *ptr, b.len()));
    }

    let other: Vec<Vec<u8>> = batch.iter().map(|b| vec![9; b.len()]).collect();
    let second: Vec<usize> = other.iter().map(|b| write_bytes(&mut memory, b.clone())).collect();
    assert_eq!(first, second);
    assert_eq!(pages, memory.pages());
}
