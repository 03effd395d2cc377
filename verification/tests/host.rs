use holochain_wasmer::error::Error;
use holochain_wasmer::guest_call::{guest_call_argument, guest_call_result};
use holochain_wasmer::allocation::{allocate, from_allocation_ptr, to_allocation_ptr};
use holochain_wasmer::bytes;
use holochain_wasmer::guest_map::map_bytes;
use holochain_wasmer::host_allocation::{copy_allocation_to_guest, write_to_guest as write_allocation_to_guest};
use holochain_wasmer::host_bytes::{
    copy_string_to_guest, host_copy_string, read_from_guest, read_from_guest_using_allocation_ptr,
    read_guest_bytes, read_guest_bytes_from_allocation_ptr, write_to_guest, write_to_guest_using_host_allocation_ptr,
};
use holochain_wasmer::host_error::RuntimeError;
use holochain_wasmer::host_guest::{from_guest_ptr, read_bytes, write_bytes};
use holochain_wasmer::linear_memory::{LinearMemory, MemoryAccessError};

#[test]
fn host_copies_bytes_into_and_out_of_the_guest() {
    let mut guest = LinearMemory::with_pages(1);
    write_to_guest(&mut guest, 100, vec![1, 2, 3]);
    assert_eq!(read_from_guest(&guest, 100, 3), vec![1, 2, 3]);
    assert_eq!(read_guest_bytes(&guest, 99, 5), vec![0, 1, 2, 3, 0]);
    copy_string_to_guest(&mut guest, 200, "héllo".to_string());
    assert_eq!(read_from_guest(&guest, 200, 6), "héllo".as_bytes().to_vec());
}

#[test]
fn host_follows_allocation_pointers() {
    let mut host = LinearMemory::new();
    let host_allocation_ptr = bytes::to_allocation_ptr(&mut host, vec![5, 6, 7, 8]);

    let mut guest = LinearMemory::new();
    let guest_allocation_ptr = allocate(&mut guest, 16);
    copy_allocation_to_guest(&mut guest, guest_allocation_ptr, &host, host_allocation_ptr);
    assert_eq!(from_allocation_ptr(&guest, guest_allocation_ptr), from_allocation_ptr(&host, host_allocation_ptr));
    write_allocation_to_guest(&mut guest, guest_allocation_ptr, &host, host_allocation_ptr);
    assert_eq!(from_allocation_ptr(&guest, guest_allocation_ptr), from_allocation_ptr(&host, host_allocation_ptr));

    let guest_bytes_ptr = allocate(&mut guest, 4);
    write_to_guest_using_host_allocation_ptr(&mut guest, &host, host_allocation_ptr, guest_bytes_ptr);
    assert_eq!(read_from_guest(&guest, guest_bytes_ptr, 4), vec![5, 6, 7, 8]);

    let guest_ptr = to_allocation_ptr(&mut guest, [guest_bytes_ptr, 4]);
    assert_eq!(read_from_guest_using_allocation_ptr(&guest, guest_ptr).unwrap(), vec![5, 6, 7, 8]);
    assert_eq!(read_guest_bytes_from_allocation_ptr(&guest, guest_ptr).unwrap(), vec![5, 6, 7, 8]);
}

#[test]
fn host_copy_string_lands_in_the_guest() {
    let mut host = LinearMemory::new();
    let mut guest = LinearMemory::with_pages(1);
    let host_allocation_ptr = holochain_wasmer::string::to_allocation_ptr(&mut host, String::from("foo"));
    host_copy_string(&mut guest, &host, host_allocation_ptr, 300);
    assert_eq!(read_from_guest(&guest, 300, 3), b"foo".to_vec());
}

#[test]
fn map_bytes_copies_the_host_allocation() {
    let mut host = LinearMemory::new();
    let host_allocation_ptr = bytes::to_allocation_ptr(&mut host, b"some bytes".to_vec());
    let mut guest = LinearMemory::new();
    let _ = allocate(&mut guest, 40);
    let guest_allocation_ptr = map_bytes(&mut guest, &host, host_allocation_ptr);
    assert_eq!(bytes::from_allocation_ptr(&guest, guest_allocation_ptr), b"some bytes".to_vec());
    let empty = bytes::to_allocation_ptr(&mut host, vec![]);
    let mapped = map_bytes(&mut guest, &host, empty);
    assert_eq!(bytes::from_allocation_ptr(&guest, mapped), Vec::<u8>::new());
}

#[test]
fn guest_memory_access_checks_bounds() {
    let mut guest = LinearMemory::with_pages(1);
    assert_eq!(write_bytes(&mut guest, 65534, &[1, 2]), Ok(()));
    assert_eq!(read_bytes(&guest, 65534, 2), Ok(vec![1, 2]));
    assert_eq!(from_guest_ptr(&guest, 65534, 2), Ok(vec![1, 2]));
    assert_eq!(
        write_bytes(&mut guest, 65535, &[1, 2]),
        Err(RuntimeError::MemoryAccess(MemoryAccessError::HeapOutOfBounds))
    );
    assert_eq!(read_bytes(&guest, 65535, 2), Err(MemoryAccessError::HeapOutOfBounds));
    assert_eq!(
        from_guest_ptr(&guest, u32::MAX, 2),
        Err(RuntimeError::MemoryAccess(MemoryAccessError::HeapOutOfBounds))
    );
}

#[test]
fn guest_call_by_allocation_pointers() {
    let mut host = LinearMemory::new();
    let argument = guest_call_argument(&mut host, b"payload".to_vec()).unwrap();
    assert_eq!(bytes::from_allocation_ptr(&host, argument as u64), b"payload".to_vec());

    let mut guest = LinearMemory::new();
    let answer = bytes::to_allocation_ptr(&mut guest, "foo bar".as_bytes().to_vec());
    assert_eq!(guest_call_result(&guest, answer as i64), Ok("foo bar".to_string()));
    let not_utf8 = bytes::to_allocation_ptr(&mut guest, vec![0xff, 0xfe]);
    assert_eq!(guest_call_result(&guest, not_utf8 as i64), Err(Error::Utf8));
}
