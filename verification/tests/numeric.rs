use holochain_wasmer::numeric::{merge_u32, merge_u64, merge_usize, split_u128, split_u64, split_usize};

#[test]
fn round_trip_u32() {
    for (a, b) in [
        (0, 0),
        (0, 1),
        (1, 0),
        (1, u32::MAX),
        (u32::MAX, 1),
        (u32::MAX, u32::MAX),
        (0xdead_beef, 0xcafe_d00d),
    ] {
        let (out_a, out_b) = split_u64(merge_u32(a, b).unwrap()).unwrap();
        assert_eq!(a, out_a);
        assert_eq!(b, out_b);
    }
}

#[test]
fn round_trip_u64() {
    for (a, b) in [
        (0, 0),
        (0, 1),
        (1, 0),
        (1, u64::MAX),
        (u64::MAX, 1),
        (u64::MAX, u64::MAX),
        (0xdead_beef_dead_beef, 0xcafe_d00d_cafe_d00d),
    ] {
        let (out_a, out_b) = split_u128(merge_u64(a, b).unwrap()).unwrap();
        assert_eq!(a, out_a);
        assert_eq!(b, out_b);
    }
}

#[test]
fn round_trip_usize() {
    for (a, b) in [
        (0, 0),
        (0, 1),
        (1, 0),
        (1, usize::MAX),
        (usize::MAX, 1),
        (usize::MAX, usize::MAX),
    ] {
        let (out_a, out_b) = split_usize(merge_usize(a, b).unwrap()).unwrap();
        assert_eq!(a, out_a);
        assert_eq!(b, out_b);
    }
}

#[test]
fn merge_puts_the_first_value_high() {
    assert_eq!(merge_u32(1, 2).unwrap(), 0x0000_0001_0000_0002);
    assert_eq!(merge_u64(3, 4).unwrap(), (3u128 << 64) | 4);
    assert_eq!(merge_usize(5, 6).unwrap(), (5u128 << usize::BITS) | 6);
}

#[test]
fn split_takes_the_high_value_first() {
    assert_eq!(split_u64(0x1234_5678_9abc_def0).unwrap(), (0x1234_5678, 0x9abc_def0));
    assert_eq!(split_u128(u128::MAX).unwrap(), (u64::MAX, u64::MAX));
    assert_eq!(split_usize(7).unwrap(), (0, 7));
}
