//! Packing two integers into one of twice the width, and the inverse.

use crate::result::{WasmError, WasmErrorInner};
use crate::DoubleUSize;
use vstd::prelude::*;

verus! {

/// `a` in the high 64 bits, `b` in the low 64 bits.
pub fn merge_u64(a: u64, b: u64) -> (r: Result<u128, WasmError>)
    ensures
        r matches Ok(v) && v == a * 0x1_0000_0000_0000_0000 + b,
{
    let v: u128 = ((a as u128) << 64u128) | (b as u128);
    assert(((a as u128) << 64u128) | (b as u128) == a * 0x1_0000_0000_0000_0000 + b) by (bit_vector);
    Ok(v)
}

/// `a` in the high 32 bits, `b` in the low 32 bits.
pub fn merge_u32(a: u32, b: u32) -> (r: Result<u64, WasmError>)
    ensures
        r matches Ok(v) && v == a * 0x1_0000_0000 + b,
{
    let v: u64 = ((a as u64) << 32u64) | (b as u64);
    assert(((a as u64) << 32u64) | (b as u64) == a * 0x1_0000_0000 + b) by (bit_vector);
    Ok(v)
}

/// The high and the low 64 bits of `u`.
pub fn split_u128(u: u128) -> (r: Result<(u64, u64), WasmError>)
    ensures
        r matches Ok((a, b)) && a == u / 0x1_0000_0000_0000_0000 && b == u % 0x1_0000_0000_0000_0000,
{
    let hi: u128 = u >> 64u128;
    let lo: u128 = u & 0xffff_ffff_ffff_ffffu128;
    assert(u >> 64u128 == u / 0x1_0000_0000_0000_0000) by (bit_vector);
    assert(u & 0xffff_ffff_ffff_ffffu128 == u % 0x1_0000_0000_0000_0000) by (bit_vector);
    Ok((hi as u64, lo as u64))
}

/// The high and the low 32 bits of `u`.
pub fn split_u64(u: u64) -> (r: Result<(u32, u32), WasmError>)
    ensures
        r matches Ok((a, b)) && a == u / 0x1_0000_0000 && b == u % 0x1_0000_0000,
{
    let hi: u64 = u >> 32u64;
    let lo: u64 = u & 0xffff_ffffu64;
    assert(u >> 32u64 == u / 0x1_0000_0000) by (bit_vector);
    assert(u & 0xffff_ffffu64 == u % 0x1_0000_0000) by (bit_vector);
    Ok((hi as u32, lo as u32))
}

/// 2 to the number of bits in a `usize`: multiplying by it moves a `usize`
/// into the high half of a `DoubleUSize`.
pub open spec fn usize_radix() -> int {
    usize::MAX as int + 1
}

/// Two `usize` values packed into one `DoubleUSize`: `a` shifted up by the
/// width of a `usize`, `b` in the low bits.
pub fn merge_usize(a: usize, b: usize) -> (r: Result<DoubleUSize, WasmError>)
    ensures
        r matches Ok(v) && v == a * usize_radix() + b,
{
    let v: u128 = ((a as u128) << usize::BITS) | (b as u128);
    proof {
        let (x, y) = (a as u128, b as u128);
        if usize::BITS == 64 {
            assert(usize::MAX == 0xffff_ffff_ffff_ffff);
            assert((x << 64u32) | y == x * 0x1_0000_0000_0000_0000 + y) by (bit_vector)
                requires
                    x <= 0xffff_ffff_ffff_ffff,
                    y <= 0xffff_ffff_ffff_ffff,
            ;
        } else {
            assert(usize::BITS == 32);
            assert(usize::MAX == 0xffff_ffff);
            assert((x << 32u32) | y == x * 0x1_0000_0000 + y) by (bit_vector)
                requires
                    x <= 0xffff_ffff,
                    y <= 0xffff_ffff,
            ;
        }
    }
    Ok(v)
}

/// The inverse of `merge_usize`: the high and the low part of `u`, split at
/// the width of a `usize`. A high part that does not fit in a `usize` is a
/// `PointerMap` error.
pub fn split_usize(u: DoubleUSize) -> (r: Result<(usize, usize), WasmError>)
    ensures
        r is Ok <==> u as int / usize_radix() <= usize::MAX,
        r matches Ok((a, b)) ==> a == u as int / usize_radix() && b == u as int % usize_radix(),
        r matches Err(e) ==> e.error == WasmErrorInner::PointerMap,
{
    let hi: u128 = u >> usize::BITS;
    let lo: u128 = u & (usize::MAX as u128);
    proof {
        if usize::BITS == 64 {
            assert(usize::MAX == 0xffff_ffff_ffff_ffff);
            assert(u >> 64u32 == u / 0x1_0000_0000_0000_0000) by (bit_vector);
            assert(u & 0xffff_ffff_ffff_ffffu128 == u % 0x1_0000_0000_0000_0000) by (bit_vector);
        } else {
            assert(usize::BITS == 32);
            assert(usize::MAX == 0xffff_ffff);
            assert(u >> 32u32 == u / 0x1_0000_0000) by (bit_vector);
            assert(u & 0xffff_ffffu128 == u % 0x1_0000_0000) by (bit_vector);
        }
    }
    if hi <= usize::MAX as u128 {
        Ok((hi as usize, lo as usize))
    } else {
        Err(WasmError::new(String::from_str("src/numeric.rs"), 114, WasmErrorInner::PointerMap))
    }
}

/// Splitting what `merge_u32` packed gives back both halves, and merging the
/// halves that `split_u64` gives back rebuilds the value that was split.
pub proof fn lemma_u32_pack_round_trip(a: u32, b: u32, u: u64)
    ensures
        (a * 0x1_0000_0000 + b) / 0x1_0000_0000 == a,
        (a * 0x1_0000_0000 + b) % 0x1_0000_0000 == b,
        (u / 0x1_0000_0000) * 0x1_0000_0000 + u % 0x1_0000_0000 == u,
{
    vstd::arithmetic::div_mod::lemma_fundamental_div_mod_converse(
        a * 0x1_0000_0000 + b,
        0x1_0000_0000,
        a as int,
        b as int,
    );
    vstd::arithmetic::div_mod::lemma_fundamental_div_mod(u as int, 0x1_0000_0000);
}

/// Splitting what `merge_u64` (or `merge_usize`) packed gives back both halves,
/// and merging the halves that `split_u128` gives back rebuilds the value that was split.
pub proof fn lemma_u64_pack_round_trip(a: u64, b: u64, u: u128)
    ensures
        (a * 0x1_0000_0000_0000_0000 + b) / 0x1_0000_0000_0000_0000 == a,
        (a * 0x1_0000_0000_0000_0000 + b) % 0x1_0000_0000_0000_0000 == b,
        (u / 0x1_0000_0000_0000_0000) * 0x1_0000_0000_0000_0000 + u % 0x1_0000_0000_0000_0000 == u,
{
    vstd::arithmetic::div_mod::lemma_fundamental_div_mod_converse(
        a * 0x1_0000_0000_0000_0000 + b,
        0x1_0000_0000_0000_0000,
        a as int,
        b as int,
    );
    vstd::arithmetic::div_mod::lemma_fundamental_div_mod(u as int, 0x1_0000_0000_0000_0000);
}

/// Splitting what `merge_usize` packed succeeds and gives back both halves:
/// each half fits in a `usize` again.
pub proof fn lemma_usize_pack_round_trip(a: usize, b: usize)
    ensures
        (a * usize_radix() + b) / usize_radix() == a,
        (a * usize_radix() + b) % usize_radix() == b,
        (a * usize_radix() + b) / usize_radix() <= usize::MAX,
{
    vstd::arithmetic::div_mod::lemma_fundamental_div_mod_converse(
        a * usize_radix() + b,
        usize_radix(),
        a as int,
        b as int,
    );
}

} // verus!
