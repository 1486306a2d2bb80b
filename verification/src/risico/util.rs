//! Small integer conversions.
use vstd::prelude::*;

verus! {

/// `n` with the bits above `sign_bit` replaced by copies of bit `sign_bit`, as an unsigned word.
pub open spec fn sign_extended_bits(n: u32, sign_bit: u32) -> u32 {
    let low = u32::MAX >> (31 - sign_bit) as u32;
    if (n >> sign_bit) & 1 == 1 {
        n | !low
    } else {
        n & low
    }
}

/// Masking the low or high bits of a word is a remainder or a rounding down.
pub proof fn lemma_u32_masks(v: u32)
    by (bit_vector)
    ensures
        v & 0b11 == v % 4,
        v & 0xFFFF_FFFC == v - v % 4,
        v & 0x1F == v % 32,
        v & 0x7FFF_FFFF == v % 0x8000_0000,
        (v >> 31 != 0) == (v >= 0x8000_0000),
{
}

/// Convert a `u32` to a `usize`; every supported platform has a `usize` of at least 32 bits.
pub fn u32_to_usize(n: u32) -> (r: usize)
    ensures
        r == n,
{
    n as usize
}

/// Sign-extend `n` from bit `num_bits`: bits `0..=num_bits` are kept, and bit `num_bits` is copied
/// into every bit above it.
pub fn sign_extend(n: u32, num_bits: u32) -> (r: i32)
    requires
        num_bits <= 31,
    ensures
        r as u32 == sign_extended_bits(n, num_bits),
{
    let shift = 31 - num_bits;
    let r = ((n << shift) as i32) >> shift;
    assert(r as u32 == sign_extended_bits(n, num_bits)) by (bit_vector)
        requires
            shift == 31 - num_bits,
            num_bits <= 31,
            r == ((n << shift) as i32) >> shift,
    ;
    r
}

} // verus!
