//! Bit-level facts about 32-bit instruction words: their little-endian byte form, the masks that
//! the decoder compares against, and the operand layouts of the instruction formats.
use vstd::prelude::*;

verus! {

/// The four bytes of `w`, least significant first.
pub open spec fn le_bytes(w: u32) -> Seq<u8> {
    seq![w as u8, (w >> 8) as u8, (w >> 16) as u8, (w >> 24) as u8]
}

/// The word whose little-endian bytes are the first four elements of `bytes`.
pub open spec fn le_word(bytes: Seq<u8>) -> u32 {
    (bytes[0] as u32) | ((bytes[1] as u32) << 8) | ((bytes[2] as u32) << 16) | ((bytes[3] as u32)
        << 24)
}

/// Reading back the bytes of a word gives the word.
pub proof fn lemma_le_word_of_le_bytes(w: u32)
    ensures
        le_word(le_bytes(w)) == w,
{
    let b0 = w as u8;
    let b1 = (w >> 8) as u8;
    let b2 = (w >> 16) as u8;
    let b3 = (w >> 24) as u8;
    assert((b0 as u32) | ((b1 as u32) << 8) | ((b2 as u32) << 16) | ((b3 as u32) << 24) == w)
        by (bit_vector)
        requires
            b0 == w as u8,
            b1 == (w >> 8) as u8,
            b2 == (w >> 16) as u8,
            b3 == (w >> 24) as u8,
    ;
}

/// The bytes of a word are its base-256 digits.
pub(crate) proof fn lemma_byte_split(w: u32)
    ensures
        (w as u8) as int == w % 256,
        ((w as u16) as u8) as int == w % 256,
        (((w as u16) >> 8u16) as u8) as int == (w / 256) % 256,
        ((w >> 8u32) as u8) as int == (w / 0x100) % 256,
        ((w >> 16u32) as u8) as int == (w / 0x1_0000) % 256,
        ((w >> 24u32) as u8) as int == w / 0x100_0000,
{
    assert((w as u8) == w % 256 && ((w as u16) as u8) == w % 256 && (((w as u16) >> 8u16) as u8) == (w / 256) % 256
        && ((w >> 8u32) as u8) == (w / 0x100) % 256 && ((w >> 16u32) as u8) == (w / 0x1_0000) % 256
        && ((w >> 24u32) as u8) == w / 0x100_0000) by (bit_vector);
}

/// Little-endian order: the bytes of a word are its base-256 digits, the least significant first,
/// and the word read from four bytes is their base-256 value, the first byte being the least
/// significant.
pub proof fn law_little_endian(w: u32, s: Seq<u8>)
    requires
        s.len() == 4,
    ensures
        le_bytes(w).len() == 4,
        le_bytes(w)[0] as int == w % 256,
        le_bytes(w)[1] as int == (w / 0x100) % 256,
        le_bytes(w)[2] as int == (w / 0x1_0000) % 256,
        le_bytes(w)[3] as int == w / 0x100_0000,
        le_word(s) as int == s[0] + 0x100 * s[1] + 0x1_0000 * s[2] + 0x100_0000 * s[3],
{
    lemma_byte_split(w);
    let v = le_word(s);
    crate::risico::memory::lemma_le_bytes_of_le_word(s);
    lemma_byte_split(v);
    assert(le_bytes(v) == s);
    let q1 = v as int / 0x100;
    let q2 = v as int / 0x1_0000;
    let q3 = v as int / 0x100_0000;
    vstd::arithmetic::div_mod::lemma_fundamental_div_mod(v as int, 0x100);
    vstd::arithmetic::div_mod::lemma_div_denominator(v as int, 0x100, 0x100);
    vstd::arithmetic::div_mod::lemma_fundamental_div_mod(q1, 0x100);
    vstd::arithmetic::div_mod::lemma_div_denominator(v as int, 0x1_0000, 0x100);
    vstd::arithmetic::div_mod::lemma_fundamental_div_mod(q2, 0x100);
    assert(q2 / 0x100 == q3);
    assert(q1 / 0x100 == q2);
}

/// Append the little-endian bytes of `w` to `writer`.
pub fn push_le_bytes(writer: &mut Vec<u8>, w: u32)
    ensures
        final(writer)@ == old(writer)@ + le_bytes(w),
{
    writer.push(w as u8);
    writer.push((w >> 8) as u8);
    writer.push((w >> 16) as u8);
    writer.push((w >> 24) as u8);
    assert(writer@ =~= old(writer)@ + le_bytes(w));
}

/// Read the first four bytes of `bytes` as a little-endian word.
pub fn read_le_word(bytes: &[u8]) -> (w: u32)
    requires
        bytes@.len() >= 4,
    ensures
        w == le_word(bytes@),
{
    (bytes[0] as u32) | ((bytes[1] as u32) << 8) | ((bytes[2] as u32) << 16) | ((bytes[3] as u32)
        << 24)
}

/// The masks that the decoder applies, written as sums of the bit groups that they keep: the
/// opcode (bits 0..7), funct3 (bits 12..15), the format bits (25..27), funct7 (25..32) and the
/// upper twelve bits (20..32).
pub proof fn lemma_decoder_masks(w: u32)
    by (bit_vector)
    ensures
        w & 0x7f == w % 128,
        w & 0x707f == w % 128 + ((w / 4096) % 8) * 4096,
        w & 0x600007f == w % 128 + ((w / 33554432) % 4) * 33554432,
        w & 0xfe00007f == w % 128 + (w / 33554432) * 33554432,
        w & 0xfe00707f == w % 128 + ((w / 4096) % 8) * 4096 + (w / 33554432) * 33554432,
        w & 0xfff0007f == w % 128 + (w / 1048576) * 1048576,
        w & 0xfff0707f == w % 128 + ((w / 4096) % 8) * 4096 + (w / 1048576) * 1048576,
        w & 0xffffffff == w,
{
}

/// Bit layout with operand fields at (7, 5), (12, 20) (offset, width).
///
/// Or-ing in-range operands into a word whose operand fields are clear leaves every bit outside
/// the fields alone and can be read back field by field; and a word that agrees with the fixed
/// bits on the mask `0x7f` is rebuilt from its own fields.
pub proof fn lemma_layout_0(b: u32, w: u32, x0: u32, x1: u32)
    by (bit_vector)
    ensures
        (w == b | (x0 << 7) | (x1 << 12) && x0 < 32 && x1 < 1048576 && (b / 128) % 32 == 0 && (b / 4096) % 1048576 == 0) ==> ((w >> 7) & 0x1f == x0 && (w >> 12) & 0xfffff == x1 && w % 128 == b % 128),
        (w & 0x7f) == b ==> b | (((w >> 7) & 0x1f) << 7) | (((w >> 12) & 0xfffff) << 12) == w,
        (w >> 7) & 0x1f < 32 && (w >> 12) & 0xfffff < 1048576,
{
}

/// Bit layout with operand fields at (31, 1), (21, 10), (20, 1), (7, 5), (12, 8) (offset, width).
///
/// Or-ing in-range operands into a word whose operand fields are clear leaves every bit outside
/// the fields alone and can be read back field by field; and a word that agrees with the fixed
/// bits on the mask `0x7f` is rebuilt from its own fields.
pub proof fn lemma_layout_1(b: u32, w: u32, x0: u32, x1: u32, x2: u32, x3: u32, x4: u32)
    by (bit_vector)
    ensures
        (w == b | (x0 << 31) | (x1 << 21) | (x2 << 20) | (x3 << 7) | (x4 << 12) && x0 < 2 && x1 < 1024 && x2 < 2 && x3 < 32 && x4 < 256 && (b / 2147483648) % 2 == 0 && (b / 2097152) % 1024 == 0 && (b / 1048576) % 2 == 0 && (b / 128) % 32 == 0 && (b / 4096) % 256 == 0) ==> ((w >> 31) & 0x1 == x0 && (w >> 21) & 0x3ff == x1 && (w >> 20) & 0x1 == x2 && (w >> 7) & 0x1f == x3 && (w >> 12) & 0xff == x4 && w % 128 == b % 128),
        (w & 0x7f) == b ==> b | (((w >> 31) & 0x1) << 31) | (((w >> 21) & 0x3ff) << 21) | (((w >> 20) & 0x1) << 20) | (((w >> 7) & 0x1f) << 7) | (((w >> 12) & 0xff) << 12) == w,
        (w >> 31) & 0x1 < 2 && (w >> 21) & 0x3ff < 1024 && (w >> 20) & 0x1 < 2 && (w >> 7) & 0x1f < 32 && (w >> 12) & 0xff < 256,
{
}

/// Bit layout with operand fields at (12, 3), (27, 5), (20, 5), (7, 5), (15, 5) (offset, width).
///
/// Or-ing in-range operands into a word whose operand fields are clear leaves every bit outside
/// the fields alone and can be read back field by field; and a word that agrees with the fixed
/// bits on the mask `0x600007f` is rebuilt from its own fields.
pub proof fn lemma_layout_2(b: u32, w: u32, x0: u32, x1: u32, x2: u32, x3: u32, x4: u32)
    by (bit_vector)
    ensures
        (w == b | (x0 << 12) | (x1 << 27) | (x2 << 20) | (x3 << 7) | (x4 << 15) && x0 < 8 && x1 < 32 && x2 < 32 && x3 < 32 && x4 < 32 && (b / 4096) % 8 == 0 && (b / 134217728) % 32 == 0 && (b / 1048576) % 32 == 0 && (b / 128) % 32 == 0 && (b / 32768) % 32 == 0) ==> ((w >> 12) & 0x7 == x0 && (w >> 27) & 0x1f == x1 && (w >> 20) & 0x1f == x2 && (w >> 7) & 0x1f == x3 && (w >> 15) & 0x1f == x4 && w % 128 == b % 128 && (w / 33554432) % 4 == (b / 33554432) % 4),
        (w & 0x600007f) == b ==> b | (((w >> 12) & 0x7) << 12) | (((w >> 27) & 0x1f) << 27) | (((w >> 20) & 0x1f) << 20) | (((w >> 7) & 0x1f) << 7) | (((w >> 15) & 0x1f) << 15) == w,
        (w >> 12) & 0x7 < 8 && (w >> 27) & 0x1f < 32 && (w >> 20) & 0x1f < 32 && (w >> 7) & 0x1f < 32 && (w >> 15) & 0x1f < 32,
{
}

/// Bit layout with operand fields at (15, 5), (25, 7), (7, 5), (20, 5) (offset, width).
///
/// Or-ing in-range operands into a word whose operand fields are clear leaves every bit outside
/// the fields alone and can be read back field by field; and a word that agrees with the fixed
/// bits on the mask `0x707f` is rebuilt from its own fields.
pub proof fn lemma_layout_3(b: u32, w: u32, x0: u32, x1: u32, x2: u32, x3: u32)
    by (bit_vector)
    ensures
        (w == b | (x0 << 15) | (x1 << 25) | (x2 << 7) | (x3 << 20) && x0 < 32 && x1 < 128 && x2 < 32 && x3 < 32 && (b / 32768) % 32 == 0 && (b / 33554432) % 128 == 0 && (b / 128) % 32 == 0 && (b / 1048576) % 32 == 0) ==> ((w >> 15) & 0x1f == x0 && (w >> 25) & 0x7f == x1 && (w >> 7) & 0x1f == x2 && (w >> 20) & 0x1f == x3 && w % 128 == b % 128 && (w / 4096) % 8 == (b / 4096) % 8),
        (w & 0x707f) == b ==> b | (((w >> 15) & 0x1f) << 15) | (((w >> 25) & 0x7f) << 25) | (((w >> 7) & 0x1f) << 7) | (((w >> 20) & 0x1f) << 20) == w,
        (w >> 15) & 0x1f < 32 && (w >> 25) & 0x7f < 128 && (w >> 7) & 0x1f < 32 && (w >> 20) & 0x1f < 32,
{
}

/// Bit layout with operand fields at (15, 5), (7, 5), (20, 12) (offset, width).
///
/// Or-ing in-range operands into a word whose operand fields are clear leaves every bit outside
/// the fields alone and can be read back field by field; and a word that agrees with the fixed
/// bits on the mask `0x707f` is rebuilt from its own fields.
pub proof fn lemma_layout_4(b: u32, w: u32, x0: u32, x1: u32, x2: u32)
    by (bit_vector)
    ensures
        (w == b | (x0 << 15) | (x1 << 7) | (x2 << 20) && x0 < 32 && x1 < 32 && x2 < 4096 && (b / 32768) % 32 == 0 && (b / 128) % 32 == 0 && (b / 1048576) % 4096 == 0) ==> ((w >> 15) & 0x1f == x0 && (w >> 7) & 0x1f == x1 && (w >> 20) & 0xfff == x2 && w % 128 == b % 128 && (w / 4096) % 8 == (b / 4096) % 8),
        (w & 0x707f) == b ==> b | (((w >> 15) & 0x1f) << 15) | (((w >> 7) & 0x1f) << 7) | (((w >> 20) & 0xfff) << 20) == w,
        (w >> 15) & 0x1f < 32 && (w >> 7) & 0x1f < 32 && (w >> 20) & 0xfff < 4096,
{
}

/// Bit layout with operand fields at (25, 6), (15, 5), (8, 4), (31, 1), (20, 5), (7, 1) (offset, width).
///
/// Or-ing in-range operands into a word whose operand fields are clear leaves every bit outside
/// the fields alone and can be read back field by field; and a word that agrees with the fixed
/// bits on the mask `0x707f` is rebuilt from its own fields.
pub proof fn lemma_layout_5(b: u32, w: u32, x0: u32, x1: u32, x2: u32, x3: u32, x4: u32, x5: u32)
    by (bit_vector)
    ensures
        (w == b | (x0 << 25) | (x1 << 15) | (x2 << 8) | (x3 << 31) | (x4 << 20) | (x5 << 7) && x0 < 64 && x1 < 32 && x2 < 16 && x3 < 2 && x4 < 32 && x5 < 2 && (b / 33554432) % 64 == 0 && (b / 32768) % 32 == 0 && (b / 256) % 16 == 0 && (b / 2147483648) % 2 == 0 && (b / 1048576) % 32 == 0 && (b / 128) % 2 == 0) ==> ((w >> 25) & 0x3f == x0 && (w >> 15) & 0x1f == x1 && (w >> 8) & 0xf == x2 && (w >> 31) & 0x1 == x3 && (w >> 20) & 0x1f == x4 && (w >> 7) & 0x1 == x5 && w % 128 == b % 128 && (w / 4096) % 8 == (b / 4096) % 8),
        (w & 0x707f) == b ==> b | (((w >> 25) & 0x3f) << 25) | (((w >> 15) & 0x1f) << 15) | (((w >> 8) & 0xf) << 8) | (((w >> 31) & 0x1) << 31) | (((w >> 20) & 0x1f) << 20) | (((w >> 7) & 0x1) << 7) == w,
        (w >> 25) & 0x3f < 64 && (w >> 15) & 0x1f < 32 && (w >> 8) & 0xf < 16 && (w >> 31) & 0x1 < 2 && (w >> 20) & 0x1f < 32 && (w >> 7) & 0x1 < 2,
{
}

/// Bit layout with operand fields at (15, 5), (12, 3), (7, 5), (20, 5) (offset, width).
///
/// Or-ing in-range operands into a word whose operand fields are clear leaves every bit outside
/// the fields alone and can be read back field by field; and a word that agrees with the fixed
/// bits on the mask `0xfe00007f` is rebuilt from its own fields.
pub proof fn lemma_layout_6(b: u32, w: u32, x0: u32, x1: u32, x2: u32, x3: u32)
    by (bit_vector)
    ensures
        (w == b | (x0 << 15) | (x1 << 12) | (x2 << 7) | (x3 << 20) && x0 < 32 && x1 < 8 && x2 < 32 && x3 < 32 && (b / 32768) % 32 == 0 && (b / 4096) % 8 == 0 && (b / 128) % 32 == 0 && (b / 1048576) % 32 == 0) ==> ((w >> 15) & 0x1f == x0 && (w >> 12) & 0x7 == x1 && (w >> 7) & 0x1f == x2 && (w >> 20) & 0x1f == x3 && w % 128 == b % 128 && (w / 33554432) % 4 == (b / 33554432) % 4 && w / 33554432 == b / 33554432),
        (w & 0xfe00007f) == b ==> b | (((w >> 15) & 0x1f) << 15) | (((w >> 12) & 0x7) << 12) | (((w >> 7) & 0x1f) << 7) | (((w >> 20) & 0x1f) << 20) == w,
        (w >> 15) & 0x1f < 32 && (w >> 12) & 0x7 < 8 && (w >> 7) & 0x1f < 32 && (w >> 20) & 0x1f < 32,
{
}

/// Bit layout with operand fields at (15, 5), (7, 5), (20, 5) (offset, width).
///
/// Or-ing in-range operands into a word whose operand fields are clear leaves every bit outside
/// the fields alone and can be read back field by field; and a word that agrees with the fixed
/// bits on the mask `0xfe00707f` is rebuilt from its own fields.
pub proof fn lemma_layout_7(b: u32, w: u32, x0: u32, x1: u32, x2: u32)
    by (bit_vector)
    ensures
        (w == b | (x0 << 15) | (x1 << 7) | (x2 << 20) && x0 < 32 && x1 < 32 && x2 < 32 && (b / 32768) % 32 == 0 && (b / 128) % 32 == 0 && (b / 1048576) % 32 == 0) ==> ((w >> 15) & 0x1f == x0 && (w >> 7) & 0x1f == x1 && (w >> 20) & 0x1f == x2 && w % 128 == b % 128 && (w / 4096) % 8 == (b / 4096) % 8 && (w / 33554432) % 4 == (b / 33554432) % 4 && w / 33554432 == b / 33554432),
        (w & 0xfe00707f) == b ==> b | (((w >> 15) & 0x1f) << 15) | (((w >> 7) & 0x1f) << 7) | (((w >> 20) & 0x1f) << 20) == w,
        (w >> 15) & 0x1f < 32 && (w >> 7) & 0x1f < 32 && (w >> 20) & 0x1f < 32,
{
}

/// Bit layout with operand fields at (15, 5), (12, 3), (7, 5) (offset, width).
///
/// Or-ing in-range operands into a word whose operand fields are clear leaves every bit outside
/// the fields alone and can be read back field by field; and a word that agrees with the fixed
/// bits on the mask `0xfff0007f` is rebuilt from its own fields.
pub proof fn lemma_layout_8(b: u32, w: u32, x0: u32, x1: u32, x2: u32)
    by (bit_vector)
    ensures
        (w == b | (x0 << 15) | (x1 << 12) | (x2 << 7) && x0 < 32 && x1 < 8 && x2 < 32 && (b / 32768) % 32 == 0 && (b / 4096) % 8 == 0 && (b / 128) % 32 == 0) ==> ((w >> 15) & 0x1f == x0 && (w >> 12) & 0x7 == x1 && (w >> 7) & 0x1f == x2 && w % 128 == b % 128 && (w / 33554432) % 4 == (b / 33554432) % 4 && w / 33554432 == b / 33554432 && w / 1048576 == b / 1048576),
        (w & 0xfff0007f) == b ==> b | (((w >> 15) & 0x1f) << 15) | (((w >> 12) & 0x7) << 12) | (((w >> 7) & 0x1f) << 7) == w,
        (w >> 15) & 0x1f < 32 && (w >> 12) & 0x7 < 8 && (w >> 7) & 0x1f < 32,
{
}

/// Bit layout with operand fields at (15, 5), (7, 5) (offset, width).
///
/// Or-ing in-range operands into a word whose operand fields are clear leaves every bit outside
/// the fields alone and can be read back field by field; and a word that agrees with the fixed
/// bits on the mask `0xfff0707f` is rebuilt from its own fields.
pub proof fn lemma_layout_9(b: u32, w: u32, x0: u32, x1: u32)
    by (bit_vector)
    ensures
        (w == b | (x0 << 15) | (x1 << 7) && x0 < 32 && x1 < 32 && (b / 32768) % 32 == 0 && (b / 128) % 32 == 0) ==> ((w >> 15) & 0x1f == x0 && (w >> 7) & 0x1f == x1 && w % 128 == b % 128 && (w / 4096) % 8 == (b / 4096) % 8 && (w / 33554432) % 4 == (b / 33554432) % 4 && w / 33554432 == b / 33554432 && w / 1048576 == b / 1048576),
        (w & 0xfff0707f) == b ==> b | (((w >> 15) & 0x1f) << 15) | (((w >> 7) & 0x1f) << 7) == w,
        (w >> 15) & 0x1f < 32 && (w >> 7) & 0x1f < 32,
{
}

/// Bit layout with operand fields at no positions (offset, width).
///
/// Or-ing in-range operands into a word whose operand fields are clear leaves every bit outside
/// the fields alone and can be read back field by field; and a word that agrees with the fixed
/// bits on the mask `0xffffffff` is rebuilt from its own fields.
pub proof fn lemma_layout_10(b: u32, w: u32)
    by (bit_vector)
    ensures
        (w == b) ==> (w % 128 == b % 128 && (w / 4096) % 8 == (b / 4096) % 8 && (w / 33554432) % 4 == (b / 33554432) % 4 && w / 33554432 == b / 33554432 && w / 1048576 == b / 1048576 && w == b),
        (w & 0xffffffff) == b ==> b == w,
        true,
{
}

} // verus!
