//! A mask over bytes: which bits are fixed, and to what.
use vstd::prelude::*;

use super::bits::Bits;

verus! {

/// The fixed bits of one byte (`enable`) and their values (`value`).
#[derive(Debug, Clone, Copy)]
struct BytesMaskCell {
    enable: u8,
    value: u8,
}

/// Fixed bits over a run of bytes.
#[derive(Debug)]
pub struct BytesMask {
    content: Vec<BytesMaskCell>,
}

/// The bits `offset..offset + n` of a byte, where they stay inside it.
pub open spec fn byte_run(n: u8, offset: u8) -> u8 {
    ((((1u8 << n) - 1) as u8) << offset) as u8
}

/// The bits from `offset` up of a byte.
pub open spec fn byte_top(offset: u8) -> u8 {
    (255u8 ^ (((1u8 << offset) - 1) as u8)) as u8
}

/// One shifted into a byte is at least one.
proof fn lemma_shifted_one(k: u8)
    by (bit_vector)
    requires
        k < 8,
    ensures
        (1u8 << k) >= 1,
{
}

impl BytesMask {
    /// The fixed bits and their values, byte by byte.
    pub closed spec fn cells(&self) -> Seq<(u8, u8)> {
        self.content@.map_values(|c: BytesMaskCell| (c.enable, c.value))
    }

    /// A mask of `num_bytes` bytes with no bit fixed.
    pub fn new(num_bytes: usize) -> (r: Self)
        ensures
            r.cells() == Seq::new(num_bytes as nat, |i: int| (0u8, 0u8)),
    {
        let mut content: Vec<BytesMaskCell> = Vec::new();
        while content.len() < num_bytes
            invariant
                content@.len() <= num_bytes,
                forall|i: int| 0 <= i < content@.len() ==> #[trigger] content@[i] == (BytesMaskCell { enable: 0, value: 0 }),
            decreases num_bytes - content@.len(),
        {
            content.push(BytesMaskCell { enable: 0, value: 0 });
        }
        let r = Self { content };
        proof {
            assert(r.cells() =~= Seq::new(num_bytes as nat, |i: int| (0u8, 0u8)));
        }
        r
    }

    /// Fix the bits `enable` of byte `byte_idx` to `value`; none of them may be fixed already.
    fn add_to(&mut self, byte_idx: usize, enable: u8, value: u8)
        requires
            byte_idx < old(self).cells().len(),
            old(self).cells()[byte_idx as int].0 & enable == 0,
        ensures
            final(self).cells() == old(self).cells().update(
                byte_idx as int,
                (old(self).cells()[byte_idx as int].0 | enable, old(self).cells()[byte_idx as int].1 | value),
            ),
    {
        let ghost before = self.cells();
        let cell = self.content[byte_idx];
        self.content.set(byte_idx, BytesMaskCell { enable: cell.enable | enable, value: cell.value | value });
        proof {
            assert(self.cells() =~= before.update(
                byte_idx as int,
                (before[byte_idx as int].0 | enable, before[byte_idx as int].1 | value),
            ));
        }
    }

    /// Fix the bits from bit `at` on to `bits`. Where the bits reach into the next byte, that
    /// byte is left as it is: only the bits of the first byte are fixed.
    pub fn set_bits_at(&mut self, bits: &Bits, at: u32)
        requires
            bits.short_value() is Some,
            bits.num_bits_spec() <= 32,
            bits.num_bits_spec() != 0,
            old(self).cells().len() * 8 <= u32::MAX,
            bits.num_bits_spec() + at <= old(self).cells().len() * 8,
            (at + bits.num_bits_spec()) / 8 <= at / 8 + 1,
            ({
                let n = bits.num_bits_spec();
                let start = at / 8;
                let enable = if (at + n) / 8 == start {
                    byte_run(n as u8, (at % 8) as u8)
                } else {
                    byte_top((at % 8) as u8)
                };
                old(self).cells()[start as int].0 & enable == 0
            }),
        ensures
            ({
                let n = bits.num_bits_spec();
                let start = at / 8;
                let off = (at % 8) as u8;
                let (enable, value) = if (at + n) / 8 == start {
                    (byte_run(n as u8, off), (((bits.short_value()->0 % 0x1_0000_0000) as u8) << off) as u8)
                } else {
                    (byte_top(off), (((bits.short_value()->0 >> 0u64) as u8) << off) as u8)
                };
                final(self).cells() == old(self).cells().update(
                    start as int,
                    (old(self).cells()[start as int].0 | enable, old(self).cells()[start as int].1 | value),
                )
            }),
    {
        let num_bits = bits.num_bits();
        let len = self.content.len();
        let start_byte = at / 8;
        let end_byte = (at + num_bits) / 8;
        let in_byte_offset = at % 8;
        if start_byte == end_byte {
            let enable = ((1u8 << num_bits).wrapping_sub(1)) << in_byte_offset;
            let value = (bits.as_u32().unwrap() as u8) << in_byte_offset;
            proof {
                lemma_shifted_one(num_bits as u8);
                assert(enable == byte_run(num_bits as u8, in_byte_offset as u8));
            }
            self.add_to(start_byte as usize, enable, value);
        } else {
            proof {
                lemma_shifted_one(in_byte_offset as u8);
            }
            let enable = 255 ^ (1u8 << in_byte_offset).wrapping_sub(1);
            let value = bits.le_byte(0) << in_byte_offset;
            self.add_to(start_byte as usize, enable, value);
        }
    }
}

} // verus!
