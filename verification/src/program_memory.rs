//! The memory of a generated program: the instruction memory, a run of bytes from a start
//! address, and the data memory, a segment tree.
use vstd::prelude::*;

use crate::encoding::bitfields::le_bytes;
use crate::risico::memory::{BackingStore, bytes_at, has_word};
use crate::risico::repr::{Addr, Size};
use crate::segment_tree::{SegmentTree, placed_bytes};

verus! {

/// An address as an index.
pub fn u32_to_usize(x: u32) -> (r: usize)
    ensures
        r == x,
{
    x as usize
}

/// A run of bytes from a start address on.
pub struct MemoryArea {
    pub start: Addr,
    pub bytes: Vec<u8>,
}

impl MemoryArea {
    /// Whether the area holds `addr`; its first address does not count.
    pub open spec fn holds(&self, addr: u32) -> bool {
        addr > self.start@ && addr - self.start@ < self.bytes@.len()
    }

    /// Whether the area holds `addr`; its first address does not count.
    pub fn contains_addr(&self, addr: Addr) -> (b: bool)
        requires
            self.bytes@.len() <= u32::MAX,
        ensures
            b == self.holds(addr@),
    {
        addr.as_u32() > self.start.as_u32() && addr.as_u32() - self.start.as_u32() < self.bytes.len() as u32
    }

    /// The first address.
    pub fn start(&self) -> (r: Addr)
        ensures
            r == self.start,
    {
        self.start
    }

    /// The address behind the last byte.
    pub fn end(&self) -> (r: Addr)
        requires
            self.start@ + self.bytes@.len() <= u32::MAX,
        ensures
            r@ == self.start@ + self.bytes@.len(),
    {
        Addr::at(self.start.as_u32() + (self.bytes.len() as u32))
    }

    /// The number of bytes.
    pub fn len(&self) -> (r: Size)
        requires
            self.bytes@.len() <= u32::MAX,
        ensures
            r@ == self.bytes@.len(),
    {
        Size::from_usize(self.bytes.len()).unwrap()
    }

    /// The bytes.
    pub fn bytes(&self) -> (r: &[u8])
        ensures
            r@ == self.bytes@,
    {
        self.bytes.as_slice()
    }

    /// The addresses of the area.
    pub fn range(&self) -> (r: std::ops::Range<u32>)
        requires
            self.start@ + self.bytes@.len() <= u32::MAX,
        ensures
            r.start == self.start@,
            r.end == self.start@ + self.bytes@.len(),
    {
        self.start().as_u32()..self.end().as_u32()
    }
}

impl BackingStore for MemoryArea {
    open spec fn store_bytes(&self) -> Map<u32, u8> {
        placed_bytes(self.start@, self.bytes@)
    }

    open spec fn can_read(&self, at: u32) -> bool {
        self.start@ <= at && at <= u32::MAX - 3 && at - self.start@ + 4 <= self.bytes@.len()
    }

    open spec fn can_write(&self, at: u32) -> bool {
        self.start@ <= at && at <= u32::MAX - 3 && at - self.start@ + 4 <= self.bytes@.len()
    }

    proof fn lemma_readable(&self, at: u32) {
    }

    fn get_le_bytes(&self, at: Addr) -> (r: u32) {
        let offset = (at.as_u32() - self.start.as_u32()) as usize;
        let len = self.bytes.len();
        assert(offset + 4 <= len);
        let r = (self.bytes[offset] as u32) | ((self.bytes[offset + 1] as u32) << 8) | ((self.bytes[offset + 2] as u32) << 16)
            | ((self.bytes[offset + 3] as u32) << 24);
        proof {
            assert(bytes_at(self.store_bytes(), at@) =~= self.bytes@.subrange(offset as int, offset + 4));
        }
        r
    }

    fn set_le_bytes(&mut self, at: Addr, value: u32)
        ensures
            final(self).start == old(self).start,
            final(self).bytes@.len() == old(self).bytes@.len(),
    {
        let ghost old_self = *self;
        let offset = (at.as_u32() - self.start.as_u32()) as usize;
        let len = self.bytes.len();
        assert(offset + 4 <= len);
        self.bytes.set(offset, value as u8);
        self.bytes.set(offset + 1, (value >> 8) as u8);
        self.bytes.set(offset + 2, (value >> 16) as u8);
        self.bytes.set(offset + 3, (value >> 24) as u8);
        proof {
            assert(self.store_bytes() =~= old_self.store_bytes().union_prefer_right(placed_bytes(at@, le_bytes(value))));
        }
    }

    fn get_byte(&self, at: Addr) -> (r: u8) {
        let offset = (at.as_u32() - self.start.as_u32()) as usize;
        self.bytes[offset]
    }

    fn set_byte(&mut self, at: Addr, byte: u8)
        ensures
            final(self).start == old(self).start,
            final(self).bytes@.len() == old(self).bytes@.len(),
    {
        let ghost old_self = *self;
        let offset = (at.as_u32() - self.start.as_u32()) as usize;
        self.bytes.set(offset, byte);
        proof {
            assert(self.store_bytes() =~= old_self.store_bytes().insert(at@, byte));
        }
    }

    fn write_to(&mut self, at: Addr, src: &[u8]) {
        let ghost old_self = *self;
        if src.len() == 0 {
            proof {
                assert(self.store_bytes() =~= old_self.store_bytes().union_prefer_right(placed_bytes(at@, src@)));
            }
            return;
        }
        proof {
            assert(old_self.can_read(((at@ + 0) - (at@ + 0) % 4) as u32));
            let last = src@.len() - 1;
            assert(old_self.can_read(((at@ + last) - (at@ + last) % 4) as u32));
        }
        let offset = (at.as_u32() - self.start.as_u32()) as usize;
        let n = self.bytes.len();
        let mut i: usize = 0;
        while i < src.len()
            invariant
                i <= src@.len(),
                n == old_self.bytes@.len(),
                offset == at@ - old_self.start@,
                offset + src@.len() <= old_self.bytes@.len(),
                self.start@ == old_self.start@,
                self.bytes@.len() == old_self.bytes@.len(),
                self.bytes@ == old_self.bytes@.take(offset as int) + src@.take(i as int)
                    + old_self.bytes@.skip(offset + i),
            decreases src@.len() - i,
        {
            proof {
                assert(self.bytes@.update(offset + i, src@[i as int]) =~= old_self.bytes@.take(offset as int)
                    + src@.take(i + 1) + old_self.bytes@.skip(offset + i + 1));
            }
            self.bytes.set(offset + i, src[i]);
            i = i + 1;
        }
        proof {
            assert(src@.take(i as int) =~= src@);
            assert(self.store_bytes() =~= old_self.store_bytes().union_prefer_right(placed_bytes(at@, src@)));
        }
    }
}


/// The bytes of the instruction memory that it holds, by address.
pub open spec fn held_bytes(bin: MemoryArea) -> Map<u32, u8> {
    Map::new(|a: u32| bin.holds(a), |a: u32| bin.bytes@[a - bin.start@])
}

/// Whether none of the four bytes from `at` on is held by the instruction memory.
pub open spec fn apart_from(bin: MemoryArea, at: u32) -> bool {
    &&& !bin.holds(at)
    &&& !bin.holds((at + 1) as u32)
    &&& !bin.holds((at + 2) as u32)
    &&& !bin.holds((at + 3) as u32)
}

/// Writing bytes held by the instruction memory changes the memory of the program as it changes
/// the instruction memory.
proof fn lemma_bin_write(data: Map<u32, u8>, old_bin: MemoryArea, new_bin: MemoryArea, written: Map<u32, u8>)
    requires
        new_bin.start == old_bin.start,
        new_bin.bytes@.len() == old_bin.bytes@.len(),
        new_bin.store_bytes() == old_bin.store_bytes().union_prefer_right(written),
        forall|a: u32| #[trigger] written.contains_key(a) ==> old_bin.holds(a),
    ensures
        data.union_prefer_right(held_bytes(new_bin)) == data.union_prefer_right(held_bytes(old_bin)).union_prefer_right(
            written,
        ),
{
    assert forall|a: u32| new_bin.holds(a) implies #[trigger] held_bytes(new_bin)[a] == new_bin.store_bytes()[a]
        && held_bytes(old_bin)[a] == old_bin.store_bytes()[a] && old_bin.store_bytes().contains_key(a) by {}
    assert(data.union_prefer_right(held_bytes(new_bin)) =~= data.union_prefer_right(held_bytes(old_bin)).union_prefer_right(
        written,
    ));
}

/// The memory of a generated program: an address held by the instruction memory is read there,
/// any other in the data memory.
pub struct ProgramMemory {
    pub bin: MemoryArea,
    pub memory_areas: SegmentTree,
}

impl BackingStore for ProgramMemory {
    open spec fn store_bytes(&self) -> Map<u32, u8> {
        self.memory_areas.memory().union_prefer_right(held_bytes(self.bin))
    }

    open spec fn can_read(&self, at: u32) -> bool {
        &&& self.bin.bytes@.len() <= u32::MAX
        &&& {
            ||| self.bin.holds(at) && self.bin.can_read(at)
            ||| apart_from(self.bin, at) && self.memory_areas.can_read(at)
        }
    }

    open spec fn can_write(&self, at: u32) -> bool {
        &&& self.bin.bytes@.len() <= u32::MAX
        &&& {
            ||| self.bin.holds(at) && self.bin.can_write(at)
            ||| apart_from(self.bin, at) && self.memory_areas.can_write(at)
        }
    }

    proof fn lemma_readable(&self, at: u32) {
        if self.bin.holds(at) && self.bin.can_read(at) {
            self.bin.lemma_readable(at);
        } else {
            self.memory_areas.lemma_readable(at);
        }
    }

    fn get_le_bytes(&self, at: Addr) -> (r: u32) {
        if self.bin.contains_addr(at) {
            let r = self.bin.get_le_bytes(at);
            proof {
                assert(bytes_at(self.store_bytes(), at@) =~= bytes_at(self.bin.store_bytes(), at@));
            }
            r
        } else {
            let r = self.memory_areas.get_le_bytes(at);
            proof {
                self.memory_areas.lemma_readable(at@);
                assert(bytes_at(self.store_bytes(), at@) =~= bytes_at(self.memory_areas.store_bytes(), at@));
            }
            r
        }
    }

    fn set_le_bytes(&mut self, at: Addr, value: u32) {
        let ghost old_self = *self;
        if self.bin.contains_addr(at) {
            self.bin.set_le_bytes(at, value);
            proof {
                lemma_bin_write(self.memory_areas.memory(), old_self.bin, self.bin, placed_bytes(at@, le_bytes(value)));
                assert(self.store_bytes() =~= old_self.store_bytes().union_prefer_right(placed_bytes(at@, le_bytes(value))));
            }
        } else {
            self.memory_areas.set_le_bytes(at, value);
            proof {
                assert(self.store_bytes() =~= old_self.store_bytes().union_prefer_right(placed_bytes(at@, le_bytes(value))));
            }
        }
    }

    fn get_byte(&self, at: Addr) -> (r: u8) {
        if self.bin.contains_addr(at) {
            self.bin.get_byte(at)
        } else {
            proof {
                let w = (at@ - at@ % 4) as u32;
                self.memory_areas.lemma_readable(w);
            }
            self.memory_areas.get_byte(at)
        }
    }

    fn set_byte(&mut self, at: Addr, byte: u8) {
        let ghost old_self = *self;
        if self.bin.contains_addr(at) {
            self.bin.set_byte(at, byte);
            proof {
                let written = Map::<u32, u8>::empty().insert(at@, byte);
                assert(old_self.bin.store_bytes().insert(at@, byte) =~= old_self.bin.store_bytes().union_prefer_right(written));
                lemma_bin_write(self.memory_areas.memory(), old_self.bin, self.bin, written);
                assert(old_self.store_bytes().insert(at@, byte) =~= old_self.store_bytes().union_prefer_right(written));
                assert(self.store_bytes() =~= old_self.store_bytes().insert(at@, byte));
            }
        } else {
            self.memory_areas.set_byte(at, byte);
            proof {
                assert(self.store_bytes() =~= old_self.store_bytes().insert(at@, byte));
            }
        }
    }
}

} // verus!
