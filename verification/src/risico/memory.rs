//! Memory: byte order, permissions, placed bytes and the stores that back memory regions.
use vstd::prelude::*;

use super::repr::{Addr, Size, Word, wrapped};
use crate::encoding::bitfields::{le_bytes, le_word, lemma_le_word_of_le_bytes};
use crate::interval_tree::IntervalTree;
use crate::segment_tree::{SegmentTree, placed_bytes};

verus! {

/// The order of the bytes of a word in memory.
#[derive(Debug, Clone, Copy, PartialEq, Eq, Structural)]
pub enum Endianness {
    Little,
    Big,
}

/// Whether a region may be read, written and executed.
#[derive(Debug, Clone, Copy, PartialEq, Eq, Structural)]
pub struct MemoryPermissions {
    pub read: bool,
    pub write: bool,
    pub execute: bool,
}

impl MemoryPermissions {
    /// Read only.
    pub fn read_only() -> (r: Self)
        ensures
            r == (MemoryPermissions { read: true, write: false, execute: false }),
    {
        MemoryPermissions { read: true, write: false, execute: false }
    }

    /// Read and write.
    pub fn read_write() -> (r: Self)
        ensures
            r == (MemoryPermissions { read: true, write: true, execute: false }),
    {
        MemoryPermissions { read: true, write: true, execute: false }
    }

    /// Read and execute.
    pub fn read_execute() -> (r: Self)
        ensures
            r == (MemoryPermissions { read: true, write: false, execute: true }),
    {
        MemoryPermissions { read: true, write: false, execute: true }
    }

    /// Read, write and execute.
    pub fn read_write_execute() -> (r: Self)
        ensures
            r == (MemoryPermissions { read: true, write: true, execute: true }),
    {
        MemoryPermissions { read: true, write: true, execute: true }
    }
}

/// The four bytes of the word at `at`, the lowest address first.
pub open spec fn bytes_at(m: Map<u32, u8>, at: u32) -> Seq<u8> {
    seq![m[at], m[(at + 1) as u32], m[(at + 2) as u32], m[(at + 3) as u32]]
}

/// Whether the four bytes of the word at `at` are in `m`, without wrapping around.
pub open spec fn has_word(m: Map<u32, u8>, at: u32) -> bool {
    &&& at <= u32::MAX - 3
    &&& m.contains_key(at)
    &&& m.contains_key((at + 1) as u32)
    &&& m.contains_key((at + 2) as u32)
    &&& m.contains_key((at + 3) as u32)
}

/// The bytes of a word in reverse order.
pub open spec fn swapped(w: u32) -> u32 {
    le_word(le_bytes(w).reverse())
}

/// Reversing the bytes of a word, with shifts and masks.
fn swap_bytes(w: u32) -> (r: u32)
    ensures
        r == swapped(w),
{
    let r = ((w & 0xFF) << 24) | ((w & 0xFF00) << 8) | ((w >> 8) & 0xFF00) | (w >> 24);
    proof {
        let b = le_bytes(w).reverse();
        assert(b =~= seq![(w >> 24) as u8, (w >> 16) as u8, (w >> 8) as u8, w as u8]);
        assert(r == ((((w >> 24) as u8) as u32) | ((((w >> 16) as u8) as u32) << 8) | ((((w >> 8) as u8) as u32) << 16)
            | (((w as u8) as u32) << 24))) by (bit_vector)
            requires
                r == ((w & 0xFF) << 24) | ((w & 0xFF00) << 8) | ((w >> 8) & 0xFF00) | (w >> 24),
        ;
    }
    r
}

/// The little-endian bytes of the word whose bytes are `s` are `s`.
pub(crate) proof fn lemma_le_bytes_of_le_word(s: Seq<u8>)
    requires
        s.len() == 4,
    ensures
        le_bytes(le_word(s)) == s,
{
    let (b0, b1, b2, b3) = (s[0], s[1], s[2], s[3]);
    let w = le_word(s);
    assert(w as u8 == b0 && (w >> 8) as u8 == b1 && (w >> 16) as u8 == b2 && (w >> 24) as u8 == b3) by (bit_vector)
        requires
            w == (b0 as u32) | ((b1 as u32) << 8) | ((b2 as u32) << 16) | ((b3 as u32) << 24),
    ;
    assert(le_bytes(w) =~= s);
}

/// The halfword at `at`: the byte at `at` below the byte after it, wrapping around.
pub open spec fn halfword_at(m: Map<u32, u8>, at: u32) -> u16 {
    (m[at] as u16) | ((m[wrapped(at + 1)] as u16) << 8)
}

/// The bytes of a halfword in reverse order.
pub open spec fn swapped_half(h: u16) -> u16 {
    ((h & 0xFF) << 8) | (h >> 8)
}

/// Reversing the bytes of a halfword.
fn swap_half_bytes(h: u16) -> (r: u16)
    ensures
        r == swapped_half(h),
{
    ((h & 0xFF) << 8) | (h >> 8)
}

/// How the halves of a word are read, and how a halfword is merged into a word at each of the
/// three offsets that keep it inside the word.
proof fn lemma_halfword_bits(w: u32, h: u16)
    by (bit_vector)
    ensures
        (w & 0xFFFF) as u16 == ((w as u8) as u16) | ((((w >> 8) as u8) as u16) << 8),
        ((w & 0xFFFF_0000) >> 16) as u16 == (((w >> 16) as u8) as u16) | ((((w >> 24) as u8) as u16) << 8),
        ((w & 0xFFFF_0000) | (h as u32)) as u8 == h as u8,
        (((w & 0xFFFF_0000) | (h as u32)) >> 8) as u8 == (h >> 8) as u8,
        (((w & 0xFFFF_0000) | (h as u32)) >> 16) as u8 == (w >> 16) as u8,
        (((w & 0xFFFF_0000) | (h as u32)) >> 24) as u8 == (w >> 24) as u8,
        ((w & 0xFF00_00FF) | ((h as u32) << 8)) as u8 == w as u8,
        (((w & 0xFF00_00FF) | ((h as u32) << 8)) >> 8) as u8 == h as u8,
        (((w & 0xFF00_00FF) | ((h as u32) << 8)) >> 16) as u8 == (h >> 8) as u8,
        (((w & 0xFF00_00FF) | ((h as u32) << 8)) >> 24) as u8 == (w >> 24) as u8,
        ((w & 0xFFFF) | ((h as u32) << 16)) as u8 == w as u8,
        (((w & 0xFFFF) | ((h as u32) << 16)) >> 8) as u8 == (w >> 8) as u8,
        (((w & 0xFFFF) | ((h as u32) << 16)) >> 16) as u8 == h as u8,
        (((w & 0xFFFF) | ((h as u32) << 16)) >> 24) as u8 == (h >> 8) as u8,
{
}

/// A store of bytes by address, read and written a word at a time.
pub trait BackingStore {
    /// The bytes held, by address.
    spec fn store_bytes(&self) -> Map<u32, u8>;

    /// Whether the word at `at` can be read.
    spec fn can_read(&self, at: u32) -> bool;

    /// Whether the word at `at` can be written.
    spec fn can_write(&self, at: u32) -> bool;

    /// A readable word is held whole, without wrapping around; writing never takes readability
    /// away.
    proof fn lemma_readable(&self, at: u32)
        requires
            self.can_read(at),
        ensures
            has_word(self.store_bytes(), at),
    ;

    /// The word at `at`, its bytes in little-endian order.
    fn get_le_bytes(&self, at: Addr) -> (r: u32)
        requires
            self.can_read(at@),
        ensures
            r == le_word(bytes_at(self.store_bytes(), at@)),
    ;

    /// Write the word `value` at `at`, its bytes in little-endian order.
    fn set_le_bytes(&mut self, at: Addr, value: u32)
        requires
            old(self).can_write(at@),
        ensures
            final(self).store_bytes() == old(self).store_bytes().union_prefer_right(placed_bytes(at@, le_bytes(value))),
            forall|a: u32| old(self).can_read(a) ==> #[trigger] final(self).can_read(a),
            forall|a: u32| old(self).can_write(a) ==> #[trigger] final(self).can_write(a),
    ;

    /// The word at `at`, its bytes in big-endian order.
    fn get_be_bytes(&self, at: Addr) -> (r: u32)
        requires
            self.can_read(at@),
        ensures
            r == swapped(le_word(bytes_at(self.store_bytes(), at@))),
    {
        swap_bytes(self.get_le_bytes(at))
    }

    /// Write the word `value` at `at`, its bytes in big-endian order.
    fn set_be_bytes(&mut self, at: Addr, value: u32)
        requires
            old(self).can_write(at@),
        ensures
            final(self).store_bytes() == old(self).store_bytes().union_prefer_right(placed_bytes(at@, le_bytes(swapped(value)))),
            forall|a: u32| old(self).can_read(a) ==> #[trigger] final(self).can_read(a),
            forall|a: u32| old(self).can_write(a) ==> #[trigger] final(self).can_write(a),
    {
        self.set_le_bytes(at, swap_bytes(value))
    }

    /// The word at `at` in the byte order `endianness`.
    fn get(&self, at: Addr, endianness: Endianness) -> (r: u32)
        requires
            self.can_read(at@),
        ensures
            r == match endianness {
                Endianness::Little => le_word(bytes_at(self.store_bytes(), at@)),
                Endianness::Big => swapped(le_word(bytes_at(self.store_bytes(), at@))),
            },
    {
        match endianness {
            Endianness::Little => self.get_le_bytes(at),
            Endianness::Big => self.get_be_bytes(at),
        }
    }

    /// Write the word `value` at `at` in the byte order `endianness`.
    fn set(&mut self, at: Addr, value: u32, endianness: Endianness)
        requires
            old(self).can_write(at@),
        ensures
            final(self).store_bytes() == old(self).store_bytes().union_prefer_right(placed_bytes(
                at@,
                le_bytes(
                    match endianness {
                        Endianness::Little => value,
                        Endianness::Big => swapped(value),
                    },
                ),
            )),
            forall|a: u32| old(self).can_read(a) ==> #[trigger] final(self).can_read(a),
            forall|a: u32| old(self).can_write(a) ==> #[trigger] final(self).can_write(a),
    {
        match endianness {
            Endianness::Little => self.set_le_bytes(at, value),
            Endianness::Big => self.set_be_bytes(at, value),
        }
    }

    /// Whether the code at `at` may be executed.
    fn is_executable(&self, at: Addr) -> (b: bool)
        default_ensures
            b,
    {
        true
    }

    /// The byte at `at`, read from the word that holds it.
    fn get_byte(&self, at: Addr) -> (r: u8)
        requires
            self.can_read((at@ - at@ % 4) as u32),
        ensures
            r == self.store_bytes()[at@],
    {
        let word = self.get_le_bytes(at.word_align());
        let offset = at.word_offset();
        proof {
            let aligned = (at@ - at@ % 4) as u32;
            self.lemma_readable(aligned);
            lemma_le_bytes_of_le_word(bytes_at(self.store_bytes(), aligned));
            assert(at@ == (aligned + offset) as u32);
        }
        if offset == 0 {
            word as u8
        } else if offset == 1 {
            (word >> 8) as u8
        } else if offset == 2 {
            (word >> 16) as u8
        } else {
            (word >> 24) as u8
        }
    }

    /// Write the byte `byte` at `at`, by rewriting the word that holds it.
    fn set_byte(&mut self, at: Addr, byte: u8)
        requires
            old(self).can_read((at@ - at@ % 4) as u32),
            old(self).can_write((at@ - at@ % 4) as u32),
        ensures
            final(self).store_bytes() == old(self).store_bytes().insert(at@, byte),
            forall|a: u32| old(self).can_read(a) ==> #[trigger] final(self).can_read(a),
            forall|a: u32| old(self).can_write(a) ==> #[trigger] final(self).can_write(a),
    {
        let aligned = at.word_align();
        let word = self.get_le_bytes(aligned);
        let offset = at.word_offset();
        let ghost old_bytes = self.store_bytes();
        let ghost bytes = bytes_at(old_bytes, aligned@);
        proof {
            self.lemma_readable(aligned@);
            lemma_le_bytes_of_le_word(bytes);
        }
        let b0 = if offset == 0 { byte } else { word as u8 };
        let b1 = if offset == 1 { byte } else { (word >> 8) as u8 };
        let b2 = if offset == 2 { byte } else { (word >> 16) as u8 };
        let b3 = if offset == 3 { byte } else { (word >> 24) as u8 };
        let new_word = (b0 as u32) | ((b1 as u32) << 8) | ((b2 as u32) << 16) | ((b3 as u32) << 24);
        proof {
            let s = seq![b0, b1, b2, b3];
            assert(new_word == le_word(s));
            lemma_le_bytes_of_le_word(s);
            assert(at@ == (aligned@ + offset) as u32);
            assert(old_bytes.union_prefer_right(placed_bytes(aligned@, s)) =~= old_bytes.insert(at@, byte));
        }
        self.set_le_bytes(aligned, new_word);
    }

    /// Write the bytes of `src` from `at` on, one byte at a time.
    fn write_to(&mut self, at: Addr, src: &[u8])
        requires
            at@ + src@.len() <= u32::MAX + 1,
            forall|i: int| 0 <= i < src@.len() ==> #[trigger] old(self).can_read(((at@ + i) - (at@ + i) % 4) as u32)
                && old(self).can_write(((at@ + i) - (at@ + i) % 4) as u32),
        ensures
            final(self).store_bytes() == old(self).store_bytes().union_prefer_right(placed_bytes(at@, src@)),
    {
        let ghost start = self.store_bytes();
        let mut i: usize = 0;
        while i < src.len()
            invariant
                at@ + src@.len() <= u32::MAX + 1,
                i <= src@.len(),
                forall|j: int| 0 <= j < src@.len() ==> #[trigger] self.can_read(((at@ + j) - (at@ + j) % 4) as u32)
                    && self.can_write(((at@ + j) - (at@ + j) % 4) as u32),
                self.store_bytes() == start.union_prefer_right(placed_bytes(at@, src@.take(i as int))),
            decreases src@.len() - i,
        {
            let size = Size::from_usize(i).unwrap();
            let target = at.end(size);
            proof {
                assert(target@ == at@ + i);
                assert(self.can_read(((at@ + i) - (at@ + i) % 4) as u32));
            }
            self.set_byte(target, src[i]);
            proof {
                assert(self.store_bytes() =~= start.union_prefer_right(placed_bytes(at@, src@.take(i + 1))));
            }
            i = i + 1;
        }
        proof {
            assert(src@.take(i as int) =~= src@);
        }
    }

    /// The `length` bytes from `at` on, wrapping around the address space.
    fn read_from(&self, at: Addr, length: Size) -> (r: Vec<u8>)
        requires
            forall|i: int| 0 <= i < length@ ==> #[trigger] self.can_read((wrapped(at@ + i) - wrapped(at@ + i) % 4) as u32),
        ensures
            r@.len() == length@,
            forall|i: int| 0 <= i < length@ ==> #[trigger] r@[i] == self.store_bytes()[wrapped(at@ + i)],
    {
        let mut buffer: Vec<u8> = Vec::new();
        let mut it = at.to(at.end(length));
        let mut i: u32 = 0;
        while i < length.as_usize() as u32
            invariant
                i <= length@,
                buffer@.len() == i,
                it.next_addr()@ == wrapped(at@ + i),
                it.end_addr()@ == wrapped(at@ + length@),
                forall|j: int| 0 <= j < length@ ==> #[trigger] self.can_read((wrapped(at@ + j) - wrapped(at@ + j) % 4) as u32),
                forall|j: int| 0 <= j < i ==> #[trigger] buffer@[j] == self.store_bytes()[wrapped(at@ + j)],
            decreases length@ - i,
        {
            proof {
                assert(it.next_addr() != it.end_addr());
            }
            let addr = it.next().unwrap();
            buffer.push(self.get_byte(addr));
            i = i + 1;
        }
        buffer
    }

    /// The halfword at `at`, its bytes in little-endian order. An even address is read from the
    /// word that holds it; an odd one a byte at a time.
    fn get_le_halfword(&self, at: Addr) -> (r: u16)
        requires
            self.can_read((at@ - at@ % 4) as u32),
            at@ % 2 == 1 ==> self.can_read((wrapped(at@ + 1) - wrapped(at@ + 1) % 4) as u32),
        ensures
            r == halfword_at(self.store_bytes(), at@),
    {
        let word_addr = at.as_u32();
        if word_addr & 0x1 == 0 {
            let aligned = at.word_align();
            let word = self.get_le_bytes(aligned);
            proof {
                crate::risico::util::lemma_u32_masks(word_addr);
                self.lemma_readable(aligned@);
                lemma_le_bytes_of_le_word(bytes_at(self.store_bytes(), aligned@));
                lemma_halfword_bits(word, 0);
                assert((word_addr & 0x2 != 0 <==> word_addr % 4 == 2) && word_addr % 2 == 0) by (bit_vector)
                    requires
                        word_addr & 0x1 == 0,
                ;
                assert(at@ == aligned@ || at@ == aligned@ + 2);
            }
            if word_addr & 0x2 != 0 {
                ((word & 0xFFFF_0000) >> 16) as u16
            } else {
                (word & 0x0000_FFFF) as u16
            }
        } else {
            let b0 = self.get_byte(at);
            let b1 = self.get_byte(at.offset(super::repr::Offset::new(1)));
            (b0 as u16) | ((b1 as u16) << 8)
        }
    }

    /// Write the halfword `halfword` at `at`, its bytes in little-endian order. Inside a word it
    /// is merged into that word; across two words it is written a byte at a time.
    fn set_le_halfword(&mut self, at: Addr, halfword: u16)
        requires
            old(self).can_read((at@ - at@ % 4) as u32),
            old(self).can_write((at@ - at@ % 4) as u32),
            at@ % 4 == 3 ==> old(self).can_read((wrapped(at@ + 1) - wrapped(at@ + 1) % 4) as u32),
            at@ % 4 == 3 ==> old(self).can_write((wrapped(at@ + 1) - wrapped(at@ + 1) % 4) as u32),
        ensures
            final(self).store_bytes() == old(self).store_bytes().insert(at@, halfword as u8).insert(
                wrapped(at@ + 1),
                (halfword >> 8) as u8,
            ),
            forall|a: u32| old(self).can_read(a) ==> #[trigger] final(self).can_read(a),
            forall|a: u32| old(self).can_write(a) ==> #[trigger] final(self).can_write(a),
    {
        let aligned = at.word_align();
        let word = self.get_le_bytes(aligned);
        let offset = at.word_offset();
        let ghost old_bytes = self.store_bytes();
        let ghost lo = halfword as u8;
        let ghost hi = (halfword >> 8) as u8;
        proof {
            self.lemma_readable(aligned@);
            lemma_le_bytes_of_le_word(bytes_at(old_bytes, aligned@));
            lemma_halfword_bits(word, halfword);
            assert(at@ == aligned@ + offset);
        }
        if offset == 0 {
            let new_word = (word & 0xFFFF_0000) | (halfword as u32);
            proof {
                assert(le_bytes(new_word) =~= seq![lo, hi, (word >> 16) as u8, (word >> 24) as u8]);
                assert(old_bytes.union_prefer_right(placed_bytes(aligned@, le_bytes(new_word))) =~= old_bytes.insert(
                    at@,
                    lo,
                ).insert(wrapped(at@ + 1), hi));
            }
            self.set_le_bytes(aligned, new_word);
        } else if offset == 1 {
            let new_word = (word & 0xFF00_00FF) | ((halfword as u32) << 8);
            proof {
                assert(le_bytes(new_word) =~= seq![word as u8, lo, hi, (word >> 24) as u8]);
                assert(old_bytes.union_prefer_right(placed_bytes(aligned@, le_bytes(new_word))) =~= old_bytes.insert(
                    at@,
                    lo,
                ).insert(wrapped(at@ + 1), hi));
            }
            self.set_le_bytes(aligned, new_word);
        } else if offset == 2 {
            let new_word = (word & 0x0000_FFFF) | ((halfword as u32) << 16);
            proof {
                assert(le_bytes(new_word) =~= seq![word as u8, (word >> 8) as u8, lo, hi]);
                assert(old_bytes.union_prefer_right(placed_bytes(aligned@, le_bytes(new_word))) =~= old_bytes.insert(
                    at@,
                    lo,
                ).insert(wrapped(at@ + 1), hi));
            }
            self.set_le_bytes(aligned, new_word);
        } else {
            self.set_byte(at, halfword as u8);
            self.set_byte(at.offset(super::repr::Offset::new(1)), (halfword >> 8) as u8);
        }
    }

    /// The halfword at `at`, its bytes in big-endian order.
    fn get_be_halfword(&self, at: Addr) -> (r: u16)
        requires
            self.can_read((at@ - at@ % 4) as u32),
            at@ % 2 == 1 ==> self.can_read((wrapped(at@ + 1) - wrapped(at@ + 1) % 4) as u32),
        ensures
            r == swapped_half(halfword_at(self.store_bytes(), at@)),
    {
        swap_half_bytes(self.get_le_halfword(at))
    }

    /// Write the halfword `value` at `at`, its bytes in big-endian order.
    fn set_be_halfword(&mut self, at: Addr, value: u16)
        requires
            old(self).can_read((at@ - at@ % 4) as u32),
            old(self).can_write((at@ - at@ % 4) as u32),
            at@ % 4 == 3 ==> old(self).can_read((wrapped(at@ + 1) - wrapped(at@ + 1) % 4) as u32),
            at@ % 4 == 3 ==> old(self).can_write((wrapped(at@ + 1) - wrapped(at@ + 1) % 4) as u32),
        ensures
            final(self).store_bytes() == old(self).store_bytes().insert(at@, swapped_half(value) as u8).insert(
                wrapped(at@ + 1),
                (swapped_half(value) >> 8) as u8,
            ),
            forall|a: u32| old(self).can_read(a) ==> #[trigger] final(self).can_read(a),
            forall|a: u32| old(self).can_write(a) ==> #[trigger] final(self).can_write(a),
    {
        self.set_le_halfword(at, swap_half_bytes(value))
    }

    /// The halfword at `at` in the byte order `endianness`.
    fn get_halfword(&self, at: Addr, endianness: Endianness) -> (r: u16)
        requires
            self.can_read((at@ - at@ % 4) as u32),
            at@ % 2 == 1 ==> self.can_read((wrapped(at@ + 1) - wrapped(at@ + 1) % 4) as u32),
        ensures
            r == match endianness {
                Endianness::Little => halfword_at(self.store_bytes(), at@),
                Endianness::Big => swapped_half(halfword_at(self.store_bytes(), at@)),
            },
    {
        match endianness {
            Endianness::Little => self.get_le_halfword(at),
            Endianness::Big => self.get_be_halfword(at),
        }
    }

    /// Write the halfword `value` at `at` in the byte order `endianness`.
    fn set_halfword(&mut self, at: Addr, value: u16, endianness: Endianness)
        requires
            old(self).can_read((at@ - at@ % 4) as u32),
            old(self).can_write((at@ - at@ % 4) as u32),
            at@ % 4 == 3 ==> old(self).can_read((wrapped(at@ + 1) - wrapped(at@ + 1) % 4) as u32),
            at@ % 4 == 3 ==> old(self).can_write((wrapped(at@ + 1) - wrapped(at@ + 1) % 4) as u32),
        ensures
            ({
                let h = match endianness {
                    Endianness::Little => value,
                    Endianness::Big => swapped_half(value),
                };
                final(self).store_bytes() == old(self).store_bytes().insert(at@, h as u8).insert(
                    wrapped(at@ + 1),
                    (h >> 8) as u8,
                )
            }),
            forall|a: u32| old(self).can_read(a) ==> #[trigger] final(self).can_read(a),
            forall|a: u32| old(self).can_write(a) ==> #[trigger] final(self).can_write(a),
    {
        match endianness {
            Endianness::Little => self.set_le_halfword(at, value),
            Endianness::Big => self.set_be_halfword(at, value),
        }
    }
}

/// Bytes placed from a start address on.
pub struct PlacedBytes {
    start: Addr,
    bytes: Vec<u8>,
}

impl PlacedBytes {
    /// The start address.
    pub closed spec fn start_spec(&self) -> u32 {
        self.start@
    }

    /// The bytes.
    pub closed spec fn bytes_spec(&self) -> Seq<u8> {
        self.bytes@
    }

    /// `bytes` placed from `start` on.
    pub fn new(start: u32, bytes: Vec<u8>) -> (r: Self)
        ensures
            r.start_spec() == start,
            r.bytes_spec() == bytes@,
    {
        Self { start: Addr::at(start), bytes }
    }

    /// The address behind the last byte, wrapping around the address space.
    pub fn end(&self) -> (r: Addr)
        requires
            self.bytes_spec().len() <= i32::MAX,
        ensures
            r@ == wrapped(self.start_spec() + self.bytes_spec().len()),
    {
        self.start.offset(super::repr::Offset::new(self.bytes.len() as i32))
    }

    /// The bytes.
    pub fn bytes(&self) -> (r: &[u8])
        ensures
            r@ == self.bytes_spec(),
    {
        self.bytes.as_slice()
    }

    /// The bytes, to change them.
    pub fn bytes_mut(&mut self) -> (r: &mut Vec<u8>)
        ensures
            r@ == old(self).bytes_spec(),
            final(self).bytes_spec() == final(r)@,
            final(self).start_spec() == old(self).start_spec(),
    {
        &mut self.bytes
    }
}

impl BackingStore for PlacedBytes {
    open spec fn store_bytes(&self) -> Map<u32, u8> {
        placed_bytes(self.start_spec(), self.bytes_spec())
    }

    open spec fn can_read(&self, at: u32) -> bool {
        self.start_spec() <= at && at <= u32::MAX - 3 && at - self.start_spec() + 4 <= self.bytes_spec().len()
    }

    open spec fn can_write(&self, at: u32) -> bool {
        self.start_spec() <= at && at <= u32::MAX - 3 && at - self.start_spec() + 4 <= self.bytes_spec().len()
    }

    proof fn lemma_readable(&self, at: u32) {
    }

    fn get_le_bytes(&self, at: Addr) -> (r: u32) {
        let offset = (at.as_u32() - self.start.as_u32()) as usize;
        let len = self.bytes.len();
        assert(offset + 4 <= len);
        let r = (self.bytes[offset] as u32) | ((self.bytes[offset + 1] as u32) << 8) | ((self.bytes[offset + 2] as u32) << 16)
            | ((self.bytes[offset + 3] as u32) << 24);
        proof {
            assert(bytes_at(self.store_bytes(), at@) =~= self.bytes@.subrange(offset as int, offset + 4));
        }
        r
    }

    fn set_le_bytes(&mut self, at: Addr, value: u32) {
        let ghost old_self = *self;
        let offset = (at.as_u32() - self.start.as_u32()) as usize;
        let len = self.bytes.len();
        assert(offset + 4 <= len);
        self.bytes.set(offset, value as u8);
        self.bytes.set(offset + 1, (value >> 8) as u8);
        self.bytes.set(offset + 2, (value >> 16) as u8);
        self.bytes.set(offset + 3, (value >> 24) as u8);
        proof {
            assert(self.store_bytes() =~= old_self.store_bytes().union_prefer_right(placed_bytes(at@, le_bytes(value))));
        }
    }

    fn get_byte(&self, at: Addr) -> (r: u8) {
        let offset = (at.as_u32() - self.start.as_u32()) as usize;
        self.bytes[offset]
    }

    fn set_byte(&mut self, at: Addr, byte: u8) {
        let ghost old_self = *self;
        let offset = (at.as_u32() - self.start.as_u32()) as usize;
        self.bytes.set(offset, byte);
        proof {
            assert(self.store_bytes() =~= old_self.store_bytes().insert(at@, byte));
        }
    }

    fn write_to(&mut self, at: Addr, src: &[u8]) {
        let ghost old_self = *self;
        if src.len() == 0 {
            proof {
                assert(self.store_bytes() =~= old_self.store_bytes().union_prefer_right(placed_bytes(at@, src@)));
            }
            return;
        }
        proof {
            assert(old_self.can_read(((at@ + 0) - (at@ + 0) % 4) as u32));
            let last = src@.len() - 1;
            assert(old_self.can_read(((at@ + last) - (at@ + last) % 4) as u32));
        }
        let offset = (at.as_u32() - self.start.as_u32()) as usize;
        let n = self.bytes.len();
        let mut i: usize = 0;
        while i < src.len()
            invariant
                i <= src@.len(),
                n == old_self.bytes_spec().len(),
                offset == at@ - old_self.start_spec(),
                offset + src@.len() <= old_self.bytes_spec().len(),
                self.start_spec() == old_self.start_spec(),
                self.bytes_spec().len() == old_self.bytes_spec().len(),
                self.bytes_spec() == old_self.bytes_spec().take(offset as int) + src@.take(i as int)
                    + old_self.bytes_spec().skip(offset + i),
            decreases src@.len() - i,
        {
            proof {
                assert(self.bytes_spec().update(offset + i, src@[i as int]) =~= old_self.bytes_spec().take(offset as int)
                    + src@.take(i + 1) + old_self.bytes_spec().skip(offset + i + 1));
            }
            self.bytes.set(offset + i, src[i]);
            i = i + 1;
        }
        proof {
            assert(src@.take(i as int) =~= src@);
            assert(self.store_bytes() =~= old_self.store_bytes().union_prefer_right(placed_bytes(at@, src@)));
        }
    }
}

impl BackingStore for SegmentTree {
    open spec fn store_bytes(&self) -> Map<u32, u8> {
        self.memory()
    }

    open spec fn can_read(&self, at: u32) -> bool {
        self.wf() && at <= u32::MAX - 4 && has_word(self.memory(), at)
    }

    open spec fn can_write(&self, at: u32) -> bool {
        self.wf() && at <= u32::MAX - 4
    }

    proof fn lemma_readable(&self, at: u32) {
    }

    fn get_le_bytes(&self, at: Addr) -> (r: u32) {
        let mut bytes: [u8; 4] = [0; 4];
        let result = self.get_range(at.as_u32(), &mut bytes);
        proof {
            assert(self.memory().contains_key((at@ + 3) as u32));
        }
        let r = (bytes[0] as u32) | ((bytes[1] as u32) << 8) | ((bytes[2] as u32) << 16) | ((bytes[3] as u32) << 24);
        proof {
            assert(result is Ok);
            assert(bytes@[0] == self.memory()[(at@ + 0) as u32]);
            assert(bytes@[1] == self.memory()[(at@ + 1) as u32]);
            assert(bytes@[2] == self.memory()[(at@ + 2) as u32]);
            assert(bytes@[3] == self.memory()[(at@ + 3) as u32]);
        }
        r
    }

    fn set_le_bytes(&mut self, at: Addr, value: u32) {
        let bytes: [u8; 4] = [value as u8, (value >> 8) as u8, (value >> 16) as u8, (value >> 24) as u8];
        proof {
            assert(bytes@ =~= le_bytes(value));
        }
        self.fill_range(at.as_u32(), &bytes);
    }

    fn write_to(&mut self, at: Addr, src: &[u8]) {
        if src.len() == 0 {
            proof {
                assert(self.store_bytes() =~= self.store_bytes().union_prefer_right(placed_bytes(at@, src@)));
            }
            return;
        }
        proof {
            let last = src@.len() - 1;
            assert(self.can_read(((at@ + last) - (at@ + last) % 4) as u32));
        }
        self.fill_range(at.as_u32(), src)
    }
}

impl BackingStore for IntervalTree {
    open spec fn store_bytes(&self) -> Map<u32, u8> {
        self.memory()
    }

    open spec fn can_read(&self, at: u32) -> bool {
        self.wf() && at <= u32::MAX - 4 && has_word(self.memory(), at)
    }

    open spec fn can_write(&self, at: u32) -> bool {
        self.wf() && at <= u32::MAX - 4
    }

    proof fn lemma_readable(&self, at: u32) {
    }

    fn get_le_bytes(&self, at: Addr) -> (r: u32) {
        let mut bytes: [u8; 4] = [0; 4];
        let result = self.get_range(at.as_u32(), &mut bytes);
        proof {
            assert(self.memory().contains_key((at@ + 3) as u32));
        }
        let r = (bytes[0] as u32) | ((bytes[1] as u32) << 8) | ((bytes[2] as u32) << 16) | ((bytes[3] as u32) << 24);
        proof {
            assert(result is Ok);
            assert(bytes@[0] == self.memory()[(at@ + 0) as u32]);
            assert(bytes@[1] == self.memory()[(at@ + 1) as u32]);
            assert(bytes@[2] == self.memory()[(at@ + 2) as u32]);
            assert(bytes@[3] == self.memory()[(at@ + 3) as u32]);
        }
        r
    }

    fn set_le_bytes(&mut self, at: Addr, value: u32) {
        let bytes: [u8; 4] = [value as u8, (value >> 8) as u8, (value >> 16) as u8, (value >> 24) as u8];
        proof {
            assert(bytes@ =~= le_bytes(value));
        }
        self.fill_range(at.as_u32(), &bytes);
    }

    fn write_to(&mut self, at: Addr, src: &[u8]) {
        if src.len() == 0 {
            proof {
                assert(self.store_bytes() =~= self.store_bytes().union_prefer_right(placed_bytes(at@, src@)));
            }
            return;
        }
        proof {
            let last = src@.len() - 1;
            assert(self.can_read(((at@ + last) - (at@ + last) % 4) as u32));
        }
        self.fill_range(at.as_u32(), src)
    }
}

/// The memory of a run of words, by byte address.
pub open spec fn word_bytes(words: Seq<u32>) -> Map<u32, u8> {
    Map::new(
        |a: u32| (a / 4) < words.len(),
        |a: u32| le_bytes(words[(a / 4) as int])[(a % 4) as int],
    )
}

/// Whether the four bytes from `at` on lie in the first `len` words, without wrapping around.
pub open spec fn words_hold(len: nat, at: u32) -> bool {
    &&& at <= u32::MAX - 3
    &&& (at / 4) < len
    &&& ((at + 3) / 4) < len
}

/// The byte `k` of the word `w`, the lowest first.
fn byte_of_word(w: u32, k: u32) -> (r: u8)
    requires
        k < 4,
    ensures
        r == le_bytes(w)[k as int],
{
    if k == 0 {
        w as u8
    } else if k == 1 {
        (w >> 8) as u8
    } else if k == 2 {
        (w >> 16) as u8
    } else {
        (w >> 24) as u8
    }
}

/// The word `w` with its byte `k` replaced by `b`.
fn with_byte(w: u32, k: u32, b: u8) -> (r: u32)
    requires
        k < 4,
    ensures
        le_bytes(r) == le_bytes(w).update(k as int, b),
{
    let b0 = if k == 0 { b } else { w as u8 };
    let b1 = if k == 1 { b } else { (w >> 8) as u8 };
    let b2 = if k == 2 { b } else { (w >> 16) as u8 };
    let b3 = if k == 3 { b } else { (w >> 24) as u8 };
    let r = (b0 as u32) | ((b1 as u32) << 8) | ((b2 as u32) << 16) | ((b3 as u32) << 24);
    proof {
        let s = seq![b0, b1, b2, b3];
        assert(r == le_word(s));
        lemma_le_bytes_of_le_word(s);
        assert(s =~= le_bytes(w).update(k as int, b));
    }
    r
}

/// The four bytes of a word-aligned word are the bytes of that word.
proof fn lemma_read_aligned(words: Seq<u32>, at: u32)
    requires
        at % 4 == 0,
        (at / 4) < words.len(),
    ensures
        bytes_at(word_bytes(words), at) == le_bytes(words[(at / 4) as int]),
        le_word(bytes_at(word_bytes(words), at)) == words[(at / 4) as int],
{
    assert(bytes_at(word_bytes(words), at) =~= le_bytes(words[(at / 4) as int]));
    lemma_le_word_of_le_bytes(words[(at / 4) as int]);
}

/// Replacing the word `q` by one whose bytes differ in byte `k` alone writes that byte.
proof fn lemma_write_byte(words: Seq<u32>, q: int, k: int, b: u8, w: u32)
    requires
        0 <= q < words.len(),
        0 <= k < 4,
        4 * q + k <= u32::MAX,
        le_bytes(w) == le_bytes(words[q]).update(k, b),
    ensures
        word_bytes(words.update(q, w)) == word_bytes(words).insert((4 * q + k) as u32, b),
{
    assert(word_bytes(words.update(q, w)) =~= word_bytes(words).insert((4 * q + k) as u32, b));
}

/// Replacing the word at the aligned address `at` places its bytes there.
proof fn lemma_write_word(words: Seq<u32>, at: u32, w: u32)
    requires
        at % 4 == 0,
        (at / 4) < words.len(),
    ensures
        word_bytes(words.update((at / 4) as int, w)) == word_bytes(words).union_prefer_right(
            placed_bytes(at, le_bytes(w)),
        ),
{
    assert(word_bytes(words.update((at / 4) as int, w)) =~= word_bytes(words).union_prefer_right(
        placed_bytes(at, le_bytes(w)),
    ));
}

/// Four single-byte writes from `at` on place the four bytes there.
proof fn lemma_four_bytes(m: Map<u32, u8>, at: u32, s: Seq<u8>)
    requires
        at <= u32::MAX - 3,
        s.len() == 4,
    ensures
        m.insert(at, s[0]).insert((at + 1) as u32, s[1]).insert((at + 2) as u32, s[2]).insert(
            (at + 3) as u32,
            s[3],
        ) == m.union_prefer_right(placed_bytes(at, s)),
{
    assert(m.insert(at, s[0]).insert((at + 1) as u32, s[1]).insert((at + 2) as u32, s[2]).insert(
        (at + 3) as u32,
        s[3],
    ) =~= m.union_prefer_right(placed_bytes(at, s)));
}

/// A fixed-size memory of words, all zero at first.
#[derive(Debug, Clone)]
pub struct StaticDataArray {
    size: u32,
    data: Vec<u32>,
}

impl StaticDataArray {
    /// The words.
    pub closed spec fn words(&self) -> Seq<u32> {
        self.data@
    }

    /// The size it was made with, in bytes.
    pub closed spec fn size_spec(&self) -> u32 {
        self.size
    }

    /// A memory of `size` bytes, rounded up to whole words and one more, all zero.
    pub fn new(size: u32) -> (r: Self)
        ensures
            r.size_spec() == size,
            r.words() == Seq::new((size / 4 + 1) as nat, |i: int| 0u32),
    {
        let n = size / 4 + 1;
        let mut data: Vec<u32> = Vec::new();
        while (data.len() as u32) < n
            invariant
                data@.len() <= n,
                forall|i: int| 0 <= i < data@.len() ==> #[trigger] data@[i] == 0,
            decreases n - data@.len(),
        {
            data.push(0);
        }
        proof {
            assert(data@ =~= Seq::new((size / 4 + 1) as nat, |i: int| 0u32));
        }
        Self { size, data }
    }

    /// The byte at `a`.
    fn read_byte(&self, a: u32) -> (r: u8)
        requires
            (a / 4) < self.words().len(),
        ensures
            r == self.store_bytes()[a],
    {
        byte_of_word(self.data[(a / 4) as usize], a % 4)
    }

    /// Write the byte `b` at `a`.
    fn write_byte(&mut self, a: u32, b: u8)
        requires
            (a / 4) < old(self).words().len(),
        ensures
            final(self).words().len() == old(self).words().len(),
            final(self).store_bytes() == old(self).store_bytes().insert(a, b),
    {
        let q = (a / 4) as usize;
        let w = with_byte(self.data[q], a % 4, b);
        proof {
            lemma_write_byte(self.data@, q as int, (a % 4) as int, b, w);
        }
        self.data.set(q, w);
    }
}

impl BackingStore for StaticDataArray {
    open spec fn store_bytes(&self) -> Map<u32, u8> {
        word_bytes(self.words())
    }

    open spec fn can_read(&self, at: u32) -> bool {
        words_hold(self.words().len(), at)
    }

    open spec fn can_write(&self, at: u32) -> bool {
        words_hold(self.words().len(), at)
    }

    proof fn lemma_readable(&self, at: u32) {
    }

    fn get_le_bytes(&self, at: Addr) -> (r: u32) {
        if at.is_word_aligned() {
            let a = at.as_u32();
            let r = self.data[(a / 4) as usize];
            proof {
                lemma_read_aligned(self.words(), a);
            }
            r
        } else {
            let a = at.as_u32();
            let b0 = self.read_byte(a);
            let b1 = self.read_byte(a + 1);
            let b2 = self.read_byte(a + 2);
            let b3 = self.read_byte(a + 3);
            (b0 as u32) | ((b1 as u32) << 8) | ((b2 as u32) << 16) | ((b3 as u32) << 24)
        }
    }

    fn set_le_bytes(&mut self, at: Addr, value: u32) {
        let a = at.as_u32();
        if at.is_word_aligned() {
            proof {
                lemma_write_word(self.words(), a, value);
            }
            self.data.set((a / 4) as usize, value);
        } else {
            let ghost old_bytes = self.store_bytes();
            self.write_byte(a, value as u8);
            self.write_byte(a + 1, (value >> 8) as u8);
            self.write_byte(a + 2, (value >> 16) as u8);
            self.write_byte(a + 3, (value >> 24) as u8);
            proof {
                lemma_four_bytes(old_bytes, a, le_bytes(value));
            }
        }
    }
}

/// The number of bytes in a block of a [`DynamicDataArray`].
pub const BLOCK_BYTES: usize = 1024;

/// The words held in the blocks of `blocks`, the first `len` of them; a word of a block that
/// was never written is zero.
pub open spec fn block_words(blocks: Map<u32, Vec<u32>>, len: nat) -> Seq<u32> {
    Seq::new(
        len,
        |q: int|
            if blocks.contains_key((q / 256) as u32) {
                blocks[(q / 256) as u32]@[q % 256]
            } else {
                0u32
            },
    )
}

/// The word at an aligned address is found in the block and at the place that its index gives.
proof fn lemma_block_position(at: u32)
    requires
        at % 4 == 0,
    ensures
        at / 1024 == (at / 4) / 256,
        (at % 1024) / 4 == (at / 4) % 256,
{
    let q = at / 4;
    assert(at == 4 * q);
    assert((4 * q) / 1024 == q / 256) by (nonlinear_arith);
    assert(((4 * q) % 1024) / 4 == q % 256) by (nonlinear_arith);
}

/// A memory of words, all zero at first, whose blocks are made when first written.
#[derive(Debug, Clone)]
pub struct DynamicDataArray {
    size: u32,
    data: std::collections::HashMap<u32, Vec<u32>>,
}

/// A block of zero words.
fn zero_block() -> (r: Vec<u32>)
    ensures
        r@ == Seq::new(BLOCK_BYTES as nat, |i: int| 0u32),
{
    let mut v: Vec<u32> = Vec::new();
    while v.len() < BLOCK_BYTES
        invariant
            v@.len() <= BLOCK_BYTES,
            forall|i: int| 0 <= i < v@.len() ==> #[trigger] v@[i] == 0,
        decreases BLOCK_BYTES - v@.len(),
    {
        v.push(0);
    }
    proof {
        assert(v@ =~= Seq::new(BLOCK_BYTES as nat, |i: int| 0u32));
    }
    v
}

impl DynamicDataArray {
    /// Every block holds a whole block of words.
    pub closed spec fn wf(&self) -> bool {
        forall|k: u32| #[trigger] self.data@.contains_key(k) ==> self.data@[k]@.len() == BLOCK_BYTES
    }

    /// The words, up to the size it was made with.
    pub closed spec fn words(&self) -> Seq<u32> {
        block_words(self.data@, ((self.size as int + 3) / 4) as nat)
    }

    /// The indices of the blocks that were made.
    pub closed spec fn blocks(&self) -> Set<u32> {
        self.data@.dom()
    }

    /// The size it was made with, in bytes.
    pub closed spec fn size_spec(&self) -> u32 {
        self.size
    }

    /// A memory of `size` bytes, all zero, with no block made yet.
    pub fn new(size: u32) -> (r: Self)
        ensures
            r.wf(),
            r.size_spec() == size,
            r.blocks() == Set::<u32>::empty(),
            r.words() == Seq::new(((size as int + 3) / 4) as nat, |i: int| 0u32),
    {
        let r = Self { size, data: std::collections::HashMap::new() };
        proof {
            assert(r.words() =~= Seq::new(((size as int + 3) / 4) as nat, |i: int| 0u32));
        }
        r
    }

    /// The index of the block that holds the address.
    pub fn block_index(at: Addr) -> (r: u32)
        ensures
            r == at@ / BLOCK_BYTES as u32,
    {
        at.in_blocks(BLOCK_BYTES).0 as u32
    }

    /// The index of the word that holds the address, in its block.
    pub fn block_offset(at: Addr) -> (r: usize)
        ensures
            r == (at@ % BLOCK_BYTES as u32) / 4,
    {
        at.in_blocks(BLOCK_BYTES).1 / 4
    }

    /// The number of blocks that were made.
    pub fn num_allocated_blocks(&self) -> (r: usize)
        ensures
            r == self.blocks().len(),
    {
        proof {
            broadcast use vstd::std_specs::hash::group_hash_axioms;
        }
        self.data.len()
    }

    /// The word at the aligned address `at`.
    fn read_word(&self, at: Addr) -> (r: u32)
        requires
            self.wf(),
            at@ % 4 == 0,
            (at@ / 4) < self.words().len(),
        ensures
            r == self.words()[(at@ / 4) as int],
    {
        broadcast use vstd::std_specs::hash::group_hash_axioms;

        let index = Self::block_index(at);
        let offset = Self::block_offset(at);
        proof {
            lemma_block_position(at@);
        }
        match self.data.get(&index) {
            Some(block) => block[offset],
            None => 0,
        }
    }

    /// Write the word `w` at the aligned address `at`, making its block if there is none.
    fn write_word(&mut self, at: Addr, w: u32)
        requires
            old(self).wf(),
            at@ % 4 == 0,
            (at@ / 4) < old(self).words().len(),
        ensures
            final(self).wf(),
            final(self).size_spec() == old(self).size_spec(),
            final(self).words() == old(self).words().update((at@ / 4) as int, w),
            final(self).blocks() == old(self).blocks().insert(at@ / BLOCK_BYTES as u32),
    {
        broadcast use vstd::std_specs::hash::group_hash_axioms;

        let ghost old_self = *self;
        let index = Self::block_index(at);
        let offset = Self::block_offset(at);
        proof {
            lemma_block_position(at@);
        }
        let mut block = match self.data.remove(&index) {
            Some(block) => block,
            None => zero_block(),
        };
        block.set(offset, w);
        self.data.insert(index, block);
        proof {
            assert(self.words() =~= old_self.words().update((at@ / 4) as int, w));
            assert(self.blocks() =~= old_self.blocks().insert(index));
        }
    }

    /// The byte at `a`.
    fn read_byte(&self, a: u32) -> (r: u8)
        requires
            self.wf(),
            (a / 4) < self.words().len(),
        ensures
            r == self.store_bytes()[a],
    {
        let aligned = Addr::at(a).word_align();
        byte_of_word(self.read_word(aligned), a % 4)
    }

    /// Write the byte `b` at `a`.
    fn write_byte(&mut self, a: u32, b: u8)
        requires
            old(self).wf(),
            (a / 4) < old(self).words().len(),
        ensures
            final(self).wf(),
            final(self).size_spec() == old(self).size_spec(),
            final(self).store_bytes() == old(self).store_bytes().insert(a, b),
    {
        let aligned = Addr::at(a).word_align();
        let w = with_byte(self.read_word(aligned), a % 4, b);
        proof {
            lemma_write_byte(self.words(), (a / 4) as int, (a % 4) as int, b, w);
        }
        self.write_word(aligned, w);
    }
}

impl BackingStore for DynamicDataArray {
    open spec fn store_bytes(&self) -> Map<u32, u8> {
        word_bytes(self.words())
    }

    open spec fn can_read(&self, at: u32) -> bool {
        self.wf() && words_hold(self.words().len(), at)
    }

    open spec fn can_write(&self, at: u32) -> bool {
        self.wf() && words_hold(self.words().len(), at)
    }

    proof fn lemma_readable(&self, at: u32) {
    }

    fn get_le_bytes(&self, at: Addr) -> (r: u32) {
        if at.is_word_aligned() {
            let r = self.read_word(at);
            proof {
                lemma_read_aligned(self.words(), at@);
            }
            r
        } else {
            let a = at.as_u32();
            let b0 = self.read_byte(a);
            let b1 = self.read_byte(a + 1);
            let b2 = self.read_byte(a + 2);
            let b3 = self.read_byte(a + 3);
            (b0 as u32) | ((b1 as u32) << 8) | ((b2 as u32) << 16) | ((b3 as u32) << 24)
        }
    }

    fn set_le_bytes(&mut self, at: Addr, value: u32) {
        let a = at.as_u32();
        if at.is_word_aligned() {
            proof {
                lemma_write_word(self.words(), a, value);
            }
            self.write_word(at, value);
        } else {
            let ghost old_bytes = self.store_bytes();
            self.write_byte(a, value as u8);
            self.write_byte(a + 1, (value >> 8) as u8);
            self.write_byte(a + 2, (value >> 16) as u8);
            self.write_byte(a + 3, (value >> 24) as u8);
            proof {
                lemma_four_bytes(old_bytes, a, le_bytes(value));
            }
        }
    }
}

/// Reversing the bytes of a word twice gives the word.
proof fn lemma_swapped_twice(w: u32)
    ensures
        swapped(swapped(w)) == w,
{
    lemma_le_bytes_of_le_word(le_bytes(w).reverse());
    assert(le_bytes(w).reverse().reverse() =~= le_bytes(w));
    lemma_le_word_of_le_bytes(w);
}

/// A halfword is its two bytes, and reversing them twice gives it back.
proof fn lemma_halfword_bytes(h: u16)
    by (bit_vector)
    ensures
        ((h as u8) as u16) | ((((h >> 8) as u8) as u16) << 8) == h,
        ((((h & 0xFF) << 8) | (h >> 8)) & 0xFF) << 8 | ((((h & 0xFF) << 8) | (h >> 8)) >> 8) == h,
{
}

/// A word read back, in either byte order, from a store in which it was just written in that
/// byte order is the word written.
pub proof fn law_word_read_after_write<S: BackingStore>(
    before: S,
    after: S,
    at: u32,
    value: u32,
    endianness: Endianness,
)
    requires
        after.can_read(at),
        after.store_bytes() == before.store_bytes().union_prefer_right(
            placed_bytes(
                at,
                le_bytes(
                    match endianness {
                        Endianness::Little => value,
                        Endianness::Big => swapped(value),
                    },
                ),
            ),
        ),
    ensures
        (match endianness {
            Endianness::Little => le_word(bytes_at(after.store_bytes(), at)),
            Endianness::Big => swapped(le_word(bytes_at(after.store_bytes(), at))),
        }) == value,
{
    after.lemma_readable(at);
    let w = match endianness {
        Endianness::Little => value,
        Endianness::Big => swapped(value),
    };
    assert(bytes_at(after.store_bytes(), at) =~= le_bytes(w));
    lemma_le_word_of_le_bytes(w);
    lemma_swapped_twice(value);
}

/// A byte read back from a store in which it was just written is the byte written.
pub proof fn law_byte_read_after_write<S: BackingStore>(before: S, after: S, at: u32, byte: u8)
    requires
        after.store_bytes() == before.store_bytes().insert(at, byte),
    ensures
        after.store_bytes()[at] == byte,
{
}

/// A halfword read back, in either byte order, from a store in which it was just written in that
/// byte order is the halfword written.
pub proof fn law_halfword_read_after_write<S: BackingStore>(
    before: S,
    after: S,
    at: u32,
    value: u16,
    endianness: Endianness,
)
    requires
        ({
            let h = match endianness {
                Endianness::Little => value,
                Endianness::Big => swapped_half(value),
            };
            after.store_bytes() == before.store_bytes().insert(at, h as u8).insert(
                wrapped(at + 1),
                (h >> 8) as u8,
            )
        }),
    ensures
        (match endianness {
            Endianness::Little => halfword_at(after.store_bytes(), at),
            Endianness::Big => swapped_half(halfword_at(after.store_bytes(), at)),
        }) == value,
{
    assert(wrapped(at + 1) != at);
    lemma_halfword_bytes(value);
    lemma_halfword_bytes(swapped_half(value));
}

} // verus!
