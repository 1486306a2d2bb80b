//! Typed machine values: signed offsets, sizes, untyped words and addresses.
use vstd::prelude::*;

verus! {

/// `x` reduced into the range of a `u32`, as 32-bit wrapping arithmetic does.
pub open spec fn wrapped(x: int) -> u32 {
    (x % 0x1_0000_0000) as u32
}

/// A signed distance between two addresses.
#[derive(Debug, Default, Clone, Copy, PartialEq, Eq, Structural, PartialOrd, Ord, Hash)]
pub struct Offset(i32);

/// A number of bytes.
#[derive(Debug, Default, Clone, Copy, PartialEq, Eq, Structural, PartialOrd, Ord, Hash)]
pub struct Size(u32);

/// 4 bytes that do not have a decimal value until it is explicitly declared.
#[derive(Debug, Default, Clone, Copy, PartialEq, Eq, Structural, Hash)]
pub struct Word(u32);

/// A byte address.
#[derive(Debug, Default, Clone, Copy, PartialEq, Eq, Structural, PartialOrd, Ord, Hash)]
pub struct Addr(u32);

impl View for Offset {
    type V = i32;

    closed spec fn view(&self) -> i32 {
        self.0
    }
}

impl View for Size {
    type V = u32;

    closed spec fn view(&self) -> u32 {
        self.0
    }
}

impl View for Word {
    type V = u32;

    closed spec fn view(&self) -> u32 {
        self.0
    }
}

impl View for Addr {
    type V = u32;

    closed spec fn view(&self) -> u32 {
        self.0
    }
}

impl From<u32> for Size {
    fn from(value: u32) -> (r: Self)
        ensures
            r@ == value,
    {
        Self(value)
    }
}

impl vstd::std_specs::convert::FromSpecImpl<u32> for Size {
    open spec fn obeys_from_spec() -> bool {
        true
    }

    closed spec fn from_spec(v: u32) -> Self {
        Size(v)
    }
}

impl From<u32> for Word {
    fn from(value: u32) -> (r: Self)
        ensures
            r@ == value,
    {
        Self(value)
    }
}

impl vstd::std_specs::convert::FromSpecImpl<u32> for Word {
    open spec fn obeys_from_spec() -> bool {
        true
    }

    closed spec fn from_spec(v: u32) -> Self {
        Word(v)
    }
}

impl From<u32> for Addr {
    fn from(value: u32) -> (r: Self)
        ensures
            r@ == value,
    {
        Self(value)
    }
}

impl vstd::std_specs::convert::FromSpecImpl<u32> for Addr {
    open spec fn obeys_from_spec() -> bool {
        true
    }

    closed spec fn from_spec(v: u32) -> Self {
        Addr(v)
    }
}

impl From<i32> for Offset {
    fn from(value: i32) -> (r: Self)
        ensures
            r@ == value,
    {
        Self(value)
    }
}

impl vstd::std_specs::convert::FromSpecImpl<i32> for Offset {
    open spec fn obeys_from_spec() -> bool {
        true
    }

    closed spec fn from_spec(v: i32) -> Self {
        Offset(v)
    }
}

impl From<Addr> for Word {
    fn from(value: Addr) -> (r: Word)
        ensures
            r@ == value@,
    {
        Word(value.0)
    }
}

impl vstd::std_specs::convert::FromSpecImpl<Addr> for Word {
    open spec fn obeys_from_spec() -> bool {
        true
    }

    closed spec fn from_spec(v: Addr) -> Word {
        Word(v.0)
    }
}

impl Offset {
    /// The offset of `value` bytes, for this crate's own use: verified code cannot call `from` on
    /// a type whose `From` impl it also verifies.
    pub(crate) fn new(value: i32) -> (r: Self)
        ensures
            r@ == value,
    {
        Self(value)
    }

    /// The offset as a signed integer.
    pub fn as_i32(self) -> (r: i32)
        ensures
            r == self@,
    {
        self.0
    }

    /// Whether the offset is zero.
    pub fn is_zero(self) -> (b: bool)
        ensures
            b == (self@ == 0),
    {
        self.0 == 0
    }
}

impl Size {
    /// The size of `value` bytes, for this crate's own use: verified code cannot call `from` on a
    /// type whose `From` impl it also verifies.
    pub(crate) fn of(value: u32) -> (r: Self)
        ensures
            r@ == value,
    {
        Self(value)
    }

    /// The size `s`, if it fits in 32 bits.
    pub fn from_usize(s: usize) -> (r: Option<Self>)
        ensures
            r is Some <==> s <= u32::MAX,
            r matches Some(size) ==> size@ == s,
    {
        if s > u32::MAX as usize {
            return None;
        }
        Some(Self(s as u32))
    }

    /// The size as an index.
    pub fn as_usize(self) -> (r: usize)
        ensures
            r == self@,
    {
        self.0 as usize
    }

    /// The sum of two sizes, unless it exceeds 32 bits.
    pub fn checked_add(self, rhs: Self) -> (r: Option<Self>)
        ensures
            r is Some <==> self@ + rhs@ <= u32::MAX,
            r matches Some(sum) ==> sum@ == self@ + rhs@,
    {
        if u32::MAX - self.0 < rhs.0 {
            return None;
        }
        Some(Self(self.0 + rhs.0))
    }

    /// Whether the size is zero.
    pub fn is_zero(self) -> (b: bool)
        ensures
            b == (self@ == 0),
    {
        self.0 == 0
    }

    /// Whether the size is a multiple of four.
    pub fn is_word_aligned(self) -> (b: bool)
        ensures
            b == (self@ % 4 == 0),
    {
        let v = self.0;
        proof {
            crate::risico::util::lemma_u32_masks(v);
        }
        v & 0b11 == 0
    }
}

/// `value` sign-extended from its lowest `n` bits.
pub open spec fn sign_extended(value: u32, n: u32) -> u32 {
    let low = u32::MAX >> (32 - n) as u32;
    if (value >> (n - 1) as u32) & 1 == 1 {
        value | !low
    } else {
        value & low
    }
}

impl Word {
    /// The bits as an unsigned integer.
    pub fn as_u32(self) -> (r: u32)
        ensures
            r == self@,
    {
        self.0
    }

    /// The bits as a two's complement signed integer.
    pub fn as_i32(self) -> (r: i32)
        ensures
            r as u32 == self@,
    {
        let v = self.0;
        let r = v as i32;
        assert(r as u32 == v) by (bit_vector)
            requires
                r == v as i32,
        ;
        r
    }

    /// The bits as an address.
    pub fn as_addr(self) -> (r: Addr)
        ensures
            r@ == self@,
    {
        Addr(self.as_u32())
    }

    /// The bits as a signed offset.
    pub fn as_offset(self) -> (r: Offset)
        ensures
            r@ as u32 == self@,
    {
        Offset(self.as_i32())
    }

    /// The bits as a size.
    pub fn as_size(self) -> (r: Size)
        ensures
            r@ == self@,
    {
        Size(self.as_u32())
    }

    /// The lowest five bits, as a shift amount.
    pub fn as_shift(self) -> (r: Size)
        ensures
            r@ == self@ % 32,
    {
        let v = self.as_u32();
        proof {
            crate::risico::util::lemma_u32_masks(v);
        }
        Size(v & 0x0000_001F)
    }

    /// Whether every bit is set.
    pub fn is_all_1(self) -> (b: bool)
        ensures
            b == (self@ == 0xFFFF_FFFF),
    {
        self.0 == 0xFFFF_FFFF
    }

    /// Whether every bit is clear.
    pub fn is_zero(self) -> (b: bool)
        ensures
            b == (self@ == 0),
    {
        self.0 == 0
    }

    /// Whether the value is a multiple of four.
    pub fn is_word_aligned(self) -> (b: bool)
        ensures
            b == (self@ % 4 == 0),
    {
        let v = self.0;
        proof {
            crate::risico::util::lemma_u32_masks(v);
        }
        v & 0b11 == 0
    }

    /// The byte sign-extended to a word.
    pub fn sign_extend_u8(byte: u8) -> (r: Self)
        ensures
            r@ == sign_extended(byte as u32, 8),
    {
        Self(byte as u32).sign_extend::<8>()
    }

    /// The halfword sign-extended to a word.
    pub fn sign_extend_u16(halfword: u16) -> (r: Self)
        ensures
            r@ == sign_extended(halfword as u32, 16),
    {
        Self(halfword as u32).sign_extend::<16>()
    }

    /// The word sign-extended from its lowest `N` bits.
    pub fn sign_extend<const N: usize>(self) -> (r: Self)
        requires
            0 < N <= 32,
        ensures
            r@ == sign_extended(self@, N as u32),
    {
        let n = N as u32;
        let shift = 32 - n;
        let v = self.0;
        let r = (((v << shift) as i32) >> shift) as u32;
        assert(r == sign_extended(v, n)) by (bit_vector)
            requires
                0 < n <= 32,
                shift == 32 - n,
                r == (((v << shift) as i32) >> shift) as u32,
        ;
        Self(r)
    }
}

impl Addr {
    /// The address with the value `value`, for this crate's own use: verified code cannot call
    /// `from` on a type whose `From` impl it also verifies.
    pub(crate) fn at(value: u32) -> (r: Self)
        ensures
            r@ == value,
    {
        Self(value)
    }

    /// The address `offset` bytes from this one, wrapping around the address space.
    pub fn offset(self, offset: Offset) -> (r: Self)
        ensures
            r@ == wrapped(self@ + offset@),
    {
        Self(self.0.wrapping_add_signed(offset.0))
    }

    /// The address `size` bytes behind this one, wrapping around the address space.
    pub fn end(self, size: Size) -> (r: Self)
        ensures
            r@ == wrapped(self@ + size@),
    {
        Self(self.0.wrapping_add(size.0))
    }

    /// The address rounded down to a multiple of four.
    pub fn word_align(self) -> (r: Self)
        ensures
            r@ == self@ - self@ % 4,
    {
        let v = self.0;
        proof {
            crate::risico::util::lemma_u32_masks(v);
        }
        Self(v & 0xFFFF_FFFC)
    }

    /// The position of the address in its word.
    pub fn word_offset(self) -> (r: u8)
        ensures
            r == self@ % 4,
    {
        let v = self.0;
        proof {
            crate::risico::util::lemma_u32_masks(v);
        }
        (v & 0x3) as u8
    }

    /// The index of the block of `block_size` bytes that holds the address, and the position of
    /// the address in it.
    pub fn in_blocks(self, block_size: usize) -> (r: (usize, usize))
        requires
            block_size > 0,
        ensures
            r.0 == self@ as int / block_size as int,
            r.1 == self@ as int % block_size as int,
    {
        (self.0 as usize / block_size, self.0 as usize % block_size)
    }

    /// The address as an unsigned integer.
    pub fn as_u32(self) -> (r: u32)
        ensures
            r == self@,
    {
        self.0
    }

    /// Whether the address is zero.
    pub fn is_zero(self) -> (b: bool)
        ensures
            b == (self@ == 0),
    {
        self.0 == 0
    }

    /// Whether the address is a multiple of four.
    pub fn is_word_aligned(self) -> (b: bool)
        ensures
            b == (self@ % 4 == 0),
    {
        let v = self.0;
        proof {
            crate::risico::util::lemma_u32_masks(v);
        }
        v & 0b11 == 0
    }

    /// The addresses from this one up to, not including, `to`, wrapping around the address space.
    pub fn to(self, to: Addr) -> (r: AddrIterator)
        ensures
            r.next_addr() == self,
            r.end_addr() == to,
    {
        AddrIterator { start: self, end: to }
    }
}

/// The addresses from a start up to, not including, an end, wrapping around the address space.
pub struct AddrIterator {
    start: Addr,
    end: Addr,
}

impl AddrIterator {
    /// The address that comes next.
    pub closed spec fn next_addr(&self) -> Addr {
        self.start
    }

    /// The address at which the iteration stops.
    pub closed spec fn end_addr(&self) -> Addr {
        self.end
    }

    /// The next address, or `None` once the end is reached.
    pub fn next(&mut self) -> (r: Option<Addr>)
        ensures
            final(self).end_addr() == old(self).end_addr(),
            old(self).next_addr() == old(self).end_addr() ==> r is None && *final(self) == *old(self),
            old(self).next_addr() != old(self).end_addr() ==> r == Some(old(self).next_addr())
                && final(self).next_addr()@ == wrapped(old(self).next_addr()@ + 1),
    {
        if self.start.0 == self.end.0 {
            return None;
        }
        let addr = self.start;
        self.start = Addr(self.start.0.wrapping_add(1));
        Some(addr)
    }
}

} // verus!
