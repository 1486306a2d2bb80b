//! The choices of the program generator, made from random bits that the caller draws: which
//! registers an instruction reads and writes (favouring the registers written most recently),
//! rounding modes and immediates, and the pool of random bits itself.
use vstd::prelude::*;

use crate::encoding::args::{BeqArgs, BgeArgs, BgeuArgs, BltArgs, BltuArgs, BneArgs};
use crate::encoding::instruction::Instruction;
use crate::risico::execute::{branch_taken, Registers};
use crate::segment_tree::SegmentTree;

verus! {

/// `s` with `carry` shifted in at the front, each element moving one place back, until the
/// element equal to `r` is pushed out (or the end is reached, where the last element is dropped).
pub open spec fn shifted_in(s: Seq<u8>, carry: u8, r: u8) -> Seq<u8>
    decreases s.len(),
{
    if s.len() == 0 {
        Seq::empty()
    } else if s[0] == r {
        seq![carry] + s.skip(1)
    } else {
        seq![carry] + shifted_in(s.skip(1), s[0], r)
    }
}

/// The recency list `s` after `r` is used: `r` moves to the front, the registers before its first
/// place move one back, and the others stay.
pub open spec fn moved_to_front(s: Seq<u8>, r: u8) -> Seq<u8> {
    shifted_in(s, r, r)
}

/// A shift keeps the length.
proof fn lemma_shifted_len(s: Seq<u8>, carry: u8, r: u8)
    ensures
        shifted_in(s, carry, r).len() == s.len(),
    decreases s.len(),
{
    if s.len() > 0 && s[0] != r {
        lemma_shifted_len(s.skip(1), s[0], r);
    }
}

/// Shifting in keeps the carried register and every register of `s` but the one pushed out.
proof fn lemma_shifted_keeps(s: Seq<u8>, carry: u8, r: u8, x: u8)
    requires
        s.contains(r),
        x == carry || (s.contains(x) && x != r),
    ensures
        shifted_in(s, carry, r).contains(x),
    decreases s.len(),
{
    let t = shifted_in(s, carry, r);
    lemma_shifted_len(s, carry, r);
    assert(t[0] == carry);
    if x != carry {
        let k = choose|k: int| 0 <= k < s.len() && s[k] == x;
        if s[0] == r {
            assert(k > 0);
            assert(t[k] == s[k]);
        } else if k == 0 {
            assert(s.skip(1).contains(r)) by {
                let j = choose|j: int| 0 <= j < s.len() && s[j] == r;
                assert(j > 0);
                assert(s.skip(1)[j - 1] == r);
            }
            lemma_shifted_keeps(s.skip(1), s[0], r, x);
            let u = shifted_in(s.skip(1), s[0], r);
            let m = choose|m: int| 0 <= m < u.len() && u[m] == x;
            assert(t[m + 1] == u[m]);
        } else {
            assert(s.skip(1).contains(r)) by {
                let j = choose|j: int| 0 <= j < s.len() && s[j] == r;
                assert(j > 0);
                assert(s.skip(1)[j - 1] == r);
            }
            assert(s.skip(1)[k - 1] == x);
            lemma_shifted_keeps(s.skip(1), s[0], r, x);
            let u = shifted_in(s.skip(1), s[0], r);
            let m = choose|m: int| 0 <= m < u.len() && u[m] == x;
            assert(t[m + 1] == u[m]);
        }
    }
}

/// Using a register puts it at the front of the recency list and keeps the list's length; where
/// the register was in the list, every register of the list is still in it.
pub proof fn law_move_to_front(s: Seq<u8>, r: u8)
    ensures
        moved_to_front(s, r).len() == s.len(),
        s.len() > 0 ==> moved_to_front(s, r)[0] == r,
        s.contains(r) ==> forall|x: u8| s.contains(x) ==> #[trigger] moved_to_front(s, r).contains(x),
{
    lemma_shifted_len(s, r, r);
    if s.contains(r) {
        assert forall|x: u8| s.contains(x) implies #[trigger] moved_to_front(s, r).contains(x) by {
            lemma_shifted_keeps(s, r, r, x);
        }
    }
}

/// The masks of drawn bits: the low bits of an offset stay below four and eight, the lowest five
/// or three bits of a draw are its remainders, and one shifted by less than 64 places is at least
/// one.
proof fn lemma_draw_masks(offset: u8, value: u32, n: u32)
    by (bit_vector)
    ensures
        (offset & 3) <= 3,
        (offset & 7) <= 7,
        value & 31 == value % 32,
        value & 7 == value % 8,
        n < 64 ==> 1u64 << n as u64 >= 1,
{
}

/// The masks of a drawn offset stay below four and eight.
proof fn lemma_offset_masks(offset: u8)
    ensures
        (offset & 3) <= 3,
        (offset & 7) <= 7,
{
    lemma_draw_masks(offset, 0, 0);
}

/// The lowest five or three bits of a draw are its remainders.
proof fn lemma_value_masks(value: u32)
    ensures
        value & 31 == value % 32,
        value & 7 == value % 8,
{
    lemma_draw_masks(0, value, 0);
}

/// One shifted by less than 64 places is at least one.
proof fn lemma_one_shifted(n: u32)
    requires
        n < 64,
    ensures
        1u64 << n as u64 >= 1,
{
    lemma_draw_masks(0, 0, n);
}

/// The registers of a class (integer or floating-point), ordered from the most recently written.
#[derive(Clone, Debug)]
pub struct RegisterRecencyList {
    inner: [u8; 31],
    fpu: [u8; 32],
}

/// The position in the recency list from which a source register is taken, by the weight drawn
/// (8 bits) and the offset drawn (4 bits); `None` where the zero register is taken.
pub open spec fn src_position(offset: u8, weight: u8) -> Option<int> {
    let o = (offset & 3) as int;
    if weight <= 127 {
        Some(if o < 2 { o } else { 2 })
    } else if weight <= 191 {
        Some(4 + o)
    } else if weight <= 223 {
        Some(8 + o)
    } else if weight <= 239 {
        None
    } else if weight <= 247 {
        Some(12 + o)
    } else if weight <= 251 {
        Some(16 + o)
    } else if weight <= 253 {
        Some(20 + o)
    } else {
        let o7 = (offset & 7) as int;
        Some(24 + if o7 < 6 { o7 } else { 6 })
    }
}

/// The position in the floating-point recency list from which a source register is taken.
pub open spec fn fpu_src_position(offset: u8, weight: u8) -> int {
    let o = (offset & 3) as int;
    if weight <= 127 {
        o
    } else if weight <= 191 {
        4 + o
    } else if weight <= 223 {
        8 + o
    } else if weight <= 239 {
        12 + o
    } else if weight <= 247 {
        16 + o
    } else if weight <= 251 {
        20 + o
    } else {
        24 + (offset & 7) as int
    }
}

/// The rounding mode (its 3-bit encoding) chosen from 3 drawn bits: toward zero, down, up and to
/// nearest with ties away from zero for 1 to 4, to nearest with ties to even otherwise.
pub open spec fn static_rounding_mode(bits: u64) -> u8 {
    if 1 <= bits <= 4 {
        bits as u8
    } else {
        0
    }
}

/// Choose a static rounding mode from the drawn bits `bits` (the lowest 3 bits of a draw).
pub fn take_static_rounding_mode(bits: u64) -> (r: u8)
    ensures
        r == static_rounding_mode(bits),
{
    if 1 <= bits && bits <= 4 {
        bits as u8
    } else {
        0
    }
}

/// `imm` sign-extended from its lowest `bitsize` bits.
pub open spec fn signed_immediate(imm: u64, bitsize: u32) -> i64 {
    (((imm << (64 - bitsize) as u64) as i64) >> (64 - bitsize) as i64) as i64
}

/// The drawn immediate `imm` of `bitsize` bits, sign-extended.
pub fn take_signed_immediate(imm: u64, bitsize: u32) -> (r: i64)
    requires
        0 < bitsize <= 64,
    ensures
        r == signed_immediate(imm, bitsize),
{
    let shift = 64 - bitsize;
    ((imm << (shift as u64)) as i64) >> (shift as i64)
}

impl RegisterRecencyList {
    /// The integer registers other than `x0`, from the most recently written.
    pub closed spec fn xregs(&self) -> Seq<u8> {
        self.inner@
    }

    /// The floating-point registers, from the most recently written.
    pub closed spec fn fregs(&self) -> Seq<u8> {
        self.fpu@
    }

    /// Both lists in register order: `x1` to `x31`, and `f0` to `f31`.
    pub fn new() -> (r: Self)
        ensures
            r.xregs() == Seq::new(31, |i: int| (i + 1) as u8),
            r.fregs() == Seq::new(32, |i: int| i as u8),
    {
        let mut inner = [0u8; 31];
        let mut fpu = [0u8; 32];
        let mut i: usize = 0;
        while i < 32
            invariant
                i <= 32,
                forall|j: int| 0 <= j < i && j < 31 ==> inner@[j] == (j + 1) as u8,
                forall|j: int| 0 <= j < i ==> fpu@[j] == j as u8,
            decreases 32 - i,
        {
            if i < 31 {
                inner[i] = (i + 1) as u8;
            }
            fpu[i] = i as u8;
            i = i + 1;
        }
        let r = Self { inner, fpu };
        assert(r.xregs() =~= Seq::new(31, |i: int| (i + 1) as u8));
        assert(r.fregs() =~= Seq::new(32, |i: int| i as u8));
        r
    }

    /// A source register, chosen by the drawn offset (4 bits) and weight (8 bits): the registers
    /// written most recently are the most likely; a weight from 224 to 239 gives `x0`.
    pub fn take_register_src(&self, offset: u8, weight: u8) -> (r: u8)
        ensures
            r == match src_position(offset, weight) {
                Some(p) => self.xregs()[p],
                None => 0u8,
            },
    {
        let o = (offset & 3) as usize;
        proof {
            lemma_offset_masks(offset);
        }
        if weight <= 127 {
            self.inner[if o < 2 { o } else { 2 }]
        } else if weight <= 191 {
            self.inner[4 + o]
        } else if weight <= 223 {
            self.inner[8 + o]
        } else if weight <= 239 {
            0
        } else if weight <= 247 {
            self.inner[12 + o]
        } else if weight <= 251 {
            self.inner[16 + o]
        } else if weight <= 253 {
            self.inner[20 + o]
        } else {
            let o7 = (offset & 7) as usize;
            self.inner[24 + if o7 < 6 { o7 } else { 6 }]
        }
    }

    /// A source register of the compressed instructions, which name `x8` to `x15` by three bits:
    /// the lowest three bits of a source register chosen as `take_register_src` does.
    pub fn take_compressed_register_src(&self, offset: u8, weight: u8) -> (r: u8)
        ensures
            r == (match src_position(offset, weight) {
                Some(p) => self.xregs()[p],
                None => 0u8,
            }) & 7,
    {
        self.take_register_src(offset, weight) & 7
    }

    /// A floating-point source register, chosen by the drawn offset and weight.
    pub fn take_fpu_register_src(&self, offset: u8, weight: u8) -> (r: u8)
        ensures
            r == self.fregs()[fpu_src_position(offset, weight)],
    {
        let o = (offset & 3) as usize;
        proof {
            lemma_offset_masks(offset);
        }
        if weight <= 127 {
            self.fpu[o]
        } else if weight <= 191 {
            self.fpu[4 + o]
        } else if weight <= 223 {
            self.fpu[8 + o]
        } else if weight <= 239 {
            self.fpu[12 + o]
        } else if weight <= 247 {
            self.fpu[16 + o]
        } else if weight <= 251 {
            self.fpu[20 + o]
        } else {
            self.fpu[24 + (offset & 7) as usize]
        }
    }

    /// A destination register, from the drawn bits `value` (its lowest five bits name it); it
    /// becomes the most recently written. `x0` leaves the list as it is.
    pub fn take_register_dest(&mut self, value: u32) -> (r: u8)
        ensures
            r == value % 32,
            final(self).fregs() == old(self).fregs(),
            final(self).xregs() == if r == 0 {
                old(self).xregs()
            } else {
                moved_to_front(old(self).xregs(), r)
            },
    {
        proof {
            lemma_value_masks(value);
        }
        let register = (value & 31) as u8;
        if register == 0 {
            return register;
        }
        move_to_front_31(&mut self.inner, register);
        register
    }

    /// A destination register of the compressed instructions, from the drawn bits `value` (its
    /// lowest three bits name one of `x8` to `x15`), which becomes the most recently written.
    pub fn take_compressed_register_dest(&mut self, value: u32) -> (r: u8)
        ensures
            r == value % 8,
            final(self).fregs() == old(self).fregs(),
            final(self).xregs() == moved_to_front(old(self).xregs(), (8 + r) as u8),
    {
        proof {
            lemma_value_masks(value);
        }
        let register = (value & 7) as u8;
        move_to_front_31(&mut self.inner, 8 + register);
        register
    }

    /// A floating-point destination register, from the drawn bits `value` (its lowest five bits
    /// name it); it becomes the most recently written.
    pub fn take_fpu_register_dest(&mut self, value: u32) -> (r: u8)
        ensures
            r == value % 32,
            final(self).xregs() == old(self).xregs(),
            final(self).fregs() == moved_to_front(old(self).fregs(), r),
    {
        proof {
            lemma_value_masks(value);
        }
        let register = (value & 31) as u8;
        move_to_front_32(&mut self.fpu, register);
        register
    }
}

/// Move `r` to the front of the list, as `moved_to_front` says.
fn move_to_front_31(list: &mut [u8; 31], r: u8)
    ensures
        final(list)@ == moved_to_front(old(list)@, r),
{
    let ghost s = old(list)@;
    let mut prev = r;
    let mut i: usize = 0;
    proof {
        assert(s.skip(0) =~= s);
    }
    while i < 31
        invariant
            i <= 31,
            s == old(list)@,
            s.len() == 31,
            list@.len() == 31,
            list@.skip(i as int) == s.skip(i as int),
            list@.take(i as int) + shifted_in(s.skip(i as int), prev, r) == moved_to_front(s, r),
        decreases 31 - i,
    {
        let current = list[i];
        let ghost before = list@;
        let ghost carry = prev;
        list[i] = prev;
        prev = current;
        proof {
            let rest = s.skip(i as int);
            assert(rest[0] == current);
            assert(rest.skip(1) =~= s.skip(i + 1));
            assert(list@.skip(i + 1) =~= s.skip(i + 1));
            assert(list@.take(i as int) =~= before.take(i as int));
        }
        if prev == r {
            proof {
                assert(shifted_in(s.skip(i as int), carry, r) == seq![carry] + s.skip(i + 1));
                assert(list@ =~= list@.take(i as int) + (seq![carry] + s.skip(i + 1)));
            }
            return;
        }
        proof {
            assert(list@.take(i + 1) =~= list@.take(i as int).push(list@[i as int]));
            assert(list@.take(i as int) + shifted_in(s.skip(i as int), list@[i as int], r)
                =~= list@.take(i + 1) + shifted_in(s.skip(i + 1), prev, r));
        }
        i = i + 1;
    }
    proof {
        assert(list@.take(31) =~= list@);
        assert(s.skip(31) =~= Seq::<u8>::empty());
    }
}

/// Move `r` to the front of the list, as `moved_to_front` says.
fn move_to_front_32(list: &mut [u8; 32], r: u8)
    ensures
        final(list)@ == moved_to_front(old(list)@, r),
{
    let ghost s = old(list)@;
    let mut prev = r;
    let mut i: usize = 0;
    proof {
        assert(s.skip(0) =~= s);
    }
    while i < 32
        invariant
            i <= 32,
            s == old(list)@,
            s.len() == 32,
            list@.len() == 32,
            list@.skip(i as int) == s.skip(i as int),
            list@.take(i as int) + shifted_in(s.skip(i as int), prev, r) == moved_to_front(s, r),
        decreases 32 - i,
    {
        let current = list[i];
        let ghost before = list@;
        let ghost carry = prev;
        list[i] = prev;
        prev = current;
        proof {
            let rest = s.skip(i as int);
            assert(rest[0] == current);
            assert(rest.skip(1) =~= s.skip(i + 1));
            assert(list@.skip(i + 1) =~= s.skip(i + 1));
            assert(list@.take(i as int) =~= before.take(i as int));
        }
        if prev == r {
            proof {
                assert(shifted_in(s.skip(i as int), carry, r) == seq![carry] + s.skip(i + 1));
                assert(list@ =~= list@.take(i as int) + (seq![carry] + s.skip(i + 1)));
            }
            return;
        }
        proof {
            assert(list@.take(i + 1) =~= list@.take(i as int).push(list@[i as int]));
            assert(list@.take(i as int) + shifted_in(s.skip(i as int), list@[i as int], r)
                =~= list@.take(i + 1) + shifted_in(s.skip(i + 1), prev, r));
        }
        i = i + 1;
    }
    proof {
        assert(list@.take(32) =~= list@);
        assert(s.skip(32) =~= Seq::<u8>::empty());
    }
}

/// A pool of random bits, handed out a few at a time; the caller draws a fresh 64-bit word
/// whenever the pool has no more bits than asked for.
#[derive(Clone, Debug)]
pub struct RandomBits {
    current: u64,
    remaining: u32,
}

/// The bits below bit `n` of `x`.
pub open spec fn low_bits(x: u64, n: u32) -> u64 {
    x & ((1u64 << n as u64) - 1) as u64
}

impl RandomBits {
    /// The bits in the pool, the next ones lowest.
    pub closed spec fn current(&self) -> u64 {
        self.current
    }

    /// How many bits are in the pool.
    pub closed spec fn remaining(&self) -> u32 {
        self.remaining
    }

    /// An empty pool.
    pub fn new() -> (r: Self)
        ensures
            r.current() == 0,
            r.remaining() == 0,
    {
        Self { current: 0, remaining: 0 }
    }

    /// Whether taking `num_bits` bits draws a fresh word: the pool does not hold more bits.
    pub fn needs_fresh(&self, num_bits: u32) -> (b: bool)
        ensures
            b == !(self.remaining() > num_bits),
    {
        !(self.remaining > num_bits)
    }

    /// Take `num_bits` bits. Where the pool holds more, they are its lowest bits, and the pool
    /// keeps the rest. Otherwise the pool's bits, moved up past the bits still missing, are
    /// combined by `and` with the lowest missing bits of `fresh`, and the pool then holds the other
    /// bits of `fresh`.
    pub fn take(&mut self, num_bits: u32, fresh: u64) -> (r: u64)
        requires
            0 < num_bits <= 64,
            old(self).remaining() <= 64,
            old(self).remaining() <= num_bits ==> old(self).remaining() < 64 && num_bits - old(self).remaining() < 64,
        ensures
            old(self).remaining() > num_bits ==> r == low_bits(old(self).current(), num_bits)
                && final(self).current() == old(self).current() >> num_bits as u64
                && final(self).remaining() == old(self).remaining() - num_bits,
            old(self).remaining() <= num_bits ==> ({
                let missing = (num_bits - old(self).remaining()) as u32;
                &&& r == (old(self).current() << old(self).remaining() as u64) & low_bits(fresh, missing)
                &&& final(self).current() == fresh >> missing as u64
                &&& final(self).remaining() == 64 - missing
            }),
    {
        if self.remaining > num_bits {
            let mask = (1u64 << num_bits as u64).wrapping_sub(1);
            let result = self.current & mask;
            self.current = self.current >> num_bits as u64;
            self.remaining = self.remaining - num_bits;
            proof {
                lemma_one_shifted(num_bits);
            }
            return result;
        }
        let result = self.current << self.remaining as u64;
        let missing = num_bits - self.remaining;
        self.remaining = 64 - missing;
        self.current = fresh >> missing as u64;
        let mask = (1u64 << missing as u64).wrapping_sub(1);
        proof {
            lemma_one_shifted(missing);
        }
        result & (fresh & mask)
    }
}

/// The parts of a branch offset: bits 4 to 1, 10 to 5, 11 and 12.
pub open spec fn branch_parts(imm: u32) -> (u8, u8, u8, u8) {
    (((imm >> 1u32) & 0xF) as u8, ((imm >> 5u32) & 0x3F) as u8, ((imm >> 11u32) & 1) as u8, ((imm >> 12u32) & 1) as u8)
}

/// The branch offset put together from its parts.
pub open spec fn branch_imm(parts: (u8, u8, u8, u8)) -> u32 {
    ((parts.0 as u32) << 1) | ((parts.1 as u32) << 5) | ((parts.2 as u32) << 11) | ((parts.3 as u32) << 12)
}

/// Split an even branch offset of 13 bits into its parts.
fn split_branch_offset(imm: u32) -> (r: (u8, u8, u8, u8))
    requires
        imm < 0x2000,
        imm % 2 == 0,
    ensures
        r == branch_parts(imm),
        branch_imm(r) == imm,
        r.0 < 16 && r.1 < 64 && r.2 < 2 && r.3 < 2,
{
    let a = ((imm >> 1) & 0xF) as u8;
    let b = ((imm >> 5) & 0x3F) as u8;
    let c = ((imm >> 11) & 1) as u8;
    let d = ((imm >> 12) & 1) as u8;
    assert(branch_imm((a, b, c, d)) == imm && a < 16 && b < 64 && c < 2 && d < 2) by (bit_vector)
        requires
            imm < 0x2000,
            imm % 2 == 0,
            a == ((imm >> 1u32) & 0xF) as u8,
            b == ((imm >> 5u32) & 0x3F) as u8,
            c == ((imm >> 11u32) & 1) as u8,
            d == ((imm >> 12u32) & 1) as u8,
    ;
    (a, b, c, d)
}

/// The registers and the offset of a branch instruction, if it is one.
pub open spec fn branch_operands(instr: Instruction) -> Option<(u8, u8, u32)> {
    match instr {
        Instruction::Beq(a) => Some((a.rs1, a.rs2, a.spec_imm())),
        Instruction::Bne(a) => Some((a.rs1, a.rs2, a.spec_imm())),
        Instruction::Blt(a) => Some((a.rs1, a.rs2, a.spec_imm())),
        Instruction::Bge(a) => Some((a.rs1, a.rs2, a.spec_imm())),
        Instruction::Bltu(a) => Some((a.rs1, a.rs2, a.spec_imm())),
        Instruction::Bgeu(a) => Some((a.rs1, a.rs2, a.spec_imm())),
        _ => None,
    }
}

/// A branch that ends a basic block and is always taken: it jumps over `padding` bytes (the drawn
/// `draw` rounded down to a multiple of four), comparing `rs1` and `rs2`, whose values are `v1`
/// and `v2`, for equality where they are equal and for inequality where they differ. Gives the
/// branch and the padding.
pub fn hop_branch(draw: u32, rs1: u8, rs2: u8, v1: u32, v2: u32) -> (r: (Instruction, u32))
    requires
        16 <= draw < 64,
        rs1 < 32,
        rs2 < 32,
    ensures
        r.1 == draw & !3u32,
        r.0.wf(),
        branch_operands(r.0) == Some((rs1, rs2, (r.1 + 4) as u32)),
        r.0 is Beq <==> v1 == v2,
        r.0 is Beq || r.0 is Bne,
        forall|xs: Seq<u32>| xs.len() == 32 && xs[rs1 as int] == v1 && xs[rs2 as int] == v2 ==> branch_taken(r.0, xs),
{
    let padding = draw & !3u32;
    assert(padding <= draw && padding % 4 == 0) by (bit_vector)
        requires
            padding == draw & !3u32,
    ;
    let offset = padding + 4;
    let (imm4_1, imm10_5, imm11, imm12) = split_branch_offset(offset);
    if v1 == v2 {
        (Instruction::Beq(BeqArgs { imm10_5, rs1, imm4_1, imm12, rs2, imm11 }), padding)
    } else {
        (Instruction::Bne(BneArgs { imm10_5, rs1, imm4_1, imm12, rs2, imm11 }), padding)
    }
}

/// A branch inside a basic block that is never taken, so that execution goes on with the next
/// instruction: with `kind` 0 an equality test (`bne` where the values `v1` of `rs1` and `v2` of
/// `rs2` are equal, else `beq`); otherwise, with `signed` 0, a signed comparison (`bge` where `v1`
/// is less, else `blt`), else an unsigned one (`bgeu` where `v1` is less, else `bltu`). The offset
/// is the drawn 12 bits `imm12` times two.
pub fn still_branch(kind: u8, signed: u8, rs1: u8, rs2: u8, v1: u32, v2: u32, imm12: u16) -> (r: Instruction)
    requires
        imm12 < 0x1000,
        rs1 < 32,
        rs2 < 32,
    ensures
        r.wf(),
        branch_operands(r) == Some((rs1, rs2, (imm12 * 2) as u32)),
        kind == 0 ==> (if v1 == v2 { r is Bne } else { r is Beq }),
        kind != 0 && signed == 0 ==> (if (v1 as i32) < (v2 as i32) { r is Bge } else { r is Blt }),
        kind != 0 && signed != 0 ==> (if v1 < v2 { r is Bgeu } else { r is Bltu }),
        forall|xs: Seq<u32>| xs.len() == 32 && xs[rs1 as int] == v1 && xs[rs2 as int] == v2 ==> !branch_taken(r, xs),
{
    let imm = (imm12 as u32) * 2;
    let (imm4_1, imm10_5, imm11, imm12) = split_branch_offset(imm);
    if kind == 0 {
        if v1 == v2 {
            Instruction::Bne(BneArgs { imm10_5, rs1, imm4_1, imm12, rs2, imm11 })
        } else {
            Instruction::Beq(BeqArgs { imm10_5, rs1, imm4_1, imm12, rs2, imm11 })
        }
    } else if signed == 0 {
        if (v1 as i32) < (v2 as i32) {
            Instruction::Bge(BgeArgs { imm10_5, rs1, imm4_1, imm12, rs2, imm11 })
        } else {
            Instruction::Blt(BltArgs { imm10_5, rs1, imm4_1, imm12, rs2, imm11 })
        }
    } else {
        if v1 < v2 {
            Instruction::Bgeu(BgeuArgs { imm10_5, rs1, imm4_1, imm12, rs2, imm11 })
        } else {
            Instruction::Bltu(BltuArgs { imm10_5, rs1, imm4_1, imm12, rs2, imm11 })
        }
    }
}

/// Whether a register holding `addr` can serve as the base of a memory access into the data
/// region `region`: the address lies in the region, at least eight bytes before its end.
pub open spec fn in_region(addr: u32, region: std::ops::Range<u32>) -> bool {
    addr >= region.start && addr < region.end - 8
}

/// Whether the address `addr` lies in the data region `region`, at least eight bytes before its
/// end.
pub fn addr_in_range_of_memory_region(addr: u32, region: &std::ops::Range<u32>) -> (b: bool)
    requires
        region.end >= 8,
    ensures
        b == in_region(addr, *region),
{
    addr >= region.start && addr < region.end - 8
}

/// Every region ends at address 8 or later.
pub open spec fn regions_ok(regions: Seq<std::ops::Range<u32>>) -> bool {
    forall|i: int| 0 <= i < regions.len() ==> (#[trigger] regions[i]).end >= 8
}

/// The first region, looking from the `offset`-th on round the list and starting `j` places on,
/// in which `addr` lies.
pub open spec fn first_region(addr: u32, regions: Seq<std::ops::Range<u32>>, offset: int, j: int) -> Option<
    std::ops::Range<u32>,
>
    decreases regions.len() - j,
{
    if j >= regions.len() || j < 0 {
        None
    } else if in_region(addr, regions[(offset + j) % (regions.len() as int)]) {
        Some(regions[(offset + j) % (regions.len() as int)])
    } else {
        first_region(addr, regions, offset, j + 1)
    }
}

/// The candidates that registers `x1` up to (not including) `x{upto}` add: each register whose
/// value lies in a region, with the first such region from its drawn offset on.
pub open spec fn candidates_from(
    xs: Seq<u32>,
    regions: Seq<std::ops::Range<u32>>,
    offsets: Seq<usize>,
    upto: int,
) -> Seq<(u8, std::ops::Range<u32>)>
    decreases upto,
{
    if upto <= 1 {
        Seq::empty()
    } else {
        let rs = upto - 1;
        let before = candidates_from(xs, regions, offsets, rs);
        match first_region(xs[rs], regions, offsets[rs - 1] as int, 0) {
            Some(region) => before.push((rs as u8, region)),
            None => before,
        }
    }
}

/// The position of the first region, from the `offset`-th on round the list, in which `addr`
/// lies.
fn first_region_index(addr: u32, regions: &[std::ops::Range<u32>], offset: usize) -> (r: Option<usize>)
    requires
        regions_ok(regions@),
        offset < regions@.len(),
    ensures
        match r {
            Some(k) => k < regions@.len() && first_region(addr, regions@, offset as int, 0) == Some(regions@[k as int]),
            None => first_region(addr, regions@, offset as int, 0) is None,
        },
{
    let n = regions.len();
    let mut j: usize = 0;
    while j < n
        invariant
            j <= n,
            n == regions@.len(),
            regions_ok(regions@),
            offset < n,
            first_region(addr, regions@, offset as int, 0) == first_region(addr, regions@, offset as int, j as int),
        decreases n - j,
    {
        let k = if offset < n - j { offset + j } else { offset - (n - j) };
        proof {
            if offset < n - j {
                vstd::arithmetic::div_mod::lemma_small_mod((offset + j) as nat, n as nat);
            } else {
                let b = (offset + j - n) as int;
                vstd::arithmetic::div_mod::lemma_mod_add_multiples_vanish(b, n as int);
                vstd::arithmetic::div_mod::lemma_small_mod(b as nat, n as nat);
            }
            assert((offset as int + j as int) % (n as int) == k);
        }
        if addr_in_range_of_memory_region(addr, &regions[k]) {
            return Some(k);
        }
        j = j + 1;
    }
    None
}

/// Add to `candidates` each register `x1` to `x31` whose value lies in one of the data
/// `regions`, with that region; the regions are looked at from the drawn `offsets[rs - 1]` on,
/// round the list.
pub fn fill_potential_memory_registers(
    candidates: &mut Vec<(u8, std::ops::Range<u32>)>,
    regions: &[std::ops::Range<u32>],
    regs: &Registers,
    offsets: &[usize],
)
    requires
        regions_ok(regions@),
        offsets@.len() == 31,
        forall|i: int| 0 <= i < 31 ==> #[trigger] offsets@[i] < regions@.len() || regions@.len() == 0,
    ensures
        regions@.len() == 0 ==> final(candidates)@ == old(candidates)@,
        regions@.len() > 0 ==> final(candidates)@ == old(candidates)@ + candidates_from(
            regs.xs(),
            regions@,
            offsets@,
            32,
        ),
{
    let n = regions.len();
    if n == 0 {
        return;
    }
    proof {
        regs.lemma_lengths();
    }
    let ghost start = candidates@;
    let mut rs: u8 = 1;
    proof {
        assert(start + candidates_from(regs.xs(), regions@, offsets@, 1) =~= start);
    }
    while rs < 32
        invariant
            1 <= rs <= 32,
            n == regions@.len(),
            n > 0,
            regions_ok(regions@),
            offsets@.len() == 31,
            forall|i: int| 0 <= i < 31 ==> #[trigger] offsets@[i] < regions@.len(),
            regs.xs().len() == 32,
            candidates@ == start + candidates_from(regs.xs(), regions@, offsets@, rs as int),
        decreases 32 - rs,
    {
        let addr = regs.get(rs);
        let offset = offsets[(rs - 1) as usize];
        let ghost before = candidates@;
        match first_region_index(addr, regions, offset) {
            Some(k) => {
                candidates.push((rs, std::ops::Range { start: regions[k].start, end: regions[k].end }));
                proof {
                    assert(candidates@ =~= start + candidates_from(regs.xs(), regions@, offsets@, rs + 1));
                }
            },
            None => {
                proof {
                    assert(candidates@ =~= start + candidates_from(regs.xs(), regions@, offsets@, rs + 1));
                }
            },
        }
        rs = rs + 1;
    }
}

/// Whether a candidate's register still holds an address in its region.
pub open spec fn viable(xs: Seq<u32>, candidate: (u8, std::ops::Range<u32>)) -> bool {
    in_region(xs[candidate.0 as int], candidate.1)
}

/// Looking from the `idx`-th candidate on: the first one that is still viable, and the candidates
/// left after those found not viable on the way are dropped.
pub open spec fn taken_candidate(
    candidates: Seq<(u8, std::ops::Range<u32>)>,
    xs: Seq<u32>,
    idx: int,
) -> (Option<(u8, std::ops::Range<u32>)>, Seq<(u8, std::ops::Range<u32>)>)
    decreases candidates.len(),
{
    if candidates.len() == 0 || idx < 0 || idx >= candidates.len() {
        (None, candidates)
    } else if viable(xs, candidates[idx]) {
        (Some(candidates[idx]), candidates)
    } else {
        let rest = candidates.remove(idx);
        if rest.len() == 0 {
            (None, rest)
        } else {
            taken_candidate(rest, xs, idx % (rest.len() as int))
        }
    }
}

/// Whether every candidate names an integer register and a region ending at address 8 or later.
pub open spec fn candidates_ok(candidates: Seq<(u8, std::ops::Range<u32>)>) -> bool {
    forall|i: int| 0 <= i < candidates.len() ==> (#[trigger] candidates[i]).0 < 32 && candidates[i].1.end >= 8
}

/// A register that can serve as the base of a memory access, with its region: from the drawn
/// candidate `draw` on, the first candidate whose register still lies in its region; the
/// candidates found not to on the way are dropped.
pub fn take_memory_register(
    candidates: &mut Vec<(u8, std::ops::Range<u32>)>,
    regs: &Registers,
    draw: usize,
) -> (r: Option<(u8, std::ops::Range<u32>)>)
    requires
        candidates_ok(old(candidates)@),
        old(candidates)@.len() > 0 ==> draw < old(candidates)@.len(),
    ensures
        (r, final(candidates)@) == taken_candidate(old(candidates)@, regs.xs(), draw as int),
{
    if candidates.len() == 0 {
        return None;
    }
    proof {
        regs.lemma_lengths();
    }
    let mut idx = draw;
    loop
        invariant
            candidates_ok(candidates@),
            0 < candidates@.len(),
            idx < candidates@.len(),
            regs.xs().len() == 32,
            taken_candidate(candidates@, regs.xs(), idx as int) == taken_candidate(
                old(candidates)@,
                regs.xs(),
                draw as int,
            ),
        decreases candidates@.len(),
    {
        let reg = candidates[idx].0;
        let addr = regs.get(reg);
        if addr_in_range_of_memory_region(addr, &candidates[idx].1) {
            let area = std::ops::Range { start: candidates[idx].1.start, end: candidates[idx].1.end };
            return Some((reg, area));
        }
        let ghost before = candidates@;
        candidates.remove(idx);
        if candidates.len() == 0 {
            return None;
        }
        proof {
            assert forall|i: int| 0 <= i < candidates@.len() implies (#[trigger] candidates@[i]).0 < 32
                && candidates@[i].1.end >= 8 by {
                if i < idx {
                    assert(candidates@[i] == before[i]);
                } else {
                    assert(candidates@[i] == before[i + 1]);
                }
            }
        }
        idx = idx % candidates.len();
    }
}

/// The offset from `middle` to the drawn address `target`, as a 16-bit number.
pub open spec fn offset_to(middle: u32, target: u32) -> i16 {
    (target - middle) as i16
}

/// The addresses that an access based at `middle` can reach with its 12-bit offset, within the
/// region: from the larger of the two starts to the smaller of the two ends.
pub open spec fn reachable(middle: u32, region: std::ops::Range<u32>) -> (u32, u32) {
    let low = if middle >= 0x800 { (middle - 0x800) as u32 } else { 0u32 };
    let high = if middle <= u32::MAX - 0x800 { (middle + 0x800) as u32 } else { u32::MAX };
    (if region.start >= low { region.start } else { low }, if region.end <= high { region.end } else { high })
}

/// The addresses that a memory access based at `middle` can reach within `region`, from the first
/// to one past the last.
pub fn reachable_range(middle: u32, region: &std::ops::Range<u32>) -> (r: (u32, u32))
    ensures
        r == reachable(middle, *region),
{
    let low = middle.saturating_sub(0x800);
    let high = middle.saturating_add(0x800);
    (if region.start >= low { region.start } else { low }, if region.end <= high { region.end } else { high })
}

/// The offset from the base address `middle` to the drawn `target`, cut to 16 bits.
pub fn appropriate_offset(middle: u32, target: u32) -> (r: i16)
    ensures
        r == offset_to(middle, target),
{
    let offset: i64 = target as i64 - middle as i64;
    offset as i16
}

/// Make sure that the memory a generated access at `addr` may touch is initialized: from the word
/// that holds `addr` up to eight bytes past `addr`, the uninitialized bytes getting values from
/// `f`.
pub fn ensure_memory_available<F: FnMut() -> u8>(areas: &mut SegmentTree, addr: u32, f: F)
    requires
        old(areas).wf(),
        addr <= u32::MAX - 8,
        call_requires(f, ()),
    ensures
        final(areas).wf(),
        SegmentTree::initialized_from(*old(areas), *final(areas), (addr - addr % 4) as u32, addr + 8),
        SegmentTree::filled_by(*old(areas), *final(areas), f),
{
    let start = addr - addr % 4;
    areas.initialize_fill(std::ops::Range { start, end: addr + 8 }, f);
}

} // verus!
