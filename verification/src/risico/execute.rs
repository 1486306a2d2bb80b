//! The registers of a hart and one step of execution: what an integer, memory, control and status
//! register or environment instruction does to the registers, the memory and the program
//! counter. Floating-point arithmetic is left to the caller; floating-point loads, stores, sign
//! injections and moves work on bit patterns and are done here.
use vstd::prelude::*;

use crate::encoding::bitfields::{le_bytes, le_word};
use crate::encoding::instruction::Instruction;
use crate::risico::csr::registers::{is_known_csr, ControlStatusRegisters, MISA_RV32I};
use crate::risico::csr::CsrInitContext;
use crate::risico::memory::{bytes_at, halfword_at, BackingStore};
use crate::risico::repr::{sign_extended, wrapped, Addr};
use crate::segment_tree::placed_bytes;

verus! {

/// The integer registers, the floating-point registers (as bit patterns), the program counter and
/// the control and status registers of a hart.
#[derive(Clone, Debug)]
pub struct Registers {
    xregs: [u32; 31],
    fregs: [u32; 32],
    pc: u32,
    csr: ControlStatusRegisters,
}

impl Registers {
    /// The integer registers `x0` to `x31`; `x0` is always zero.
    pub closed spec fn xs(&self) -> Seq<u32> {
        seq![0u32] + self.xregs@
    }

    /// The floating-point registers `f0` to `f31`, as bit patterns.
    pub closed spec fn fs(&self) -> Seq<u32> {
        self.fregs@
    }

    /// The program counter.
    pub closed spec fn pc_spec(&self) -> u32 {
        self.pc
    }

    /// The control and status registers.
    pub closed spec fn csrs(&self) -> ControlStatusRegisters {
        self.csr
    }

    /// The control and status registers.
    pub fn csr(&self) -> (r: &ControlStatusRegisters)
        ensures
            *r == self.csrs(),
    {
        &self.csr
    }

    /// Replace the control and status registers.
    pub fn set_csr(&mut self, csr: ControlStatusRegisters)
        ensures
            final(self).csrs() == csr,
            final(self).xs() == old(self).xs(),
            final(self).fs() == old(self).fs(),
            final(self).pc_spec() == old(self).pc_spec(),
    {
        self.csr = csr;
    }

    /// There are 32 integer and 32 floating-point registers.
    pub proof fn lemma_lengths(&self)
        ensures
            self.xs().len() == 32,
            self.fs().len() == 32,
            self.xs()[0] == 0,
    {
    }

    /// The registers at reset: all zero, the program counter at `entry`, the control and status
    /// registers as they are at reset.
    pub fn new(entry: u32, ctx: &CsrInitContext) -> (r: Self)
        ensures
            r.xs() == Seq::new(32, |i: int| 0u32),
            r.fs() == Seq::new(32, |i: int| 0u32),
            r.pc_spec() == entry,
            forall|id: u16| id != 0x301 ==> #[trigger] r.csrs().value_of(id) == 0,
            r.csrs().value_of(0x301) == MISA_RV32I,
    {
        let r = Registers {
            xregs: [0u32; 31],
            fregs: [0u32; 32],
            pc: entry,
            csr: ControlStatusRegisters::new(ctx),
        };
        assert(r.xs() =~= Seq::new(32, |i: int| 0u32));
        assert(r.fs() =~= Seq::new(32, |i: int| 0u32));
        r
    }

    /// The program counter.
    pub fn get_pc(&self) -> (r: u32)
        ensures
            r == self.pc_spec(),
    {
        self.pc
    }

    /// Set the program counter, giving its value before.
    pub fn set_pc(&mut self, value: u32) -> (previous: u32)
        ensures
            previous == old(self).pc_spec(),
            final(self).pc_spec() == value,
            final(self).xs() == old(self).xs(),
            final(self).fs() == old(self).fs(),
            final(self).csrs() == old(self).csrs(),
    {
        let previous = self.pc;
        self.pc = value;
        previous
    }

    /// The integer register `ident`.
    pub fn get(&self, ident: u8) -> (r: u32)
        requires
            ident < 32,
        ensures
            r == self.xs()[ident as int],
    {
        if ident == 0 {
            0
        } else {
            self.xregs[(ident - 1) as usize]
        }
    }

    /// Set the integer register `ident`, giving its value before; writes to `x0` are ignored.
    pub fn set(&mut self, ident: u8, value: u32) -> (previous: u32)
        requires
            ident < 32,
        ensures
            previous == old(self).xs()[ident as int],
            final(self).xs() == with_dest(old(self).xs(), ident, value),
            final(self).pc_spec() == old(self).pc_spec(),
            final(self).fs() == old(self).fs(),
            final(self).csrs() == old(self).csrs(),
    {
        if ident == 0 {
            return 0;
        }
        let i = (ident - 1) as usize;
        let previous = self.xregs[i];
        self.xregs[i] = value;
        assert(self.xs() =~= old(self).xs().update(ident as int, value));
        previous
    }

    /// The floating-point register `ident`, as a bit pattern.
    pub fn get_freg(&self, ident: u8) -> (r: u32)
        requires
            ident < 32,
        ensures
            r == self.fs()[ident as int],
    {
        self.fregs[ident as usize]
    }

    /// Set the floating-point register `ident` to the bit pattern `value`, giving its value before.
    pub fn set_freg(&mut self, ident: u8, value: u32) -> (previous: u32)
        requires
            ident < 32,
        ensures
            previous == old(self).fs()[ident as int],
            final(self).fs() == old(self).fs().update(ident as int, value),
            final(self).xs() == old(self).xs(),
            final(self).pc_spec() == old(self).pc_spec(),
            final(self).csrs() == old(self).csrs(),
    {
        let previous = self.fregs[ident as usize];
        self.fregs[ident as usize] = value;
        previous
    }
}

/// The integer registers after `value` is written to `rd`: `x0` stays zero.
pub open spec fn with_dest(xs: Seq<u32>, rd: u8, value: u32) -> Seq<u32> {
    if rd == 0 {
        xs
    } else {
        xs.update(rd as int, value)
    }
}

/// `value` sign-extended from its lowest `n` bits.
fn sext(value: u32, n: u32) -> (r: u32)
    requires
        0 < n <= 32,
    ensures
        r == sign_extended(value, n),
{
    let shift = 32 - n;
    let r = (((value << shift) as i32) >> shift) as u32;
    assert(r == sign_extended(value, n)) by (bit_vector)
        requires
            0 < n <= 32,
            shift == 32 - n,
            r == (((value << shift) as i32) >> shift) as u32,
    ;
    r
}

/// The shift amount of a register shift: the lowest five bits of `value`.
fn shift_amount(value: u32) -> (r: u32)
    ensures
        r == value & 31,
        r < 32,
{
    let r = value & 31;
    assert(r < 32) by (bit_vector)
        requires
            r == value & 31,
    ;
    r
}

/// `a + b`, wrapping around.
fn wrap_add(a: u32, b: u32) -> (r: u32)
    ensures
        r == wrapped(a + b),
{
    if a <= u32::MAX - b {
        a + b
    } else {
        a - (u32::MAX - b) - 1
    }
}

/// `a - b`, wrapping around.
fn wrap_sub(a: u32, b: u32) -> (r: u32)
    ensures
        r == wrapped(a - b),
{
    if a >= b {
        a - b
    } else {
        a + (u32::MAX - b) + 1
    }
}

/// Whether the instruction works on floating-point registers.
pub open spec fn is_float(instr: Instruction) -> bool {
    match instr {
        Instruction::FmsubS(_) | Instruction::FnmsubS(_) | Instruction::FnmaddS(_) | Instruction::FmaddS(_)
        | Instruction::FdivS(_) | Instruction::FsubS(_) | Instruction::FaddS(_) | Instruction::FmulS(_)
        | Instruction::FeqS(_) | Instruction::FltS(_) | Instruction::FmaxS(_) | Instruction::FminS(_)
        | Instruction::FleS(_) | Instruction::FcvtWuS(_) | Instruction::FcvtSW(_) | Instruction::FcvtSWu(_)
        | Instruction::FsqrtS(_) | Instruction::FcvtWS(_) | Instruction::FclassS(_) => true,
        _ => false,
    }
}

/// Whether the instruction moves floating-point bit patterns without arithmetic: loads, stores,
/// sign injections and moves between the register files.
pub open spec fn is_float_transfer(instr: Instruction) -> bool {
    match instr {
        Instruction::Flw(_) | Instruction::Fsw(_) | Instruction::FsgnjS(_) | Instruction::FsgnjnS(_)
        | Instruction::FsgnjxS(_) | Instruction::FmvXW(_) | Instruction::FmvWX(_) => true,
        _ => false,
    }
}

/// The magnitude of `a` with the sign bit of `sign`.
pub open spec fn with_sign(a: u32, sign: u32) -> u32 {
    (a & 0x7FFF_FFFF) | (sign & 0x8000_0000)
}

/// The floating-point registers after a transfer instruction: a loaded word, a sign injection
/// (the sign of `rs2`, its negation, or the exclusive or of both signs) or an integer register's
/// bits go to `rd`.
pub open spec fn float_transfer_fs(instr: Instruction, xs: Seq<u32>, fs: Seq<u32>, bytes: Map<u32, u8>) -> Seq<u32> {
    match instr {
        Instruction::Flw(a) => fs.update(a.rd as int, le_word(bytes_at(bytes, access_address(instr, xs)))),
        Instruction::FsgnjS(a) => fs.update(a.rd as int, with_sign(fs[a.rs1 as int], fs[a.rs2 as int])),
        Instruction::FsgnjnS(a) => fs.update(a.rd as int, with_sign(fs[a.rs1 as int], !fs[a.rs2 as int])),
        Instruction::FsgnjxS(a) => fs.update(
            a.rd as int,
            with_sign(fs[a.rs1 as int], fs[a.rs1 as int] ^ fs[a.rs2 as int]),
        ),
        Instruction::FmvWX(a) => fs.update(a.rd as int, xs[a.rs1 as int]),
        _ => fs,
    }
}

/// Whether the instruction accesses a control and status register.
pub open spec fn is_csr_access(instr: Instruction) -> bool {
    match instr {
        Instruction::Csrrw(_) | Instruction::Csrrs(_) | Instruction::Csrrc(_) | Instruction::Csrrwi(_)
        | Instruction::Csrrsi(_) | Instruction::Csrrci(_) => true,
        _ => false,
    }
}

/// Whether the instruction is an integer, jump, branch, load or store instruction.
pub open spec fn is_integer(instr: Instruction) -> bool {
    !is_float(instr) && !is_float_transfer(instr) && !is_csr_access(instr) && !(instr is Ecall) && !(
    instr is Ebreak)
}

/// The address that a load or store instruction accesses.
pub open spec fn access_address(instr: Instruction, xs: Seq<u32>) -> u32 {
    match instr {
        Instruction::Lb(a) => wrapped(xs[a.rs as int] + sign_extended(a.spec_imm(), 12)),
        Instruction::Lh(a) => wrapped(xs[a.rs as int] + sign_extended(a.spec_imm(), 12)),
        Instruction::Lw(a) => wrapped(xs[a.rs as int] + sign_extended(a.spec_imm(), 12)),
        Instruction::Lbu(a) => wrapped(xs[a.rs as int] + sign_extended(a.spec_imm(), 12)),
        Instruction::Lhu(a) => wrapped(xs[a.rs as int] + sign_extended(a.spec_imm(), 12)),
        Instruction::Sb(a) => wrapped(xs[a.rs1 as int] + sign_extended(a.spec_imm(), 12)),
        Instruction::Sh(a) => wrapped(xs[a.rs1 as int] + sign_extended(a.spec_imm(), 12)),
        Instruction::Sw(a) => wrapped(xs[a.rs1 as int] + sign_extended(a.spec_imm(), 12)),
        Instruction::Flw(a) => wrapped(xs[a.rs1 as int] + sign_extended(a.spec_imm(), 12)),
        Instruction::Fsw(a) => wrapped(xs[a.rs1 as int] + sign_extended(a.spec_imm(), 12)),
        _ => 0,
    }
}

/// The word that holds the address `at`.
pub open spec fn aligned(at: u32) -> u32 {
    (at - at % 4) as u32
}

/// Whether the memory can take the access of a load or store instruction: the words that hold the
/// bytes read can be read, and those that hold the bytes written can be read and written.
pub open spec fn memory_allows<M: BackingStore>(instr: Instruction, xs: Seq<u32>, mem: M) -> bool {
    let at = access_address(instr, xs);
    match instr {
        Instruction::Lb(_) | Instruction::Lbu(_) => mem.can_read(aligned(at)),
        Instruction::Lh(_) | Instruction::Lhu(_) => mem.can_read(aligned(at)) && (at % 2 == 1
            ==> mem.can_read(aligned(wrapped(at + 1)))),
        Instruction::Lw(_) | Instruction::Flw(_) => mem.can_read(at),
        Instruction::Sb(_) => mem.can_read(aligned(at)) && mem.can_write(aligned(at)),
        Instruction::Sh(_) => mem.can_read(aligned(at)) && mem.can_write(aligned(at)) && (at % 4 == 3
            ==> mem.can_read(aligned(wrapped(at + 1))) && mem.can_write(aligned(wrapped(at + 1)))),
        Instruction::Sw(_) | Instruction::Fsw(_) => mem.can_write(at),
        _ => true,
    }
}

/// `1` where `b` holds, else `0`.
pub open spec fn flag(b: bool) -> u32 {
    if b {
        1
    } else {
        0
    }
}

/// The register that an integer instruction writes and the value it writes, if it writes one.
pub open spec fn int_result(instr: Instruction, xs: Seq<u32>, pc: u32, bytes: Map<u32, u8>) -> Option<(u8, u32)> {
    let at = access_address(instr, xs);
    match instr {
        Instruction::Lui(a) => Some((a.rd, a.spec_imm())),
        Instruction::Auipc(a) => Some((a.rd, wrapped(pc + a.spec_imm()))),
        Instruction::Jal(a) => Some((a.rd, wrapped(pc + 4))),
        Instruction::Jalr(a) => Some((a.rd, wrapped(pc + 4))),
        Instruction::Lb(a) => Some((a.rd, sign_extended(bytes[at] as u32, 8))),
        Instruction::Lh(a) => Some((a.rd, sign_extended(halfword_at(bytes, at) as u32, 16))),
        Instruction::Lw(a) => Some((a.rd, le_word(bytes_at(bytes, at)))),
        Instruction::Lbu(a) => Some((a.rd, bytes[at] as u32)),
        Instruction::Lhu(a) => Some((a.rd, halfword_at(bytes, at) as u32)),
        Instruction::Addi(a) => Some((a.rd, wrapped(xs[a.rs as int] + sign_extended(a.spec_imm(), 12)))),
        Instruction::Slti(a) => Some((a.rd, flag((xs[a.rs as int] as i32) < (sign_extended(a.spec_imm(), 12) as i32)))),
        Instruction::Sltiu(a) => Some((a.rd, flag(xs[a.rs as int] < sign_extended(a.spec_imm(), 12)))),
        Instruction::Xori(a) => Some((a.rd, xs[a.rs as int] ^ sign_extended(a.spec_imm(), 12))),
        Instruction::Andi(a) => Some((a.rd, xs[a.rs as int] & sign_extended(a.spec_imm(), 12))),
        Instruction::Ori(a) => Some((a.rd, xs[a.rs as int] | sign_extended(a.spec_imm(), 12))),
        Instruction::Slli(a) => Some((a.rd, xs[a.rs as int] << (a.shamt as u32))),
        Instruction::Srli(a) => Some((a.rd, xs[a.rs as int] >> (a.shamt as u32))),
        Instruction::Srai(a) => Some((a.rd, ((xs[a.rs as int] as i32) >> (a.shamt as i32)) as u32)),
        Instruction::Add(a) => Some((a.rd, wrapped(xs[a.rs1 as int] + xs[a.rs2 as int]))),
        Instruction::Sub(a) => Some((a.rd, wrapped(xs[a.rs1 as int] - xs[a.rs2 as int]))),
        Instruction::Sll(a) => Some((a.rd, xs[a.rs1 as int] << (xs[a.rs2 as int] & 31))),
        Instruction::Srl(a) => Some((a.rd, xs[a.rs1 as int] >> (xs[a.rs2 as int] & 31))),
        Instruction::Sra(a) => Some((a.rd, ((xs[a.rs1 as int] as i32) >> ((xs[a.rs2 as int] & 31) as i32)) as u32)),
        Instruction::Slt(a) => Some((a.rd, flag((xs[a.rs1 as int] as i32) < (xs[a.rs2 as int] as i32)))),
        Instruction::Sltu(a) => Some((a.rd, flag(xs[a.rs1 as int] < xs[a.rs2 as int]))),
        Instruction::Xor(a) => Some((a.rd, xs[a.rs1 as int] ^ xs[a.rs2 as int])),
        Instruction::And(a) => Some((a.rd, xs[a.rs1 as int] & xs[a.rs2 as int])),
        Instruction::Or(a) => Some((a.rd, xs[a.rs1 as int] | xs[a.rs2 as int])),
        _ => None,
    }
}

/// Whether a branch instruction's condition holds.
pub open spec fn branch_taken(instr: Instruction, xs: Seq<u32>) -> bool {
    match instr {
        Instruction::Beq(a) => xs[a.rs1 as int] == xs[a.rs2 as int],
        Instruction::Bne(a) => xs[a.rs1 as int] != xs[a.rs2 as int],
        Instruction::Blt(a) => (xs[a.rs1 as int] as i32) < (xs[a.rs2 as int] as i32),
        Instruction::Bge(a) => (xs[a.rs1 as int] as i32) >= (xs[a.rs2 as int] as i32),
        Instruction::Bltu(a) => xs[a.rs1 as int] < xs[a.rs2 as int],
        Instruction::Bgeu(a) => xs[a.rs1 as int] >= xs[a.rs2 as int],
        _ => false,
    }
}

/// The branch offset of a branch instruction.
pub open spec fn branch_offset(instr: Instruction) -> u32 {
    match instr {
        Instruction::Beq(a) => sign_extended(a.spec_imm(), 13),
        Instruction::Bne(a) => sign_extended(a.spec_imm(), 13),
        Instruction::Blt(a) => sign_extended(a.spec_imm(), 13),
        Instruction::Bge(a) => sign_extended(a.spec_imm(), 13),
        Instruction::Bltu(a) => sign_extended(a.spec_imm(), 13),
        Instruction::Bgeu(a) => sign_extended(a.spec_imm(), 13),
        _ => 4,
    }
}

/// The address of the instruction after an integer instruction at `pc`.
pub open spec fn int_next_pc(instr: Instruction, xs: Seq<u32>, pc: u32) -> u32 {
    match instr {
        Instruction::Jal(a) => wrapped(pc + sign_extended(a.spec_imm(), 21)),
        Instruction::Jalr(a) => wrapped(xs[a.rs as int] + sign_extended(a.spec_imm(), 12)),
        _ => if branch_taken(instr, xs) {
            wrapped(pc + branch_offset(instr))
        } else {
            wrapped(pc + 4)
        },
    }
}

/// The memory after a store instruction; any other instruction leaves it as it is.
pub open spec fn stored(instr: Instruction, xs: Seq<u32>, bytes: Map<u32, u8>) -> Map<u32, u8> {
    let at = access_address(instr, xs);
    match instr {
        Instruction::Sb(a) => bytes.insert(at, xs[a.rs2 as int] as u8),
        Instruction::Sh(a) => bytes.insert(at, (xs[a.rs2 as int] as u16) as u8).insert(
            wrapped(at + 1),
            ((xs[a.rs2 as int] as u16) >> 8u16) as u8,
        ),
        Instruction::Sw(a) => bytes.union_prefer_right(placed_bytes(at, le_bytes(xs[a.rs2 as int]))),
        _ => bytes,
    }
}

/// The register, its number, the destination and the operand of a control and status register
/// instruction: the value of `rs1`, or the immediate.
pub open spec fn csr_operands(instr: Instruction, xs: Seq<u32>) -> (u16, u8, u32) {
    match instr {
        Instruction::Csrrw(a) => (a.csr, a.rd, xs[a.rs1 as int]),
        Instruction::Csrrs(a) => (a.csr, a.rd, xs[a.rs1 as int]),
        Instruction::Csrrc(a) => (a.csr, a.rd, xs[a.rs1 as int]),
        Instruction::Csrrwi(a) => (a.csr, a.rd, a.uimm as u32),
        Instruction::Csrrsi(a) => (a.csr, a.rd, a.uimm as u32),
        Instruction::Csrrci(a) => (a.csr, a.rd, a.uimm as u32),
        _ => (0, 0, 0),
    }
}

/// Whether a control and status register instruction only reads: `csrrs` and `csrrc` with
/// `rs1` being `x0`.
pub open spec fn csr_read_only(instr: Instruction) -> bool {
    match instr {
        Instruction::Csrrs(a) => a.rs1 == 0,
        Instruction::Csrrc(a) => a.rs1 == 0,
        _ => false,
    }
}

/// The value that a control and status register instruction writes, `old` being the register's
/// value: the operand, or `old` with the operand's bits set or cleared.
pub open spec fn csr_new_value(instr: Instruction, old: u32, operand: u32) -> u32 {
    match instr {
        Instruction::Csrrw(_) | Instruction::Csrrwi(_) => operand,
        Instruction::Csrrs(_) | Instruction::Csrrsi(_) => old | operand,
        _ => old & !operand,
    }
}

/// How a step ends.
#[derive(Debug, Clone, Copy, PartialEq, Eq, Structural)]
pub enum StepOutcome {
    /// The instruction was executed; go on.
    Continue,
    /// An environment call: the program counter is past it, and the caller handles the call.
    EnvironmentCall,
    /// An environment break: the program stops; nothing was changed.
    EnvironmentBreak,
    /// A control and status register instruction names a register that does not exist: the
    /// program stops; nothing was changed.
    MissingCsr(u16),
    /// A floating-point instruction, which the caller executes; nothing was changed.
    FloatingPoint,
}

/// Execute the instruction `instr` at the program counter: an integer instruction writes its
/// destination register and the memory as its operation says and moves the program counter on,
/// by 4 or to its jump or branch target; a control and status register instruction gives the
/// register's value to its destination and writes the register unless it only reads; an
/// environment call moves the program counter on. Addresses wrap around.
pub fn execute_step<M: BackingStore>(regs: &mut Registers, mem: &mut M, instr: &Instruction) -> (r: StepOutcome)
    requires
        instr.wf(),
        memory_allows(*instr, old(regs).xs(), *old(mem)),
    ensures
        is_float(*instr) || instr is Ebreak ==> *final(regs) == *old(regs) && *final(mem) == *old(mem) && r
            == if instr is Ebreak {
            StepOutcome::EnvironmentBreak
        } else {
            StepOutcome::FloatingPoint
        },
        instr is Ecall ==> r == StepOutcome::EnvironmentCall && final(regs).xs() == old(regs).xs()
            && final(regs).fs() == old(regs).fs() && final(regs).csrs() == old(regs).csrs()
            && final(regs).pc_spec() == wrapped(old(regs).pc_spec() + 4) && *final(mem) == *old(mem),
        is_integer(*instr) ==> r == StepOutcome::Continue && final(regs).xs() == match int_result(
            *instr,
            old(regs).xs(),
            old(regs).pc_spec(),
            old(mem).store_bytes(),
        ) {
            Some((rd, value)) => with_dest(old(regs).xs(), rd, value),
            None => old(regs).xs(),
        } && final(regs).pc_spec() == int_next_pc(*instr, old(regs).xs(), old(regs).pc_spec())
            && final(regs).fs() == old(regs).fs() && final(regs).csrs() == old(regs).csrs()
            && final(mem).store_bytes() == stored(*instr, old(regs).xs(), old(mem).store_bytes()),
        is_float_transfer(*instr) ==> r == StepOutcome::Continue && final(regs).xs() == match *instr {
            Instruction::FmvXW(a) => with_dest(old(regs).xs(), a.rd, old(regs).fs()[a.rs1 as int]),
            _ => old(regs).xs(),
        } && final(regs).fs() == float_transfer_fs(*instr, old(regs).xs(), old(regs).fs(), old(mem).store_bytes())
            && final(regs).pc_spec() == wrapped(old(regs).pc_spec() + 4) && final(regs).csrs() == old(regs).csrs()
            && final(mem).store_bytes() == match *instr {
            Instruction::Fsw(a) => old(mem).store_bytes().union_prefer_right(
                placed_bytes(access_address(*instr, old(regs).xs()), le_bytes(old(regs).fs()[a.rs2 as int])),
            ),
            _ => old(mem).store_bytes(),
        },
        is_csr_access(*instr) ==> *final(mem) == *old(mem) && final(regs).fs() == old(regs).fs() && ({
            let (id, rd, operand) = csr_operands(*instr, old(regs).xs());
            if !is_known_csr(id) {
                r == StepOutcome::MissingCsr(id) && *final(regs) == *old(regs)
            } else {
                &&& r == StepOutcome::Continue
                &&& final(regs).xs() == with_dest(old(regs).xs(), rd, old(regs).csrs().value_of(id))
                &&& final(regs).pc_spec() == wrapped(old(regs).pc_spec() + 4)
                &&& csr_read_only(*instr) ==> final(regs).csrs() == old(regs).csrs()
                &&& !csr_read_only(*instr) ==> ControlStatusRegisters::written(
                    old(regs).csrs(),
                    final(regs).csrs(),
                    id,
                    csr_new_value(*instr, old(regs).csrs().value_of(id), operand),
                )
            }
        }),
{
    proof {
        regs.lemma_lengths();
    }
    let pc = regs.get_pc();
    let next = wrap_add(pc, 4);
    match instr {
        Instruction::Lui(a) => {
            regs.set(a.rd, a.imm());
        },
        Instruction::Auipc(a) => {
            regs.set(a.rd, wrap_add(pc, a.imm()));
        },
        Instruction::Jal(a) => {
            regs.set(a.rd, next);
            regs.set_pc(wrap_add(pc, sext(a.imm(), 21)));
            return StepOutcome::Continue;
        },
        Instruction::Jalr(a) => {
            let base = regs.get(a.rs);
            regs.set(a.rd, next);
            regs.set_pc(wrap_add(base, sext(a.imm(), 12)));
            return StepOutcome::Continue;
        },
        Instruction::Beq(a) => {
            let taken = regs.get(a.rs1) == regs.get(a.rs2);
            return branch(regs, pc, taken, a.imm());
        },
        Instruction::Bne(a) => {
            let taken = regs.get(a.rs1) != regs.get(a.rs2);
            return branch(regs, pc, taken, a.imm());
        },
        Instruction::Blt(a) => {
            let taken = (regs.get(a.rs1) as i32) < (regs.get(a.rs2) as i32);
            return branch(regs, pc, taken, a.imm());
        },
        Instruction::Bge(a) => {
            let taken = (regs.get(a.rs1) as i32) >= (regs.get(a.rs2) as i32);
            return branch(regs, pc, taken, a.imm());
        },
        Instruction::Bltu(a) => {
            let taken = regs.get(a.rs1) < regs.get(a.rs2);
            return branch(regs, pc, taken, a.imm());
        },
        Instruction::Bgeu(a) => {
            let taken = regs.get(a.rs1) >= regs.get(a.rs2);
            return branch(regs, pc, taken, a.imm());
        },
        Instruction::Lb(a) => {
            let at = wrap_add(regs.get(a.rs), sext(a.imm(), 12));
            let byte = mem.get_byte(Addr::at(at));
            regs.set(a.rd, sext(byte as u32, 8));
        },
        Instruction::Lh(a) => {
            let at = wrap_add(regs.get(a.rs), sext(a.imm(), 12));
            let half = mem.get_le_halfword(Addr::at(at));
            regs.set(a.rd, sext(half as u32, 16));
        },
        Instruction::Lw(a) => {
            let at = wrap_add(regs.get(a.rs), sext(a.imm(), 12));
            let word = mem.get_le_bytes(Addr::at(at));
            regs.set(a.rd, word);
        },
        Instruction::Lbu(a) => {
            let at = wrap_add(regs.get(a.rs), sext(a.imm(), 12));
            let byte = mem.get_byte(Addr::at(at));
            regs.set(a.rd, byte as u32);
        },
        Instruction::Lhu(a) => {
            let at = wrap_add(regs.get(a.rs), sext(a.imm(), 12));
            let half = mem.get_le_halfword(Addr::at(at));
            regs.set(a.rd, half as u32);
        },
        Instruction::Sb(a) => {
            let at = wrap_add(regs.get(a.rs1), sext(a.imm(), 12));
            mem.set_byte(Addr::at(at), regs.get(a.rs2) as u8);
        },
        Instruction::Sh(a) => {
            let at = wrap_add(regs.get(a.rs1), sext(a.imm(), 12));
            mem.set_le_halfword(Addr::at(at), regs.get(a.rs2) as u16);
        },
        Instruction::Sw(a) => {
            let at = wrap_add(regs.get(a.rs1), sext(a.imm(), 12));
            mem.set_le_bytes(Addr::at(at), regs.get(a.rs2));
        },
        Instruction::Addi(a) => {
            regs.set(a.rd, wrap_add(regs.get(a.rs), sext(a.imm(), 12)));
        },
        Instruction::Slti(a) => {
            let lt = (regs.get(a.rs) as i32) < (sext(a.imm(), 12) as i32);
            regs.set(a.rd, if lt { 1 } else { 0 });
        },
        Instruction::Sltiu(a) => {
            let lt = regs.get(a.rs) < sext(a.imm(), 12);
            regs.set(a.rd, if lt { 1 } else { 0 });
        },
        Instruction::Xori(a) => {
            regs.set(a.rd, regs.get(a.rs) ^ sext(a.imm(), 12));
        },
        Instruction::Andi(a) => {
            regs.set(a.rd, regs.get(a.rs) & sext(a.imm(), 12));
        },
        Instruction::Ori(a) => {
            regs.set(a.rd, regs.get(a.rs) | sext(a.imm(), 12));
        },
        Instruction::Slli(a) => {
            regs.set(a.rd, regs.get(a.rs) << (a.shamt as u32));
        },
        Instruction::Srli(a) => {
            regs.set(a.rd, regs.get(a.rs) >> (a.shamt as u32));
        },
        Instruction::Srai(a) => {
            regs.set(a.rd, ((regs.get(a.rs) as i32) >> (a.shamt as i32)) as u32);
        },
        Instruction::Add(a) => {
            regs.set(a.rd, wrap_add(regs.get(a.rs1), regs.get(a.rs2)));
        },
        Instruction::Sub(a) => {
            regs.set(a.rd, wrap_sub(regs.get(a.rs1), regs.get(a.rs2)));
        },
        Instruction::Sll(a) => {
            let amount = shift_amount(regs.get(a.rs2));
            regs.set(a.rd, regs.get(a.rs1) << amount);
        },
        Instruction::Srl(a) => {
            let amount = shift_amount(regs.get(a.rs2));
            regs.set(a.rd, regs.get(a.rs1) >> amount);
        },
        Instruction::Sra(a) => {
            let amount = shift_amount(regs.get(a.rs2));
            regs.set(a.rd, ((regs.get(a.rs1) as i32) >> (amount as i32)) as u32);
        },
        Instruction::Slt(a) => {
            let lt = (regs.get(a.rs1) as i32) < (regs.get(a.rs2) as i32);
            regs.set(a.rd, if lt { 1 } else { 0 });
        },
        Instruction::Sltu(a) => {
            let lt = regs.get(a.rs1) < regs.get(a.rs2);
            regs.set(a.rd, if lt { 1 } else { 0 });
        },
        Instruction::Xor(a) => {
            regs.set(a.rd, regs.get(a.rs1) ^ regs.get(a.rs2));
        },
        Instruction::And(a) => {
            regs.set(a.rd, regs.get(a.rs1) & regs.get(a.rs2));
        },
        Instruction::Or(a) => {
            regs.set(a.rd, regs.get(a.rs1) | regs.get(a.rs2));
        },
        Instruction::Csrrw(a) => {
            let operand = regs.get(a.rs1);
            return csr_access(regs, a.csr, a.rd, operand, 0, false);
        },
        Instruction::Csrrs(a) => {
            let operand = regs.get(a.rs1);
            return csr_access(regs, a.csr, a.rd, operand, 1, a.rs1 == 0);
        },
        Instruction::Csrrc(a) => {
            let operand = regs.get(a.rs1);
            return csr_access(regs, a.csr, a.rd, operand, 2, a.rs1 == 0);
        },
        Instruction::Csrrwi(a) => {
            return csr_access(regs, a.csr, a.rd, a.uimm as u32, 0, false);
        },
        Instruction::Csrrsi(a) => {
            return csr_access(regs, a.csr, a.rd, a.uimm as u32, 1, false);
        },
        Instruction::Csrrci(a) => {
            return csr_access(regs, a.csr, a.rd, a.uimm as u32, 2, false);
        },
        Instruction::Flw(a) => {
            let at = wrap_add(regs.get(a.rs1), sext(a.imm(), 12));
            let word = mem.get_le_bytes(Addr::at(at));
            regs.set_freg(a.rd, word);
        },
        Instruction::Fsw(a) => {
            let at = wrap_add(regs.get(a.rs1), sext(a.imm(), 12));
            mem.set_le_bytes(Addr::at(at), regs.get_freg(a.rs2));
        },
        Instruction::FsgnjS(a) => {
            let v = regs.get_freg(a.rs1);
            let sign = regs.get_freg(a.rs2);
            regs.set_freg(a.rd, (v & 0x7FFF_FFFF) | (sign & 0x8000_0000));
        },
        Instruction::FsgnjnS(a) => {
            let v = regs.get_freg(a.rs1);
            let sign = !regs.get_freg(a.rs2);
            regs.set_freg(a.rd, (v & 0x7FFF_FFFF) | (sign & 0x8000_0000));
        },
        Instruction::FsgnjxS(a) => {
            let v = regs.get_freg(a.rs1);
            let sign = v ^ regs.get_freg(a.rs2);
            regs.set_freg(a.rd, (v & 0x7FFF_FFFF) | (sign & 0x8000_0000));
        },
        Instruction::FmvWX(a) => {
            let v = regs.get(a.rs1);
            regs.set_freg(a.rd, v);
        },
        Instruction::FmvXW(a) => {
            let v = regs.get_freg(a.rs1);
            regs.set(a.rd, v);
        },
        Instruction::Ecall(_) => {
            regs.set_pc(next);
            return StepOutcome::EnvironmentCall;
        },
        Instruction::Ebreak(_) => {
            return StepOutcome::EnvironmentBreak;
        },
        _ => {
            return StepOutcome::FloatingPoint;
        },
    }
    regs.set_pc(next);
    StepOutcome::Continue
}

/// Move the program counter on: to `pc` plus the sign-extended 13-bit `imm` where `taken`, else
/// to the next instruction.
fn branch(regs: &mut Registers, pc: u32, taken: bool, imm: u32) -> (r: StepOutcome)
    requires
        old(regs).pc_spec() == pc,
    ensures
        r == StepOutcome::Continue,
        final(regs).pc_spec() == if taken {
            wrapped(pc + sign_extended(imm, 13))
        } else {
            wrapped(pc + 4)
        },
        final(regs).xs() == old(regs).xs(),
        final(regs).fs() == old(regs).fs(),
        final(regs).csrs() == old(regs).csrs(),
{
    if taken {
        regs.set_pc(wrap_add(pc, sext(imm, 13)));
    } else {
        regs.set_pc(wrap_add(pc, 4));
    }
    StepOutcome::Continue
}

/// The value written by a control and status register instruction of kind `kind` (0 writes, 1
/// sets bits, 2 clears bits).
fn csr_value(kind: u8, old: u32, operand: u32) -> (r: u32)
    ensures
        r == if kind == 0 {
            operand
        } else if kind == 1 {
            old | operand
        } else {
            old & !operand
        },
{
    if kind == 0 {
        operand
    } else if kind == 1 {
        old | operand
    } else {
        old & !operand
    }
}

/// Give the value of the register `id` to `rd` and, unless `read_only`, write the register as
/// `kind` says; then move the program counter on. A missing register changes nothing.
fn csr_access(regs: &mut Registers, id: u16, rd: u8, operand: u32, kind: u8, read_only: bool) -> (r: StepOutcome)
    requires
        rd < 32,
    ensures
        final(regs).fs() == old(regs).fs(),
        !is_known_csr(id) ==> r == StepOutcome::MissingCsr(id) && *final(regs) == *old(regs),
        is_known_csr(id) ==> {
            &&& r == StepOutcome::Continue
            &&& final(regs).xs() == with_dest(old(regs).xs(), rd, old(regs).csrs().value_of(id))
            &&& final(regs).pc_spec() == wrapped(old(regs).pc_spec() + 4)
            &&& read_only ==> final(regs).csrs() == old(regs).csrs()
            &&& !read_only ==> ControlStatusRegisters::written(
                old(regs).csrs(),
                final(regs).csrs(),
                id,
                if kind == 0 {
                    operand
                } else if kind == 1 {
                    old(regs).csrs().value_of(id) | operand
                } else {
                    old(regs).csrs().value_of(id) & !operand
                },
            )
        },
{
    let value = match regs.csr.read(id) {
        Ok(v) => v,
        Err(_) => {
            return StepOutcome::MissingCsr(id);
        },
    };
    if !read_only {
        let new_value = csr_value(kind, value, operand);
        let _ = regs.csr.write(id, new_value);
    }
    regs.set(rd, value);
    let pc = regs.get_pc();
    regs.set_pc(wrap_add(pc, 4));
    StepOutcome::Continue
}

/// The value of a word read as a two's complement number.
pub open spec fn signed_value(x: u32) -> int {
    if x >= 0x8000_0000 {
        x - 0x1_0000_0000
    } else {
        x as int
    }
}

/// Comparing two words as `i32` compares their two's complement values; and the magnitude and
/// sign bit of the sign injections of the two words.
proof fn lemma_signed_less(a: u32, b: u32)
    ensures
        ((a as i32) < (b as i32)) == (signed_value(a) < signed_value(b)),
        with_sign(a, b) % 0x8000_0000 == a % 0x8000_0000,
        with_sign(a, !b) % 0x8000_0000 == a % 0x8000_0000,
        with_sign(a, a ^ b) % 0x8000_0000 == a % 0x8000_0000,
        with_sign(a, b) / 0x8000_0000 == b / 0x8000_0000,
        with_sign(a, !b) / 0x8000_0000 == 1 - b / 0x8000_0000,
        (with_sign(a, a ^ b) / 0x8000_0000 == 1) == ((a / 0x8000_0000 == 1) != (b / 0x8000_0000 == 1)),
{
    assert(((a as i32) < (b as i32)) == (if a >= 0x8000_0000u32 {
        if b >= 0x8000_0000u32 { a < b } else { true }
    } else {
        if b >= 0x8000_0000u32 { false } else { a < b }
    }) && ((a & 0x7FFF_FFFF) | (b & 0x8000_0000)) % 0x8000_0000 == a % 0x8000_0000
        && ((a & 0x7FFF_FFFF) | (!b & 0x8000_0000)) % 0x8000_0000 == a % 0x8000_0000
        && ((a & 0x7FFF_FFFF) | ((a ^ b) & 0x8000_0000)) % 0x8000_0000 == a % 0x8000_0000
        && ((a & 0x7FFF_FFFF) | (b & 0x8000_0000)) / 0x8000_0000 == b / 0x8000_0000
        && ((a & 0x7FFF_FFFF) | (!b & 0x8000_0000)) / 0x8000_0000 == 1 - b / 0x8000_0000
        && ((((a & 0x7FFF_FFFF) | ((a ^ b) & 0x8000_0000)) / 0x8000_0000 == 1) == ((a / 0x8000_0000 == 1) != (b
        / 0x8000_0000 == 1)))) by (bit_vector);
}

/// What the RV32I base set says an integer instruction writes to its destination register,
/// `x` being the registers, in terms of plain integer arithmetic: sums and differences modulo
/// `2^32`, comparisons of the unsigned or two's complement values, bitwise operations, shifts by
/// the low five bits of the amount, the link address after a jump, and the bytes read by a load.
pub open spec fn base_set_result(instr: Instruction, x: Seq<u32>, pc: u32, bytes: Map<u32, u8>, v: u32) -> bool {
    let at = access_address(instr, x);
    match instr {
        Instruction::Add(a) => v as int == (x[a.rs1 as int] + x[a.rs2 as int]) % 0x1_0000_0000,
        Instruction::Sub(a) => (v + x[a.rs2 as int]) % 0x1_0000_0000 == x[a.rs1 as int] as int,
        Instruction::Addi(a) => v as int == (x[a.rs as int] + sign_extended(a.spec_imm(), 12)) % 0x1_0000_0000,
        Instruction::Slt(a) => v == (if signed_value(x[a.rs1 as int]) < signed_value(x[a.rs2 as int]) { 1u32 } else { 0u32 }),
        Instruction::Sltu(a) => v == (if x[a.rs1 as int] < x[a.rs2 as int] { 1u32 } else { 0u32 }),
        Instruction::Slti(a) => v == (if signed_value(x[a.rs as int]) < signed_value(sign_extended(a.spec_imm(), 12)) { 1u32 } else { 0u32 }),
        Instruction::Sltiu(a) => v == (if x[a.rs as int] < sign_extended(a.spec_imm(), 12) { 1u32 } else { 0u32 }),
        Instruction::And(a) => v == x[a.rs1 as int] & x[a.rs2 as int],
        Instruction::Or(a) => v == x[a.rs1 as int] | x[a.rs2 as int],
        Instruction::Xor(a) => v == x[a.rs1 as int] ^ x[a.rs2 as int],
        Instruction::Andi(a) => v == x[a.rs as int] & sign_extended(a.spec_imm(), 12),
        Instruction::Ori(a) => v == x[a.rs as int] | sign_extended(a.spec_imm(), 12),
        Instruction::Xori(a) => v == x[a.rs as int] ^ sign_extended(a.spec_imm(), 12),
        Instruction::Sll(a) => v == x[a.rs1 as int] << (x[a.rs2 as int] % 32) as u32,
        Instruction::Srl(a) => v == x[a.rs1 as int] >> (x[a.rs2 as int] % 32) as u32,
        Instruction::Sra(a) => v == ((x[a.rs1 as int] as i32) >> (x[a.rs2 as int] % 32) as i32) as u32,
        Instruction::Slli(a) => v == x[a.rs as int] << a.shamt as u32,
        Instruction::Srli(a) => v == x[a.rs as int] >> a.shamt as u32,
        Instruction::Srai(a) => v == ((x[a.rs as int] as i32) >> a.shamt as i32) as u32,
        Instruction::Lui(a) => v == a.spec_imm(),
        Instruction::Auipc(a) => v as int == (pc + a.spec_imm()) % 0x1_0000_0000,
        Instruction::Jal(_) | Instruction::Jalr(_) => v as int == (pc + 4) % 0x1_0000_0000,
        Instruction::Lw(_) => v == le_word(bytes_at(bytes, at)),
        Instruction::Lbu(_) => v == bytes[at] as u32,
        Instruction::Lhu(_) => v == halfword_at(bytes, at) as u32,
        Instruction::Lb(_) => v == sign_extended(bytes[at] as u32, 8),
        Instruction::Lh(_) => v == sign_extended(halfword_at(bytes, at) as u32, 16),
        _ => false,
    }
}

/// The destination register of an instruction that has one.
pub open spec fn dest_register(instr: Instruction) -> Option<u8> {
    match instr {
        Instruction::Add(a) => Some(a.rd),
        Instruction::Sub(a) => Some(a.rd),
        Instruction::Addi(a) => Some(a.rd),
        Instruction::Slt(a) => Some(a.rd),
        Instruction::Sltu(a) => Some(a.rd),
        Instruction::Slti(a) => Some(a.rd),
        Instruction::Sltiu(a) => Some(a.rd),
        Instruction::And(a) => Some(a.rd),
        Instruction::Or(a) => Some(a.rd),
        Instruction::Xor(a) => Some(a.rd),
        Instruction::Andi(a) => Some(a.rd),
        Instruction::Ori(a) => Some(a.rd),
        Instruction::Xori(a) => Some(a.rd),
        Instruction::Sll(a) => Some(a.rd),
        Instruction::Srl(a) => Some(a.rd),
        Instruction::Sra(a) => Some(a.rd),
        Instruction::Slli(a) => Some(a.rd),
        Instruction::Srli(a) => Some(a.rd),
        Instruction::Srai(a) => Some(a.rd),
        Instruction::Lui(a) => Some(a.rd),
        Instruction::Auipc(a) => Some(a.rd),
        Instruction::Jal(a) => Some(a.rd),
        Instruction::Jalr(a) => Some(a.rd),
        Instruction::Lw(a) => Some(a.rd),
        Instruction::Lbu(a) => Some(a.rd),
        Instruction::Lhu(a) => Some(a.rd),
        Instruction::Lb(a) => Some(a.rd),
        Instruction::Lh(a) => Some(a.rd),
        _ => None,
    }
}

/// An integer instruction that writes a register writes its destination register, with the
/// value that the RV32I base set defines; branches and stores write none.
pub proof fn law_integer_results(instr: Instruction, x: Seq<u32>, pc: u32, bytes: Map<u32, u8>)
    requires
        instr.wf(),
        x.len() == 32,
    ensures
        dest_register(instr) matches Some(rd) ==> int_result(instr, x, pc, bytes) matches Some((d, v)) && d == rd
            && base_set_result(instr, x, pc, bytes, v),
        dest_register(instr) is None ==> int_result(instr, x, pc, bytes) is None,
{
    match instr {
        Instruction::Sub(a) => {
            let x1 = x[a.rs1 as int];
            let x2 = x[a.rs2 as int];
            let v = wrapped(x1 - x2);
            assert((v + x2) % 0x1_0000_0000 == x1 as int) by (nonlinear_arith)
                requires
                    v as int == (x1 - x2) % 0x1_0000_0000,
                    0 <= x1 < 0x1_0000_0000,
                    0 <= x2 < 0x1_0000_0000,
            ;
        },
        Instruction::Slt(a) => {
            lemma_signed_less(x[a.rs1 as int], x[a.rs2 as int]);
        },
        Instruction::Slti(a) => {
            lemma_signed_less(x[a.rs as int], sign_extended(a.spec_imm(), 12));
        },
        Instruction::Sll(a) => {
            crate::risico::util::lemma_u32_masks(x[a.rs2 as int]);
        },
        Instruction::Srl(a) => {
            crate::risico::util::lemma_u32_masks(x[a.rs2 as int]);
        },
        Instruction::Sra(a) => {
            crate::risico::util::lemma_u32_masks(x[a.rs2 as int]);
        },
        _ => {},
    }
}

/// The address of the next instruction, as the RV32I base set defines it: a branch goes to
/// `pc` plus its offset exactly when its comparison of the two registers holds (equal, unequal,
/// less or at least, of the two's complement or the unsigned values), a jump to its target, and
/// every other integer instruction to `pc + 4`, all modulo `2^32`.
pub proof fn law_next_pc(instr: Instruction, x: Seq<u32>, pc: u32)
    requires
        instr.wf(),
        x.len() == 32,
        is_integer(instr),
    ensures
        ({
            let next = int_next_pc(instr, x, pc) as int;
            let step = (pc + 4) % 0x1_0000_0000;
            match instr {
                Instruction::Beq(a) => next == if x[a.rs1 as int] == x[a.rs2 as int] { (pc + sign_extended(a.spec_imm(), 13)) % 0x1_0000_0000 } else { step },
                Instruction::Bne(a) => next == if x[a.rs1 as int] != x[a.rs2 as int] { (pc + sign_extended(a.spec_imm(), 13)) % 0x1_0000_0000 } else { step },
                Instruction::Blt(a) => next == if signed_value(x[a.rs1 as int]) < signed_value(x[a.rs2 as int]) { (pc + sign_extended(a.spec_imm(), 13)) % 0x1_0000_0000 } else { step },
                Instruction::Bge(a) => next == if signed_value(x[a.rs1 as int]) >= signed_value(x[a.rs2 as int]) { (pc + sign_extended(a.spec_imm(), 13)) % 0x1_0000_0000 } else { step },
                Instruction::Bltu(a) => next == if x[a.rs1 as int] < x[a.rs2 as int] { (pc + sign_extended(a.spec_imm(), 13)) % 0x1_0000_0000 } else { step },
                Instruction::Bgeu(a) => next == if x[a.rs1 as int] >= x[a.rs2 as int] { (pc + sign_extended(a.spec_imm(), 13)) % 0x1_0000_0000 } else { step },
                Instruction::Jal(a) => next == (pc + sign_extended(a.spec_imm(), 21)) % 0x1_0000_0000,
                Instruction::Jalr(a) => next == (x[a.rs as int] + sign_extended(a.spec_imm(), 12)) % 0x1_0000_0000,
                _ => next == step,
            }
        }),
{
    match instr {
        Instruction::Blt(a) => {
            lemma_signed_less(x[a.rs1 as int], x[a.rs2 as int]);
        },
        Instruction::Bge(a) => {
            lemma_signed_less(x[a.rs1 as int], x[a.rs2 as int]);
        },
        _ => {},
    }
}

/// A word stored by `sw` and loaded back by `lw` from the same address is the stored word; a byte
/// stored by `sb` and loaded back by `lbu` is the stored register's low byte.
pub proof fn law_load_after_store(store: Instruction, load: Instruction, x: Seq<u32>, pc: u32, bytes: Map<u32, u8>)
    requires
        store.wf(),
        load.wf(),
        x.len() == 32,
        access_address(store, x) == access_address(load, x),
    ensures
        access_address(store, x) <= u32::MAX - 3 ==> (store matches Instruction::Sw(s) ==> load matches Instruction::Lw(l) ==> int_result(load, x, pc, stored(store, x, bytes))
            == Some((l.rd, x[s.rs2 as int]))),
        store matches Instruction::Sb(s) ==> load matches Instruction::Lbu(l) ==> int_result(load, x, pc, stored(store, x, bytes))
            == Some((l.rd, (x[s.rs2 as int] as u8) as u32)),
{
    let at = access_address(store, x);
    if let Instruction::Sw(s) = store {
        if let Instruction::Lw(l) = load {
            if at <= u32::MAX - 3 {
                let w = x[s.rs2 as int];
                let p = placed_bytes(at, le_bytes(w));
                let m = bytes.union_prefer_right(p);
                crate::encoding::bitfields::lemma_le_word_of_le_bytes(w);
                assert(p.contains_key(at) && p.contains_key((at + 1) as u32) && p.contains_key((at + 2) as u32)
                    && p.contains_key((at + 3) as u32));
                assert(bytes_at(m, at) =~= le_bytes(w));
            }
        }
    }
}

/// A load or store accesses its base register (`rs1`) plus its sign-extended 12-bit offset,
/// modulo `2^32`.
pub proof fn law_access_address(instr: Instruction, x: Seq<u32>)
    requires
        instr.wf(),
        x.len() == 32,
    ensures
        match instr {
            Instruction::Lb(a) => access_address(instr, x) as int == (x[a.rs as int] + sign_extended(a.spec_imm(), 12)) % 0x1_0000_0000,
            Instruction::Lh(a) => access_address(instr, x) as int == (x[a.rs as int] + sign_extended(a.spec_imm(), 12)) % 0x1_0000_0000,
            Instruction::Lw(a) => access_address(instr, x) as int == (x[a.rs as int] + sign_extended(a.spec_imm(), 12)) % 0x1_0000_0000,
            Instruction::Lbu(a) => access_address(instr, x) as int == (x[a.rs as int] + sign_extended(a.spec_imm(), 12)) % 0x1_0000_0000,
            Instruction::Lhu(a) => access_address(instr, x) as int == (x[a.rs as int] + sign_extended(a.spec_imm(), 12)) % 0x1_0000_0000,
            Instruction::Sb(a) => access_address(instr, x) as int == (x[a.rs1 as int] + sign_extended(a.spec_imm(), 12)) % 0x1_0000_0000,
            Instruction::Sh(a) => access_address(instr, x) as int == (x[a.rs1 as int] + sign_extended(a.spec_imm(), 12)) % 0x1_0000_0000,
            Instruction::Sw(a) => access_address(instr, x) as int == (x[a.rs1 as int] + sign_extended(a.spec_imm(), 12)) % 0x1_0000_0000,
            Instruction::Flw(a) => access_address(instr, x) as int == (x[a.rs1 as int] + sign_extended(a.spec_imm(), 12)) % 0x1_0000_0000,
            Instruction::Fsw(a) => access_address(instr, x) as int == (x[a.rs1 as int] + sign_extended(a.spec_imm(), 12)) % 0x1_0000_0000,
            _ => true,
        },
{
}

/// A store changes exactly the bytes it stores: `sb` the byte at its address, `sh` that byte and
/// the next, `sw` the four bytes from its address on (where they do not wrap around); each gets
/// the little-endian bytes of `rs2`. Every other byte, and every byte on any other instruction,
/// stays as it was.
pub proof fn law_store_bytes(instr: Instruction, x: Seq<u32>, bytes: Map<u32, u8>, b: u32)
    requires
        instr.wf(),
        x.len() == 32,
        is_integer(instr),
        bytes.contains_key(b),
        access_address(instr, x) <= u32::MAX - 3,
    ensures
        ({
            let at = access_address(instr, x) as int;
            let after = stored(instr, x, bytes);
            let d = b - at;
            match instr {
                Instruction::Sb(a) => after[b] as int == if d == 0 { (x[a.rs2 as int] as int) % 256 } else { bytes[b] as int },
                Instruction::Sh(a) => after[b] as int == if d == 0 { (x[a.rs2 as int] as int) % 256 } else if d == 1 {
                    ((x[a.rs2 as int] as int) / 256) % 256
                } else {
                    bytes[b] as int
                },
                Instruction::Sw(a) => after[b] as int == if d == 0 { (x[a.rs2 as int] as int) % 256 } else if d == 1 {
                    ((x[a.rs2 as int] as int) / 0x100) % 256
                } else if d == 2 {
                    ((x[a.rs2 as int] as int) / 0x1_0000) % 256
                } else if d == 3 {
                    (x[a.rs2 as int] as int) / 0x100_0000
                } else {
                    bytes[b] as int
                },
                _ => after == bytes,
            }
        }),
{
    let at = access_address(instr, x);
    match instr {
        Instruction::Sb(a) => {
            crate::encoding::bitfields::lemma_byte_split(x[a.rs2 as int]);
        },
        Instruction::Sh(a) => {
            crate::encoding::bitfields::lemma_byte_split(x[a.rs2 as int]);
            assert(wrapped(at + 1) == at + 1);
        },
        Instruction::Sw(a) => {
            crate::encoding::bitfields::lemma_byte_split(x[a.rs2 as int]);
        },
        _ => {},
    }
}

/// A control and status register instruction writes the register's value to `rd` and, unless
/// it only reads (`csrrs` or `csrrc` with `rs1` being `x0`), writes the register with: the operand
/// (`csrrw`, `csrrwi`), the old value with the operand's bits set (`csrrs`, `csrrsi`) or cleared
/// (`csrrc`, `csrrci`). The operand is `rs1`'s value, or the 5-bit immediate of the `i` forms.
pub proof fn law_csr_instructions(instr: Instruction, x: Seq<u32>, old: u32)
    requires
        instr.wf(),
        x.len() == 32,
    ensures
        ({
            let (id, rd, operand) = csr_operands(instr, x);
            let new = csr_new_value(instr, old, operand);
            match instr {
                Instruction::Csrrw(a) => id == a.csr && rd == a.rd && new == x[a.rs1 as int] && !csr_read_only(instr),
                Instruction::Csrrwi(a) => id == a.csr && rd == a.rd && new as int == a.uimm as int && !csr_read_only(instr),
                Instruction::Csrrs(a) => id == a.csr && rd == a.rd && new == old | x[a.rs1 as int]
                    && csr_read_only(instr) == (a.rs1 == 0),
                Instruction::Csrrsi(a) => id == a.csr && rd == a.rd && new == old | (a.uimm as u32) && !csr_read_only(instr),
                Instruction::Csrrc(a) => id == a.csr && rd == a.rd && new == old & !x[a.rs1 as int]
                    && csr_read_only(instr) == (a.rs1 == 0),
                Instruction::Csrrci(a) => id == a.csr && rd == a.rd && new == old & !(a.uimm as u32) && !csr_read_only(instr),
                _ => true,
            }
        }),
{
}

/// The sign injections keep the magnitude (bits 30 to 0) of `rs1`, and take as sign bit that of
/// `rs2` (`fsgnj`), its negation (`fsgnjn`), or the exclusive or of the signs of both (`fsgnjx`).
pub proof fn law_sign_injection(instr: Instruction, x: Seq<u32>, f: Seq<u32>, bytes: Map<u32, u8>)
    requires
        instr.wf(),
        f.len() == 32,
    ensures
        ({
            let after = float_transfer_fs(instr, x, f, bytes);
            match instr {
                Instruction::FsgnjS(a) => after[a.rd as int] % 0x8000_0000 == f[a.rs1 as int] % 0x8000_0000
                    && after[a.rd as int] / 0x8000_0000 == f[a.rs2 as int] / 0x8000_0000,
                Instruction::FsgnjnS(a) => after[a.rd as int] % 0x8000_0000 == f[a.rs1 as int] % 0x8000_0000
                    && after[a.rd as int] / 0x8000_0000 == 1 - f[a.rs2 as int] / 0x8000_0000,
                Instruction::FsgnjxS(a) => after[a.rd as int] % 0x8000_0000 == f[a.rs1 as int] % 0x8000_0000
                    && (after[a.rd as int] / 0x8000_0000 == 1) == ((f[a.rs1 as int] / 0x8000_0000 == 1) != (
                    f[a.rs2 as int] / 0x8000_0000 == 1)),
                _ => true,
            }
        }),
{
    match instr {
        Instruction::FsgnjS(a) => lemma_signed_less(f[a.rs1 as int], f[a.rs2 as int]),
        Instruction::FsgnjnS(a) => lemma_signed_less(f[a.rs1 as int], f[a.rs2 as int]),
        Instruction::FsgnjxS(a) => lemma_signed_less(f[a.rs1 as int], f[a.rs2 as int]),
        _ => {},
    }
}

/// The zero register stays zero: writing any register keeps `x0` reading zero, and writing a
/// register other than `x0` changes that register alone.
pub proof fn law_x0_stays_zero(xs: Seq<u32>, rd: u8, value: u32, other: int)
    requires
        xs.len() == 32,
        xs[0] == 0,
        rd < 32,
        0 <= other < 32,
    ensures
        with_dest(xs, rd, value)[0] == 0,
        with_dest(xs, rd, value).len() == 32,
        rd != 0 ==> with_dest(xs, rd, value)[rd as int] == value,
        other != rd ==> with_dest(xs, rd, value)[other] == xs[other],
{
}

} // verus!
