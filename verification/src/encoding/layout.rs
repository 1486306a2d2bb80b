//! Where the operands of an instruction word lie, as the RISC-V instruction formats place them,
//! and the law that decoding reads each operand from its place.
use vstd::prelude::*;

use super::instruction::Instruction;

verus! {

/// The destination register field: bits 11 to 7.
pub open spec fn rd_field(w: u32) -> int {
    (w >> 7u32) as int % 32
}

/// The first source register field: bits 19 to 15.
pub open spec fn rs1_field(w: u32) -> int {
    (w >> 15u32) as int % 32
}

/// The second source register field: bits 24 to 20.
pub open spec fn rs2_field(w: u32) -> int {
    (w >> 20u32) as int % 32
}

/// The third source register field of the fused multiply-add formats: bits 31 to 27.
pub open spec fn rs3_field(w: u32) -> int {
    (w >> 27u32) as int
}

/// The `funct3` field, which holds the rounding mode of floating-point instructions: bits 14 to 12.
pub open spec fn funct3_field(w: u32) -> int {
    (w >> 12u32) as int % 8
}

/// The `funct7` field, which holds the upper immediate bits of a store: bits 31 to 25.
pub open spec fn funct7_field(w: u32) -> int {
    (w >> 25u32) as int
}

/// The immediate of the I format, which is also the register number of a CSR instruction: bits
/// 31 to 20.
pub open spec fn i_imm_field(w: u32) -> int {
    (w >> 20u32) as int
}

/// The immediate of the U format: bits 31 to 12.
pub open spec fn u_imm_field(w: u32) -> int {
    (w >> 12u32) as int
}

/// The sign bit of the B and J formats: bit 31.
pub open spec fn sign_field(w: u32) -> int {
    (w >> 31u32) as int
}

/// Immediate bits 10 to 5 of the B format: bits 30 to 25.
pub open spec fn b_imm10_5_field(w: u32) -> int {
    (w >> 25u32) as int % 64
}

/// Immediate bits 4 to 1 of the B format: bits 11 to 8.
pub open spec fn b_imm4_1_field(w: u32) -> int {
    (w >> 8u32) as int % 16
}

/// Immediate bit 11 of the B format: bit 7.
pub open spec fn b_imm11_field(w: u32) -> int {
    (w >> 7u32) as int % 2
}

/// Immediate bits 10 to 1 of the J format: bits 30 to 21.
pub open spec fn j_imm10_1_field(w: u32) -> int {
    (w >> 21u32) as int % 1024
}

/// Immediate bit 11 of the J format: bit 20.
pub open spec fn j_imm11_field(w: u32) -> int {
    (w >> 20u32) as int % 2
}

/// Immediate bits 19 to 12 of the J format: bits 19 to 12.
pub open spec fn j_imm19_12_field(w: u32) -> int {
    (w >> 12u32) as int % 256
}

/// Whether every operand of `i` is the field of the word `w` at which its format places it.
pub open spec fn operands_at_fields(i: Instruction, w: u32) -> bool {
    match i {
        Instruction::Auipc(a) => a.rd == rd_field(w) && a.imm31_12 == u_imm_field(w),
        Instruction::Jal(a) => a.imm20 == sign_field(w) && a.imm10_1 == j_imm10_1_field(w) && a.imm11 == j_imm11_field(w) && a.rd == rd_field(w) && a.imm19_12 == j_imm19_12_field(w),
        Instruction::Lui(a) => a.rd == rd_field(w) && a.imm31_12 == u_imm_field(w),
        Instruction::FmsubS(a) => a.rm == funct3_field(w) && a.rs3 == rs3_field(w) && a.rs2 == rs2_field(w) && a.rd == rd_field(w) && a.rs1 == rs1_field(w),
        Instruction::FnmsubS(a) => a.rm == funct3_field(w) && a.rs3 == rs3_field(w) && a.rs2 == rs2_field(w) && a.rd == rd_field(w) && a.rs1 == rs1_field(w),
        Instruction::FnmaddS(a) => a.rm == funct3_field(w) && a.rs3 == rs3_field(w) && a.rs2 == rs2_field(w) && a.rd == rd_field(w) && a.rs1 == rs1_field(w),
        Instruction::FmaddS(a) => a.rm == funct3_field(w) && a.rs3 == rs3_field(w) && a.rs2 == rs2_field(w) && a.rd == rd_field(w) && a.rs1 == rs1_field(w),
        Instruction::Sb(a) => a.rs1 == rs1_field(w) && a.imm11_5 == funct7_field(w) && a.imm4_0 == rd_field(w) && a.rs2 == rs2_field(w),
        Instruction::Lw(a) => a.rs == rs1_field(w) && a.rd == rd_field(w) && a.imm11_0 == i_imm_field(w),
        Instruction::Bge(a) => a.imm10_5 == b_imm10_5_field(w) && a.rs1 == rs1_field(w) && a.imm4_1 == b_imm4_1_field(w) && a.imm12 == sign_field(w) && a.rs2 == rs2_field(w) && a.imm11 == b_imm11_field(w),
        Instruction::Bne(a) => a.imm10_5 == b_imm10_5_field(w) && a.rs1 == rs1_field(w) && a.imm4_1 == b_imm4_1_field(w) && a.imm12 == sign_field(w) && a.rs2 == rs2_field(w) && a.imm11 == b_imm11_field(w),
        Instruction::Lbu(a) => a.rs == rs1_field(w) && a.rd == rd_field(w) && a.imm11_0 == i_imm_field(w),
        Instruction::Bltu(a) => a.imm10_5 == b_imm10_5_field(w) && a.rs1 == rs1_field(w) && a.imm4_1 == b_imm4_1_field(w) && a.imm12 == sign_field(w) && a.rs2 == rs2_field(w) && a.imm11 == b_imm11_field(w),
        Instruction::Csrrw(a) => a.rs1 == rs1_field(w) && a.rd == rd_field(w) && a.csr == i_imm_field(w),
        Instruction::Xori(a) => a.rs == rs1_field(w) && a.rd == rd_field(w) && a.imm11_0 == i_imm_field(w),
        Instruction::Andi(a) => a.rs == rs1_field(w) && a.rd == rd_field(w) && a.imm11_0 == i_imm_field(w),
        Instruction::Sw(a) => a.rs1 == rs1_field(w) && a.imm11_5 == funct7_field(w) && a.imm4_0 == rd_field(w) && a.rs2 == rs2_field(w),
        Instruction::Csrrs(a) => a.rs1 == rs1_field(w) && a.rd == rd_field(w) && a.csr == i_imm_field(w),
        Instruction::Sh(a) => a.rs1 == rs1_field(w) && a.imm11_5 == funct7_field(w) && a.imm4_0 == rd_field(w) && a.rs2 == rs2_field(w),
        Instruction::Sltiu(a) => a.rs == rs1_field(w) && a.rd == rd_field(w) && a.imm11_0 == i_imm_field(w),
        Instruction::Lb(a) => a.rs == rs1_field(w) && a.rd == rd_field(w) && a.imm11_0 == i_imm_field(w),
        Instruction::Lh(a) => a.rs == rs1_field(w) && a.rd == rd_field(w) && a.imm11_0 == i_imm_field(w),
        Instruction::Csrrwi(a) => a.uimm == rs1_field(w) && a.rd == rd_field(w) && a.csr == i_imm_field(w),
        Instruction::Slti(a) => a.rs == rs1_field(w) && a.rd == rd_field(w) && a.imm11_0 == i_imm_field(w),
        Instruction::Csrrc(a) => a.rs1 == rs1_field(w) && a.rd == rd_field(w) && a.csr == i_imm_field(w),
        Instruction::Lhu(a) => a.rs == rs1_field(w) && a.rd == rd_field(w) && a.imm11_0 == i_imm_field(w),
        Instruction::Fsw(a) => a.rs1 == rs1_field(w) && a.imm11_5 == funct7_field(w) && a.imm4_0 == rd_field(w) && a.rs2 == rs2_field(w),
        Instruction::Addi(a) => a.rs == rs1_field(w) && a.rd == rd_field(w) && a.imm11_0 == i_imm_field(w),
        Instruction::Blt(a) => a.imm10_5 == b_imm10_5_field(w) && a.rs1 == rs1_field(w) && a.imm4_1 == b_imm4_1_field(w) && a.imm12 == sign_field(w) && a.rs2 == rs2_field(w) && a.imm11 == b_imm11_field(w),
        Instruction::Bgeu(a) => a.imm10_5 == b_imm10_5_field(w) && a.rs1 == rs1_field(w) && a.imm4_1 == b_imm4_1_field(w) && a.imm12 == sign_field(w) && a.rs2 == rs2_field(w) && a.imm11 == b_imm11_field(w),
        Instruction::Csrrsi(a) => a.uimm == rs1_field(w) && a.rd == rd_field(w) && a.csr == i_imm_field(w),
        Instruction::Csrrci(a) => a.uimm == rs1_field(w) && a.rd == rd_field(w) && a.csr == i_imm_field(w),
        Instruction::Jalr(a) => a.rs == rs1_field(w) && a.rd == rd_field(w) && a.imm11_0 == i_imm_field(w),
        Instruction::Flw(a) => a.rs1 == rs1_field(w) && a.rd == rd_field(w) && a.imm11_0 == i_imm_field(w),
        Instruction::Beq(a) => a.imm10_5 == b_imm10_5_field(w) && a.rs1 == rs1_field(w) && a.imm4_1 == b_imm4_1_field(w) && a.imm12 == sign_field(w) && a.rs2 == rs2_field(w) && a.imm11 == b_imm11_field(w),
        Instruction::Ori(a) => a.rs == rs1_field(w) && a.rd == rd_field(w) && a.imm11_0 == i_imm_field(w),
        Instruction::FdivS(a) => a.rs1 == rs1_field(w) && a.rm == funct3_field(w) && a.rd == rd_field(w) && a.rs2 == rs2_field(w),
        Instruction::FsubS(a) => a.rs1 == rs1_field(w) && a.rm == funct3_field(w) && a.rd == rd_field(w) && a.rs2 == rs2_field(w),
        Instruction::FaddS(a) => a.rs1 == rs1_field(w) && a.rm == funct3_field(w) && a.rd == rd_field(w) && a.rs2 == rs2_field(w),
        Instruction::FmulS(a) => a.rs1 == rs1_field(w) && a.rm == funct3_field(w) && a.rd == rd_field(w) && a.rs2 == rs2_field(w),
        Instruction::Srai(a) => a.rs == rs1_field(w) && a.rd == rd_field(w) && a.shamt == rs2_field(w),
        Instruction::FeqS(a) => a.rs1 == rs1_field(w) && a.rd == rd_field(w) && a.rs2 == rs2_field(w),
        Instruction::Add(a) => a.rs1 == rs1_field(w) && a.rd == rd_field(w) && a.rs2 == rs2_field(w),
        Instruction::Slli(a) => a.rs == rs1_field(w) && a.rd == rd_field(w) && a.shamt == rs2_field(w),
        Instruction::Sltu(a) => a.rs1 == rs1_field(w) && a.rd == rd_field(w) && a.rs2 == rs2_field(w),
        Instruction::FsgnjxS(a) => a.rs1 == rs1_field(w) && a.rd == rd_field(w) && a.rs2 == rs2_field(w),
        Instruction::FltS(a) => a.rs1 == rs1_field(w) && a.rd == rd_field(w) && a.rs2 == rs2_field(w),
        Instruction::FsgnjS(a) => a.rs1 == rs1_field(w) && a.rd == rd_field(w) && a.rs2 == rs2_field(w),
        Instruction::FmaxS(a) => a.rs1 == rs1_field(w) && a.rd == rd_field(w) && a.rs2 == rs2_field(w),
        Instruction::FsgnjnS(a) => a.rs1 == rs1_field(w) && a.rd == rd_field(w) && a.rs2 == rs2_field(w),
        Instruction::FminS(a) => a.rs1 == rs1_field(w) && a.rd == rd_field(w) && a.rs2 == rs2_field(w),
        Instruction::Xor(a) => a.rs1 == rs1_field(w) && a.rd == rd_field(w) && a.rs2 == rs2_field(w),
        Instruction::Srli(a) => a.rs == rs1_field(w) && a.rd == rd_field(w) && a.shamt == rs2_field(w),
        Instruction::Slt(a) => a.rs1 == rs1_field(w) && a.rd == rd_field(w) && a.rs2 == rs2_field(w),
        Instruction::Sub(a) => a.rs1 == rs1_field(w) && a.rd == rd_field(w) && a.rs2 == rs2_field(w),
        Instruction::Sll(a) => a.rs1 == rs1_field(w) && a.rd == rd_field(w) && a.rs2 == rs2_field(w),
        Instruction::Srl(a) => a.rs1 == rs1_field(w) && a.rd == rd_field(w) && a.rs2 == rs2_field(w),
        Instruction::Sra(a) => a.rs1 == rs1_field(w) && a.rd == rd_field(w) && a.rs2 == rs2_field(w),
        Instruction::FleS(a) => a.rs1 == rs1_field(w) && a.rd == rd_field(w) && a.rs2 == rs2_field(w),
        Instruction::And(a) => a.rs1 == rs1_field(w) && a.rd == rd_field(w) && a.rs2 == rs2_field(w),
        Instruction::Or(a) => a.rs1 == rs1_field(w) && a.rd == rd_field(w) && a.rs2 == rs2_field(w),
        Instruction::FcvtWuS(a) => a.rs1 == rs1_field(w) && a.rm == funct3_field(w) && a.rd == rd_field(w),
        Instruction::FcvtSW(a) => a.rs1 == rs1_field(w) && a.rm == funct3_field(w) && a.rd == rd_field(w),
        Instruction::FcvtSWu(a) => a.rs1 == rs1_field(w) && a.rm == funct3_field(w) && a.rd == rd_field(w),
        Instruction::FsqrtS(a) => a.rs1 == rs1_field(w) && a.rm == funct3_field(w) && a.rd == rd_field(w),
        Instruction::FcvtWS(a) => a.rs1 == rs1_field(w) && a.rm == funct3_field(w) && a.rd == rd_field(w),
        Instruction::FmvXW(a) => a.rs1 == rs1_field(w) && a.rd == rd_field(w),
        Instruction::FmvWX(a) => a.rs1 == rs1_field(w) && a.rd == rd_field(w),
        Instruction::FclassS(a) => a.rs1 == rs1_field(w) && a.rd == rd_field(w),
        Instruction::Ecall(_) => true,
        Instruction::Ebreak(_) => true,
    }
}

/// Masking the bits above a field is taking a remainder.
proof fn lemma_field_masks(w: u32)
    by (bit_vector)
    ensures
        (w >> 7u32) & 0x1f == (w >> 7u32) % 32,
        (w >> 15u32) & 0x1f == (w >> 15u32) % 32,
        (w >> 20u32) & 0x1f == (w >> 20u32) % 32,
        (w >> 27u32) & 0x1f == w >> 27u32,
        (w >> 12u32) & 0x7 == (w >> 12u32) % 8,
        (w >> 25u32) & 0x7f == w >> 25u32,
        (w >> 20u32) & 0xfff == w >> 20u32,
        (w >> 12u32) & 0xfffff == w >> 12u32,
        (w >> 31u32) & 0x1 == w >> 31u32,
        (w >> 25u32) & 0x3f == (w >> 25u32) % 64,
        (w >> 8u32) & 0xf == (w >> 8u32) % 16,
        (w >> 7u32) & 0x1 == (w >> 7u32) % 2,
        (w >> 21u32) & 0x3ff == (w >> 21u32) % 1024,
        (w >> 20u32) & 0x1 == (w >> 20u32) % 2,
        (w >> 12u32) & 0xff == (w >> 12u32) % 256,
        w >> 27u32 < 32,
        w >> 25u32 < 128,
        w >> 20u32 < 4096,
        w >> 31u32 < 2,
{
}

/// Decoding reads every operand from where its format places it: registers from bits 11 to 7
/// (`rd`), 19 to 15 (`rs1`), 24 to 20 (`rs2`) and 31 to 27 (`rs3`), the rounding mode from bits
/// 14 to 12, and each immediate piece from its place in the I, S, B, U or J format.
pub proof fn law_decode_reads_fields(w: u32)
    ensures
        Instruction::spec_decode_word(w) matches Some(i) ==> operands_at_fields(i, w),
{
    lemma_field_masks(w);
    if let Some(k) = Instruction::first_match(w, 0) {
        assert(operands_at_fields(Instruction::from_pattern(k as u8, w), w));
    }
}

/// The fixed fields of each instruction in the RV32IF base and single-precision sets: its opcode
/// (bits 6 to 0), and where they are fixed its `funct3`, `funct7` and `rs2` fields; for `ecall`
/// and `ebreak` the whole word.
pub open spec fn fixed_fields(i: Instruction) -> (u32, Option<u32>, Option<u32>, Option<u32>, bool) {
    match i {
        Instruction::Lui(_) => (0x37u32, None, None, None, false),
        Instruction::Auipc(_) => (0x17u32, None, None, None, false),
        Instruction::Jal(_) => (0x6fu32, None, None, None, false),
        Instruction::Jalr(_) => (0x67u32, Some(0x0u32), None, None, false),
        Instruction::Beq(_) => (0x63u32, Some(0x0u32), None, None, false),
        Instruction::Bne(_) => (0x63u32, Some(0x1u32), None, None, false),
        Instruction::Blt(_) => (0x63u32, Some(0x4u32), None, None, false),
        Instruction::Bge(_) => (0x63u32, Some(0x5u32), None, None, false),
        Instruction::Bltu(_) => (0x63u32, Some(0x6u32), None, None, false),
        Instruction::Bgeu(_) => (0x63u32, Some(0x7u32), None, None, false),
        Instruction::Lb(_) => (0x3u32, Some(0x0u32), None, None, false),
        Instruction::Lh(_) => (0x3u32, Some(0x1u32), None, None, false),
        Instruction::Lw(_) => (0x3u32, Some(0x2u32), None, None, false),
        Instruction::Lbu(_) => (0x3u32, Some(0x4u32), None, None, false),
        Instruction::Lhu(_) => (0x3u32, Some(0x5u32), None, None, false),
        Instruction::Sb(_) => (0x23u32, Some(0x0u32), None, None, false),
        Instruction::Sh(_) => (0x23u32, Some(0x1u32), None, None, false),
        Instruction::Sw(_) => (0x23u32, Some(0x2u32), None, None, false),
        Instruction::Addi(_) => (0x13u32, Some(0x0u32), None, None, false),
        Instruction::Slti(_) => (0x13u32, Some(0x2u32), None, None, false),
        Instruction::Sltiu(_) => (0x13u32, Some(0x3u32), None, None, false),
        Instruction::Xori(_) => (0x13u32, Some(0x4u32), None, None, false),
        Instruction::Ori(_) => (0x13u32, Some(0x6u32), None, None, false),
        Instruction::Andi(_) => (0x13u32, Some(0x7u32), None, None, false),
        Instruction::Slli(_) => (0x13u32, Some(0x1u32), Some(0x0u32), None, false),
        Instruction::Srli(_) => (0x13u32, Some(0x5u32), Some(0x0u32), None, false),
        Instruction::Srai(_) => (0x13u32, Some(0x5u32), Some(0x20u32), None, false),
        Instruction::Add(_) => (0x33u32, Some(0x0u32), Some(0x0u32), None, false),
        Instruction::Sub(_) => (0x33u32, Some(0x0u32), Some(0x20u32), None, false),
        Instruction::Sll(_) => (0x33u32, Some(0x1u32), Some(0x0u32), None, false),
        Instruction::Slt(_) => (0x33u32, Some(0x2u32), Some(0x0u32), None, false),
        Instruction::Sltu(_) => (0x33u32, Some(0x3u32), Some(0x0u32), None, false),
        Instruction::Xor(_) => (0x33u32, Some(0x4u32), Some(0x0u32), None, false),
        Instruction::Srl(_) => (0x33u32, Some(0x5u32), Some(0x0u32), None, false),
        Instruction::Sra(_) => (0x33u32, Some(0x5u32), Some(0x20u32), None, false),
        Instruction::Or(_) => (0x33u32, Some(0x6u32), Some(0x0u32), None, false),
        Instruction::And(_) => (0x33u32, Some(0x7u32), Some(0x0u32), None, false),
        Instruction::Csrrw(_) => (0x73u32, Some(0x1u32), None, None, false),
        Instruction::Csrrs(_) => (0x73u32, Some(0x2u32), None, None, false),
        Instruction::Csrrc(_) => (0x73u32, Some(0x3u32), None, None, false),
        Instruction::Csrrwi(_) => (0x73u32, Some(0x5u32), None, None, false),
        Instruction::Csrrsi(_) => (0x73u32, Some(0x6u32), None, None, false),
        Instruction::Csrrci(_) => (0x73u32, Some(0x7u32), None, None, false),
        Instruction::Flw(_) => (0x7u32, Some(0x2u32), None, None, false),
        Instruction::Fsw(_) => (0x27u32, Some(0x2u32), None, None, false),
        Instruction::FmaddS(_) => (0x43u32, None, None, None, false),
        Instruction::FmsubS(_) => (0x47u32, None, None, None, false),
        Instruction::FnmsubS(_) => (0x4bu32, None, None, None, false),
        Instruction::FnmaddS(_) => (0x4fu32, None, None, None, false),
        Instruction::FaddS(_) => (0x53u32, None, Some(0x0u32), None, false),
        Instruction::FsubS(_) => (0x53u32, None, Some(0x4u32), None, false),
        Instruction::FmulS(_) => (0x53u32, None, Some(0x8u32), None, false),
        Instruction::FdivS(_) => (0x53u32, None, Some(0xcu32), None, false),
        Instruction::FsqrtS(_) => (0x53u32, None, Some(0x2cu32), Some(0x0u32), false),
        Instruction::FsgnjS(_) => (0x53u32, Some(0x0u32), Some(0x10u32), None, false),
        Instruction::FsgnjnS(_) => (0x53u32, Some(0x1u32), Some(0x10u32), None, false),
        Instruction::FsgnjxS(_) => (0x53u32, Some(0x2u32), Some(0x10u32), None, false),
        Instruction::FminS(_) => (0x53u32, Some(0x0u32), Some(0x14u32), None, false),
        Instruction::FmaxS(_) => (0x53u32, Some(0x1u32), Some(0x14u32), None, false),
        Instruction::FcvtWS(_) => (0x53u32, None, Some(0x60u32), Some(0x0u32), false),
        Instruction::FcvtWuS(_) => (0x53u32, None, Some(0x60u32), Some(0x1u32), false),
        Instruction::FmvXW(_) => (0x53u32, Some(0x0u32), Some(0x70u32), Some(0x0u32), false),
        Instruction::FeqS(_) => (0x53u32, Some(0x2u32), Some(0x50u32), None, false),
        Instruction::FltS(_) => (0x53u32, Some(0x1u32), Some(0x50u32), None, false),
        Instruction::FleS(_) => (0x53u32, Some(0x0u32), Some(0x50u32), None, false),
        Instruction::FclassS(_) => (0x53u32, Some(0x1u32), Some(0x70u32), Some(0x0u32), false),
        Instruction::FcvtSW(_) => (0x53u32, None, Some(0x68u32), Some(0x0u32), false),
        Instruction::FcvtSWu(_) => (0x53u32, None, Some(0x68u32), Some(0x1u32), false),
        Instruction::FmvWX(_) => (0x53u32, Some(0x0u32), Some(0x78u32), Some(0x0u32), false),
        Instruction::Ecall(_) => (0x73u32, None, None, None, true),
        Instruction::Ebreak(_) => (0x0010_0073u32, None, None, None, true),
    }
}

/// Whether the word `w` has the fixed fields of the instruction `i`.
pub open spec fn is_encoding_of(i: Instruction, w: u32) -> bool {
    let (opcode, funct3, funct7, rs2, whole) = fixed_fields(i);
    if whole {
        w == opcode
    } else {
        &&& w % 128 == opcode
        &&& funct3 matches Some(f) ==> funct3_field(w) == f
        &&& funct7 matches Some(f) ==> funct7_field(w) == f
        &&& rs2 matches Some(r) ==> rs2_field(w) == r
    }
}

/// The `k`-th entry of the decoder's pattern table fixes the fields that its instruction has.
spec fn pattern_fixes_fields(k: u8) -> bool {
    let (opcode, funct3, funct7, rs2, whole) = fixed_fields(Instruction::from_pattern(k, 0));
    let m = Instruction::pattern_mask(k);
    let v = Instruction::pattern_value(k);
    if whole {
        m == 0xffff_ffffu32 && v == opcode
    } else {
        &&& m & 0x7f == 0x7f
        &&& v & 0x7f == opcode
        &&& funct3 matches Some(f) ==> m & 0x7000 == 0x7000 && (v >> 12u32) & 7 == f
        &&& funct7 matches Some(f) ==> m & 0xfe00_0000 == 0xfe00_0000 && v >> 25u32 == f
        &&& rs2 matches Some(r) ==> m & 0x01f0_0000 == 0x01f0_0000 && (v >> 20u32) & 0x1f == r
    }
}

/// The masks and values of the decoder's pattern table, entry by entry, hold the fixed fields of
/// their instructions.
proof fn lemma_pattern_table_fields()
    ensures
        0x7fu32 & 0x7f == 0x7f
        && 0x17u32 & 0x7f == 0x17
        && 0x7fu32 & 0x7f == 0x7f
        && 0x6fu32 & 0x7f == 0x6f
        && 0x7fu32 & 0x7f == 0x7f
        && 0x37u32 & 0x7f == 0x37
        && 0x600007fu32 & 0x7f == 0x7f
        && 0x47u32 & 0x7f == 0x47
        && 0x600007fu32 & 0x7f == 0x7f
        && 0x4bu32 & 0x7f == 0x4b
        && 0x600007fu32 & 0x7f == 0x7f
        && 0x4fu32 & 0x7f == 0x4f
        && 0x600007fu32 & 0x7f == 0x7f
        && 0x43u32 & 0x7f == 0x43
        && 0x707fu32 & 0x7f == 0x7f
        && 0x23u32 & 0x7f == 0x23
        && 0x707fu32 & 0x7000 == 0x7000
        && (0x23u32 >> 12u32) & 7 == 0
        && 0x707fu32 & 0x7f == 0x7f
        && 0x2003u32 & 0x7f == 0x3
        && 0x707fu32 & 0x7000 == 0x7000
        && (0x2003u32 >> 12u32) & 7 == 2
        && 0x707fu32 & 0x7f == 0x7f
        && 0x5063u32 & 0x7f == 0x63
        && 0x707fu32 & 0x7000 == 0x7000
        && (0x5063u32 >> 12u32) & 7 == 5
        && 0x707fu32 & 0x7f == 0x7f
        && 0x1063u32 & 0x7f == 0x63
        && 0x707fu32 & 0x7000 == 0x7000
        && (0x1063u32 >> 12u32) & 7 == 1
        && 0x707fu32 & 0x7f == 0x7f
        && 0x4003u32 & 0x7f == 0x3
        && 0x707fu32 & 0x7000 == 0x7000
        && (0x4003u32 >> 12u32) & 7 == 4
        && 0x707fu32 & 0x7f == 0x7f
        && 0x6063u32 & 0x7f == 0x63
        && 0x707fu32 & 0x7000 == 0x7000
        && (0x6063u32 >> 12u32) & 7 == 6
        && 0x707fu32 & 0x7f == 0x7f
        && 0x1073u32 & 0x7f == 0x73
        && 0x707fu32 & 0x7000 == 0x7000
        && (0x1073u32 >> 12u32) & 7 == 1
        && 0x707fu32 & 0x7f == 0x7f
        && 0x4013u32 & 0x7f == 0x13
        && 0x707fu32 & 0x7000 == 0x7000
        && (0x4013u32 >> 12u32) & 7 == 4
        && 0x707fu32 & 0x7f == 0x7f
        && 0x7013u32 & 0x7f == 0x13
        && 0x707fu32 & 0x7000 == 0x7000
        && (0x7013u32 >> 12u32) & 7 == 7
        && 0x707fu32 & 0x7f == 0x7f
        && 0x2023u32 & 0x7f == 0x23
        && 0x707fu32 & 0x7000 == 0x7000
        && (0x2023u32 >> 12u32) & 7 == 2
        && 0x707fu32 & 0x7f == 0x7f
        && 0x2073u32 & 0x7f == 0x73
        && 0x707fu32 & 0x7000 == 0x7000
        && (0x2073u32 >> 12u32) & 7 == 2
        && 0x707fu32 & 0x7f == 0x7f
        && 0x1023u32 & 0x7f == 0x23
        && 0x707fu32 & 0x7000 == 0x7000
        && (0x1023u32 >> 12u32) & 7 == 1
        && 0x707fu32 & 0x7f == 0x7f
        && 0x3013u32 & 0x7f == 0x13
        && 0x707fu32 & 0x7000 == 0x7000
        && (0x3013u32 >> 12u32) & 7 == 3
        && 0x707fu32 & 0x7f == 0x7f
        && 0x3u32 & 0x7f == 0x3
        && 0x707fu32 & 0x7000 == 0x7000
        && (0x3u32 >> 12u32) & 7 == 0
        && 0x707fu32 & 0x7f == 0x7f
        && 0x1003u32 & 0x7f == 0x3
        && 0x707fu32 & 0x7000 == 0x7000
        && (0x1003u32 >> 12u32) & 7 == 1
        && 0x707fu32 & 0x7f == 0x7f
        && 0x5073u32 & 0x7f == 0x73
        && 0x707fu32 & 0x7000 == 0x7000
        && (0x5073u32 >> 12u32) & 7 == 5
        && 0x707fu32 & 0x7f == 0x7f
        && 0x2013u32 & 0x7f == 0x13
        && 0x707fu32 & 0x7000 == 0x7000
        && (0x2013u32 >> 12u32) & 7 == 2
        && 0x707fu32 & 0x7f == 0x7f
        && 0x3073u32 & 0x7f == 0x73
        && 0x707fu32 & 0x7000 == 0x7000
        && (0x3073u32 >> 12u32) & 7 == 3
        && 0x707fu32 & 0x7f == 0x7f
        && 0x5003u32 & 0x7f == 0x3
        && 0x707fu32 & 0x7000 == 0x7000
        && (0x5003u32 >> 12u32) & 7 == 5
        && 0x707fu32 & 0x7f == 0x7f
        && 0x2027u32 & 0x7f == 0x27
        && 0x707fu32 & 0x7000 == 0x7000
        && (0x2027u32 >> 12u32) & 7 == 2
        && 0x707fu32 & 0x7f == 0x7f
        && 0x13u32 & 0x7f == 0x13
        && 0x707fu32 & 0x7000 == 0x7000
        && (0x13u32 >> 12u32) & 7 == 0
        && 0x707fu32 & 0x7f == 0x7f
        && 0x4063u32 & 0x7f == 0x63
        && 0x707fu32 & 0x7000 == 0x7000
        && (0x4063u32 >> 12u32) & 7 == 4
        && 0x707fu32 & 0x7f == 0x7f
        && 0x7063u32 & 0x7f == 0x63
        && 0x707fu32 & 0x7000 == 0x7000
        && (0x7063u32 >> 12u32) & 7 == 7
        && 0x707fu32 & 0x7f == 0x7f
        && 0x6073u32 & 0x7f == 0x73
        && 0x707fu32 & 0x7000 == 0x7000
        && (0x6073u32 >> 12u32) & 7 == 6
        && 0x707fu32 & 0x7f == 0x7f
        && 0x7073u32 & 0x7f == 0x73
        && 0x707fu32 & 0x7000 == 0x7000
        && (0x7073u32 >> 12u32) & 7 == 7
        && 0x707fu32 & 0x7f == 0x7f
        && 0x67u32 & 0x7f == 0x67
        && 0x707fu32 & 0x7000 == 0x7000
        && (0x67u32 >> 12u32) & 7 == 0
        && 0x707fu32 & 0x7f == 0x7f
        && 0x2007u32 & 0x7f == 0x7
        && 0x707fu32 & 0x7000 == 0x7000
        && (0x2007u32 >> 12u32) & 7 == 2
        && 0x707fu32 & 0x7f == 0x7f
        && 0x63u32 & 0x7f == 0x63
        && 0x707fu32 & 0x7000 == 0x7000
        && (0x63u32 >> 12u32) & 7 == 0
        && 0x707fu32 & 0x7f == 0x7f
        && 0x6013u32 & 0x7f == 0x13
        && 0x707fu32 & 0x7000 == 0x7000
        && (0x6013u32 >> 12u32) & 7 == 6
        && 0xfe00007fu32 & 0x7f == 0x7f
        && 0x18000053u32 & 0x7f == 0x53
        && 0xfe00007fu32 & 0xfe00_0000 == 0xfe00_0000
        && 0x18000053u32 >> 25u32 == 0xc
        && 0xfe00007fu32 & 0x7f == 0x7f
        && 0x8000053u32 & 0x7f == 0x53
        && 0xfe00007fu32 & 0xfe00_0000 == 0xfe00_0000
        && 0x8000053u32 >> 25u32 == 0x4
        && 0xfe00007fu32 & 0x7f == 0x7f
        && 0x53u32 & 0x7f == 0x53
        && 0xfe00007fu32 & 0xfe00_0000 == 0xfe00_0000
        && 0x53u32 >> 25u32 == 0x0
        && 0xfe00007fu32 & 0x7f == 0x7f
        && 0x10000053u32 & 0x7f == 0x53
        && 0xfe00007fu32 & 0xfe00_0000 == 0xfe00_0000
        && 0x10000053u32 >> 25u32 == 0x8
        && 0xfe00707fu32 & 0x7f == 0x7f
        && 0x40005013u32 & 0x7f == 0x13
        && 0xfe00707fu32 & 0x7000 == 0x7000
        && (0x40005013u32 >> 12u32) & 7 == 5
        && 0xfe00707fu32 & 0xfe00_0000 == 0xfe00_0000
        && 0x40005013u32 >> 25u32 == 0x20
        && 0xfe00707fu32 & 0x7f == 0x7f
        && 0xa0002053u32 & 0x7f == 0x53
        && 0xfe00707fu32 & 0x7000 == 0x7000
        && (0xa0002053u32 >> 12u32) & 7 == 2
        && 0xfe00707fu32 & 0xfe00_0000 == 0xfe00_0000
        && 0xa0002053u32 >> 25u32 == 0x50
        && 0xfe00707fu32 & 0x7f == 0x7f
        && 0x33u32 & 0x7f == 0x33
        && 0xfe00707fu32 & 0x7000 == 0x7000
        && (0x33u32 >> 12u32) & 7 == 0
        && 0xfe00707fu32 & 0xfe00_0000 == 0xfe00_0000
        && 0x33u32 >> 25u32 == 0x0
        && 0xfe00707fu32 & 0x7f == 0x7f
        && 0x1013u32 & 0x7f == 0x13
        && 0xfe00707fu32 & 0x7000 == 0x7000
        && (0x1013u32 >> 12u32) & 7 == 1
        && 0xfe00707fu32 & 0xfe00_0000 == 0xfe00_0000
        && 0x1013u32 >> 25u32 == 0x0
        && 0xfe00707fu32 & 0x7f == 0x7f
        && 0x3033u32 & 0x7f == 0x33
        && 0xfe00707fu32 & 0x7000 == 0x7000
        && (0x3033u32 >> 12u32) & 7 == 3
        && 0xfe00707fu32 & 0xfe00_0000 == 0xfe00_0000
        && 0x3033u32 >> 25u32 == 0x0
        && 0xfe00707fu32 & 0x7f == 0x7f
        && 0x20002053u32 & 0x7f == 0x53
        && 0xfe00707fu32 & 0x7000 == 0x7000
        && (0x20002053u32 >> 12u32) & 7 == 2
        && 0xfe00707fu32 & 0xfe00_0000 == 0xfe00_0000
        && 0x20002053u32 >> 25u32 == 0x10
        && 0xfe00707fu32 & 0x7f == 0x7f
        && 0xa0001053u32 & 0x7f == 0x53
        && 0xfe00707fu32 & 0x7000 == 0x7000
        && (0xa0001053u32 >> 12u32) & 7 == 1
        && 0xfe00707fu32 & 0xfe00_0000 == 0xfe00_0000
        && 0xa0001053u32 >> 25u32 == 0x50
        && 0xfe00707fu32 & 0x7f == 0x7f
        && 0x20000053u32 & 0x7f == 0x53
        && 0xfe00707fu32 & 0x7000 == 0x7000
        && (0x20000053u32 >> 12u32) & 7 == 0
        && 0xfe00707fu32 & 0xfe00_0000 == 0xfe00_0000
        && 0x20000053u32 >> 25u32 == 0x10
        && 0xfe00707fu32 & 0x7f == 0x7f
        && 0x28001053u32 & 0x7f == 0x53
        && 0xfe00707fu32 & 0x7000 == 0x7000
        && (0x28001053u32 >> 12u32) & 7 == 1
        && 0xfe00707fu32 & 0xfe00_0000 == 0xfe00_0000
        && 0x28001053u32 >> 25u32 == 0x14
        && 0xfe00707fu32 & 0x7f == 0x7f
        && 0x20001053u32 & 0x7f == 0x53
        && 0xfe00707fu32 & 0x7000 == 0x7000
        && (0x20001053u32 >> 12u32) & 7 == 1
        && 0xfe00707fu32 & 0xfe00_0000 == 0xfe00_0000
        && 0x20001053u32 >> 25u32 == 0x10
        && 0xfe00707fu32 & 0x7f == 0x7f
        && 0x28000053u32 & 0x7f == 0x53
        && 0xfe00707fu32 & 0x7000 == 0x7000
        && (0x28000053u32 >> 12u32) & 7 == 0
        && 0xfe00707fu32 & 0xfe00_0000 == 0xfe00_0000
        && 0x28000053u32 >> 25u32 == 0x14
        && 0xfe00707fu32 & 0x7f == 0x7f
        && 0x4033u32 & 0x7f == 0x33
        && 0xfe00707fu32 & 0x7000 == 0x7000
        && (0x4033u32 >> 12u32) & 7 == 4
        && 0xfe00707fu32 & 0xfe00_0000 == 0xfe00_0000
        && 0x4033u32 >> 25u32 == 0x0
        && 0xfe00707fu32 & 0x7f == 0x7f
        && 0x5013u32 & 0x7f == 0x13
        && 0xfe00707fu32 & 0x7000 == 0x7000
        && (0x5013u32 >> 12u32) & 7 == 5
        && 0xfe00707fu32 & 0xfe00_0000 == 0xfe00_0000
        && 0x5013u32 >> 25u32 == 0x0
        && 0xfe00707fu32 & 0x7f == 0x7f
        && 0x2033u32 & 0x7f == 0x33
        && 0xfe00707fu32 & 0x7000 == 0x7000
        && (0x2033u32 >> 12u32) & 7 == 2
        && 0xfe00707fu32 & 0xfe00_0000 == 0xfe00_0000
        && 0x2033u32 >> 25u32 == 0x0
        && 0xfe00707fu32 & 0x7f == 0x7f
        && 0x40000033u32 & 0x7f == 0x33
        && 0xfe00707fu32 & 0x7000 == 0x7000
        && (0x40000033u32 >> 12u32) & 7 == 0
        && 0xfe00707fu32 & 0xfe00_0000 == 0xfe00_0000
        && 0x40000033u32 >> 25u32 == 0x20
        && 0xfe00707fu32 & 0x7f == 0x7f
        && 0x1033u32 & 0x7f == 0x33
        && 0xfe00707fu32 & 0x7000 == 0x7000
        && (0x1033u32 >> 12u32) & 7 == 1
        && 0xfe00707fu32 & 0xfe00_0000 == 0xfe00_0000
        && 0x1033u32 >> 25u32 == 0x0
        && 0xfe00707fu32 & 0x7f == 0x7f
        && 0x5033u32 & 0x7f == 0x33
        && 0xfe00707fu32 & 0x7000 == 0x7000
        && (0x5033u32 >> 12u32) & 7 == 5
        && 0xfe00707fu32 & 0xfe00_0000 == 0xfe00_0000
        && 0x5033u32 >> 25u32 == 0x0
        && 0xfe00707fu32 & 0x7f == 0x7f
        && 0x40005033u32 & 0x7f == 0x33
        && 0xfe00707fu32 & 0x7000 == 0x7000
        && (0x40005033u32 >> 12u32) & 7 == 5
        && 0xfe00707fu32 & 0xfe00_0000 == 0xfe00_0000
        && 0x40005033u32 >> 25u32 == 0x20
        && 0xfe00707fu32 & 0x7f == 0x7f
        && 0xa0000053u32 & 0x7f == 0x53
        && 0xfe00707fu32 & 0x7000 == 0x7000
        && (0xa0000053u32 >> 12u32) & 7 == 0
        && 0xfe00707fu32 & 0xfe00_0000 == 0xfe00_0000
        && 0xa0000053u32 >> 25u32 == 0x50
        && 0xfe00707fu32 & 0x7f == 0x7f
        && 0x7033u32 & 0x7f == 0x33
        && 0xfe00707fu32 & 0x7000 == 0x7000
        && (0x7033u32 >> 12u32) & 7 == 7
        && 0xfe00707fu32 & 0xfe00_0000 == 0xfe00_0000
        && 0x7033u32 >> 25u32 == 0x0
        && 0xfe00707fu32 & 0x7f == 0x7f
        && 0x6033u32 & 0x7f == 0x33
        && 0xfe00707fu32 & 0x7000 == 0x7000
        && (0x6033u32 >> 12u32) & 7 == 6
        && 0xfe00707fu32 & 0xfe00_0000 == 0xfe00_0000
        && 0x6033u32 >> 25u32 == 0x0
        && 0xfff0007fu32 & 0x7f == 0x7f
        && 0xc0100053u32 & 0x7f == 0x53
        && 0xfff0007fu32 & 0xfe00_0000 == 0xfe00_0000
        && 0xc0100053u32 >> 25u32 == 0x60
        && 0xfff0007fu32 & 0x01f0_0000 == 0x01f0_0000
        && (0xc0100053u32 >> 20u32) & 0x1f == 1
        && 0xfff0007fu32 & 0x7f == 0x7f
        && 0xd0000053u32 & 0x7f == 0x53
        && 0xfff0007fu32 & 0xfe00_0000 == 0xfe00_0000
        && 0xd0000053u32 >> 25u32 == 0x68
        && 0xfff0007fu32 & 0x01f0_0000 == 0x01f0_0000
        && (0xd0000053u32 >> 20u32) & 0x1f == 0
        && 0xfff0007fu32 & 0x7f == 0x7f
        && 0xd0100053u32 & 0x7f == 0x53
        && 0xfff0007fu32 & 0xfe00_0000 == 0xfe00_0000
        && 0xd0100053u32 >> 25u32 == 0x68
        && 0xfff0007fu32 & 0x01f0_0000 == 0x01f0_0000
        && (0xd0100053u32 >> 20u32) & 0x1f == 1
        && 0xfff0007fu32 & 0x7f == 0x7f
        && 0x58000053u32 & 0x7f == 0x53
        && 0xfff0007fu32 & 0xfe00_0000 == 0xfe00_0000
        && 0x58000053u32 >> 25u32 == 0x2c
        && 0xfff0007fu32 & 0x01f0_0000 == 0x01f0_0000
        && (0x58000053u32 >> 20u32) & 0x1f == 0
        && 0xfff0007fu32 & 0x7f == 0x7f
        && 0xc0000053u32 & 0x7f == 0x53
        && 0xfff0007fu32 & 0xfe00_0000 == 0xfe00_0000
        && 0xc0000053u32 >> 25u32 == 0x60
        && 0xfff0007fu32 & 0x01f0_0000 == 0x01f0_0000
        && (0xc0000053u32 >> 20u32) & 0x1f == 0
        && 0xfff0707fu32 & 0x7f == 0x7f
        && 0xe0000053u32 & 0x7f == 0x53
        && 0xfff0707fu32 & 0x7000 == 0x7000
        && (0xe0000053u32 >> 12u32) & 7 == 0
        && 0xfff0707fu32 & 0xfe00_0000 == 0xfe00_0000
        && 0xe0000053u32 >> 25u32 == 0x70
        && 0xfff0707fu32 & 0x01f0_0000 == 0x01f0_0000
        && (0xe0000053u32 >> 20u32) & 0x1f == 0
        && 0xfff0707fu32 & 0x7f == 0x7f
        && 0xf0000053u32 & 0x7f == 0x53
        && 0xfff0707fu32 & 0x7000 == 0x7000
        && (0xf0000053u32 >> 12u32) & 7 == 0
        && 0xfff0707fu32 & 0xfe00_0000 == 0xfe00_0000
        && 0xf0000053u32 >> 25u32 == 0x78
        && 0xfff0707fu32 & 0x01f0_0000 == 0x01f0_0000
        && (0xf0000053u32 >> 20u32) & 0x1f == 0
        && 0xfff0707fu32 & 0x7f == 0x7f
        && 0xe0001053u32 & 0x7f == 0x53
        && 0xfff0707fu32 & 0x7000 == 0x7000
        && (0xe0001053u32 >> 12u32) & 7 == 1
        && 0xfff0707fu32 & 0xfe00_0000 == 0xfe00_0000
        && 0xe0001053u32 >> 25u32 == 0x70
        && 0xfff0707fu32 & 0x01f0_0000 == 0x01f0_0000
        && (0xe0001053u32 >> 20u32) & 0x1f == 0,
{
    assert(0x7fu32 & 0x7f == 0x7f
        && 0x17u32 & 0x7f == 0x17
        && 0x7fu32 & 0x7f == 0x7f
        && 0x6fu32 & 0x7f == 0x6f
        && 0x7fu32 & 0x7f == 0x7f
        && 0x37u32 & 0x7f == 0x37
        && 0x600007fu32 & 0x7f == 0x7f
        && 0x47u32 & 0x7f == 0x47
        && 0x600007fu32 & 0x7f == 0x7f
        && 0x4bu32 & 0x7f == 0x4b
        && 0x600007fu32 & 0x7f == 0x7f
        && 0x4fu32 & 0x7f == 0x4f
        && 0x600007fu32 & 0x7f == 0x7f
        && 0x43u32 & 0x7f == 0x43
        && 0x707fu32 & 0x7f == 0x7f
        && 0x23u32 & 0x7f == 0x23
        && 0x707fu32 & 0x7000 == 0x7000
        && (0x23u32 >> 12u32) & 7 == 0
        && 0x707fu32 & 0x7f == 0x7f
        && 0x2003u32 & 0x7f == 0x3
        && 0x707fu32 & 0x7000 == 0x7000
        && (0x2003u32 >> 12u32) & 7 == 2
        && 0x707fu32 & 0x7f == 0x7f
        && 0x5063u32 & 0x7f == 0x63
        && 0x707fu32 & 0x7000 == 0x7000
        && (0x5063u32 >> 12u32) & 7 == 5
        && 0x707fu32 & 0x7f == 0x7f
        && 0x1063u32 & 0x7f == 0x63
        && 0x707fu32 & 0x7000 == 0x7000
        && (0x1063u32 >> 12u32) & 7 == 1
        && 0x707fu32 & 0x7f == 0x7f
        && 0x4003u32 & 0x7f == 0x3
        && 0x707fu32 & 0x7000 == 0x7000
        && (0x4003u32 >> 12u32) & 7 == 4
        && 0x707fu32 & 0x7f == 0x7f
        && 0x6063u32 & 0x7f == 0x63
        && 0x707fu32 & 0x7000 == 0x7000
        && (0x6063u32 >> 12u32) & 7 == 6
        && 0x707fu32 & 0x7f == 0x7f
        && 0x1073u32 & 0x7f == 0x73
        && 0x707fu32 & 0x7000 == 0x7000
        && (0x1073u32 >> 12u32) & 7 == 1
        && 0x707fu32 & 0x7f == 0x7f
        && 0x4013u32 & 0x7f == 0x13
        && 0x707fu32 & 0x7000 == 0x7000
        && (0x4013u32 >> 12u32) & 7 == 4
        && 0x707fu32 & 0x7f == 0x7f
        && 0x7013u32 & 0x7f == 0x13
        && 0x707fu32 & 0x7000 == 0x7000
        && (0x7013u32 >> 12u32) & 7 == 7
        && 0x707fu32 & 0x7f == 0x7f
        && 0x2023u32 & 0x7f == 0x23
        && 0x707fu32 & 0x7000 == 0x7000
        && (0x2023u32 >> 12u32) & 7 == 2
        && 0x707fu32 & 0x7f == 0x7f
        && 0x2073u32 & 0x7f == 0x73
        && 0x707fu32 & 0x7000 == 0x7000
        && (0x2073u32 >> 12u32) & 7 == 2
        && 0x707fu32 & 0x7f == 0x7f
        && 0x1023u32 & 0x7f == 0x23
        && 0x707fu32 & 0x7000 == 0x7000
        && (0x1023u32 >> 12u32) & 7 == 1
        && 0x707fu32 & 0x7f == 0x7f
        && 0x3013u32 & 0x7f == 0x13
        && 0x707fu32 & 0x7000 == 0x7000
        && (0x3013u32 >> 12u32) & 7 == 3
        && 0x707fu32 & 0x7f == 0x7f
        && 0x3u32 & 0x7f == 0x3
        && 0x707fu32 & 0x7000 == 0x7000
        && (0x3u32 >> 12u32) & 7 == 0
        && 0x707fu32 & 0x7f == 0x7f
        && 0x1003u32 & 0x7f == 0x3
        && 0x707fu32 & 0x7000 == 0x7000
        && (0x1003u32 >> 12u32) & 7 == 1
        && 0x707fu32 & 0x7f == 0x7f
        && 0x5073u32 & 0x7f == 0x73
        && 0x707fu32 & 0x7000 == 0x7000
        && (0x5073u32 >> 12u32) & 7 == 5
        && 0x707fu32 & 0x7f == 0x7f
        && 0x2013u32 & 0x7f == 0x13
        && 0x707fu32 & 0x7000 == 0x7000
        && (0x2013u32 >> 12u32) & 7 == 2
        && 0x707fu32 & 0x7f == 0x7f
        && 0x3073u32 & 0x7f == 0x73
        && 0x707fu32 & 0x7000 == 0x7000
        && (0x3073u32 >> 12u32) & 7 == 3
        && 0x707fu32 & 0x7f == 0x7f
        && 0x5003u32 & 0x7f == 0x3
        && 0x707fu32 & 0x7000 == 0x7000
        && (0x5003u32 >> 12u32) & 7 == 5
        && 0x707fu32 & 0x7f == 0x7f
        && 0x2027u32 & 0x7f == 0x27
        && 0x707fu32 & 0x7000 == 0x7000
        && (0x2027u32 >> 12u32) & 7 == 2
        && 0x707fu32 & 0x7f == 0x7f
        && 0x13u32 & 0x7f == 0x13
        && 0x707fu32 & 0x7000 == 0x7000
        && (0x13u32 >> 12u32) & 7 == 0
        && 0x707fu32 & 0x7f == 0x7f
        && 0x4063u32 & 0x7f == 0x63
        && 0x707fu32 & 0x7000 == 0x7000
        && (0x4063u32 >> 12u32) & 7 == 4
        && 0x707fu32 & 0x7f == 0x7f
        && 0x7063u32 & 0x7f == 0x63
        && 0x707fu32 & 0x7000 == 0x7000
        && (0x7063u32 >> 12u32) & 7 == 7
        && 0x707fu32 & 0x7f == 0x7f
        && 0x6073u32 & 0x7f == 0x73
        && 0x707fu32 & 0x7000 == 0x7000
        && (0x6073u32 >> 12u32) & 7 == 6
        && 0x707fu32 & 0x7f == 0x7f
        && 0x7073u32 & 0x7f == 0x73
        && 0x707fu32 & 0x7000 == 0x7000
        && (0x7073u32 >> 12u32) & 7 == 7
        && 0x707fu32 & 0x7f == 0x7f
        && 0x67u32 & 0x7f == 0x67
        && 0x707fu32 & 0x7000 == 0x7000
        && (0x67u32 >> 12u32) & 7 == 0
        && 0x707fu32 & 0x7f == 0x7f
        && 0x2007u32 & 0x7f == 0x7
        && 0x707fu32 & 0x7000 == 0x7000
        && (0x2007u32 >> 12u32) & 7 == 2
        && 0x707fu32 & 0x7f == 0x7f
        && 0x63u32 & 0x7f == 0x63
        && 0x707fu32 & 0x7000 == 0x7000
        && (0x63u32 >> 12u32) & 7 == 0
        && 0x707fu32 & 0x7f == 0x7f
        && 0x6013u32 & 0x7f == 0x13
        && 0x707fu32 & 0x7000 == 0x7000
        && (0x6013u32 >> 12u32) & 7 == 6
        && 0xfe00007fu32 & 0x7f == 0x7f
        && 0x18000053u32 & 0x7f == 0x53
        && 0xfe00007fu32 & 0xfe00_0000 == 0xfe00_0000
        && 0x18000053u32 >> 25u32 == 0xc
        && 0xfe00007fu32 & 0x7f == 0x7f
        && 0x8000053u32 & 0x7f == 0x53
        && 0xfe00007fu32 & 0xfe00_0000 == 0xfe00_0000
        && 0x8000053u32 >> 25u32 == 0x4
        && 0xfe00007fu32 & 0x7f == 0x7f
        && 0x53u32 & 0x7f == 0x53
        && 0xfe00007fu32 & 0xfe00_0000 == 0xfe00_0000
        && 0x53u32 >> 25u32 == 0x0
        && 0xfe00007fu32 & 0x7f == 0x7f
        && 0x10000053u32 & 0x7f == 0x53
        && 0xfe00007fu32 & 0xfe00_0000 == 0xfe00_0000
        && 0x10000053u32 >> 25u32 == 0x8
        && 0xfe00707fu32 & 0x7f == 0x7f
        && 0x40005013u32 & 0x7f == 0x13
        && 0xfe00707fu32 & 0x7000 == 0x7000
        && (0x40005013u32 >> 12u32) & 7 == 5
        && 0xfe00707fu32 & 0xfe00_0000 == 0xfe00_0000
        && 0x40005013u32 >> 25u32 == 0x20
        && 0xfe00707fu32 & 0x7f == 0x7f
        && 0xa0002053u32 & 0x7f == 0x53
        && 0xfe00707fu32 & 0x7000 == 0x7000
        && (0xa0002053u32 >> 12u32) & 7 == 2
        && 0xfe00707fu32 & 0xfe00_0000 == 0xfe00_0000
        && 0xa0002053u32 >> 25u32 == 0x50
        && 0xfe00707fu32 & 0x7f == 0x7f
        && 0x33u32 & 0x7f == 0x33
        && 0xfe00707fu32 & 0x7000 == 0x7000
        && (0x33u32 >> 12u32) & 7 == 0
        && 0xfe00707fu32 & 0xfe00_0000 == 0xfe00_0000
        && 0x33u32 >> 25u32 == 0x0
        && 0xfe00707fu32 & 0x7f == 0x7f
        && 0x1013u32 & 0x7f == 0x13
        && 0xfe00707fu32 & 0x7000 == 0x7000
        && (0x1013u32 >> 12u32) & 7 == 1
        && 0xfe00707fu32 & 0xfe00_0000 == 0xfe00_0000
        && 0x1013u32 >> 25u32 == 0x0
        && 0xfe00707fu32 & 0x7f == 0x7f
        && 0x3033u32 & 0x7f == 0x33
        && 0xfe00707fu32 & 0x7000 == 0x7000
        && (0x3033u32 >> 12u32) & 7 == 3
        && 0xfe00707fu32 & 0xfe00_0000 == 0xfe00_0000
        && 0x3033u32 >> 25u32 == 0x0
        && 0xfe00707fu32 & 0x7f == 0x7f
        && 0x20002053u32 & 0x7f == 0x53
        && 0xfe00707fu32 & 0x7000 == 0x7000
        && (0x20002053u32 >> 12u32) & 7 == 2
        && 0xfe00707fu32 & 0xfe00_0000 == 0xfe00_0000
        && 0x20002053u32 >> 25u32 == 0x10
        && 0xfe00707fu32 & 0x7f == 0x7f
        && 0xa0001053u32 & 0x7f == 0x53
        && 0xfe00707fu32 & 0x7000 == 0x7000
        && (0xa0001053u32 >> 12u32) & 7 == 1
        && 0xfe00707fu32 & 0xfe00_0000 == 0xfe00_0000
        && 0xa0001053u32 >> 25u32 == 0x50
        && 0xfe00707fu32 & 0x7f == 0x7f
        && 0x20000053u32 & 0x7f == 0x53
        && 0xfe00707fu32 & 0x7000 == 0x7000
        && (0x20000053u32 >> 12u32) & 7 == 0
        && 0xfe00707fu32 & 0xfe00_0000 == 0xfe00_0000
        && 0x20000053u32 >> 25u32 == 0x10
        && 0xfe00707fu32 & 0x7f == 0x7f
        && 0x28001053u32 & 0x7f == 0x53
        && 0xfe00707fu32 & 0x7000 == 0x7000
        && (0x28001053u32 >> 12u32) & 7 == 1
        && 0xfe00707fu32 & 0xfe00_0000 == 0xfe00_0000
        && 0x28001053u32 >> 25u32 == 0x14
        && 0xfe00707fu32 & 0x7f == 0x7f
        && 0x20001053u32 & 0x7f == 0x53
        && 0xfe00707fu32 & 0x7000 == 0x7000
        && (0x20001053u32 >> 12u32) & 7 == 1
        && 0xfe00707fu32 & 0xfe00_0000 == 0xfe00_0000
        && 0x20001053u32 >> 25u32 == 0x10
        && 0xfe00707fu32 & 0x7f == 0x7f
        && 0x28000053u32 & 0x7f == 0x53
        && 0xfe00707fu32 & 0x7000 == 0x7000
        && (0x28000053u32 >> 12u32) & 7 == 0
        && 0xfe00707fu32 & 0xfe00_0000 == 0xfe00_0000
        && 0x28000053u32 >> 25u32 == 0x14
        && 0xfe00707fu32 & 0x7f == 0x7f
        && 0x4033u32 & 0x7f == 0x33
        && 0xfe00707fu32 & 0x7000 == 0x7000
        && (0x4033u32 >> 12u32) & 7 == 4
        && 0xfe00707fu32 & 0xfe00_0000 == 0xfe00_0000
        && 0x4033u32 >> 25u32 == 0x0
        && 0xfe00707fu32 & 0x7f == 0x7f
        && 0x5013u32 & 0x7f == 0x13
        && 0xfe00707fu32 & 0x7000 == 0x7000
        && (0x5013u32 >> 12u32) & 7 == 5
        && 0xfe00707fu32 & 0xfe00_0000 == 0xfe00_0000
        && 0x5013u32 >> 25u32 == 0x0
        && 0xfe00707fu32 & 0x7f == 0x7f
        && 0x2033u32 & 0x7f == 0x33
        && 0xfe00707fu32 & 0x7000 == 0x7000
        && (0x2033u32 >> 12u32) & 7 == 2
        && 0xfe00707fu32 & 0xfe00_0000 == 0xfe00_0000
        && 0x2033u32 >> 25u32 == 0x0
        && 0xfe00707fu32 & 0x7f == 0x7f
        && 0x40000033u32 & 0x7f == 0x33
        && 0xfe00707fu32 & 0x7000 == 0x7000
        && (0x40000033u32 >> 12u32) & 7 == 0
        && 0xfe00707fu32 & 0xfe00_0000 == 0xfe00_0000
        && 0x40000033u32 >> 25u32 == 0x20
        && 0xfe00707fu32 & 0x7f == 0x7f
        && 0x1033u32 & 0x7f == 0x33
        && 0xfe00707fu32 & 0x7000 == 0x7000
        && (0x1033u32 >> 12u32) & 7 == 1
        && 0xfe00707fu32 & 0xfe00_0000 == 0xfe00_0000
        && 0x1033u32 >> 25u32 == 0x0
        && 0xfe00707fu32 & 0x7f == 0x7f
        && 0x5033u32 & 0x7f == 0x33
        && 0xfe00707fu32 & 0x7000 == 0x7000
        && (0x5033u32 >> 12u32) & 7 == 5
        && 0xfe00707fu32 & 0xfe00_0000 == 0xfe00_0000
        && 0x5033u32 >> 25u32 == 0x0
        && 0xfe00707fu32 & 0x7f == 0x7f
        && 0x40005033u32 & 0x7f == 0x33
        && 0xfe00707fu32 & 0x7000 == 0x7000
        && (0x40005033u32 >> 12u32) & 7 == 5
        && 0xfe00707fu32 & 0xfe00_0000 == 0xfe00_0000
        && 0x40005033u32 >> 25u32 == 0x20
        && 0xfe00707fu32 & 0x7f == 0x7f
        && 0xa0000053u32 & 0x7f == 0x53
        && 0xfe00707fu32 & 0x7000 == 0x7000
        && (0xa0000053u32 >> 12u32) & 7 == 0
        && 0xfe00707fu32 & 0xfe00_0000 == 0xfe00_0000
        && 0xa0000053u32 >> 25u32 == 0x50
        && 0xfe00707fu32 & 0x7f == 0x7f
        && 0x7033u32 & 0x7f == 0x33
        && 0xfe00707fu32 & 0x7000 == 0x7000
        && (0x7033u32 >> 12u32) & 7 == 7
        && 0xfe00707fu32 & 0xfe00_0000 == 0xfe00_0000
        && 0x7033u32 >> 25u32 == 0x0
        && 0xfe00707fu32 & 0x7f == 0x7f
        && 0x6033u32 & 0x7f == 0x33
        && 0xfe00707fu32 & 0x7000 == 0x7000
        && (0x6033u32 >> 12u32) & 7 == 6
        && 0xfe00707fu32 & 0xfe00_0000 == 0xfe00_0000
        && 0x6033u32 >> 25u32 == 0x0
        && 0xfff0007fu32 & 0x7f == 0x7f
        && 0xc0100053u32 & 0x7f == 0x53
        && 0xfff0007fu32 & 0xfe00_0000 == 0xfe00_0000
        && 0xc0100053u32 >> 25u32 == 0x60
        && 0xfff0007fu32 & 0x01f0_0000 == 0x01f0_0000
        && (0xc0100053u32 >> 20u32) & 0x1f == 1
        && 0xfff0007fu32 & 0x7f == 0x7f
        && 0xd0000053u32 & 0x7f == 0x53
        && 0xfff0007fu32 & 0xfe00_0000 == 0xfe00_0000
        && 0xd0000053u32 >> 25u32 == 0x68
        && 0xfff0007fu32 & 0x01f0_0000 == 0x01f0_0000
        && (0xd0000053u32 >> 20u32) & 0x1f == 0
        && 0xfff0007fu32 & 0x7f == 0x7f
        && 0xd0100053u32 & 0x7f == 0x53
        && 0xfff0007fu32 & 0xfe00_0000 == 0xfe00_0000
        && 0xd0100053u32 >> 25u32 == 0x68
        && 0xfff0007fu32 & 0x01f0_0000 == 0x01f0_0000
        && (0xd0100053u32 >> 20u32) & 0x1f == 1
        && 0xfff0007fu32 & 0x7f == 0x7f
        && 0x58000053u32 & 0x7f == 0x53
        && 0xfff0007fu32 & 0xfe00_0000 == 0xfe00_0000
        && 0x58000053u32 >> 25u32 == 0x2c
        && 0xfff0007fu32 & 0x01f0_0000 == 0x01f0_0000
        && (0x58000053u32 >> 20u32) & 0x1f == 0
        && 0xfff0007fu32 & 0x7f == 0x7f
        && 0xc0000053u32 & 0x7f == 0x53
        && 0xfff0007fu32 & 0xfe00_0000 == 0xfe00_0000
        && 0xc0000053u32 >> 25u32 == 0x60
        && 0xfff0007fu32 & 0x01f0_0000 == 0x01f0_0000
        && (0xc0000053u32 >> 20u32) & 0x1f == 0
        && 0xfff0707fu32 & 0x7f == 0x7f
        && 0xe0000053u32 & 0x7f == 0x53
        && 0xfff0707fu32 & 0x7000 == 0x7000
        && (0xe0000053u32 >> 12u32) & 7 == 0
        && 0xfff0707fu32 & 0xfe00_0000 == 0xfe00_0000
        && 0xe0000053u32 >> 25u32 == 0x70
        && 0xfff0707fu32 & 0x01f0_0000 == 0x01f0_0000
        && (0xe0000053u32 >> 20u32) & 0x1f == 0
        && 0xfff0707fu32 & 0x7f == 0x7f
        && 0xf0000053u32 & 0x7f == 0x53
        && 0xfff0707fu32 & 0x7000 == 0x7000
        && (0xf0000053u32 >> 12u32) & 7 == 0
        && 0xfff0707fu32 & 0xfe00_0000 == 0xfe00_0000
        && 0xf0000053u32 >> 25u32 == 0x78
        && 0xfff0707fu32 & 0x01f0_0000 == 0x01f0_0000
        && (0xf0000053u32 >> 20u32) & 0x1f == 0
        && 0xfff0707fu32 & 0x7f == 0x7f
        && 0xe0001053u32 & 0x7f == 0x53
        && 0xfff0707fu32 & 0x7000 == 0x7000
        && (0xe0001053u32 >> 12u32) & 7 == 1
        && 0xfff0707fu32 & 0xfe00_0000 == 0xfe00_0000
        && 0xe0001053u32 >> 25u32 == 0x70
        && 0xfff0707fu32 & 0x01f0_0000 == 0x01f0_0000
        && (0xe0001053u32 >> 20u32) & 0x1f == 0) by (bit_vector);
}

/// What a word that fits a pattern has in the fields that the pattern's mask covers.
proof fn lemma_pattern_bits(w: u32, m: u32, v: u32)
    by (bit_vector)
    requires
        w & m == v,
    ensures
        m & 0x7f == 0x7f ==> w % 128 == v & 0x7f,
        m & 0x7000 == 0x7000 ==> (w >> 12u32) % 8 == (v >> 12u32) & 7,
        m & 0xfe00_0000 == 0xfe00_0000 ==> w >> 25u32 == v >> 25u32,
        m & 0x01f0_0000 == 0x01f0_0000 ==> (w >> 20u32) % 32 == (v >> 20u32) & 0x1f,
        m == 0xffff_ffff ==> w == v,
{
}

/// Decoding a word gives the instruction that its opcode and fixed function fields name.
pub proof fn law_decode_reads_opcode(w: u32)
    ensures
        Instruction::spec_decode_word(w) matches Some(i) ==> is_encoding_of(i, w),
{
    lemma_pattern_table_fields();
    if let Some(k) = Instruction::first_match(w, 0) {
        Instruction::lemma_first_match_fits(w, 0);
        assert(pattern_fixes_fields(k as u8));
        lemma_pattern_bits(w, Instruction::pattern_mask(k as u8), Instruction::pattern_value(k as u8));
        assert(fixed_fields(Instruction::from_pattern(k as u8, w)) == fixed_fields(Instruction::from_pattern(k as u8, 0)));
    }
}

} // verus!
