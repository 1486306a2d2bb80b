//! Operand structures of the RV32IF instructions that the encoder knows.
//!
//! Every instruction has its own operand structure. `take_args` reads the operands out of a
//! 32-bit instruction word, `encode` writes the instruction word (in little endian byte order)
//! and, where the instruction has an immediate made up of several fields, `imm` glues these
//! fields back together.
use vstd::prelude::*;

use super::bitfields::{le_bytes, push_le_bytes};

verus! {

/// Operands of the `auipc` instruction.
pub struct AuipcArgs {
    pub rd: u8,
    pub imm31_12: u32,
}

impl AuipcArgs {
    /// The operands held by the instruction word `encoded`.
    pub open spec fn spec_take_args(encoded: u32) -> Self {
        AuipcArgs {
            rd: ((encoded >> 7) & 0x1f) as u8,
            imm31_12: ((encoded >> 12) & 0xfffff) as u32,
        }
    }

    /// Every operand fits into its bit field.
    pub open spec fn wf(&self) -> bool {
        &&& self.rd < 32
        &&& self.imm31_12 < 1048576
    }

    /// The instruction word: the fixed bits of the instruction with every operand or-ed in at
    /// its bit offset.
    pub open spec fn spec_encoded(&self) -> u32 {
        0x17u32 | ((self.rd as u32) << 7) | ((self.imm31_12 as u32) << 12)
    }

    /// Read the operands out of the instruction word `encoded`.
    pub fn take_args(encoded: u32) -> (args: Self)
        ensures
            args == Self::spec_take_args(encoded),
    {
        Self {
            rd: ((encoded >> 7) & 0x1f) as u8,
            imm31_12: ((encoded >> 12) & 0xfffff) as u32,
        }
    }

    /// Append the little-endian bytes of the instruction word to `writer`.
    pub fn encode(&self, writer: &mut Vec<u8>)
        ensures
            final(writer)@ == old(writer)@ + le_bytes(self.spec_encoded()),
    {
        let mut encoded: u32 = 0x17;
        encoded |= (self.rd as u32) << 7;
        encoded |= (self.imm31_12 as u32) << 12;
        push_le_bytes(writer, encoded);
    }

    /// The immediate `imm31_12 ++ 0`, the parts given from the most significant downwards.
    pub open spec fn spec_imm(&self) -> u32 {
        ((self.imm31_12 as u32) << 12)
    }

    /// Reassemble the immediate from its parts.
    pub fn imm(&self) -> (imm: u32)
        ensures
            imm == self.spec_imm(),
    {
        ((self.imm31_12 as u32) << 12)
    }
}

/// Operands of the `jal` instruction.
pub struct JalArgs {
    pub imm20: u8,
    pub imm10_1: u16,
    pub imm11: u8,
    pub rd: u8,
    pub imm19_12: u8,
}

impl JalArgs {
    /// The operands held by the instruction word `encoded`.
    pub open spec fn spec_take_args(encoded: u32) -> Self {
        JalArgs {
            imm20: ((encoded >> 31) & 0x1) as u8,
            imm10_1: ((encoded >> 21) & 0x3ff) as u16,
            imm11: ((encoded >> 20) & 0x1) as u8,
            rd: ((encoded >> 7) & 0x1f) as u8,
            imm19_12: ((encoded >> 12) & 0xff) as u8,
        }
    }

    /// Every operand fits into its bit field.
    pub open spec fn wf(&self) -> bool {
        &&& self.imm20 < 2
        &&& self.imm10_1 < 1024
        &&& self.imm11 < 2
        &&& self.rd < 32
        &&& self.imm19_12 < 256
    }

    /// The instruction word: the fixed bits of the instruction with every operand or-ed in at
    /// its bit offset.
    pub open spec fn spec_encoded(&self) -> u32 {
        0x6fu32 | ((self.imm20 as u32) << 31) | ((self.imm10_1 as u32) << 21) | ((self.imm11 as u32) << 20) | ((self.rd as u32) << 7) | ((self.imm19_12 as u32) << 12)
    }

    /// Read the operands out of the instruction word `encoded`.
    pub fn take_args(encoded: u32) -> (args: Self)
        ensures
            args == Self::spec_take_args(encoded),
    {
        Self {
            imm20: ((encoded >> 31) & 0x1) as u8,
            imm10_1: ((encoded >> 21) & 0x3ff) as u16,
            imm11: ((encoded >> 20) & 0x1) as u8,
            rd: ((encoded >> 7) & 0x1f) as u8,
            imm19_12: ((encoded >> 12) & 0xff) as u8,
        }
    }

    /// Append the little-endian bytes of the instruction word to `writer`.
    pub fn encode(&self, writer: &mut Vec<u8>)
        ensures
            final(writer)@ == old(writer)@ + le_bytes(self.spec_encoded()),
    {
        let mut encoded: u32 = 0x6f;
        encoded |= (self.imm20 as u32) << 31;
        encoded |= (self.imm10_1 as u32) << 21;
        encoded |= (self.imm11 as u32) << 20;
        encoded |= (self.rd as u32) << 7;
        encoded |= (self.imm19_12 as u32) << 12;
        push_le_bytes(writer, encoded);
    }

    /// The immediate `imm20 ++ imm19_12 ++ imm11 ++ imm10_1 ++ 0`, the parts given from the most significant downwards.
    pub open spec fn spec_imm(&self) -> u32 {
        ((self.imm10_1 as u32) << 1) | ((self.imm11 as u32) << 11) | ((self.imm19_12 as u32) << 12) | ((self.imm20 as u32) << 20)
    }

    /// Reassemble the immediate from its parts.
    pub fn imm(&self) -> (imm: u32)
        ensures
            imm == self.spec_imm(),
    {
        ((self.imm10_1 as u32) << 1) | ((self.imm11 as u32) << 11) | ((self.imm19_12 as u32) << 12) | ((self.imm20 as u32) << 20)
    }
}

/// Operands of the `lui` instruction.
pub struct LuiArgs {
    pub rd: u8,
    pub imm31_12: u32,
}

impl LuiArgs {
    /// The operands held by the instruction word `encoded`.
    pub open spec fn spec_take_args(encoded: u32) -> Self {
        LuiArgs {
            rd: ((encoded >> 7) & 0x1f) as u8,
            imm31_12: ((encoded >> 12) & 0xfffff) as u32,
        }
    }

    /// Every operand fits into its bit field.
    pub open spec fn wf(&self) -> bool {
        &&& self.rd < 32
        &&& self.imm31_12 < 1048576
    }

    /// The instruction word: the fixed bits of the instruction with every operand or-ed in at
    /// its bit offset.
    pub open spec fn spec_encoded(&self) -> u32 {
        0x37u32 | ((self.rd as u32) << 7) | ((self.imm31_12 as u32) << 12)
    }

    /// Read the operands out of the instruction word `encoded`.
    pub fn take_args(encoded: u32) -> (args: Self)
        ensures
            args == Self::spec_take_args(encoded),
    {
        Self {
            rd: ((encoded >> 7) & 0x1f) as u8,
            imm31_12: ((encoded >> 12) & 0xfffff) as u32,
        }
    }

    /// Append the little-endian bytes of the instruction word to `writer`.
    pub fn encode(&self, writer: &mut Vec<u8>)
        ensures
            final(writer)@ == old(writer)@ + le_bytes(self.spec_encoded()),
    {
        let mut encoded: u32 = 0x37;
        encoded |= (self.rd as u32) << 7;
        encoded |= (self.imm31_12 as u32) << 12;
        push_le_bytes(writer, encoded);
    }

    /// The immediate `imm31_12 ++ 0`, the parts given from the most significant downwards.
    pub open spec fn spec_imm(&self) -> u32 {
        ((self.imm31_12 as u32) << 12)
    }

    /// Reassemble the immediate from its parts.
    pub fn imm(&self) -> (imm: u32)
        ensures
            imm == self.spec_imm(),
    {
        ((self.imm31_12 as u32) << 12)
    }
}

/// Operands of the `fmsubs` instruction.
pub struct FmsubSArgs {
    pub rm: u8,
    pub rs3: u8,
    pub rs2: u8,
    pub rd: u8,
    pub rs1: u8,
}

impl FmsubSArgs {
    /// The operands held by the instruction word `encoded`.
    pub open spec fn spec_take_args(encoded: u32) -> Self {
        FmsubSArgs {
            rm: ((encoded >> 12) & 0x7) as u8,
            rs3: ((encoded >> 27) & 0x1f) as u8,
            rs2: ((encoded >> 20) & 0x1f) as u8,
            rd: ((encoded >> 7) & 0x1f) as u8,
            rs1: ((encoded >> 15) & 0x1f) as u8,
        }
    }

    /// Every operand fits into its bit field.
    pub open spec fn wf(&self) -> bool {
        &&& self.rm < 8
        &&& self.rs3 < 32
        &&& self.rs2 < 32
        &&& self.rd < 32
        &&& self.rs1 < 32
    }

    /// The instruction word: the fixed bits of the instruction with every operand or-ed in at
    /// its bit offset.
    pub open spec fn spec_encoded(&self) -> u32 {
        0x47u32 | ((self.rm as u32) << 12) | ((self.rs3 as u32) << 27) | ((self.rs2 as u32) << 20) | ((self.rd as u32) << 7) | ((self.rs1 as u32) << 15)
    }

    /// Read the operands out of the instruction word `encoded`.
    pub fn take_args(encoded: u32) -> (args: Self)
        ensures
            args == Self::spec_take_args(encoded),
    {
        Self {
            rm: ((encoded >> 12) & 0x7) as u8,
            rs3: ((encoded >> 27) & 0x1f) as u8,
            rs2: ((encoded >> 20) & 0x1f) as u8,
            rd: ((encoded >> 7) & 0x1f) as u8,
            rs1: ((encoded >> 15) & 0x1f) as u8,
        }
    }

    /// Append the little-endian bytes of the instruction word to `writer`.
    pub fn encode(&self, writer: &mut Vec<u8>)
        ensures
            final(writer)@ == old(writer)@ + le_bytes(self.spec_encoded()),
    {
        let mut encoded: u32 = 0x47;
        encoded |= (self.rm as u32) << 12;
        encoded |= (self.rs3 as u32) << 27;
        encoded |= (self.rs2 as u32) << 20;
        encoded |= (self.rd as u32) << 7;
        encoded |= (self.rs1 as u32) << 15;
        push_le_bytes(writer, encoded);
    }
}

/// Operands of the `fnmsubs` instruction.
pub struct FnmsubSArgs {
    pub rm: u8,
    pub rs3: u8,
    pub rs2: u8,
    pub rd: u8,
    pub rs1: u8,
}

impl FnmsubSArgs {
    /// The operands held by the instruction word `encoded`.
    pub open spec fn spec_take_args(encoded: u32) -> Self {
        FnmsubSArgs {
            rm: ((encoded >> 12) & 0x7) as u8,
            rs3: ((encoded >> 27) & 0x1f) as u8,
            rs2: ((encoded >> 20) & 0x1f) as u8,
            rd: ((encoded >> 7) & 0x1f) as u8,
            rs1: ((encoded >> 15) & 0x1f) as u8,
        }
    }

    /// Every operand fits into its bit field.
    pub open spec fn wf(&self) -> bool {
        &&& self.rm < 8
        &&& self.rs3 < 32
        &&& self.rs2 < 32
        &&& self.rd < 32
        &&& self.rs1 < 32
    }

    /// The instruction word: the fixed bits of the instruction with every operand or-ed in at
    /// its bit offset.
    pub open spec fn spec_encoded(&self) -> u32 {
        0x4bu32 | ((self.rm as u32) << 12) | ((self.rs3 as u32) << 27) | ((self.rs2 as u32) << 20) | ((self.rd as u32) << 7) | ((self.rs1 as u32) << 15)
    }

    /// Read the operands out of the instruction word `encoded`.
    pub fn take_args(encoded: u32) -> (args: Self)
        ensures
            args == Self::spec_take_args(encoded),
    {
        Self {
            rm: ((encoded >> 12) & 0x7) as u8,
            rs3: ((encoded >> 27) & 0x1f) as u8,
            rs2: ((encoded >> 20) & 0x1f) as u8,
            rd: ((encoded >> 7) & 0x1f) as u8,
            rs1: ((encoded >> 15) & 0x1f) as u8,
        }
    }

    /// Append the little-endian bytes of the instruction word to `writer`.
    pub fn encode(&self, writer: &mut Vec<u8>)
        ensures
            final(writer)@ == old(writer)@ + le_bytes(self.spec_encoded()),
    {
        let mut encoded: u32 = 0x4b;
        encoded |= (self.rm as u32) << 12;
        encoded |= (self.rs3 as u32) << 27;
        encoded |= (self.rs2 as u32) << 20;
        encoded |= (self.rd as u32) << 7;
        encoded |= (self.rs1 as u32) << 15;
        push_le_bytes(writer, encoded);
    }
}

/// Operands of the `fnmadds` instruction.
pub struct FnmaddSArgs {
    pub rm: u8,
    pub rs3: u8,
    pub rs2: u8,
    pub rd: u8,
    pub rs1: u8,
}

impl FnmaddSArgs {
    /// The operands held by the instruction word `encoded`.
    pub open spec fn spec_take_args(encoded: u32) -> Self {
        FnmaddSArgs {
            rm: ((encoded >> 12) & 0x7) as u8,
            rs3: ((encoded >> 27) & 0x1f) as u8,
            rs2: ((encoded >> 20) & 0x1f) as u8,
            rd: ((encoded >> 7) & 0x1f) as u8,
            rs1: ((encoded >> 15) & 0x1f) as u8,
        }
    }

    /// Every operand fits into its bit field.
    pub open spec fn wf(&self) -> bool {
        &&& self.rm < 8
        &&& self.rs3 < 32
        &&& self.rs2 < 32
        &&& self.rd < 32
        &&& self.rs1 < 32
    }

    /// The instruction word: the fixed bits of the instruction with every operand or-ed in at
    /// its bit offset.
    pub open spec fn spec_encoded(&self) -> u32 {
        0x4fu32 | ((self.rm as u32) << 12) | ((self.rs3 as u32) << 27) | ((self.rs2 as u32) << 20) | ((self.rd as u32) << 7) | ((self.rs1 as u32) << 15)
    }

    /// Read the operands out of the instruction word `encoded`.
    pub fn take_args(encoded: u32) -> (args: Self)
        ensures
            args == Self::spec_take_args(encoded),
    {
        Self {
            rm: ((encoded >> 12) & 0x7) as u8,
            rs3: ((encoded >> 27) & 0x1f) as u8,
            rs2: ((encoded >> 20) & 0x1f) as u8,
            rd: ((encoded >> 7) & 0x1f) as u8,
            rs1: ((encoded >> 15) & 0x1f) as u8,
        }
    }

    /// Append the little-endian bytes of the instruction word to `writer`.
    pub fn encode(&self, writer: &mut Vec<u8>)
        ensures
            final(writer)@ == old(writer)@ + le_bytes(self.spec_encoded()),
    {
        let mut encoded: u32 = 0x4f;
        encoded |= (self.rm as u32) << 12;
        encoded |= (self.rs3 as u32) << 27;
        encoded |= (self.rs2 as u32) << 20;
        encoded |= (self.rd as u32) << 7;
        encoded |= (self.rs1 as u32) << 15;
        push_le_bytes(writer, encoded);
    }
}

/// Operands of the `fmadds` instruction.
pub struct FmaddSArgs {
    pub rm: u8,
    pub rs3: u8,
    pub rs2: u8,
    pub rd: u8,
    pub rs1: u8,
}

impl FmaddSArgs {
    /// The operands held by the instruction word `encoded`.
    pub open spec fn spec_take_args(encoded: u32) -> Self {
        FmaddSArgs {
            rm: ((encoded >> 12) & 0x7) as u8,
            rs3: ((encoded >> 27) & 0x1f) as u8,
            rs2: ((encoded >> 20) & 0x1f) as u8,
            rd: ((encoded >> 7) & 0x1f) as u8,
            rs1: ((encoded >> 15) & 0x1f) as u8,
        }
    }

    /// Every operand fits into its bit field.
    pub open spec fn wf(&self) -> bool {
        &&& self.rm < 8
        &&& self.rs3 < 32
        &&& self.rs2 < 32
        &&& self.rd < 32
        &&& self.rs1 < 32
    }

    /// The instruction word: the fixed bits of the instruction with every operand or-ed in at
    /// its bit offset.
    pub open spec fn spec_encoded(&self) -> u32 {
        0x43u32 | ((self.rm as u32) << 12) | ((self.rs3 as u32) << 27) | ((self.rs2 as u32) << 20) | ((self.rd as u32) << 7) | ((self.rs1 as u32) << 15)
    }

    /// Read the operands out of the instruction word `encoded`.
    pub fn take_args(encoded: u32) -> (args: Self)
        ensures
            args == Self::spec_take_args(encoded),
    {
        Self {
            rm: ((encoded >> 12) & 0x7) as u8,
            rs3: ((encoded >> 27) & 0x1f) as u8,
            rs2: ((encoded >> 20) & 0x1f) as u8,
            rd: ((encoded >> 7) & 0x1f) as u8,
            rs1: ((encoded >> 15) & 0x1f) as u8,
        }
    }

    /// Append the little-endian bytes of the instruction word to `writer`.
    pub fn encode(&self, writer: &mut Vec<u8>)
        ensures
            final(writer)@ == old(writer)@ + le_bytes(self.spec_encoded()),
    {
        let mut encoded: u32 = 0x43;
        encoded |= (self.rm as u32) << 12;
        encoded |= (self.rs3 as u32) << 27;
        encoded |= (self.rs2 as u32) << 20;
        encoded |= (self.rd as u32) << 7;
        encoded |= (self.rs1 as u32) << 15;
        push_le_bytes(writer, encoded);
    }
}

/// Operands of the `sb` instruction.
pub struct SbArgs {
    pub rs1: u8,
    pub imm11_5: u8,
    pub imm4_0: u8,
    pub rs2: u8,
}

impl SbArgs {
    /// The operands held by the instruction word `encoded`.
    pub open spec fn spec_take_args(encoded: u32) -> Self {
        SbArgs {
            rs1: ((encoded >> 15) & 0x1f) as u8,
            imm11_5: ((encoded >> 25) & 0x7f) as u8,
            imm4_0: ((encoded >> 7) & 0x1f) as u8,
            rs2: ((encoded >> 20) & 0x1f) as u8,
        }
    }

    /// Every operand fits into its bit field.
    pub open spec fn wf(&self) -> bool {
        &&& self.rs1 < 32
        &&& self.imm11_5 < 128
        &&& self.imm4_0 < 32
        &&& self.rs2 < 32
    }

    /// The instruction word: the fixed bits of the instruction with every operand or-ed in at
    /// its bit offset.
    pub open spec fn spec_encoded(&self) -> u32 {
        0x23u32 | ((self.rs1 as u32) << 15) | ((self.imm11_5 as u32) << 25) | ((self.imm4_0 as u32) << 7) | ((self.rs2 as u32) << 20)
    }

    /// Read the operands out of the instruction word `encoded`.
    pub fn take_args(encoded: u32) -> (args: Self)
        ensures
            args == Self::spec_take_args(encoded),
    {
        Self {
            rs1: ((encoded >> 15) & 0x1f) as u8,
            imm11_5: ((encoded >> 25) & 0x7f) as u8,
            imm4_0: ((encoded >> 7) & 0x1f) as u8,
            rs2: ((encoded >> 20) & 0x1f) as u8,
        }
    }

    /// Append the little-endian bytes of the instruction word to `writer`.
    pub fn encode(&self, writer: &mut Vec<u8>)
        ensures
            final(writer)@ == old(writer)@ + le_bytes(self.spec_encoded()),
    {
        let mut encoded: u32 = 0x23;
        encoded |= (self.rs1 as u32) << 15;
        encoded |= (self.imm11_5 as u32) << 25;
        encoded |= (self.imm4_0 as u32) << 7;
        encoded |= (self.rs2 as u32) << 20;
        push_le_bytes(writer, encoded);
    }

    /// The immediate `imm11_5 ++ imm4_0`, the parts given from the most significant downwards.
    pub open spec fn spec_imm(&self) -> u32 {
        ((self.imm4_0 as u32) << 0) | ((self.imm11_5 as u32) << 5)
    }

    /// Reassemble the immediate from its parts.
    pub fn imm(&self) -> (imm: u32)
        ensures
            imm == self.spec_imm(),
    {
        ((self.imm4_0 as u32) << 0) | ((self.imm11_5 as u32) << 5)
    }
}

/// Operands of the `lw` instruction.
pub struct LwArgs {
    pub rs: u8,
    pub rd: u8,
    pub imm11_0: u16,
}

impl LwArgs {
    /// The operands held by the instruction word `encoded`.
    pub open spec fn spec_take_args(encoded: u32) -> Self {
        LwArgs {
            rs: ((encoded >> 15) & 0x1f) as u8,
            rd: ((encoded >> 7) & 0x1f) as u8,
            imm11_0: ((encoded >> 20) & 0xfff) as u16,
        }
    }

    /// Every operand fits into its bit field.
    pub open spec fn wf(&self) -> bool {
        &&& self.rs < 32
        &&& self.rd < 32
        &&& self.imm11_0 < 4096
    }

    /// The instruction word: the fixed bits of the instruction with every operand or-ed in at
    /// its bit offset.
    pub open spec fn spec_encoded(&self) -> u32 {
        0x2003u32 | ((self.rs as u32) << 15) | ((self.rd as u32) << 7) | ((self.imm11_0 as u32) << 20)
    }

    /// Read the operands out of the instruction word `encoded`.
    pub fn take_args(encoded: u32) -> (args: Self)
        ensures
            args == Self::spec_take_args(encoded),
    {
        Self {
            rs: ((encoded >> 15) & 0x1f) as u8,
            rd: ((encoded >> 7) & 0x1f) as u8,
            imm11_0: ((encoded >> 20) & 0xfff) as u16,
        }
    }

    /// Append the little-endian bytes of the instruction word to `writer`.
    pub fn encode(&self, writer: &mut Vec<u8>)
        ensures
            final(writer)@ == old(writer)@ + le_bytes(self.spec_encoded()),
    {
        let mut encoded: u32 = 0x2003;
        encoded |= (self.rs as u32) << 15;
        encoded |= (self.rd as u32) << 7;
        encoded |= (self.imm11_0 as u32) << 20;
        push_le_bytes(writer, encoded);
    }

    /// The immediate `imm11_0`, the parts given from the most significant downwards.
    pub open spec fn spec_imm(&self) -> u32 {
        ((self.imm11_0 as u32) << 0)
    }

    /// Reassemble the immediate from its parts.
    pub fn imm(&self) -> (imm: u32)
        ensures
            imm == self.spec_imm(),
    {
        ((self.imm11_0 as u32) << 0)
    }
}

/// Operands of the `bge` instruction.
pub struct BgeArgs {
    pub imm10_5: u8,
    pub rs1: u8,
    pub imm4_1: u8,
    pub imm12: u8,
    pub rs2: u8,
    pub imm11: u8,
}

impl BgeArgs {
    /// The operands held by the instruction word `encoded`.
    pub open spec fn spec_take_args(encoded: u32) -> Self {
        BgeArgs {
            imm10_5: ((encoded >> 25) & 0x3f) as u8,
            rs1: ((encoded >> 15) & 0x1f) as u8,
            imm4_1: ((encoded >> 8) & 0xf) as u8,
            imm12: ((encoded >> 31) & 0x1) as u8,
            rs2: ((encoded >> 20) & 0x1f) as u8,
            imm11: ((encoded >> 7) & 0x1) as u8,
        }
    }

    /// Every operand fits into its bit field.
    pub open spec fn wf(&self) -> bool {
        &&& self.imm10_5 < 64
        &&& self.rs1 < 32
        &&& self.imm4_1 < 16
        &&& self.imm12 < 2
        &&& self.rs2 < 32
        &&& self.imm11 < 2
    }

    /// The instruction word: the fixed bits of the instruction with every operand or-ed in at
    /// its bit offset.
    pub open spec fn spec_encoded(&self) -> u32 {
        0x5063u32 | ((self.imm10_5 as u32) << 25) | ((self.rs1 as u32) << 15) | ((self.imm4_1 as u32) << 8) | ((self.imm12 as u32) << 31) | ((self.rs2 as u32) << 20) | ((self.imm11 as u32) << 7)
    }

    /// Read the operands out of the instruction word `encoded`.
    pub fn take_args(encoded: u32) -> (args: Self)
        ensures
            args == Self::spec_take_args(encoded),
    {
        Self {
            imm10_5: ((encoded >> 25) & 0x3f) as u8,
            rs1: ((encoded >> 15) & 0x1f) as u8,
            imm4_1: ((encoded >> 8) & 0xf) as u8,
            imm12: ((encoded >> 31) & 0x1) as u8,
            rs2: ((encoded >> 20) & 0x1f) as u8,
            imm11: ((encoded >> 7) & 0x1) as u8,
        }
    }

    /// Append the little-endian bytes of the instruction word to `writer`.
    pub fn encode(&self, writer: &mut Vec<u8>)
        ensures
            final(writer)@ == old(writer)@ + le_bytes(self.spec_encoded()),
    {
        let mut encoded: u32 = 0x5063;
        encoded |= (self.imm10_5 as u32) << 25;
        encoded |= (self.rs1 as u32) << 15;
        encoded |= (self.imm4_1 as u32) << 8;
        encoded |= (self.imm12 as u32) << 31;
        encoded |= (self.rs2 as u32) << 20;
        encoded |= (self.imm11 as u32) << 7;
        push_le_bytes(writer, encoded);
    }

    /// The immediate `imm12 ++ imm11 ++ imm10_5 ++ imm4_1 ++ 0`, the parts given from the most significant downwards.
    pub open spec fn spec_imm(&self) -> u32 {
        ((self.imm4_1 as u32) << 1) | ((self.imm10_5 as u32) << 5) | ((self.imm11 as u32) << 11) | ((self.imm12 as u32) << 12)
    }

    /// Reassemble the immediate from its parts.
    pub fn imm(&self) -> (imm: u32)
        ensures
            imm == self.spec_imm(),
    {
        ((self.imm4_1 as u32) << 1) | ((self.imm10_5 as u32) << 5) | ((self.imm11 as u32) << 11) | ((self.imm12 as u32) << 12)
    }
}

/// Operands of the `bne` instruction.
pub struct BneArgs {
    pub imm10_5: u8,
    pub rs1: u8,
    pub imm4_1: u8,
    pub imm12: u8,
    pub rs2: u8,
    pub imm11: u8,
}

impl BneArgs {
    /// The operands held by the instruction word `encoded`.
    pub open spec fn spec_take_args(encoded: u32) -> Self {
        BneArgs {
            imm10_5: ((encoded >> 25) & 0x3f) as u8,
            rs1: ((encoded >> 15) & 0x1f) as u8,
            imm4_1: ((encoded >> 8) & 0xf) as u8,
            imm12: ((encoded >> 31) & 0x1) as u8,
            rs2: ((encoded >> 20) & 0x1f) as u8,
            imm11: ((encoded >> 7) & 0x1) as u8,
        }
    }

    /// Every operand fits into its bit field.
    pub open spec fn wf(&self) -> bool {
        &&& self.imm10_5 < 64
        &&& self.rs1 < 32
        &&& self.imm4_1 < 16
        &&& self.imm12 < 2
        &&& self.rs2 < 32
        &&& self.imm11 < 2
    }

    /// The instruction word: the fixed bits of the instruction with every operand or-ed in at
    /// its bit offset.
    pub open spec fn spec_encoded(&self) -> u32 {
        0x1063u32 | ((self.imm10_5 as u32) << 25) | ((self.rs1 as u32) << 15) | ((self.imm4_1 as u32) << 8) | ((self.imm12 as u32) << 31) | ((self.rs2 as u32) << 20) | ((self.imm11 as u32) << 7)
    }

    /// Read the operands out of the instruction word `encoded`.
    pub fn take_args(encoded: u32) -> (args: Self)
        ensures
            args == Self::spec_take_args(encoded),
    {
        Self {
            imm10_5: ((encoded >> 25) & 0x3f) as u8,
            rs1: ((encoded >> 15) & 0x1f) as u8,
            imm4_1: ((encoded >> 8) & 0xf) as u8,
            imm12: ((encoded >> 31) & 0x1) as u8,
            rs2: ((encoded >> 20) & 0x1f) as u8,
            imm11: ((encoded >> 7) & 0x1) as u8,
        }
    }

    /// Append the little-endian bytes of the instruction word to `writer`.
    pub fn encode(&self, writer: &mut Vec<u8>)
        ensures
            final(writer)@ == old(writer)@ + le_bytes(self.spec_encoded()),
    {
        let mut encoded: u32 = 0x1063;
        encoded |= (self.imm10_5 as u32) << 25;
        encoded |= (self.rs1 as u32) << 15;
        encoded |= (self.imm4_1 as u32) << 8;
        encoded |= (self.imm12 as u32) << 31;
        encoded |= (self.rs2 as u32) << 20;
        encoded |= (self.imm11 as u32) << 7;
        push_le_bytes(writer, encoded);
    }

    /// The immediate `imm12 ++ imm11 ++ imm10_5 ++ imm4_1 ++ 0`, the parts given from the most significant downwards.
    pub open spec fn spec_imm(&self) -> u32 {
        ((self.imm4_1 as u32) << 1) | ((self.imm10_5 as u32) << 5) | ((self.imm11 as u32) << 11) | ((self.imm12 as u32) << 12)
    }

    /// Reassemble the immediate from its parts.
    pub fn imm(&self) -> (imm: u32)
        ensures
            imm == self.spec_imm(),
    {
        ((self.imm4_1 as u32) << 1) | ((self.imm10_5 as u32) << 5) | ((self.imm11 as u32) << 11) | ((self.imm12 as u32) << 12)
    }
}

/// Operands of the `lbu` instruction.
pub struct LbuArgs {
    pub rs: u8,
    pub rd: u8,
    pub imm11_0: u16,
}

impl LbuArgs {
    /// The operands held by the instruction word `encoded`.
    pub open spec fn spec_take_args(encoded: u32) -> Self {
        LbuArgs {
            rs: ((encoded >> 15) & 0x1f) as u8,
            rd: ((encoded >> 7) & 0x1f) as u8,
            imm11_0: ((encoded >> 20) & 0xfff) as u16,
        }
    }

    /// Every operand fits into its bit field.
    pub open spec fn wf(&self) -> bool {
        &&& self.rs < 32
        &&& self.rd < 32
        &&& self.imm11_0 < 4096
    }

    /// The instruction word: the fixed bits of the instruction with every operand or-ed in at
    /// its bit offset.
    pub open spec fn spec_encoded(&self) -> u32 {
        0x4003u32 | ((self.rs as u32) << 15) | ((self.rd as u32) << 7) | ((self.imm11_0 as u32) << 20)
    }

    /// Read the operands out of the instruction word `encoded`.
    pub fn take_args(encoded: u32) -> (args: Self)
        ensures
            args == Self::spec_take_args(encoded),
    {
        Self {
            rs: ((encoded >> 15) & 0x1f) as u8,
            rd: ((encoded >> 7) & 0x1f) as u8,
            imm11_0: ((encoded >> 20) & 0xfff) as u16,
        }
    }

    /// Append the little-endian bytes of the instruction word to `writer`.
    pub fn encode(&self, writer: &mut Vec<u8>)
        ensures
            final(writer)@ == old(writer)@ + le_bytes(self.spec_encoded()),
    {
        let mut encoded: u32 = 0x4003;
        encoded |= (self.rs as u32) << 15;
        encoded |= (self.rd as u32) << 7;
        encoded |= (self.imm11_0 as u32) << 20;
        push_le_bytes(writer, encoded);
    }

    /// The immediate `imm11_0`, the parts given from the most significant downwards.
    pub open spec fn spec_imm(&self) -> u32 {
        ((self.imm11_0 as u32) << 0)
    }

    /// Reassemble the immediate from its parts.
    pub fn imm(&self) -> (imm: u32)
        ensures
            imm == self.spec_imm(),
    {
        ((self.imm11_0 as u32) << 0)
    }
}

/// Operands of the `bltu` instruction.
pub struct BltuArgs {
    pub imm10_5: u8,
    pub rs1: u8,
    pub imm4_1: u8,
    pub imm12: u8,
    pub rs2: u8,
    pub imm11: u8,
}

impl BltuArgs {
    /// The operands held by the instruction word `encoded`.
    pub open spec fn spec_take_args(encoded: u32) -> Self {
        BltuArgs {
            imm10_5: ((encoded >> 25) & 0x3f) as u8,
            rs1: ((encoded >> 15) & 0x1f) as u8,
            imm4_1: ((encoded >> 8) & 0xf) as u8,
            imm12: ((encoded >> 31) & 0x1) as u8,
            rs2: ((encoded >> 20) & 0x1f) as u8,
            imm11: ((encoded >> 7) & 0x1) as u8,
        }
    }

    /// Every operand fits into its bit field.
    pub open spec fn wf(&self) -> bool {
        &&& self.imm10_5 < 64
        &&& self.rs1 < 32
        &&& self.imm4_1 < 16
        &&& self.imm12 < 2
        &&& self.rs2 < 32
        &&& self.imm11 < 2
    }

    /// The instruction word: the fixed bits of the instruction with every operand or-ed in at
    /// its bit offset.
    pub open spec fn spec_encoded(&self) -> u32 {
        0x6063u32 | ((self.imm10_5 as u32) << 25) | ((self.rs1 as u32) << 15) | ((self.imm4_1 as u32) << 8) | ((self.imm12 as u32) << 31) | ((self.rs2 as u32) << 20) | ((self.imm11 as u32) << 7)
    }

    /// Read the operands out of the instruction word `encoded`.
    pub fn take_args(encoded: u32) -> (args: Self)
        ensures
            args == Self::spec_take_args(encoded),
    {
        Self {
            imm10_5: ((encoded >> 25) & 0x3f) as u8,
            rs1: ((encoded >> 15) & 0x1f) as u8,
            imm4_1: ((encoded >> 8) & 0xf) as u8,
            imm12: ((encoded >> 31) & 0x1) as u8,
            rs2: ((encoded >> 20) & 0x1f) as u8,
            imm11: ((encoded >> 7) & 0x1) as u8,
        }
    }

    /// Append the little-endian bytes of the instruction word to `writer`.
    pub fn encode(&self, writer: &mut Vec<u8>)
        ensures
            final(writer)@ == old(writer)@ + le_bytes(self.spec_encoded()),
    {
        let mut encoded: u32 = 0x6063;
        encoded |= (self.imm10_5 as u32) << 25;
        encoded |= (self.rs1 as u32) << 15;
        encoded |= (self.imm4_1 as u32) << 8;
        encoded |= (self.imm12 as u32) << 31;
        encoded |= (self.rs2 as u32) << 20;
        encoded |= (self.imm11 as u32) << 7;
        push_le_bytes(writer, encoded);
    }

    /// The immediate `imm12 ++ imm11 ++ imm10_5 ++ imm4_1 ++ 0`, the parts given from the most significant downwards.
    pub open spec fn spec_imm(&self) -> u32 {
        ((self.imm4_1 as u32) << 1) | ((self.imm10_5 as u32) << 5) | ((self.imm11 as u32) << 11) | ((self.imm12 as u32) << 12)
    }

    /// Reassemble the immediate from its parts.
    pub fn imm(&self) -> (imm: u32)
        ensures
            imm == self.spec_imm(),
    {
        ((self.imm4_1 as u32) << 1) | ((self.imm10_5 as u32) << 5) | ((self.imm11 as u32) << 11) | ((self.imm12 as u32) << 12)
    }
}

/// Operands of the `csrrw` instruction.
pub struct CsrrwArgs {
    pub rs1: u8,
    pub rd: u8,
    pub csr: u16,
}

impl CsrrwArgs {
    /// The operands held by the instruction word `encoded`.
    pub open spec fn spec_take_args(encoded: u32) -> Self {
        CsrrwArgs {
            rs1: ((encoded >> 15) & 0x1f) as u8,
            rd: ((encoded >> 7) & 0x1f) as u8,
            csr: ((encoded >> 20) & 0xfff) as u16,
        }
    }

    /// Every operand fits into its bit field.
    pub open spec fn wf(&self) -> bool {
        &&& self.rs1 < 32
        &&& self.rd < 32
        &&& self.csr < 4096
    }

    /// The instruction word: the fixed bits of the instruction with every operand or-ed in at
    /// its bit offset.
    pub open spec fn spec_encoded(&self) -> u32 {
        0x1073u32 | ((self.rs1 as u32) << 15) | ((self.rd as u32) << 7) | ((self.csr as u32) << 20)
    }

    /// Read the operands out of the instruction word `encoded`.
    pub fn take_args(encoded: u32) -> (args: Self)
        ensures
            args == Self::spec_take_args(encoded),
    {
        Self {
            rs1: ((encoded >> 15) & 0x1f) as u8,
            rd: ((encoded >> 7) & 0x1f) as u8,
            csr: ((encoded >> 20) & 0xfff) as u16,
        }
    }

    /// Append the little-endian bytes of the instruction word to `writer`.
    pub fn encode(&self, writer: &mut Vec<u8>)
        ensures
            final(writer)@ == old(writer)@ + le_bytes(self.spec_encoded()),
    {
        let mut encoded: u32 = 0x1073;
        encoded |= (self.rs1 as u32) << 15;
        encoded |= (self.rd as u32) << 7;
        encoded |= (self.csr as u32) << 20;
        push_le_bytes(writer, encoded);
    }
}

/// Operands of the `xori` instruction.
pub struct XoriArgs {
    pub rs: u8,
    pub rd: u8,
    pub imm11_0: u16,
}

impl XoriArgs {
    /// The operands held by the instruction word `encoded`.
    pub open spec fn spec_take_args(encoded: u32) -> Self {
        XoriArgs {
            rs: ((encoded >> 15) & 0x1f) as u8,
            rd: ((encoded >> 7) & 0x1f) as u8,
            imm11_0: ((encoded >> 20) & 0xfff) as u16,
        }
    }

    /// Every operand fits into its bit field.
    pub open spec fn wf(&self) -> bool {
        &&& self.rs < 32
        &&& self.rd < 32
        &&& self.imm11_0 < 4096
    }

    /// The instruction word: the fixed bits of the instruction with every operand or-ed in at
    /// its bit offset.
    pub open spec fn spec_encoded(&self) -> u32 {
        0x4013u32 | ((self.rs as u32) << 15) | ((self.rd as u32) << 7) | ((self.imm11_0 as u32) << 20)
    }

    /// Read the operands out of the instruction word `encoded`.
    pub fn take_args(encoded: u32) -> (args: Self)
        ensures
            args == Self::spec_take_args(encoded),
    {
        Self {
            rs: ((encoded >> 15) & 0x1f) as u8,
            rd: ((encoded >> 7) & 0x1f) as u8,
            imm11_0: ((encoded >> 20) & 0xfff) as u16,
        }
    }

    /// Append the little-endian bytes of the instruction word to `writer`.
    pub fn encode(&self, writer: &mut Vec<u8>)
        ensures
            final(writer)@ == old(writer)@ + le_bytes(self.spec_encoded()),
    {
        let mut encoded: u32 = 0x4013;
        encoded |= (self.rs as u32) << 15;
        encoded |= (self.rd as u32) << 7;
        encoded |= (self.imm11_0 as u32) << 20;
        push_le_bytes(writer, encoded);
    }

    /// The immediate `imm11_0`, the parts given from the most significant downwards.
    pub open spec fn spec_imm(&self) -> u32 {
        ((self.imm11_0 as u32) << 0)
    }

    /// Reassemble the immediate from its parts.
    pub fn imm(&self) -> (imm: u32)
        ensures
            imm == self.spec_imm(),
    {
        ((self.imm11_0 as u32) << 0)
    }
}

/// Operands of the `andi` instruction.
pub struct AndiArgs {
    pub rs: u8,
    pub rd: u8,
    pub imm11_0: u16,
}

impl AndiArgs {
    /// The operands held by the instruction word `encoded`.
    pub open spec fn spec_take_args(encoded: u32) -> Self {
        AndiArgs {
            rs: ((encoded >> 15) & 0x1f) as u8,
            rd: ((encoded >> 7) & 0x1f) as u8,
            imm11_0: ((encoded >> 20) & 0xfff) as u16,
        }
    }

    /// Every operand fits into its bit field.
    pub open spec fn wf(&self) -> bool {
        &&& self.rs < 32
        &&& self.rd < 32
        &&& self.imm11_0 < 4096
    }

    /// The instruction word: the fixed bits of the instruction with every operand or-ed in at
    /// its bit offset.
    pub open spec fn spec_encoded(&self) -> u32 {
        0x7013u32 | ((self.rs as u32) << 15) | ((self.rd as u32) << 7) | ((self.imm11_0 as u32) << 20)
    }

    /// Read the operands out of the instruction word `encoded`.
    pub fn take_args(encoded: u32) -> (args: Self)
        ensures
            args == Self::spec_take_args(encoded),
    {
        Self {
            rs: ((encoded >> 15) & 0x1f) as u8,
            rd: ((encoded >> 7) & 0x1f) as u8,
            imm11_0: ((encoded >> 20) & 0xfff) as u16,
        }
    }

    /// Append the little-endian bytes of the instruction word to `writer`.
    pub fn encode(&self, writer: &mut Vec<u8>)
        ensures
            final(writer)@ == old(writer)@ + le_bytes(self.spec_encoded()),
    {
        let mut encoded: u32 = 0x7013;
        encoded |= (self.rs as u32) << 15;
        encoded |= (self.rd as u32) << 7;
        encoded |= (self.imm11_0 as u32) << 20;
        push_le_bytes(writer, encoded);
    }

    /// The immediate `imm11_0`, the parts given from the most significant downwards.
    pub open spec fn spec_imm(&self) -> u32 {
        ((self.imm11_0 as u32) << 0)
    }

    /// Reassemble the immediate from its parts.
    pub fn imm(&self) -> (imm: u32)
        ensures
            imm == self.spec_imm(),
    {
        ((self.imm11_0 as u32) << 0)
    }
}

/// Operands of the `sw` instruction.
pub struct SwArgs {
    pub rs1: u8,
    pub imm11_5: u8,
    pub imm4_0: u8,
    pub rs2: u8,
}

impl SwArgs {
    /// The operands held by the instruction word `encoded`.
    pub open spec fn spec_take_args(encoded: u32) -> Self {
        SwArgs {
            rs1: ((encoded >> 15) & 0x1f) as u8,
            imm11_5: ((encoded >> 25) & 0x7f) as u8,
            imm4_0: ((encoded >> 7) & 0x1f) as u8,
            rs2: ((encoded >> 20) & 0x1f) as u8,
        }
    }

    /// Every operand fits into its bit field.
    pub open spec fn wf(&self) -> bool {
        &&& self.rs1 < 32
        &&& self.imm11_5 < 128
        &&& self.imm4_0 < 32
        &&& self.rs2 < 32
    }

    /// The instruction word: the fixed bits of the instruction with every operand or-ed in at
    /// its bit offset.
    pub open spec fn spec_encoded(&self) -> u32 {
        0x2023u32 | ((self.rs1 as u32) << 15) | ((self.imm11_5 as u32) << 25) | ((self.imm4_0 as u32) << 7) | ((self.rs2 as u32) << 20)
    }

    /// Read the operands out of the instruction word `encoded`.
    pub fn take_args(encoded: u32) -> (args: Self)
        ensures
            args == Self::spec_take_args(encoded),
    {
        Self {
            rs1: ((encoded >> 15) & 0x1f) as u8,
            imm11_5: ((encoded >> 25) & 0x7f) as u8,
            imm4_0: ((encoded >> 7) & 0x1f) as u8,
            rs2: ((encoded >> 20) & 0x1f) as u8,
        }
    }

    /// Append the little-endian bytes of the instruction word to `writer`.
    pub fn encode(&self, writer: &mut Vec<u8>)
        ensures
            final(writer)@ == old(writer)@ + le_bytes(self.spec_encoded()),
    {
        let mut encoded: u32 = 0x2023;
        encoded |= (self.rs1 as u32) << 15;
        encoded |= (self.imm11_5 as u32) << 25;
        encoded |= (self.imm4_0 as u32) << 7;
        encoded |= (self.rs2 as u32) << 20;
        push_le_bytes(writer, encoded);
    }

    /// The immediate `imm11_5 ++ imm4_0`, the parts given from the most significant downwards.
    pub open spec fn spec_imm(&self) -> u32 {
        ((self.imm4_0 as u32) << 0) | ((self.imm11_5 as u32) << 5)
    }

    /// Reassemble the immediate from its parts.
    pub fn imm(&self) -> (imm: u32)
        ensures
            imm == self.spec_imm(),
    {
        ((self.imm4_0 as u32) << 0) | ((self.imm11_5 as u32) << 5)
    }
}

/// Operands of the `csrrs` instruction.
pub struct CsrrsArgs {
    pub rs1: u8,
    pub rd: u8,
    pub csr: u16,
}

impl CsrrsArgs {
    /// The operands held by the instruction word `encoded`.
    pub open spec fn spec_take_args(encoded: u32) -> Self {
        CsrrsArgs {
            rs1: ((encoded >> 15) & 0x1f) as u8,
            rd: ((encoded >> 7) & 0x1f) as u8,
            csr: ((encoded >> 20) & 0xfff) as u16,
        }
    }

    /// Every operand fits into its bit field.
    pub open spec fn wf(&self) -> bool {
        &&& self.rs1 < 32
        &&& self.rd < 32
        &&& self.csr < 4096
    }

    /// The instruction word: the fixed bits of the instruction with every operand or-ed in at
    /// its bit offset.
    pub open spec fn spec_encoded(&self) -> u32 {
        0x2073u32 | ((self.rs1 as u32) << 15) | ((self.rd as u32) << 7) | ((self.csr as u32) << 20)
    }

    /// Read the operands out of the instruction word `encoded`.
    pub fn take_args(encoded: u32) -> (args: Self)
        ensures
            args == Self::spec_take_args(encoded),
    {
        Self {
            rs1: ((encoded >> 15) & 0x1f) as u8,
            rd: ((encoded >> 7) & 0x1f) as u8,
            csr: ((encoded >> 20) & 0xfff) as u16,
        }
    }

    /// Append the little-endian bytes of the instruction word to `writer`.
    pub fn encode(&self, writer: &mut Vec<u8>)
        ensures
            final(writer)@ == old(writer)@ + le_bytes(self.spec_encoded()),
    {
        let mut encoded: u32 = 0x2073;
        encoded |= (self.rs1 as u32) << 15;
        encoded |= (self.rd as u32) << 7;
        encoded |= (self.csr as u32) << 20;
        push_le_bytes(writer, encoded);
    }
}

/// Operands of the `sh` instruction.
pub struct ShArgs {
    pub rs1: u8,
    pub imm11_5: u8,
    pub imm4_0: u8,
    pub rs2: u8,
}

impl ShArgs {
    /// The operands held by the instruction word `encoded`.
    pub open spec fn spec_take_args(encoded: u32) -> Self {
        ShArgs {
            rs1: ((encoded >> 15) & 0x1f) as u8,
            imm11_5: ((encoded >> 25) & 0x7f) as u8,
            imm4_0: ((encoded >> 7) & 0x1f) as u8,
            rs2: ((encoded >> 20) & 0x1f) as u8,
        }
    }

    /// Every operand fits into its bit field.
    pub open spec fn wf(&self) -> bool {
        &&& self.rs1 < 32
        &&& self.imm11_5 < 128
        &&& self.imm4_0 < 32
        &&& self.rs2 < 32
    }

    /// The instruction word: the fixed bits of the instruction with every operand or-ed in at
    /// its bit offset.
    pub open spec fn spec_encoded(&self) -> u32 {
        0x1023u32 | ((self.rs1 as u32) << 15) | ((self.imm11_5 as u32) << 25) | ((self.imm4_0 as u32) << 7) | ((self.rs2 as u32) << 20)
    }

    /// Read the operands out of the instruction word `encoded`.
    pub fn take_args(encoded: u32) -> (args: Self)
        ensures
            args == Self::spec_take_args(encoded),
    {
        Self {
            rs1: ((encoded >> 15) & 0x1f) as u8,
            imm11_5: ((encoded >> 25) & 0x7f) as u8,
            imm4_0: ((encoded >> 7) & 0x1f) as u8,
            rs2: ((encoded >> 20) & 0x1f) as u8,
        }
    }

    /// Append the little-endian bytes of the instruction word to `writer`.
    pub fn encode(&self, writer: &mut Vec<u8>)
        ensures
            final(writer)@ == old(writer)@ + le_bytes(self.spec_encoded()),
    {
        let mut encoded: u32 = 0x1023;
        encoded |= (self.rs1 as u32) << 15;
        encoded |= (self.imm11_5 as u32) << 25;
        encoded |= (self.imm4_0 as u32) << 7;
        encoded |= (self.rs2 as u32) << 20;
        push_le_bytes(writer, encoded);
    }

    /// The immediate `imm11_5 ++ imm4_0`, the parts given from the most significant downwards.
    pub open spec fn spec_imm(&self) -> u32 {
        ((self.imm4_0 as u32) << 0) | ((self.imm11_5 as u32) << 5)
    }

    /// Reassemble the immediate from its parts.
    pub fn imm(&self) -> (imm: u32)
        ensures
            imm == self.spec_imm(),
    {
        ((self.imm4_0 as u32) << 0) | ((self.imm11_5 as u32) << 5)
    }
}

/// Operands of the `sltiu` instruction.
pub struct SltiuArgs {
    pub rs: u8,
    pub rd: u8,
    pub imm11_0: u16,
}

impl SltiuArgs {
    /// The operands held by the instruction word `encoded`.
    pub open spec fn spec_take_args(encoded: u32) -> Self {
        SltiuArgs {
            rs: ((encoded >> 15) & 0x1f) as u8,
            rd: ((encoded >> 7) & 0x1f) as u8,
            imm11_0: ((encoded >> 20) & 0xfff) as u16,
        }
    }

    /// Every operand fits into its bit field.
    pub open spec fn wf(&self) -> bool {
        &&& self.rs < 32
        &&& self.rd < 32
        &&& self.imm11_0 < 4096
    }

    /// The instruction word: the fixed bits of the instruction with every operand or-ed in at
    /// its bit offset.
    pub open spec fn spec_encoded(&self) -> u32 {
        0x3013u32 | ((self.rs as u32) << 15) | ((self.rd as u32) << 7) | ((self.imm11_0 as u32) << 20)
    }

    /// Read the operands out of the instruction word `encoded`.
    pub fn take_args(encoded: u32) -> (args: Self)
        ensures
            args == Self::spec_take_args(encoded),
    {
        Self {
            rs: ((encoded >> 15) & 0x1f) as u8,
            rd: ((encoded >> 7) & 0x1f) as u8,
            imm11_0: ((encoded >> 20) & 0xfff) as u16,
        }
    }

    /// Append the little-endian bytes of the instruction word to `writer`.
    pub fn encode(&self, writer: &mut Vec<u8>)
        ensures
            final(writer)@ == old(writer)@ + le_bytes(self.spec_encoded()),
    {
        let mut encoded: u32 = 0x3013;
        encoded |= (self.rs as u32) << 15;
        encoded |= (self.rd as u32) << 7;
        encoded |= (self.imm11_0 as u32) << 20;
        push_le_bytes(writer, encoded);
    }

    /// The immediate `imm11_0`, the parts given from the most significant downwards.
    pub open spec fn spec_imm(&self) -> u32 {
        ((self.imm11_0 as u32) << 0)
    }

    /// Reassemble the immediate from its parts.
    pub fn imm(&self) -> (imm: u32)
        ensures
            imm == self.spec_imm(),
    {
        ((self.imm11_0 as u32) << 0)
    }
}

/// Operands of the `lb` instruction.
pub struct LbArgs {
    pub rs: u8,
    pub rd: u8,
    pub imm11_0: u16,
}

impl LbArgs {
    /// The operands held by the instruction word `encoded`.
    pub open spec fn spec_take_args(encoded: u32) -> Self {
        LbArgs {
            rs: ((encoded >> 15) & 0x1f) as u8,
            rd: ((encoded >> 7) & 0x1f) as u8,
            imm11_0: ((encoded >> 20) & 0xfff) as u16,
        }
    }

    /// Every operand fits into its bit field.
    pub open spec fn wf(&self) -> bool {
        &&& self.rs < 32
        &&& self.rd < 32
        &&& self.imm11_0 < 4096
    }

    /// The instruction word: the fixed bits of the instruction with every operand or-ed in at
    /// its bit offset.
    pub open spec fn spec_encoded(&self) -> u32 {
        0x3u32 | ((self.rs as u32) << 15) | ((self.rd as u32) << 7) | ((self.imm11_0 as u32) << 20)
    }

    /// Read the operands out of the instruction word `encoded`.
    pub fn take_args(encoded: u32) -> (args: Self)
        ensures
            args == Self::spec_take_args(encoded),
    {
        Self {
            rs: ((encoded >> 15) & 0x1f) as u8,
            rd: ((encoded >> 7) & 0x1f) as u8,
            imm11_0: ((encoded >> 20) & 0xfff) as u16,
        }
    }

    /// Append the little-endian bytes of the instruction word to `writer`.
    pub fn encode(&self, writer: &mut Vec<u8>)
        ensures
            final(writer)@ == old(writer)@ + le_bytes(self.spec_encoded()),
    {
        let mut encoded: u32 = 0x3;
        encoded |= (self.rs as u32) << 15;
        encoded |= (self.rd as u32) << 7;
        encoded |= (self.imm11_0 as u32) << 20;
        push_le_bytes(writer, encoded);
    }

    /// The immediate `imm11_0`, the parts given from the most significant downwards.
    pub open spec fn spec_imm(&self) -> u32 {
        ((self.imm11_0 as u32) << 0)
    }

    /// Reassemble the immediate from its parts.
    pub fn imm(&self) -> (imm: u32)
        ensures
            imm == self.spec_imm(),
    {
        ((self.imm11_0 as u32) << 0)
    }
}

/// Operands of the `lh` instruction.
pub struct LhArgs {
    pub rs: u8,
    pub rd: u8,
    pub imm11_0: u16,
}

impl LhArgs {
    /// The operands held by the instruction word `encoded`.
    pub open spec fn spec_take_args(encoded: u32) -> Self {
        LhArgs {
            rs: ((encoded >> 15) & 0x1f) as u8,
            rd: ((encoded >> 7) & 0x1f) as u8,
            imm11_0: ((encoded >> 20) & 0xfff) as u16,
        }
    }

    /// Every operand fits into its bit field.
    pub open spec fn wf(&self) -> bool {
        &&& self.rs < 32
        &&& self.rd < 32
        &&& self.imm11_0 < 4096
    }

    /// The instruction word: the fixed bits of the instruction with every operand or-ed in at
    /// its bit offset.
    pub open spec fn spec_encoded(&self) -> u32 {
        0x1003u32 | ((self.rs as u32) << 15) | ((self.rd as u32) << 7) | ((self.imm11_0 as u32) << 20)
    }

    /// Read the operands out of the instruction word `encoded`.
    pub fn take_args(encoded: u32) -> (args: Self)
        ensures
            args == Self::spec_take_args(encoded),
    {
        Self {
            rs: ((encoded >> 15) & 0x1f) as u8,
            rd: ((encoded >> 7) & 0x1f) as u8,
            imm11_0: ((encoded >> 20) & 0xfff) as u16,
        }
    }

    /// Append the little-endian bytes of the instruction word to `writer`.
    pub fn encode(&self, writer: &mut Vec<u8>)
        ensures
            final(writer)@ == old(writer)@ + le_bytes(self.spec_encoded()),
    {
        let mut encoded: u32 = 0x1003;
        encoded |= (self.rs as u32) << 15;
        encoded |= (self.rd as u32) << 7;
        encoded |= (self.imm11_0 as u32) << 20;
        push_le_bytes(writer, encoded);
    }

    /// The immediate `imm11_0`, the parts given from the most significant downwards.
    pub open spec fn spec_imm(&self) -> u32 {
        ((self.imm11_0 as u32) << 0)
    }

    /// Reassemble the immediate from its parts.
    pub fn imm(&self) -> (imm: u32)
        ensures
            imm == self.spec_imm(),
    {
        ((self.imm11_0 as u32) << 0)
    }
}

/// Operands of the `csrrwi` instruction.
pub struct CsrrwiArgs {
    pub uimm: u8,
    pub rd: u8,
    pub csr: u16,
}

impl CsrrwiArgs {
    /// The operands held by the instruction word `encoded`.
    pub open spec fn spec_take_args(encoded: u32) -> Self {
        CsrrwiArgs {
            uimm: ((encoded >> 15) & 0x1f) as u8,
            rd: ((encoded >> 7) & 0x1f) as u8,
            csr: ((encoded >> 20) & 0xfff) as u16,
        }
    }

    /// Every operand fits into its bit field.
    pub open spec fn wf(&self) -> bool {
        &&& self.uimm < 32
        &&& self.rd < 32
        &&& self.csr < 4096
    }

    /// The instruction word: the fixed bits of the instruction with every operand or-ed in at
    /// its bit offset.
    pub open spec fn spec_encoded(&self) -> u32 {
        0x5073u32 | ((self.uimm as u32) << 15) | ((self.rd as u32) << 7) | ((self.csr as u32) << 20)
    }

    /// Read the operands out of the instruction word `encoded`.
    pub fn take_args(encoded: u32) -> (args: Self)
        ensures
            args == Self::spec_take_args(encoded),
    {
        Self {
            uimm: ((encoded >> 15) & 0x1f) as u8,
            rd: ((encoded >> 7) & 0x1f) as u8,
            csr: ((encoded >> 20) & 0xfff) as u16,
        }
    }

    /// Append the little-endian bytes of the instruction word to `writer`.
    pub fn encode(&self, writer: &mut Vec<u8>)
        ensures
            final(writer)@ == old(writer)@ + le_bytes(self.spec_encoded()),
    {
        let mut encoded: u32 = 0x5073;
        encoded |= (self.uimm as u32) << 15;
        encoded |= (self.rd as u32) << 7;
        encoded |= (self.csr as u32) << 20;
        push_le_bytes(writer, encoded);
    }
}

/// Operands of the `slti` instruction.
pub struct SltiArgs {
    pub rs: u8,
    pub rd: u8,
    pub imm11_0: u16,
}

impl SltiArgs {
    /// The operands held by the instruction word `encoded`.
    pub open spec fn spec_take_args(encoded: u32) -> Self {
        SltiArgs {
            rs: ((encoded >> 15) & 0x1f) as u8,
            rd: ((encoded >> 7) & 0x1f) as u8,
            imm11_0: ((encoded >> 20) & 0xfff) as u16,
        }
    }

    /// Every operand fits into its bit field.
    pub open spec fn wf(&self) -> bool {
        &&& self.rs < 32
        &&& self.rd < 32
        &&& self.imm11_0 < 4096
    }

    /// The instruction word: the fixed bits of the instruction with every operand or-ed in at
    /// its bit offset.
    pub open spec fn spec_encoded(&self) -> u32 {
        0x2013u32 | ((self.rs as u32) << 15) | ((self.rd as u32) << 7) | ((self.imm11_0 as u32) << 20)
    }

    /// Read the operands out of the instruction word `encoded`.
    pub fn take_args(encoded: u32) -> (args: Self)
        ensures
            args == Self::spec_take_args(encoded),
    {
        Self {
            rs: ((encoded >> 15) & 0x1f) as u8,
            rd: ((encoded >> 7) & 0x1f) as u8,
            imm11_0: ((encoded >> 20) & 0xfff) as u16,
        }
    }

    /// Append the little-endian bytes of the instruction word to `writer`.
    pub fn encode(&self, writer: &mut Vec<u8>)
        ensures
            final(writer)@ == old(writer)@ + le_bytes(self.spec_encoded()),
    {
        let mut encoded: u32 = 0x2013;
        encoded |= (self.rs as u32) << 15;
        encoded |= (self.rd as u32) << 7;
        encoded |= (self.imm11_0 as u32) << 20;
        push_le_bytes(writer, encoded);
    }

    /// The immediate `imm11_0`, the parts given from the most significant downwards.
    pub open spec fn spec_imm(&self) -> u32 {
        ((self.imm11_0 as u32) << 0)
    }

    /// Reassemble the immediate from its parts.
    pub fn imm(&self) -> (imm: u32)
        ensures
            imm == self.spec_imm(),
    {
        ((self.imm11_0 as u32) << 0)
    }
}

/// Operands of the `csrrc` instruction.
pub struct CsrrcArgs {
    pub rs1: u8,
    pub rd: u8,
    pub csr: u16,
}

impl CsrrcArgs {
    /// The operands held by the instruction word `encoded`.
    pub open spec fn spec_take_args(encoded: u32) -> Self {
        CsrrcArgs {
            rs1: ((encoded >> 15) & 0x1f) as u8,
            rd: ((encoded >> 7) & 0x1f) as u8,
            csr: ((encoded >> 20) & 0xfff) as u16,
        }
    }

    /// Every operand fits into its bit field.
    pub open spec fn wf(&self) -> bool {
        &&& self.rs1 < 32
        &&& self.rd < 32
        &&& self.csr < 4096
    }

    /// The instruction word: the fixed bits of the instruction with every operand or-ed in at
    /// its bit offset.
    pub open spec fn spec_encoded(&self) -> u32 {
        0x3073u32 | ((self.rs1 as u32) << 15) | ((self.rd as u32) << 7) | ((self.csr as u32) << 20)
    }

    /// Read the operands out of the instruction word `encoded`.
    pub fn take_args(encoded: u32) -> (args: Self)
        ensures
            args == Self::spec_take_args(encoded),
    {
        Self {
            rs1: ((encoded >> 15) & 0x1f) as u8,
            rd: ((encoded >> 7) & 0x1f) as u8,
            csr: ((encoded >> 20) & 0xfff) as u16,
        }
    }

    /// Append the little-endian bytes of the instruction word to `writer`.
    pub fn encode(&self, writer: &mut Vec<u8>)
        ensures
            final(writer)@ == old(writer)@ + le_bytes(self.spec_encoded()),
    {
        let mut encoded: u32 = 0x3073;
        encoded |= (self.rs1 as u32) << 15;
        encoded |= (self.rd as u32) << 7;
        encoded |= (self.csr as u32) << 20;
        push_le_bytes(writer, encoded);
    }
}

/// Operands of the `lhu` instruction.
pub struct LhuArgs {
    pub rs: u8,
    pub rd: u8,
    pub imm11_0: u16,
}

impl LhuArgs {
    /// The operands held by the instruction word `encoded`.
    pub open spec fn spec_take_args(encoded: u32) -> Self {
        LhuArgs {
            rs: ((encoded >> 15) & 0x1f) as u8,
            rd: ((encoded >> 7) & 0x1f) as u8,
            imm11_0: ((encoded >> 20) & 0xfff) as u16,
        }
    }

    /// Every operand fits into its bit field.
    pub open spec fn wf(&self) -> bool {
        &&& self.rs < 32
        &&& self.rd < 32
        &&& self.imm11_0 < 4096
    }

    /// The instruction word: the fixed bits of the instruction with every operand or-ed in at
    /// its bit offset.
    pub open spec fn spec_encoded(&self) -> u32 {
        0x5003u32 | ((self.rs as u32) << 15) | ((self.rd as u32) << 7) | ((self.imm11_0 as u32) << 20)
    }

    /// Read the operands out of the instruction word `encoded`.
    pub fn take_args(encoded: u32) -> (args: Self)
        ensures
            args == Self::spec_take_args(encoded),
    {
        Self {
            rs: ((encoded >> 15) & 0x1f) as u8,
            rd: ((encoded >> 7) & 0x1f) as u8,
            imm11_0: ((encoded >> 20) & 0xfff) as u16,
        }
    }

    /// Append the little-endian bytes of the instruction word to `writer`.
    pub fn encode(&self, writer: &mut Vec<u8>)
        ensures
            final(writer)@ == old(writer)@ + le_bytes(self.spec_encoded()),
    {
        let mut encoded: u32 = 0x5003;
        encoded |= (self.rs as u32) << 15;
        encoded |= (self.rd as u32) << 7;
        encoded |= (self.imm11_0 as u32) << 20;
        push_le_bytes(writer, encoded);
    }

    /// The immediate `imm11_0`, the parts given from the most significant downwards.
    pub open spec fn spec_imm(&self) -> u32 {
        ((self.imm11_0 as u32) << 0)
    }

    /// Reassemble the immediate from its parts.
    pub fn imm(&self) -> (imm: u32)
        ensures
            imm == self.spec_imm(),
    {
        ((self.imm11_0 as u32) << 0)
    }
}

/// Operands of the `fsw` instruction.
pub struct FswArgs {
    pub rs1: u8,
    pub imm11_5: u8,
    pub imm4_0: u8,
    pub rs2: u8,
}

impl FswArgs {
    /// The operands held by the instruction word `encoded`.
    pub open spec fn spec_take_args(encoded: u32) -> Self {
        FswArgs {
            rs1: ((encoded >> 15) & 0x1f) as u8,
            imm11_5: ((encoded >> 25) & 0x7f) as u8,
            imm4_0: ((encoded >> 7) & 0x1f) as u8,
            rs2: ((encoded >> 20) & 0x1f) as u8,
        }
    }

    /// Every operand fits into its bit field.
    pub open spec fn wf(&self) -> bool {
        &&& self.rs1 < 32
        &&& self.imm11_5 < 128
        &&& self.imm4_0 < 32
        &&& self.rs2 < 32
    }

    /// The instruction word: the fixed bits of the instruction with every operand or-ed in at
    /// its bit offset.
    pub open spec fn spec_encoded(&self) -> u32 {
        0x2027u32 | ((self.rs1 as u32) << 15) | ((self.imm11_5 as u32) << 25) | ((self.imm4_0 as u32) << 7) | ((self.rs2 as u32) << 20)
    }

    /// Read the operands out of the instruction word `encoded`.
    pub fn take_args(encoded: u32) -> (args: Self)
        ensures
            args == Self::spec_take_args(encoded),
    {
        Self {
            rs1: ((encoded >> 15) & 0x1f) as u8,
            imm11_5: ((encoded >> 25) & 0x7f) as u8,
            imm4_0: ((encoded >> 7) & 0x1f) as u8,
            rs2: ((encoded >> 20) & 0x1f) as u8,
        }
    }

    /// Append the little-endian bytes of the instruction word to `writer`.
    pub fn encode(&self, writer: &mut Vec<u8>)
        ensures
            final(writer)@ == old(writer)@ + le_bytes(self.spec_encoded()),
    {
        let mut encoded: u32 = 0x2027;
        encoded |= (self.rs1 as u32) << 15;
        encoded |= (self.imm11_5 as u32) << 25;
        encoded |= (self.imm4_0 as u32) << 7;
        encoded |= (self.rs2 as u32) << 20;
        push_le_bytes(writer, encoded);
    }

    /// The immediate `imm11_5 ++ imm4_0`, the parts given from the most significant downwards.
    pub open spec fn spec_imm(&self) -> u32 {
        ((self.imm4_0 as u32) << 0) | ((self.imm11_5 as u32) << 5)
    }

    /// Reassemble the immediate from its parts.
    pub fn imm(&self) -> (imm: u32)
        ensures
            imm == self.spec_imm(),
    {
        ((self.imm4_0 as u32) << 0) | ((self.imm11_5 as u32) << 5)
    }
}

/// Operands of the `addi` instruction.
pub struct AddiArgs {
    pub rs: u8,
    pub rd: u8,
    pub imm11_0: u16,
}

impl AddiArgs {
    /// The operands held by the instruction word `encoded`.
    pub open spec fn spec_take_args(encoded: u32) -> Self {
        AddiArgs {
            rs: ((encoded >> 15) & 0x1f) as u8,
            rd: ((encoded >> 7) & 0x1f) as u8,
            imm11_0: ((encoded >> 20) & 0xfff) as u16,
        }
    }

    /// Every operand fits into its bit field.
    pub open spec fn wf(&self) -> bool {
        &&& self.rs < 32
        &&& self.rd < 32
        &&& self.imm11_0 < 4096
    }

    /// The instruction word: the fixed bits of the instruction with every operand or-ed in at
    /// its bit offset.
    pub open spec fn spec_encoded(&self) -> u32 {
        0x13u32 | ((self.rs as u32) << 15) | ((self.rd as u32) << 7) | ((self.imm11_0 as u32) << 20)
    }

    /// Read the operands out of the instruction word `encoded`.
    pub fn take_args(encoded: u32) -> (args: Self)
        ensures
            args == Self::spec_take_args(encoded),
    {
        Self {
            rs: ((encoded >> 15) & 0x1f) as u8,
            rd: ((encoded >> 7) & 0x1f) as u8,
            imm11_0: ((encoded >> 20) & 0xfff) as u16,
        }
    }

    /// Append the little-endian bytes of the instruction word to `writer`.
    pub fn encode(&self, writer: &mut Vec<u8>)
        ensures
            final(writer)@ == old(writer)@ + le_bytes(self.spec_encoded()),
    {
        let mut encoded: u32 = 0x13;
        encoded |= (self.rs as u32) << 15;
        encoded |= (self.rd as u32) << 7;
        encoded |= (self.imm11_0 as u32) << 20;
        push_le_bytes(writer, encoded);
    }

    /// The immediate `imm11_0`, the parts given from the most significant downwards.
    pub open spec fn spec_imm(&self) -> u32 {
        ((self.imm11_0 as u32) << 0)
    }

    /// Reassemble the immediate from its parts.
    pub fn imm(&self) -> (imm: u32)
        ensures
            imm == self.spec_imm(),
    {
        ((self.imm11_0 as u32) << 0)
    }
}

/// Operands of the `blt` instruction.
pub struct BltArgs {
    pub imm10_5: u8,
    pub rs1: u8,
    pub imm4_1: u8,
    pub imm12: u8,
    pub rs2: u8,
    pub imm11: u8,
}

impl BltArgs {
    /// The operands held by the instruction word `encoded`.
    pub open spec fn spec_take_args(encoded: u32) -> Self {
        BltArgs {
            imm10_5: ((encoded >> 25) & 0x3f) as u8,
            rs1: ((encoded >> 15) & 0x1f) as u8,
            imm4_1: ((encoded >> 8) & 0xf) as u8,
            imm12: ((encoded >> 31) & 0x1) as u8,
            rs2: ((encoded >> 20) & 0x1f) as u8,
            imm11: ((encoded >> 7) & 0x1) as u8,
        }
    }

    /// Every operand fits into its bit field.
    pub open spec fn wf(&self) -> bool {
        &&& self.imm10_5 < 64
        &&& self.rs1 < 32
        &&& self.imm4_1 < 16
        &&& self.imm12 < 2
        &&& self.rs2 < 32
        &&& self.imm11 < 2
    }

    /// The instruction word: the fixed bits of the instruction with every operand or-ed in at
    /// its bit offset.
    pub open spec fn spec_encoded(&self) -> u32 {
        0x4063u32 | ((self.imm10_5 as u32) << 25) | ((self.rs1 as u32) << 15) | ((self.imm4_1 as u32) << 8) | ((self.imm12 as u32) << 31) | ((self.rs2 as u32) << 20) | ((self.imm11 as u32) << 7)
    }

    /// Read the operands out of the instruction word `encoded`.
    pub fn take_args(encoded: u32) -> (args: Self)
        ensures
            args == Self::spec_take_args(encoded),
    {
        Self {
            imm10_5: ((encoded >> 25) & 0x3f) as u8,
            rs1: ((encoded >> 15) & 0x1f) as u8,
            imm4_1: ((encoded >> 8) & 0xf) as u8,
            imm12: ((encoded >> 31) & 0x1) as u8,
            rs2: ((encoded >> 20) & 0x1f) as u8,
            imm11: ((encoded >> 7) & 0x1) as u8,
        }
    }

    /// Append the little-endian bytes of the instruction word to `writer`.
    pub fn encode(&self, writer: &mut Vec<u8>)
        ensures
            final(writer)@ == old(writer)@ + le_bytes(self.spec_encoded()),
    {
        let mut encoded: u32 = 0x4063;
        encoded |= (self.imm10_5 as u32) << 25;
        encoded |= (self.rs1 as u32) << 15;
        encoded |= (self.imm4_1 as u32) << 8;
        encoded |= (self.imm12 as u32) << 31;
        encoded |= (self.rs2 as u32) << 20;
        encoded |= (self.imm11 as u32) << 7;
        push_le_bytes(writer, encoded);
    }

    /// The immediate `imm12 ++ imm11 ++ imm10_5 ++ imm4_1 ++ 0`, the parts given from the most significant downwards.
    pub open spec fn spec_imm(&self) -> u32 {
        ((self.imm4_1 as u32) << 1) | ((self.imm10_5 as u32) << 5) | ((self.imm11 as u32) << 11) | ((self.imm12 as u32) << 12)
    }

    /// Reassemble the immediate from its parts.
    pub fn imm(&self) -> (imm: u32)
        ensures
            imm == self.spec_imm(),
    {
        ((self.imm4_1 as u32) << 1) | ((self.imm10_5 as u32) << 5) | ((self.imm11 as u32) << 11) | ((self.imm12 as u32) << 12)
    }
}

/// Operands of the `bgeu` instruction.
pub struct BgeuArgs {
    pub imm10_5: u8,
    pub rs1: u8,
    pub imm4_1: u8,
    pub imm12: u8,
    pub rs2: u8,
    pub imm11: u8,
}

impl BgeuArgs {
    /// The operands held by the instruction word `encoded`.
    pub open spec fn spec_take_args(encoded: u32) -> Self {
        BgeuArgs {
            imm10_5: ((encoded >> 25) & 0x3f) as u8,
            rs1: ((encoded >> 15) & 0x1f) as u8,
            imm4_1: ((encoded >> 8) & 0xf) as u8,
            imm12: ((encoded >> 31) & 0x1) as u8,
            rs2: ((encoded >> 20) & 0x1f) as u8,
            imm11: ((encoded >> 7) & 0x1) as u8,
        }
    }

    /// Every operand fits into its bit field.
    pub open spec fn wf(&self) -> bool {
        &&& self.imm10_5 < 64
        &&& self.rs1 < 32
        &&& self.imm4_1 < 16
        &&& self.imm12 < 2
        &&& self.rs2 < 32
        &&& self.imm11 < 2
    }

    /// The instruction word: the fixed bits of the instruction with every operand or-ed in at
    /// its bit offset.
    pub open spec fn spec_encoded(&self) -> u32 {
        0x7063u32 | ((self.imm10_5 as u32) << 25) | ((self.rs1 as u32) << 15) | ((self.imm4_1 as u32) << 8) | ((self.imm12 as u32) << 31) | ((self.rs2 as u32) << 20) | ((self.imm11 as u32) << 7)
    }

    /// Read the operands out of the instruction word `encoded`.
    pub fn take_args(encoded: u32) -> (args: Self)
        ensures
            args == Self::spec_take_args(encoded),
    {
        Self {
            imm10_5: ((encoded >> 25) & 0x3f) as u8,
            rs1: ((encoded >> 15) & 0x1f) as u8,
            imm4_1: ((encoded >> 8) & 0xf) as u8,
            imm12: ((encoded >> 31) & 0x1) as u8,
            rs2: ((encoded >> 20) & 0x1f) as u8,
            imm11: ((encoded >> 7) & 0x1) as u8,
        }
    }

    /// Append the little-endian bytes of the instruction word to `writer`.
    pub fn encode(&self, writer: &mut Vec<u8>)
        ensures
            final(writer)@ == old(writer)@ + le_bytes(self.spec_encoded()),
    {
        let mut encoded: u32 = 0x7063;
        encoded |= (self.imm10_5 as u32) << 25;
        encoded |= (self.rs1 as u32) << 15;
        encoded |= (self.imm4_1 as u32) << 8;
        encoded |= (self.imm12 as u32) << 31;
        encoded |= (self.rs2 as u32) << 20;
        encoded |= (self.imm11 as u32) << 7;
        push_le_bytes(writer, encoded);
    }

    /// The immediate `imm12 ++ imm11 ++ imm10_5 ++ imm4_1 ++ 0`, the parts given from the most significant downwards.
    pub open spec fn spec_imm(&self) -> u32 {
        ((self.imm4_1 as u32) << 1) | ((self.imm10_5 as u32) << 5) | ((self.imm11 as u32) << 11) | ((self.imm12 as u32) << 12)
    }

    /// Reassemble the immediate from its parts.
    pub fn imm(&self) -> (imm: u32)
        ensures
            imm == self.spec_imm(),
    {
        ((self.imm4_1 as u32) << 1) | ((self.imm10_5 as u32) << 5) | ((self.imm11 as u32) << 11) | ((self.imm12 as u32) << 12)
    }
}

/// Operands of the `csrrsi` instruction.
pub struct CsrrsiArgs {
    pub uimm: u8,
    pub rd: u8,
    pub csr: u16,
}

impl CsrrsiArgs {
    /// The operands held by the instruction word `encoded`.
    pub open spec fn spec_take_args(encoded: u32) -> Self {
        CsrrsiArgs {
            uimm: ((encoded >> 15) & 0x1f) as u8,
            rd: ((encoded >> 7) & 0x1f) as u8,
            csr: ((encoded >> 20) & 0xfff) as u16,
        }
    }

    /// Every operand fits into its bit field.
    pub open spec fn wf(&self) -> bool {
        &&& self.uimm < 32
        &&& self.rd < 32
        &&& self.csr < 4096
    }

    /// The instruction word: the fixed bits of the instruction with every operand or-ed in at
    /// its bit offset.
    pub open spec fn spec_encoded(&self) -> u32 {
        0x6073u32 | ((self.uimm as u32) << 15) | ((self.rd as u32) << 7) | ((self.csr as u32) << 20)
    }

    /// Read the operands out of the instruction word `encoded`.
    pub fn take_args(encoded: u32) -> (args: Self)
        ensures
            args == Self::spec_take_args(encoded),
    {
        Self {
            uimm: ((encoded >> 15) & 0x1f) as u8,
            rd: ((encoded >> 7) & 0x1f) as u8,
            csr: ((encoded >> 20) & 0xfff) as u16,
        }
    }

    /// Append the little-endian bytes of the instruction word to `writer`.
    pub fn encode(&self, writer: &mut Vec<u8>)
        ensures
            final(writer)@ == old(writer)@ + le_bytes(self.spec_encoded()),
    {
        let mut encoded: u32 = 0x6073;
        encoded |= (self.uimm as u32) << 15;
        encoded |= (self.rd as u32) << 7;
        encoded |= (self.csr as u32) << 20;
        push_le_bytes(writer, encoded);
    }
}

/// Operands of the `csrrci` instruction.
pub struct CsrrciArgs {
    pub uimm: u8,
    pub rd: u8,
    pub csr: u16,
}

impl CsrrciArgs {
    /// The operands held by the instruction word `encoded`.
    pub open spec fn spec_take_args(encoded: u32) -> Self {
        CsrrciArgs {
            uimm: ((encoded >> 15) & 0x1f) as u8,
            rd: ((encoded >> 7) & 0x1f) as u8,
            csr: ((encoded >> 20) & 0xfff) as u16,
        }
    }

    /// Every operand fits into its bit field.
    pub open spec fn wf(&self) -> bool {
        &&& self.uimm < 32
        &&& self.rd < 32
        &&& self.csr < 4096
    }

    /// The instruction word: the fixed bits of the instruction with every operand or-ed in at
    /// its bit offset.
    pub open spec fn spec_encoded(&self) -> u32 {
        0x7073u32 | ((self.uimm as u32) << 15) | ((self.rd as u32) << 7) | ((self.csr as u32) << 20)
    }

    /// Read the operands out of the instruction word `encoded`.
    pub fn take_args(encoded: u32) -> (args: Self)
        ensures
            args == Self::spec_take_args(encoded),
    {
        Self {
            uimm: ((encoded >> 15) & 0x1f) as u8,
            rd: ((encoded >> 7) & 0x1f) as u8,
            csr: ((encoded >> 20) & 0xfff) as u16,
        }
    }

    /// Append the little-endian bytes of the instruction word to `writer`.
    pub fn encode(&self, writer: &mut Vec<u8>)
        ensures
            final(writer)@ == old(writer)@ + le_bytes(self.spec_encoded()),
    {
        let mut encoded: u32 = 0x7073;
        encoded |= (self.uimm as u32) << 15;
        encoded |= (self.rd as u32) << 7;
        encoded |= (self.csr as u32) << 20;
        push_le_bytes(writer, encoded);
    }
}

/// Operands of the `jalr` instruction.
pub struct JalrArgs {
    pub rs: u8,
    pub rd: u8,
    pub imm11_0: u16,
}

impl JalrArgs {
    /// The operands held by the instruction word `encoded`.
    pub open spec fn spec_take_args(encoded: u32) -> Self {
        JalrArgs {
            rs: ((encoded >> 15) & 0x1f) as u8,
            rd: ((encoded >> 7) & 0x1f) as u8,
            imm11_0: ((encoded >> 20) & 0xfff) as u16,
        }
    }

    /// Every operand fits into its bit field.
    pub open spec fn wf(&self) -> bool {
        &&& self.rs < 32
        &&& self.rd < 32
        &&& self.imm11_0 < 4096
    }

    /// The instruction word: the fixed bits of the instruction with every operand or-ed in at
    /// its bit offset.
    pub open spec fn spec_encoded(&self) -> u32 {
        0x67u32 | ((self.rs as u32) << 15) | ((self.rd as u32) << 7) | ((self.imm11_0 as u32) << 20)
    }

    /// Read the operands out of the instruction word `encoded`.
    pub fn take_args(encoded: u32) -> (args: Self)
        ensures
            args == Self::spec_take_args(encoded),
    {
        Self {
            rs: ((encoded >> 15) & 0x1f) as u8,
            rd: ((encoded >> 7) & 0x1f) as u8,
            imm11_0: ((encoded >> 20) & 0xfff) as u16,
        }
    }

    /// Append the little-endian bytes of the instruction word to `writer`.
    pub fn encode(&self, writer: &mut Vec<u8>)
        ensures
            final(writer)@ == old(writer)@ + le_bytes(self.spec_encoded()),
    {
        let mut encoded: u32 = 0x67;
        encoded |= (self.rs as u32) << 15;
        encoded |= (self.rd as u32) << 7;
        encoded |= (self.imm11_0 as u32) << 20;
        push_le_bytes(writer, encoded);
    }

    /// The immediate `imm11_0`, the parts given from the most significant downwards.
    pub open spec fn spec_imm(&self) -> u32 {
        ((self.imm11_0 as u32) << 0)
    }

    /// Reassemble the immediate from its parts.
    pub fn imm(&self) -> (imm: u32)
        ensures
            imm == self.spec_imm(),
    {
        ((self.imm11_0 as u32) << 0)
    }
}

/// Operands of the `flw` instruction.
pub struct FlwArgs {
    pub rs1: u8,
    pub rd: u8,
    pub imm11_0: u16,
}

impl FlwArgs {
    /// The operands held by the instruction word `encoded`.
    pub open spec fn spec_take_args(encoded: u32) -> Self {
        FlwArgs {
            rs1: ((encoded >> 15) & 0x1f) as u8,
            rd: ((encoded >> 7) & 0x1f) as u8,
            imm11_0: ((encoded >> 20) & 0xfff) as u16,
        }
    }

    /// Every operand fits into its bit field.
    pub open spec fn wf(&self) -> bool {
        &&& self.rs1 < 32
        &&& self.rd < 32
        &&& self.imm11_0 < 4096
    }

    /// The instruction word: the fixed bits of the instruction with every operand or-ed in at
    /// its bit offset.
    pub open spec fn spec_encoded(&self) -> u32 {
        0x2007u32 | ((self.rs1 as u32) << 15) | ((self.rd as u32) << 7) | ((self.imm11_0 as u32) << 20)
    }

    /// Read the operands out of the instruction word `encoded`.
    pub fn take_args(encoded: u32) -> (args: Self)
        ensures
            args == Self::spec_take_args(encoded),
    {
        Self {
            rs1: ((encoded >> 15) & 0x1f) as u8,
            rd: ((encoded >> 7) & 0x1f) as u8,
            imm11_0: ((encoded >> 20) & 0xfff) as u16,
        }
    }

    /// Append the little-endian bytes of the instruction word to `writer`.
    pub fn encode(&self, writer: &mut Vec<u8>)
        ensures
            final(writer)@ == old(writer)@ + le_bytes(self.spec_encoded()),
    {
        let mut encoded: u32 = 0x2007;
        encoded |= (self.rs1 as u32) << 15;
        encoded |= (self.rd as u32) << 7;
        encoded |= (self.imm11_0 as u32) << 20;
        push_le_bytes(writer, encoded);
    }

    /// The immediate `imm11_0`, the parts given from the most significant downwards.
    pub open spec fn spec_imm(&self) -> u32 {
        ((self.imm11_0 as u32) << 0)
    }

    /// Reassemble the immediate from its parts.
    pub fn imm(&self) -> (imm: u32)
        ensures
            imm == self.spec_imm(),
    {
        ((self.imm11_0 as u32) << 0)
    }
}

/// Operands of the `beq` instruction.
pub struct BeqArgs {
    pub imm10_5: u8,
    pub rs1: u8,
    pub imm4_1: u8,
    pub imm12: u8,
    pub rs2: u8,
    pub imm11: u8,
}

impl BeqArgs {
    /// The operands held by the instruction word `encoded`.
    pub open spec fn spec_take_args(encoded: u32) -> Self {
        BeqArgs {
            imm10_5: ((encoded >> 25) & 0x3f) as u8,
            rs1: ((encoded >> 15) & 0x1f) as u8,
            imm4_1: ((encoded >> 8) & 0xf) as u8,
            imm12: ((encoded >> 31) & 0x1) as u8,
            rs2: ((encoded >> 20) & 0x1f) as u8,
            imm11: ((encoded >> 7) & 0x1) as u8,
        }
    }

    /// Every operand fits into its bit field.
    pub open spec fn wf(&self) -> bool {
        &&& self.imm10_5 < 64
        &&& self.rs1 < 32
        &&& self.imm4_1 < 16
        &&& self.imm12 < 2
        &&& self.rs2 < 32
        &&& self.imm11 < 2
    }

    /// The instruction word: the fixed bits of the instruction with every operand or-ed in at
    /// its bit offset.
    pub open spec fn spec_encoded(&self) -> u32 {
        0x63u32 | ((self.imm10_5 as u32) << 25) | ((self.rs1 as u32) << 15) | ((self.imm4_1 as u32) << 8) | ((self.imm12 as u32) << 31) | ((self.rs2 as u32) << 20) | ((self.imm11 as u32) << 7)
    }

    /// Read the operands out of the instruction word `encoded`.
    pub fn take_args(encoded: u32) -> (args: Self)
        ensures
            args == Self::spec_take_args(encoded),
    {
        Self {
            imm10_5: ((encoded >> 25) & 0x3f) as u8,
            rs1: ((encoded >> 15) & 0x1f) as u8,
            imm4_1: ((encoded >> 8) & 0xf) as u8,
            imm12: ((encoded >> 31) & 0x1) as u8,
            rs2: ((encoded >> 20) & 0x1f) as u8,
            imm11: ((encoded >> 7) & 0x1) as u8,
        }
    }

    /// Append the little-endian bytes of the instruction word to `writer`.
    pub fn encode(&self, writer: &mut Vec<u8>)
        ensures
            final(writer)@ == old(writer)@ + le_bytes(self.spec_encoded()),
    {
        let mut encoded: u32 = 0x63;
        encoded |= (self.imm10_5 as u32) << 25;
        encoded |= (self.rs1 as u32) << 15;
        encoded |= (self.imm4_1 as u32) << 8;
        encoded |= (self.imm12 as u32) << 31;
        encoded |= (self.rs2 as u32) << 20;
        encoded |= (self.imm11 as u32) << 7;
        push_le_bytes(writer, encoded);
    }

    /// The immediate `imm12 ++ imm11 ++ imm10_5 ++ imm4_1 ++ 0`, the parts given from the most significant downwards.
    pub open spec fn spec_imm(&self) -> u32 {
        ((self.imm4_1 as u32) << 1) | ((self.imm10_5 as u32) << 5) | ((self.imm11 as u32) << 11) | ((self.imm12 as u32) << 12)
    }

    /// Reassemble the immediate from its parts.
    pub fn imm(&self) -> (imm: u32)
        ensures
            imm == self.spec_imm(),
    {
        ((self.imm4_1 as u32) << 1) | ((self.imm10_5 as u32) << 5) | ((self.imm11 as u32) << 11) | ((self.imm12 as u32) << 12)
    }
}

/// Operands of the `ori` instruction.
pub struct OriArgs {
    pub rs: u8,
    pub rd: u8,
    pub imm11_0: u16,
}

impl OriArgs {
    /// The operands held by the instruction word `encoded`.
    pub open spec fn spec_take_args(encoded: u32) -> Self {
        OriArgs {
            rs: ((encoded >> 15) & 0x1f) as u8,
            rd: ((encoded >> 7) & 0x1f) as u8,
            imm11_0: ((encoded >> 20) & 0xfff) as u16,
        }
    }

    /// Every operand fits into its bit field.
    pub open spec fn wf(&self) -> bool {
        &&& self.rs < 32
        &&& self.rd < 32
        &&& self.imm11_0 < 4096
    }

    /// The instruction word: the fixed bits of the instruction with every operand or-ed in at
    /// its bit offset.
    pub open spec fn spec_encoded(&self) -> u32 {
        0x6013u32 | ((self.rs as u32) << 15) | ((self.rd as u32) << 7) | ((self.imm11_0 as u32) << 20)
    }

    /// Read the operands out of the instruction word `encoded`.
    pub fn take_args(encoded: u32) -> (args: Self)
        ensures
            args == Self::spec_take_args(encoded),
    {
        Self {
            rs: ((encoded >> 15) & 0x1f) as u8,
            rd: ((encoded >> 7) & 0x1f) as u8,
            imm11_0: ((encoded >> 20) & 0xfff) as u16,
        }
    }

    /// Append the little-endian bytes of the instruction word to `writer`.
    pub fn encode(&self, writer: &mut Vec<u8>)
        ensures
            final(writer)@ == old(writer)@ + le_bytes(self.spec_encoded()),
    {
        let mut encoded: u32 = 0x6013;
        encoded |= (self.rs as u32) << 15;
        encoded |= (self.rd as u32) << 7;
        encoded |= (self.imm11_0 as u32) << 20;
        push_le_bytes(writer, encoded);
    }

    /// The immediate `imm11_0`, the parts given from the most significant downwards.
    pub open spec fn spec_imm(&self) -> u32 {
        ((self.imm11_0 as u32) << 0)
    }

    /// Reassemble the immediate from its parts.
    pub fn imm(&self) -> (imm: u32)
        ensures
            imm == self.spec_imm(),
    {
        ((self.imm11_0 as u32) << 0)
    }
}

/// Operands of the `fdivs` instruction.
pub struct FdivSArgs {
    pub rs1: u8,
    pub rm: u8,
    pub rd: u8,
    pub rs2: u8,
}

impl FdivSArgs {
    /// The operands held by the instruction word `encoded`.
    pub open spec fn spec_take_args(encoded: u32) -> Self {
        FdivSArgs {
            rs1: ((encoded >> 15) & 0x1f) as u8,
            rm: ((encoded >> 12) & 0x7) as u8,
            rd: ((encoded >> 7) & 0x1f) as u8,
            rs2: ((encoded >> 20) & 0x1f) as u8,
        }
    }

    /// Every operand fits into its bit field.
    pub open spec fn wf(&self) -> bool {
        &&& self.rs1 < 32
        &&& self.rm < 8
        &&& self.rd < 32
        &&& self.rs2 < 32
    }

    /// The instruction word: the fixed bits of the instruction with every operand or-ed in at
    /// its bit offset.
    pub open spec fn spec_encoded(&self) -> u32 {
        0x18000053u32 | ((self.rs1 as u32) << 15) | ((self.rm as u32) << 12) | ((self.rd as u32) << 7) | ((self.rs2 as u32) << 20)
    }

    /// Read the operands out of the instruction word `encoded`.
    pub fn take_args(encoded: u32) -> (args: Self)
        ensures
            args == Self::spec_take_args(encoded),
    {
        Self {
            rs1: ((encoded >> 15) & 0x1f) as u8,
            rm: ((encoded >> 12) & 0x7) as u8,
            rd: ((encoded >> 7) & 0x1f) as u8,
            rs2: ((encoded >> 20) & 0x1f) as u8,
        }
    }

    /// Append the little-endian bytes of the instruction word to `writer`.
    pub fn encode(&self, writer: &mut Vec<u8>)
        ensures
            final(writer)@ == old(writer)@ + le_bytes(self.spec_encoded()),
    {
        let mut encoded: u32 = 0x18000053;
        encoded |= (self.rs1 as u32) << 15;
        encoded |= (self.rm as u32) << 12;
        encoded |= (self.rd as u32) << 7;
        encoded |= (self.rs2 as u32) << 20;
        push_le_bytes(writer, encoded);
    }
}

/// Operands of the `fsubs` instruction.
pub struct FsubSArgs {
    pub rs1: u8,
    pub rm: u8,
    pub rd: u8,
    pub rs2: u8,
}

impl FsubSArgs {
    /// The operands held by the instruction word `encoded`.
    pub open spec fn spec_take_args(encoded: u32) -> Self {
        FsubSArgs {
            rs1: ((encoded >> 15) & 0x1f) as u8,
            rm: ((encoded >> 12) & 0x7) as u8,
            rd: ((encoded >> 7) & 0x1f) as u8,
            rs2: ((encoded >> 20) & 0x1f) as u8,
        }
    }

    /// Every operand fits into its bit field.
    pub open spec fn wf(&self) -> bool {
        &&& self.rs1 < 32
        &&& self.rm < 8
        &&& self.rd < 32
        &&& self.rs2 < 32
    }

    /// The instruction word: the fixed bits of the instruction with every operand or-ed in at
    /// its bit offset.
    pub open spec fn spec_encoded(&self) -> u32 {
        0x8000053u32 | ((self.rs1 as u32) << 15) | ((self.rm as u32) << 12) | ((self.rd as u32) << 7) | ((self.rs2 as u32) << 20)
    }

    /// Read the operands out of the instruction word `encoded`.
    pub fn take_args(encoded: u32) -> (args: Self)
        ensures
            args == Self::spec_take_args(encoded),
    {
        Self {
            rs1: ((encoded >> 15) & 0x1f) as u8,
            rm: ((encoded >> 12) & 0x7) as u8,
            rd: ((encoded >> 7) & 0x1f) as u8,
            rs2: ((encoded >> 20) & 0x1f) as u8,
        }
    }

    /// Append the little-endian bytes of the instruction word to `writer`.
    pub fn encode(&self, writer: &mut Vec<u8>)
        ensures
            final(writer)@ == old(writer)@ + le_bytes(self.spec_encoded()),
    {
        let mut encoded: u32 = 0x8000053;
        encoded |= (self.rs1 as u32) << 15;
        encoded |= (self.rm as u32) << 12;
        encoded |= (self.rd as u32) << 7;
        encoded |= (self.rs2 as u32) << 20;
        push_le_bytes(writer, encoded);
    }
}

/// Operands of the `fadds` instruction.
pub struct FaddSArgs {
    pub rs1: u8,
    pub rm: u8,
    pub rd: u8,
    pub rs2: u8,
}

impl FaddSArgs {
    /// The operands held by the instruction word `encoded`.
    pub open spec fn spec_take_args(encoded: u32) -> Self {
        FaddSArgs {
            rs1: ((encoded >> 15) & 0x1f) as u8,
            rm: ((encoded >> 12) & 0x7) as u8,
            rd: ((encoded >> 7) & 0x1f) as u8,
            rs2: ((encoded >> 20) & 0x1f) as u8,
        }
    }

    /// Every operand fits into its bit field.
    pub open spec fn wf(&self) -> bool {
        &&& self.rs1 < 32
        &&& self.rm < 8
        &&& self.rd < 32
        &&& self.rs2 < 32
    }

    /// The instruction word: the fixed bits of the instruction with every operand or-ed in at
    /// its bit offset.
    pub open spec fn spec_encoded(&self) -> u32 {
        0x53u32 | ((self.rs1 as u32) << 15) | ((self.rm as u32) << 12) | ((self.rd as u32) << 7) | ((self.rs2 as u32) << 20)
    }

    /// Read the operands out of the instruction word `encoded`.
    pub fn take_args(encoded: u32) -> (args: Self)
        ensures
            args == Self::spec_take_args(encoded),
    {
        Self {
            rs1: ((encoded >> 15) & 0x1f) as u8,
            rm: ((encoded >> 12) & 0x7) as u8,
            rd: ((encoded >> 7) & 0x1f) as u8,
            rs2: ((encoded >> 20) & 0x1f) as u8,
        }
    }

    /// Append the little-endian bytes of the instruction word to `writer`.
    pub fn encode(&self, writer: &mut Vec<u8>)
        ensures
            final(writer)@ == old(writer)@ + le_bytes(self.spec_encoded()),
    {
        let mut encoded: u32 = 0x53;
        encoded |= (self.rs1 as u32) << 15;
        encoded |= (self.rm as u32) << 12;
        encoded |= (self.rd as u32) << 7;
        encoded |= (self.rs2 as u32) << 20;
        push_le_bytes(writer, encoded);
    }
}

/// Operands of the `fmuls` instruction.
pub struct FmulSArgs {
    pub rs1: u8,
    pub rm: u8,
    pub rd: u8,
    pub rs2: u8,
}

impl FmulSArgs {
    /// The operands held by the instruction word `encoded`.
    pub open spec fn spec_take_args(encoded: u32) -> Self {
        FmulSArgs {
            rs1: ((encoded >> 15) & 0x1f) as u8,
            rm: ((encoded >> 12) & 0x7) as u8,
            rd: ((encoded >> 7) & 0x1f) as u8,
            rs2: ((encoded >> 20) & 0x1f) as u8,
        }
    }

    /// Every operand fits into its bit field.
    pub open spec fn wf(&self) -> bool {
        &&& self.rs1 < 32
        &&& self.rm < 8
        &&& self.rd < 32
        &&& self.rs2 < 32
    }

    /// The instruction word: the fixed bits of the instruction with every operand or-ed in at
    /// its bit offset.
    pub open spec fn spec_encoded(&self) -> u32 {
        0x10000053u32 | ((self.rs1 as u32) << 15) | ((self.rm as u32) << 12) | ((self.rd as u32) << 7) | ((self.rs2 as u32) << 20)
    }

    /// Read the operands out of the instruction word `encoded`.
    pub fn take_args(encoded: u32) -> (args: Self)
        ensures
            args == Self::spec_take_args(encoded),
    {
        Self {
            rs1: ((encoded >> 15) & 0x1f) as u8,
            rm: ((encoded >> 12) & 0x7) as u8,
            rd: ((encoded >> 7) & 0x1f) as u8,
            rs2: ((encoded >> 20) & 0x1f) as u8,
        }
    }

    /// Append the little-endian bytes of the instruction word to `writer`.
    pub fn encode(&self, writer: &mut Vec<u8>)
        ensures
            final(writer)@ == old(writer)@ + le_bytes(self.spec_encoded()),
    {
        let mut encoded: u32 = 0x10000053;
        encoded |= (self.rs1 as u32) << 15;
        encoded |= (self.rm as u32) << 12;
        encoded |= (self.rd as u32) << 7;
        encoded |= (self.rs2 as u32) << 20;
        push_le_bytes(writer, encoded);
    }
}

/// Operands of the `srai` instruction.
pub struct SraiArgs {
    pub rs: u8,
    pub rd: u8,
    pub shamt: u8,
}

impl SraiArgs {
    /// The operands held by the instruction word `encoded`.
    pub open spec fn spec_take_args(encoded: u32) -> Self {
        SraiArgs {
            rs: ((encoded >> 15) & 0x1f) as u8,
            rd: ((encoded >> 7) & 0x1f) as u8,
            shamt: ((encoded >> 20) & 0x1f) as u8,
        }
    }

    /// Every operand fits into its bit field.
    pub open spec fn wf(&self) -> bool {
        &&& self.rs < 32
        &&& self.rd < 32
        &&& self.shamt < 32
    }

    /// The instruction word: the fixed bits of the instruction with every operand or-ed in at
    /// its bit offset.
    pub open spec fn spec_encoded(&self) -> u32 {
        0x40005013u32 | ((self.rs as u32) << 15) | ((self.rd as u32) << 7) | ((self.shamt as u32) << 20)
    }

    /// Read the operands out of the instruction word `encoded`.
    pub fn take_args(encoded: u32) -> (args: Self)
        ensures
            args == Self::spec_take_args(encoded),
    {
        Self {
            rs: ((encoded >> 15) & 0x1f) as u8,
            rd: ((encoded >> 7) & 0x1f) as u8,
            shamt: ((encoded >> 20) & 0x1f) as u8,
        }
    }

    /// Append the little-endian bytes of the instruction word to `writer`.
    pub fn encode(&self, writer: &mut Vec<u8>)
        ensures
            final(writer)@ == old(writer)@ + le_bytes(self.spec_encoded()),
    {
        let mut encoded: u32 = 0x40005013;
        encoded |= (self.rs as u32) << 15;
        encoded |= (self.rd as u32) << 7;
        encoded |= (self.shamt as u32) << 20;
        push_le_bytes(writer, encoded);
    }
}

/// Operands of the `feqs` instruction.
pub struct FeqSArgs {
    pub rs1: u8,
    pub rd: u8,
    pub rs2: u8,
}

impl FeqSArgs {
    /// The operands held by the instruction word `encoded`.
    pub open spec fn spec_take_args(encoded: u32) -> Self {
        FeqSArgs {
            rs1: ((encoded >> 15) & 0x1f) as u8,
            rd: ((encoded >> 7) & 0x1f) as u8,
            rs2: ((encoded >> 20) & 0x1f) as u8,
        }
    }

    /// Every operand fits into its bit field.
    pub open spec fn wf(&self) -> bool {
        &&& self.rs1 < 32
        &&& self.rd < 32
        &&& self.rs2 < 32
    }

    /// The instruction word: the fixed bits of the instruction with every operand or-ed in at
    /// its bit offset.
    pub open spec fn spec_encoded(&self) -> u32 {
        0xa0002053u32 | ((self.rs1 as u32) << 15) | ((self.rd as u32) << 7) | ((self.rs2 as u32) << 20)
    }

    /// Read the operands out of the instruction word `encoded`.
    pub fn take_args(encoded: u32) -> (args: Self)
        ensures
            args == Self::spec_take_args(encoded),
    {
        Self {
            rs1: ((encoded >> 15) & 0x1f) as u8,
            rd: ((encoded >> 7) & 0x1f) as u8,
            rs2: ((encoded >> 20) & 0x1f) as u8,
        }
    }

    /// Append the little-endian bytes of the instruction word to `writer`.
    pub fn encode(&self, writer: &mut Vec<u8>)
        ensures
            final(writer)@ == old(writer)@ + le_bytes(self.spec_encoded()),
    {
        let mut encoded: u32 = 0xa0002053;
        encoded |= (self.rs1 as u32) << 15;
        encoded |= (self.rd as u32) << 7;
        encoded |= (self.rs2 as u32) << 20;
        push_le_bytes(writer, encoded);
    }
}

/// Operands of the `add` instruction.
pub struct AddArgs {
    pub rs1: u8,
    pub rd: u8,
    pub rs2: u8,
}

impl AddArgs {
    /// The operands held by the instruction word `encoded`.
    pub open spec fn spec_take_args(encoded: u32) -> Self {
        AddArgs {
            rs1: ((encoded >> 15) & 0x1f) as u8,
            rd: ((encoded >> 7) & 0x1f) as u8,
            rs2: ((encoded >> 20) & 0x1f) as u8,
        }
    }

    /// Every operand fits into its bit field.
    pub open spec fn wf(&self) -> bool {
        &&& self.rs1 < 32
        &&& self.rd < 32
        &&& self.rs2 < 32
    }

    /// The instruction word: the fixed bits of the instruction with every operand or-ed in at
    /// its bit offset.
    pub open spec fn spec_encoded(&self) -> u32 {
        0x33u32 | ((self.rs1 as u32) << 15) | ((self.rd as u32) << 7) | ((self.rs2 as u32) << 20)
    }

    /// Read the operands out of the instruction word `encoded`.
    pub fn take_args(encoded: u32) -> (args: Self)
        ensures
            args == Self::spec_take_args(encoded),
    {
        Self {
            rs1: ((encoded >> 15) & 0x1f) as u8,
            rd: ((encoded >> 7) & 0x1f) as u8,
            rs2: ((encoded >> 20) & 0x1f) as u8,
        }
    }

    /// Append the little-endian bytes of the instruction word to `writer`.
    pub fn encode(&self, writer: &mut Vec<u8>)
        ensures
            final(writer)@ == old(writer)@ + le_bytes(self.spec_encoded()),
    {
        let mut encoded: u32 = 0x33;
        encoded |= (self.rs1 as u32) << 15;
        encoded |= (self.rd as u32) << 7;
        encoded |= (self.rs2 as u32) << 20;
        push_le_bytes(writer, encoded);
    }
}

/// Operands of the `slli` instruction.
pub struct SlliArgs {
    pub rs: u8,
    pub rd: u8,
    pub shamt: u8,
}

impl SlliArgs {
    /// The operands held by the instruction word `encoded`.
    pub open spec fn spec_take_args(encoded: u32) -> Self {
        SlliArgs {
            rs: ((encoded >> 15) & 0x1f) as u8,
            rd: ((encoded >> 7) & 0x1f) as u8,
            shamt: ((encoded >> 20) & 0x1f) as u8,
        }
    }

    /// Every operand fits into its bit field.
    pub open spec fn wf(&self) -> bool {
        &&& self.rs < 32
        &&& self.rd < 32
        &&& self.shamt < 32
    }

    /// The instruction word: the fixed bits of the instruction with every operand or-ed in at
    /// its bit offset.
    pub open spec fn spec_encoded(&self) -> u32 {
        0x1013u32 | ((self.rs as u32) << 15) | ((self.rd as u32) << 7) | ((self.shamt as u32) << 20)
    }

    /// Read the operands out of the instruction word `encoded`.
    pub fn take_args(encoded: u32) -> (args: Self)
        ensures
            args == Self::spec_take_args(encoded),
    {
        Self {
            rs: ((encoded >> 15) & 0x1f) as u8,
            rd: ((encoded >> 7) & 0x1f) as u8,
            shamt: ((encoded >> 20) & 0x1f) as u8,
        }
    }

    /// Append the little-endian bytes of the instruction word to `writer`.
    pub fn encode(&self, writer: &mut Vec<u8>)
        ensures
            final(writer)@ == old(writer)@ + le_bytes(self.spec_encoded()),
    {
        let mut encoded: u32 = 0x1013;
        encoded |= (self.rs as u32) << 15;
        encoded |= (self.rd as u32) << 7;
        encoded |= (self.shamt as u32) << 20;
        push_le_bytes(writer, encoded);
    }
}

/// Operands of the `sltu` instruction.
pub struct SltuArgs {
    pub rs1: u8,
    pub rd: u8,
    pub rs2: u8,
}

impl SltuArgs {
    /// The operands held by the instruction word `encoded`.
    pub open spec fn spec_take_args(encoded: u32) -> Self {
        SltuArgs {
            rs1: ((encoded >> 15) & 0x1f) as u8,
            rd: ((encoded >> 7) & 0x1f) as u8,
            rs2: ((encoded >> 20) & 0x1f) as u8,
        }
    }

    /// Every operand fits into its bit field.
    pub open spec fn wf(&self) -> bool {
        &&& self.rs1 < 32
        &&& self.rd < 32
        &&& self.rs2 < 32
    }

    /// The instruction word: the fixed bits of the instruction with every operand or-ed in at
    /// its bit offset.
    pub open spec fn spec_encoded(&self) -> u32 {
        0x3033u32 | ((self.rs1 as u32) << 15) | ((self.rd as u32) << 7) | ((self.rs2 as u32) << 20)
    }

    /// Read the operands out of the instruction word `encoded`.
    pub fn take_args(encoded: u32) -> (args: Self)
        ensures
            args == Self::spec_take_args(encoded),
    {
        Self {
            rs1: ((encoded >> 15) & 0x1f) as u8,
            rd: ((encoded >> 7) & 0x1f) as u8,
            rs2: ((encoded >> 20) & 0x1f) as u8,
        }
    }

    /// Append the little-endian bytes of the instruction word to `writer`.
    pub fn encode(&self, writer: &mut Vec<u8>)
        ensures
            final(writer)@ == old(writer)@ + le_bytes(self.spec_encoded()),
    {
        let mut encoded: u32 = 0x3033;
        encoded |= (self.rs1 as u32) << 15;
        encoded |= (self.rd as u32) << 7;
        encoded |= (self.rs2 as u32) << 20;
        push_le_bytes(writer, encoded);
    }
}

/// Operands of the `fsgnjxs` instruction.
pub struct FsgnjxSArgs {
    pub rs1: u8,
    pub rd: u8,
    pub rs2: u8,
}

impl FsgnjxSArgs {
    /// The operands held by the instruction word `encoded`.
    pub open spec fn spec_take_args(encoded: u32) -> Self {
        FsgnjxSArgs {
            rs1: ((encoded >> 15) & 0x1f) as u8,
            rd: ((encoded >> 7) & 0x1f) as u8,
            rs2: ((encoded >> 20) & 0x1f) as u8,
        }
    }

    /// Every operand fits into its bit field.
    pub open spec fn wf(&self) -> bool {
        &&& self.rs1 < 32
        &&& self.rd < 32
        &&& self.rs2 < 32
    }

    /// The instruction word: the fixed bits of the instruction with every operand or-ed in at
    /// its bit offset.
    pub open spec fn spec_encoded(&self) -> u32 {
        0x20002053u32 | ((self.rs1 as u32) << 15) | ((self.rd as u32) << 7) | ((self.rs2 as u32) << 20)
    }

    /// Read the operands out of the instruction word `encoded`.
    pub fn take_args(encoded: u32) -> (args: Self)
        ensures
            args == Self::spec_take_args(encoded),
    {
        Self {
            rs1: ((encoded >> 15) & 0x1f) as u8,
            rd: ((encoded >> 7) & 0x1f) as u8,
            rs2: ((encoded >> 20) & 0x1f) as u8,
        }
    }

    /// Append the little-endian bytes of the instruction word to `writer`.
    pub fn encode(&self, writer: &mut Vec<u8>)
        ensures
            final(writer)@ == old(writer)@ + le_bytes(self.spec_encoded()),
    {
        let mut encoded: u32 = 0x20002053;
        encoded |= (self.rs1 as u32) << 15;
        encoded |= (self.rd as u32) << 7;
        encoded |= (self.rs2 as u32) << 20;
        push_le_bytes(writer, encoded);
    }
}

/// Operands of the `flts` instruction.
pub struct FltSArgs {
    pub rs1: u8,
    pub rd: u8,
    pub rs2: u8,
}

impl FltSArgs {
    /// The operands held by the instruction word `encoded`.
    pub open spec fn spec_take_args(encoded: u32) -> Self {
        FltSArgs {
            rs1: ((encoded >> 15) & 0x1f) as u8,
            rd: ((encoded >> 7) & 0x1f) as u8,
            rs2: ((encoded >> 20) & 0x1f) as u8,
        }
    }

    /// Every operand fits into its bit field.
    pub open spec fn wf(&self) -> bool {
        &&& self.rs1 < 32
        &&& self.rd < 32
        &&& self.rs2 < 32
    }

    /// The instruction word: the fixed bits of the instruction with every operand or-ed in at
    /// its bit offset.
    pub open spec fn spec_encoded(&self) -> u32 {
        0xa0001053u32 | ((self.rs1 as u32) << 15) | ((self.rd as u32) << 7) | ((self.rs2 as u32) << 20)
    }

    /// Read the operands out of the instruction word `encoded`.
    pub fn take_args(encoded: u32) -> (args: Self)
        ensures
            args == Self::spec_take_args(encoded),
    {
        Self {
            rs1: ((encoded >> 15) & 0x1f) as u8,
            rd: ((encoded >> 7) & 0x1f) as u8,
            rs2: ((encoded >> 20) & 0x1f) as u8,
        }
    }

    /// Append the little-endian bytes of the instruction word to `writer`.
    pub fn encode(&self, writer: &mut Vec<u8>)
        ensures
            final(writer)@ == old(writer)@ + le_bytes(self.spec_encoded()),
    {
        let mut encoded: u32 = 0xa0001053;
        encoded |= (self.rs1 as u32) << 15;
        encoded |= (self.rd as u32) << 7;
        encoded |= (self.rs2 as u32) << 20;
        push_le_bytes(writer, encoded);
    }
}

/// Operands of the `fsgnjs` instruction.
pub struct FsgnjSArgs {
    pub rs1: u8,
    pub rd: u8,
    pub rs2: u8,
}

impl FsgnjSArgs {
    /// The operands held by the instruction word `encoded`.
    pub open spec fn spec_take_args(encoded: u32) -> Self {
        FsgnjSArgs {
            rs1: ((encoded >> 15) & 0x1f) as u8,
            rd: ((encoded >> 7) & 0x1f) as u8,
            rs2: ((encoded >> 20) & 0x1f) as u8,
        }
    }

    /// Every operand fits into its bit field.
    pub open spec fn wf(&self) -> bool {
        &&& self.rs1 < 32
        &&& self.rd < 32
        &&& self.rs2 < 32
    }

    /// The instruction word: the fixed bits of the instruction with every operand or-ed in at
    /// its bit offset.
    pub open spec fn spec_encoded(&self) -> u32 {
        0x20000053u32 | ((self.rs1 as u32) << 15) | ((self.rd as u32) << 7) | ((self.rs2 as u32) << 20)
    }

    /// Read the operands out of the instruction word `encoded`.
    pub fn take_args(encoded: u32) -> (args: Self)
        ensures
            args == Self::spec_take_args(encoded),
    {
        Self {
            rs1: ((encoded >> 15) & 0x1f) as u8,
            rd: ((encoded >> 7) & 0x1f) as u8,
            rs2: ((encoded >> 20) & 0x1f) as u8,
        }
    }

    /// Append the little-endian bytes of the instruction word to `writer`.
    pub fn encode(&self, writer: &mut Vec<u8>)
        ensures
            final(writer)@ == old(writer)@ + le_bytes(self.spec_encoded()),
    {
        let mut encoded: u32 = 0x20000053;
        encoded |= (self.rs1 as u32) << 15;
        encoded |= (self.rd as u32) << 7;
        encoded |= (self.rs2 as u32) << 20;
        push_le_bytes(writer, encoded);
    }
}

/// Operands of the `fmaxs` instruction.
pub struct FmaxSArgs {
    pub rs1: u8,
    pub rd: u8,
    pub rs2: u8,
}

impl FmaxSArgs {
    /// The operands held by the instruction word `encoded`.
    pub open spec fn spec_take_args(encoded: u32) -> Self {
        FmaxSArgs {
            rs1: ((encoded >> 15) & 0x1f) as u8,
            rd: ((encoded >> 7) & 0x1f) as u8,
            rs2: ((encoded >> 20) & 0x1f) as u8,
        }
    }

    /// Every operand fits into its bit field.
    pub open spec fn wf(&self) -> bool {
        &&& self.rs1 < 32
        &&& self.rd < 32
        &&& self.rs2 < 32
    }

    /// The instruction word: the fixed bits of the instruction with every operand or-ed in at
    /// its bit offset.
    pub open spec fn spec_encoded(&self) -> u32 {
        0x28001053u32 | ((self.rs1 as u32) << 15) | ((self.rd as u32) << 7) | ((self.rs2 as u32) << 20)
    }

    /// Read the operands out of the instruction word `encoded`.
    pub fn take_args(encoded: u32) -> (args: Self)
        ensures
            args == Self::spec_take_args(encoded),
    {
        Self {
            rs1: ((encoded >> 15) & 0x1f) as u8,
            rd: ((encoded >> 7) & 0x1f) as u8,
            rs2: ((encoded >> 20) & 0x1f) as u8,
        }
    }

    /// Append the little-endian bytes of the instruction word to `writer`.
    pub fn encode(&self, writer: &mut Vec<u8>)
        ensures
            final(writer)@ == old(writer)@ + le_bytes(self.spec_encoded()),
    {
        let mut encoded: u32 = 0x28001053;
        encoded |= (self.rs1 as u32) << 15;
        encoded |= (self.rd as u32) << 7;
        encoded |= (self.rs2 as u32) << 20;
        push_le_bytes(writer, encoded);
    }
}

/// Operands of the `fsgnjns` instruction.
pub struct FsgnjnSArgs {
    pub rs1: u8,
    pub rd: u8,
    pub rs2: u8,
}

impl FsgnjnSArgs {
    /// The operands held by the instruction word `encoded`.
    pub open spec fn spec_take_args(encoded: u32) -> Self {
        FsgnjnSArgs {
            rs1: ((encoded >> 15) & 0x1f) as u8,
            rd: ((encoded >> 7) & 0x1f) as u8,
            rs2: ((encoded >> 20) & 0x1f) as u8,
        }
    }

    /// Every operand fits into its bit field.
    pub open spec fn wf(&self) -> bool {
        &&& self.rs1 < 32
        &&& self.rd < 32
        &&& self.rs2 < 32
    }

    /// The instruction word: the fixed bits of the instruction with every operand or-ed in at
    /// its bit offset.
    pub open spec fn spec_encoded(&self) -> u32 {
        0x20001053u32 | ((self.rs1 as u32) << 15) | ((self.rd as u32) << 7) | ((self.rs2 as u32) << 20)
    }

    /// Read the operands out of the instruction word `encoded`.
    pub fn take_args(encoded: u32) -> (args: Self)
        ensures
            args == Self::spec_take_args(encoded),
    {
        Self {
            rs1: ((encoded >> 15) & 0x1f) as u8,
            rd: ((encoded >> 7) & 0x1f) as u8,
            rs2: ((encoded >> 20) & 0x1f) as u8,
        }
    }

    /// Append the little-endian bytes of the instruction word to `writer`.
    pub fn encode(&self, writer: &mut Vec<u8>)
        ensures
            final(writer)@ == old(writer)@ + le_bytes(self.spec_encoded()),
    {
        let mut encoded: u32 = 0x20001053;
        encoded |= (self.rs1 as u32) << 15;
        encoded |= (self.rd as u32) << 7;
        encoded |= (self.rs2 as u32) << 20;
        push_le_bytes(writer, encoded);
    }
}

/// Operands of the `fmins` instruction.
pub struct FminSArgs {
    pub rs1: u8,
    pub rd: u8,
    pub rs2: u8,
}

impl FminSArgs {
    /// The operands held by the instruction word `encoded`.
    pub open spec fn spec_take_args(encoded: u32) -> Self {
        FminSArgs {
            rs1: ((encoded >> 15) & 0x1f) as u8,
            rd: ((encoded >> 7) & 0x1f) as u8,
            rs2: ((encoded >> 20) & 0x1f) as u8,
        }
    }

    /// Every operand fits into its bit field.
    pub open spec fn wf(&self) -> bool {
        &&& self.rs1 < 32
        &&& self.rd < 32
        &&& self.rs2 < 32
    }

    /// The instruction word: the fixed bits of the instruction with every operand or-ed in at
    /// its bit offset.
    pub open spec fn spec_encoded(&self) -> u32 {
        0x28000053u32 | ((self.rs1 as u32) << 15) | ((self.rd as u32) << 7) | ((self.rs2 as u32) << 20)
    }

    /// Read the operands out of the instruction word `encoded`.
    pub fn take_args(encoded: u32) -> (args: Self)
        ensures
            args == Self::spec_take_args(encoded),
    {
        Self {
            rs1: ((encoded >> 15) & 0x1f) as u8,
            rd: ((encoded >> 7) & 0x1f) as u8,
            rs2: ((encoded >> 20) & 0x1f) as u8,
        }
    }

    /// Append the little-endian bytes of the instruction word to `writer`.
    pub fn encode(&self, writer: &mut Vec<u8>)
        ensures
            final(writer)@ == old(writer)@ + le_bytes(self.spec_encoded()),
    {
        let mut encoded: u32 = 0x28000053;
        encoded |= (self.rs1 as u32) << 15;
        encoded |= (self.rd as u32) << 7;
        encoded |= (self.rs2 as u32) << 20;
        push_le_bytes(writer, encoded);
    }
}

/// Operands of the `xor` instruction.
pub struct XorArgs {
    pub rs1: u8,
    pub rd: u8,
    pub rs2: u8,
}

impl XorArgs {
    /// The operands held by the instruction word `encoded`.
    pub open spec fn spec_take_args(encoded: u32) -> Self {
        XorArgs {
            rs1: ((encoded >> 15) & 0x1f) as u8,
            rd: ((encoded >> 7) & 0x1f) as u8,
            rs2: ((encoded >> 20) & 0x1f) as u8,
        }
    }

    /// Every operand fits into its bit field.
    pub open spec fn wf(&self) -> bool {
        &&& self.rs1 < 32
        &&& self.rd < 32
        &&& self.rs2 < 32
    }

    /// The instruction word: the fixed bits of the instruction with every operand or-ed in at
    /// its bit offset.
    pub open spec fn spec_encoded(&self) -> u32 {
        0x4033u32 | ((self.rs1 as u32) << 15) | ((self.rd as u32) << 7) | ((self.rs2 as u32) << 20)
    }

    /// Read the operands out of the instruction word `encoded`.
    pub fn take_args(encoded: u32) -> (args: Self)
        ensures
            args == Self::spec_take_args(encoded),
    {
        Self {
            rs1: ((encoded >> 15) & 0x1f) as u8,
            rd: ((encoded >> 7) & 0x1f) as u8,
            rs2: ((encoded >> 20) & 0x1f) as u8,
        }
    }

    /// Append the little-endian bytes of the instruction word to `writer`.
    pub fn encode(&self, writer: &mut Vec<u8>)
        ensures
            final(writer)@ == old(writer)@ + le_bytes(self.spec_encoded()),
    {
        let mut encoded: u32 = 0x4033;
        encoded |= (self.rs1 as u32) << 15;
        encoded |= (self.rd as u32) << 7;
        encoded |= (self.rs2 as u32) << 20;
        push_le_bytes(writer, encoded);
    }
}

/// Operands of the `srli` instruction.
pub struct SrliArgs {
    pub rs: u8,
    pub rd: u8,
    pub shamt: u8,
}

impl SrliArgs {
    /// The operands held by the instruction word `encoded`.
    pub open spec fn spec_take_args(encoded: u32) -> Self {
        SrliArgs {
            rs: ((encoded >> 15) & 0x1f) as u8,
            rd: ((encoded >> 7) & 0x1f) as u8,
            shamt: ((encoded >> 20) & 0x1f) as u8,
        }
    }

    /// Every operand fits into its bit field.
    pub open spec fn wf(&self) -> bool {
        &&& self.rs < 32
        &&& self.rd < 32
        &&& self.shamt < 32
    }

    /// The instruction word: the fixed bits of the instruction with every operand or-ed in at
    /// its bit offset.
    pub open spec fn spec_encoded(&self) -> u32 {
        0x5013u32 | ((self.rs as u32) << 15) | ((self.rd as u32) << 7) | ((self.shamt as u32) << 20)
    }

    /// Read the operands out of the instruction word `encoded`.
    pub fn take_args(encoded: u32) -> (args: Self)
        ensures
            args == Self::spec_take_args(encoded),
    {
        Self {
            rs: ((encoded >> 15) & 0x1f) as u8,
            rd: ((encoded >> 7) & 0x1f) as u8,
            shamt: ((encoded >> 20) & 0x1f) as u8,
        }
    }

    /// Append the little-endian bytes of the instruction word to `writer`.
    pub fn encode(&self, writer: &mut Vec<u8>)
        ensures
            final(writer)@ == old(writer)@ + le_bytes(self.spec_encoded()),
    {
        let mut encoded: u32 = 0x5013;
        encoded |= (self.rs as u32) << 15;
        encoded |= (self.rd as u32) << 7;
        encoded |= (self.shamt as u32) << 20;
        push_le_bytes(writer, encoded);
    }
}

/// Operands of the `slt` instruction.
pub struct SltArgs {
    pub rs1: u8,
    pub rd: u8,
    pub rs2: u8,
}

impl SltArgs {
    /// The operands held by the instruction word `encoded`.
    pub open spec fn spec_take_args(encoded: u32) -> Self {
        SltArgs {
            rs1: ((encoded >> 15) & 0x1f) as u8,
            rd: ((encoded >> 7) & 0x1f) as u8,
            rs2: ((encoded >> 20) & 0x1f) as u8,
        }
    }

    /// Every operand fits into its bit field.
    pub open spec fn wf(&self) -> bool {
        &&& self.rs1 < 32
        &&& self.rd < 32
        &&& self.rs2 < 32
    }

    /// The instruction word: the fixed bits of the instruction with every operand or-ed in at
    /// its bit offset.
    pub open spec fn spec_encoded(&self) -> u32 {
        0x2033u32 | ((self.rs1 as u32) << 15) | ((self.rd as u32) << 7) | ((self.rs2 as u32) << 20)
    }

    /// Read the operands out of the instruction word `encoded`.
    pub fn take_args(encoded: u32) -> (args: Self)
        ensures
            args == Self::spec_take_args(encoded),
    {
        Self {
            rs1: ((encoded >> 15) & 0x1f) as u8,
            rd: ((encoded >> 7) & 0x1f) as u8,
            rs2: ((encoded >> 20) & 0x1f) as u8,
        }
    }

    /// Append the little-endian bytes of the instruction word to `writer`.
    pub fn encode(&self, writer: &mut Vec<u8>)
        ensures
            final(writer)@ == old(writer)@ + le_bytes(self.spec_encoded()),
    {
        let mut encoded: u32 = 0x2033;
        encoded |= (self.rs1 as u32) << 15;
        encoded |= (self.rd as u32) << 7;
        encoded |= (self.rs2 as u32) << 20;
        push_le_bytes(writer, encoded);
    }
}

/// Operands of the `sub` instruction.
pub struct SubArgs {
    pub rs1: u8,
    pub rd: u8,
    pub rs2: u8,
}

impl SubArgs {
    /// The operands held by the instruction word `encoded`.
    pub open spec fn spec_take_args(encoded: u32) -> Self {
        SubArgs {
            rs1: ((encoded >> 15) & 0x1f) as u8,
            rd: ((encoded >> 7) & 0x1f) as u8,
            rs2: ((encoded >> 20) & 0x1f) as u8,
        }
    }

    /// Every operand fits into its bit field.
    pub open spec fn wf(&self) -> bool {
        &&& self.rs1 < 32
        &&& self.rd < 32
        &&& self.rs2 < 32
    }

    /// The instruction word: the fixed bits of the instruction with every operand or-ed in at
    /// its bit offset.
    pub open spec fn spec_encoded(&self) -> u32 {
        0x40000033u32 | ((self.rs1 as u32) << 15) | ((self.rd as u32) << 7) | ((self.rs2 as u32) << 20)
    }

    /// Read the operands out of the instruction word `encoded`.
    pub fn take_args(encoded: u32) -> (args: Self)
        ensures
            args == Self::spec_take_args(encoded),
    {
        Self {
            rs1: ((encoded >> 15) & 0x1f) as u8,
            rd: ((encoded >> 7) & 0x1f) as u8,
            rs2: ((encoded >> 20) & 0x1f) as u8,
        }
    }

    /// Append the little-endian bytes of the instruction word to `writer`.
    pub fn encode(&self, writer: &mut Vec<u8>)
        ensures
            final(writer)@ == old(writer)@ + le_bytes(self.spec_encoded()),
    {
        let mut encoded: u32 = 0x40000033;
        encoded |= (self.rs1 as u32) << 15;
        encoded |= (self.rd as u32) << 7;
        encoded |= (self.rs2 as u32) << 20;
        push_le_bytes(writer, encoded);
    }
}

/// Operands of the `sll` instruction.
pub struct SllArgs {
    pub rs1: u8,
    pub rd: u8,
    pub rs2: u8,
}

impl SllArgs {
    /// The operands held by the instruction word `encoded`.
    pub open spec fn spec_take_args(encoded: u32) -> Self {
        SllArgs {
            rs1: ((encoded >> 15) & 0x1f) as u8,
            rd: ((encoded >> 7) & 0x1f) as u8,
            rs2: ((encoded >> 20) & 0x1f) as u8,
        }
    }

    /// Every operand fits into its bit field.
    pub open spec fn wf(&self) -> bool {
        &&& self.rs1 < 32
        &&& self.rd < 32
        &&& self.rs2 < 32
    }

    /// The instruction word: the fixed bits of the instruction with every operand or-ed in at
    /// its bit offset.
    pub open spec fn spec_encoded(&self) -> u32 {
        0x1033u32 | ((self.rs1 as u32) << 15) | ((self.rd as u32) << 7) | ((self.rs2 as u32) << 20)
    }

    /// Read the operands out of the instruction word `encoded`.
    pub fn take_args(encoded: u32) -> (args: Self)
        ensures
            args == Self::spec_take_args(encoded),
    {
        Self {
            rs1: ((encoded >> 15) & 0x1f) as u8,
            rd: ((encoded >> 7) & 0x1f) as u8,
            rs2: ((encoded >> 20) & 0x1f) as u8,
        }
    }

    /// Append the little-endian bytes of the instruction word to `writer`.
    pub fn encode(&self, writer: &mut Vec<u8>)
        ensures
            final(writer)@ == old(writer)@ + le_bytes(self.spec_encoded()),
    {
        let mut encoded: u32 = 0x1033;
        encoded |= (self.rs1 as u32) << 15;
        encoded |= (self.rd as u32) << 7;
        encoded |= (self.rs2 as u32) << 20;
        push_le_bytes(writer, encoded);
    }
}

/// Operands of the `srl` instruction.
pub struct SrlArgs {
    pub rs1: u8,
    pub rd: u8,
    pub rs2: u8,
}

impl SrlArgs {
    /// The operands held by the instruction word `encoded`.
    pub open spec fn spec_take_args(encoded: u32) -> Self {
        SrlArgs {
            rs1: ((encoded >> 15) & 0x1f) as u8,
            rd: ((encoded >> 7) & 0x1f) as u8,
            rs2: ((encoded >> 20) & 0x1f) as u8,
        }
    }

    /// Every operand fits into its bit field.
    pub open spec fn wf(&self) -> bool {
        &&& self.rs1 < 32
        &&& self.rd < 32
        &&& self.rs2 < 32
    }

    /// The instruction word: the fixed bits of the instruction with every operand or-ed in at
    /// its bit offset.
    pub open spec fn spec_encoded(&self) -> u32 {
        0x5033u32 | ((self.rs1 as u32) << 15) | ((self.rd as u32) << 7) | ((self.rs2 as u32) << 20)
    }

    /// Read the operands out of the instruction word `encoded`.
    pub fn take_args(encoded: u32) -> (args: Self)
        ensures
            args == Self::spec_take_args(encoded),
    {
        Self {
            rs1: ((encoded >> 15) & 0x1f) as u8,
            rd: ((encoded >> 7) & 0x1f) as u8,
            rs2: ((encoded >> 20) & 0x1f) as u8,
        }
    }

    /// Append the little-endian bytes of the instruction word to `writer`.
    pub fn encode(&self, writer: &mut Vec<u8>)
        ensures
            final(writer)@ == old(writer)@ + le_bytes(self.spec_encoded()),
    {
        let mut encoded: u32 = 0x5033;
        encoded |= (self.rs1 as u32) << 15;
        encoded |= (self.rd as u32) << 7;
        encoded |= (self.rs2 as u32) << 20;
        push_le_bytes(writer, encoded);
    }
}

/// Operands of the `sra` instruction.
pub struct SraArgs {
    pub rs1: u8,
    pub rd: u8,
    pub rs2: u8,
}

impl SraArgs {
    /// The operands held by the instruction word `encoded`.
    pub open spec fn spec_take_args(encoded: u32) -> Self {
        SraArgs {
            rs1: ((encoded >> 15) & 0x1f) as u8,
            rd: ((encoded >> 7) & 0x1f) as u8,
            rs2: ((encoded >> 20) & 0x1f) as u8,
        }
    }

    /// Every operand fits into its bit field.
    pub open spec fn wf(&self) -> bool {
        &&& self.rs1 < 32
        &&& self.rd < 32
        &&& self.rs2 < 32
    }

    /// The instruction word: the fixed bits of the instruction with every operand or-ed in at
    /// its bit offset.
    pub open spec fn spec_encoded(&self) -> u32 {
        0x40005033u32 | ((self.rs1 as u32) << 15) | ((self.rd as u32) << 7) | ((self.rs2 as u32) << 20)
    }

    /// Read the operands out of the instruction word `encoded`.
    pub fn take_args(encoded: u32) -> (args: Self)
        ensures
            args == Self::spec_take_args(encoded),
    {
        Self {
            rs1: ((encoded >> 15) & 0x1f) as u8,
            rd: ((encoded >> 7) & 0x1f) as u8,
            rs2: ((encoded >> 20) & 0x1f) as u8,
        }
    }

    /// Append the little-endian bytes of the instruction word to `writer`.
    pub fn encode(&self, writer: &mut Vec<u8>)
        ensures
            final(writer)@ == old(writer)@ + le_bytes(self.spec_encoded()),
    {
        let mut encoded: u32 = 0x40005033;
        encoded |= (self.rs1 as u32) << 15;
        encoded |= (self.rd as u32) << 7;
        encoded |= (self.rs2 as u32) << 20;
        push_le_bytes(writer, encoded);
    }
}

/// Operands of the `fles` instruction.
pub struct FleSArgs {
    pub rs1: u8,
    pub rd: u8,
    pub rs2: u8,
}

impl FleSArgs {
    /// The operands held by the instruction word `encoded`.
    pub open spec fn spec_take_args(encoded: u32) -> Self {
        FleSArgs {
            rs1: ((encoded >> 15) & 0x1f) as u8,
            rd: ((encoded >> 7) & 0x1f) as u8,
            rs2: ((encoded >> 20) & 0x1f) as u8,
        }
    }

    /// Every operand fits into its bit field.
    pub open spec fn wf(&self) -> bool {
        &&& self.rs1 < 32
        &&& self.rd < 32
        &&& self.rs2 < 32
    }

    /// The instruction word: the fixed bits of the instruction with every operand or-ed in at
    /// its bit offset.
    pub open spec fn spec_encoded(&self) -> u32 {
        0xa0000053u32 | ((self.rs1 as u32) << 15) | ((self.rd as u32) << 7) | ((self.rs2 as u32) << 20)
    }

    /// Read the operands out of the instruction word `encoded`.
    pub fn take_args(encoded: u32) -> (args: Self)
        ensures
            args == Self::spec_take_args(encoded),
    {
        Self {
            rs1: ((encoded >> 15) & 0x1f) as u8,
            rd: ((encoded >> 7) & 0x1f) as u8,
            rs2: ((encoded >> 20) & 0x1f) as u8,
        }
    }

    /// Append the little-endian bytes of the instruction word to `writer`.
    pub fn encode(&self, writer: &mut Vec<u8>)
        ensures
            final(writer)@ == old(writer)@ + le_bytes(self.spec_encoded()),
    {
        let mut encoded: u32 = 0xa0000053;
        encoded |= (self.rs1 as u32) << 15;
        encoded |= (self.rd as u32) << 7;
        encoded |= (self.rs2 as u32) << 20;
        push_le_bytes(writer, encoded);
    }
}

/// Operands of the `and` instruction.
pub struct AndArgs {
    pub rs1: u8,
    pub rd: u8,
    pub rs2: u8,
}

impl AndArgs {
    /// The operands held by the instruction word `encoded`.
    pub open spec fn spec_take_args(encoded: u32) -> Self {
        AndArgs {
            rs1: ((encoded >> 15) & 0x1f) as u8,
            rd: ((encoded >> 7) & 0x1f) as u8,
            rs2: ((encoded >> 20) & 0x1f) as u8,
        }
    }

    /// Every operand fits into its bit field.
    pub open spec fn wf(&self) -> bool {
        &&& self.rs1 < 32
        &&& self.rd < 32
        &&& self.rs2 < 32
    }

    /// The instruction word: the fixed bits of the instruction with every operand or-ed in at
    /// its bit offset.
    pub open spec fn spec_encoded(&self) -> u32 {
        0x7033u32 | ((self.rs1 as u32) << 15) | ((self.rd as u32) << 7) | ((self.rs2 as u32) << 20)
    }

    /// Read the operands out of the instruction word `encoded`.
    pub fn take_args(encoded: u32) -> (args: Self)
        ensures
            args == Self::spec_take_args(encoded),
    {
        Self {
            rs1: ((encoded >> 15) & 0x1f) as u8,
            rd: ((encoded >> 7) & 0x1f) as u8,
            rs2: ((encoded >> 20) & 0x1f) as u8,
        }
    }

    /// Append the little-endian bytes of the instruction word to `writer`.
    pub fn encode(&self, writer: &mut Vec<u8>)
        ensures
            final(writer)@ == old(writer)@ + le_bytes(self.spec_encoded()),
    {
        let mut encoded: u32 = 0x7033;
        encoded |= (self.rs1 as u32) << 15;
        encoded |= (self.rd as u32) << 7;
        encoded |= (self.rs2 as u32) << 20;
        push_le_bytes(writer, encoded);
    }
}

/// Operands of the `or` instruction.
pub struct OrArgs {
    pub rs1: u8,
    pub rd: u8,
    pub rs2: u8,
}

impl OrArgs {
    /// The operands held by the instruction word `encoded`.
    pub open spec fn spec_take_args(encoded: u32) -> Self {
        OrArgs {
            rs1: ((encoded >> 15) & 0x1f) as u8,
            rd: ((encoded >> 7) & 0x1f) as u8,
            rs2: ((encoded >> 20) & 0x1f) as u8,
        }
    }

    /// Every operand fits into its bit field.
    pub open spec fn wf(&self) -> bool {
        &&& self.rs1 < 32
        &&& self.rd < 32
        &&& self.rs2 < 32
    }

    /// The instruction word: the fixed bits of the instruction with every operand or-ed in at
    /// its bit offset.
    pub open spec fn spec_encoded(&self) -> u32 {
        0x6033u32 | ((self.rs1 as u32) << 15) | ((self.rd as u32) << 7) | ((self.rs2 as u32) << 20)
    }

    /// Read the operands out of the instruction word `encoded`.
    pub fn take_args(encoded: u32) -> (args: Self)
        ensures
            args == Self::spec_take_args(encoded),
    {
        Self {
            rs1: ((encoded >> 15) & 0x1f) as u8,
            rd: ((encoded >> 7) & 0x1f) as u8,
            rs2: ((encoded >> 20) & 0x1f) as u8,
        }
    }

    /// Append the little-endian bytes of the instruction word to `writer`.
    pub fn encode(&self, writer: &mut Vec<u8>)
        ensures
            final(writer)@ == old(writer)@ + le_bytes(self.spec_encoded()),
    {
        let mut encoded: u32 = 0x6033;
        encoded |= (self.rs1 as u32) << 15;
        encoded |= (self.rd as u32) << 7;
        encoded |= (self.rs2 as u32) << 20;
        push_le_bytes(writer, encoded);
    }
}

/// Operands of the `fcvtwus` instruction.
pub struct FcvtWuSArgs {
    pub rs1: u8,
    pub rm: u8,
    pub rd: u8,
}

impl FcvtWuSArgs {
    /// The operands held by the instruction word `encoded`.
    pub open spec fn spec_take_args(encoded: u32) -> Self {
        FcvtWuSArgs {
            rs1: ((encoded >> 15) & 0x1f) as u8,
            rm: ((encoded >> 12) & 0x7) as u8,
            rd: ((encoded >> 7) & 0x1f) as u8,
        }
    }

    /// Every operand fits into its bit field.
    pub open spec fn wf(&self) -> bool {
        &&& self.rs1 < 32
        &&& self.rm < 8
        &&& self.rd < 32
    }

    /// The instruction word: the fixed bits of the instruction with every operand or-ed in at
    /// its bit offset.
    pub open spec fn spec_encoded(&self) -> u32 {
        0xc0100053u32 | ((self.rs1 as u32) << 15) | ((self.rm as u32) << 12) | ((self.rd as u32) << 7)
    }

    /// Read the operands out of the instruction word `encoded`.
    pub fn take_args(encoded: u32) -> (args: Self)
        ensures
            args == Self::spec_take_args(encoded),
    {
        Self {
            rs1: ((encoded >> 15) & 0x1f) as u8,
            rm: ((encoded >> 12) & 0x7) as u8,
            rd: ((encoded >> 7) & 0x1f) as u8,
        }
    }

    /// Append the little-endian bytes of the instruction word to `writer`.
    pub fn encode(&self, writer: &mut Vec<u8>)
        ensures
            final(writer)@ == old(writer)@ + le_bytes(self.spec_encoded()),
    {
        let mut encoded: u32 = 0xc0100053;
        encoded |= (self.rs1 as u32) << 15;
        encoded |= (self.rm as u32) << 12;
        encoded |= (self.rd as u32) << 7;
        push_le_bytes(writer, encoded);
    }
}

/// Operands of the `fcvtsw` instruction.
pub struct FcvtSWArgs {
    pub rs1: u8,
    pub rm: u8,
    pub rd: u8,
}

impl FcvtSWArgs {
    /// The operands held by the instruction word `encoded`.
    pub open spec fn spec_take_args(encoded: u32) -> Self {
        FcvtSWArgs {
            rs1: ((encoded >> 15) & 0x1f) as u8,
            rm: ((encoded >> 12) & 0x7) as u8,
            rd: ((encoded >> 7) & 0x1f) as u8,
        }
    }

    /// Every operand fits into its bit field.
    pub open spec fn wf(&self) -> bool {
        &&& self.rs1 < 32
        &&& self.rm < 8
        &&& self.rd < 32
    }

    /// The instruction word: the fixed bits of the instruction with every operand or-ed in at
    /// its bit offset.
    pub open spec fn spec_encoded(&self) -> u32 {
        0xd0000053u32 | ((self.rs1 as u32) << 15) | ((self.rm as u32) << 12) | ((self.rd as u32) << 7)
    }

    /// Read the operands out of the instruction word `encoded`.
    pub fn take_args(encoded: u32) -> (args: Self)
        ensures
            args == Self::spec_take_args(encoded),
    {
        Self {
            rs1: ((encoded >> 15) & 0x1f) as u8,
            rm: ((encoded >> 12) & 0x7) as u8,
            rd: ((encoded >> 7) & 0x1f) as u8,
        }
    }

    /// Append the little-endian bytes of the instruction word to `writer`.
    pub fn encode(&self, writer: &mut Vec<u8>)
        ensures
            final(writer)@ == old(writer)@ + le_bytes(self.spec_encoded()),
    {
        let mut encoded: u32 = 0xd0000053;
        encoded |= (self.rs1 as u32) << 15;
        encoded |= (self.rm as u32) << 12;
        encoded |= (self.rd as u32) << 7;
        push_le_bytes(writer, encoded);
    }
}

/// Operands of the `fcvtswu` instruction.
pub struct FcvtSWuArgs {
    pub rs1: u8,
    pub rm: u8,
    pub rd: u8,
}

impl FcvtSWuArgs {
    /// The operands held by the instruction word `encoded`.
    pub open spec fn spec_take_args(encoded: u32) -> Self {
        FcvtSWuArgs {
            rs1: ((encoded >> 15) & 0x1f) as u8,
            rm: ((encoded >> 12) & 0x7) as u8,
            rd: ((encoded >> 7) & 0x1f) as u8,
        }
    }

    /// Every operand fits into its bit field.
    pub open spec fn wf(&self) -> bool {
        &&& self.rs1 < 32
        &&& self.rm < 8
        &&& self.rd < 32
    }

    /// The instruction word: the fixed bits of the instruction with every operand or-ed in at
    /// its bit offset.
    pub open spec fn spec_encoded(&self) -> u32 {
        0xd0100053u32 | ((self.rs1 as u32) << 15) | ((self.rm as u32) << 12) | ((self.rd as u32) << 7)
    }

    /// Read the operands out of the instruction word `encoded`.
    pub fn take_args(encoded: u32) -> (args: Self)
        ensures
            args == Self::spec_take_args(encoded),
    {
        Self {
            rs1: ((encoded >> 15) & 0x1f) as u8,
            rm: ((encoded >> 12) & 0x7) as u8,
            rd: ((encoded >> 7) & 0x1f) as u8,
        }
    }

    /// Append the little-endian bytes of the instruction word to `writer`.
    pub fn encode(&self, writer: &mut Vec<u8>)
        ensures
            final(writer)@ == old(writer)@ + le_bytes(self.spec_encoded()),
    {
        let mut encoded: u32 = 0xd0100053;
        encoded |= (self.rs1 as u32) << 15;
        encoded |= (self.rm as u32) << 12;
        encoded |= (self.rd as u32) << 7;
        push_le_bytes(writer, encoded);
    }
}

/// Operands of the `fsqrts` instruction.
pub struct FsqrtSArgs {
    pub rs1: u8,
    pub rm: u8,
    pub rd: u8,
}

impl FsqrtSArgs {
    /// The operands held by the instruction word `encoded`.
    pub open spec fn spec_take_args(encoded: u32) -> Self {
        FsqrtSArgs {
            rs1: ((encoded >> 15) & 0x1f) as u8,
            rm: ((encoded >> 12) & 0x7) as u8,
            rd: ((encoded >> 7) & 0x1f) as u8,
        }
    }

    /// Every operand fits into its bit field.
    pub open spec fn wf(&self) -> bool {
        &&& self.rs1 < 32
        &&& self.rm < 8
        &&& self.rd < 32
    }

    /// The instruction word: the fixed bits of the instruction with every operand or-ed in at
    /// its bit offset.
    pub open spec fn spec_encoded(&self) -> u32 {
        0x58000053u32 | ((self.rs1 as u32) << 15) | ((self.rm as u32) << 12) | ((self.rd as u32) << 7)
    }

    /// Read the operands out of the instruction word `encoded`.
    pub fn take_args(encoded: u32) -> (args: Self)
        ensures
            args == Self::spec_take_args(encoded),
    {
        Self {
            rs1: ((encoded >> 15) & 0x1f) as u8,
            rm: ((encoded >> 12) & 0x7) as u8,
            rd: ((encoded >> 7) & 0x1f) as u8,
        }
    }

    /// Append the little-endian bytes of the instruction word to `writer`.
    pub fn encode(&self, writer: &mut Vec<u8>)
        ensures
            final(writer)@ == old(writer)@ + le_bytes(self.spec_encoded()),
    {
        let mut encoded: u32 = 0x58000053;
        encoded |= (self.rs1 as u32) << 15;
        encoded |= (self.rm as u32) << 12;
        encoded |= (self.rd as u32) << 7;
        push_le_bytes(writer, encoded);
    }
}

/// Operands of the `fcvtws` instruction.
pub struct FcvtWSArgs {
    pub rs1: u8,
    pub rm: u8,
    pub rd: u8,
}

impl FcvtWSArgs {
    /// The operands held by the instruction word `encoded`.
    pub open spec fn spec_take_args(encoded: u32) -> Self {
        FcvtWSArgs {
            rs1: ((encoded >> 15) & 0x1f) as u8,
            rm: ((encoded >> 12) & 0x7) as u8,
            rd: ((encoded >> 7) & 0x1f) as u8,
        }
    }

    /// Every operand fits into its bit field.
    pub open spec fn wf(&self) -> bool {
        &&& self.rs1 < 32
        &&& self.rm < 8
        &&& self.rd < 32
    }

    /// The instruction word: the fixed bits of the instruction with every operand or-ed in at
    /// its bit offset.
    pub open spec fn spec_encoded(&self) -> u32 {
        0xc0000053u32 | ((self.rs1 as u32) << 15) | ((self.rm as u32) << 12) | ((self.rd as u32) << 7)
    }

    /// Read the operands out of the instruction word `encoded`.
    pub fn take_args(encoded: u32) -> (args: Self)
        ensures
            args == Self::spec_take_args(encoded),
    {
        Self {
            rs1: ((encoded >> 15) & 0x1f) as u8,
            rm: ((encoded >> 12) & 0x7) as u8,
            rd: ((encoded >> 7) & 0x1f) as u8,
        }
    }

    /// Append the little-endian bytes of the instruction word to `writer`.
    pub fn encode(&self, writer: &mut Vec<u8>)
        ensures
            final(writer)@ == old(writer)@ + le_bytes(self.spec_encoded()),
    {
        let mut encoded: u32 = 0xc0000053;
        encoded |= (self.rs1 as u32) << 15;
        encoded |= (self.rm as u32) << 12;
        encoded |= (self.rd as u32) << 7;
        push_le_bytes(writer, encoded);
    }
}

/// Operands of the `fmvxw` instruction.
pub struct FmvXWArgs {
    pub rs1: u8,
    pub rd: u8,
}

impl FmvXWArgs {
    /// The operands held by the instruction word `encoded`.
    pub open spec fn spec_take_args(encoded: u32) -> Self {
        FmvXWArgs {
            rs1: ((encoded >> 15) & 0x1f) as u8,
            rd: ((encoded >> 7) & 0x1f) as u8,
        }
    }

    /// Every operand fits into its bit field.
    pub open spec fn wf(&self) -> bool {
        &&& self.rs1 < 32
        &&& self.rd < 32
    }

    /// The instruction word: the fixed bits of the instruction with every operand or-ed in at
    /// its bit offset.
    pub open spec fn spec_encoded(&self) -> u32 {
        0xe0000053u32 | ((self.rs1 as u32) << 15) | ((self.rd as u32) << 7)
    }

    /// Read the operands out of the instruction word `encoded`.
    pub fn take_args(encoded: u32) -> (args: Self)
        ensures
            args == Self::spec_take_args(encoded),
    {
        Self {
            rs1: ((encoded >> 15) & 0x1f) as u8,
            rd: ((encoded >> 7) & 0x1f) as u8,
        }
    }

    /// Append the little-endian bytes of the instruction word to `writer`.
    pub fn encode(&self, writer: &mut Vec<u8>)
        ensures
            final(writer)@ == old(writer)@ + le_bytes(self.spec_encoded()),
    {
        let mut encoded: u32 = 0xe0000053;
        encoded |= (self.rs1 as u32) << 15;
        encoded |= (self.rd as u32) << 7;
        push_le_bytes(writer, encoded);
    }
}

/// Operands of the `fmvwx` instruction.
pub struct FmvWXArgs {
    pub rs1: u8,
    pub rd: u8,
}

impl FmvWXArgs {
    /// The operands held by the instruction word `encoded`.
    pub open spec fn spec_take_args(encoded: u32) -> Self {
        FmvWXArgs {
            rs1: ((encoded >> 15) & 0x1f) as u8,
            rd: ((encoded >> 7) & 0x1f) as u8,
        }
    }

    /// Every operand fits into its bit field.
    pub open spec fn wf(&self) -> bool {
        &&& self.rs1 < 32
        &&& self.rd < 32
    }

    /// The instruction word: the fixed bits of the instruction with every operand or-ed in at
    /// its bit offset.
    pub open spec fn spec_encoded(&self) -> u32 {
        0xf0000053u32 | ((self.rs1 as u32) << 15) | ((self.rd as u32) << 7)
    }

    /// Read the operands out of the instruction word `encoded`.
    pub fn take_args(encoded: u32) -> (args: Self)
        ensures
            args == Self::spec_take_args(encoded),
    {
        Self {
            rs1: ((encoded >> 15) & 0x1f) as u8,
            rd: ((encoded >> 7) & 0x1f) as u8,
        }
    }

    /// Append the little-endian bytes of the instruction word to `writer`.
    pub fn encode(&self, writer: &mut Vec<u8>)
        ensures
            final(writer)@ == old(writer)@ + le_bytes(self.spec_encoded()),
    {
        let mut encoded: u32 = 0xf0000053;
        encoded |= (self.rs1 as u32) << 15;
        encoded |= (self.rd as u32) << 7;
        push_le_bytes(writer, encoded);
    }
}

/// Operands of the `fclasss` instruction.
pub struct FclassSArgs {
    pub rs1: u8,
    pub rd: u8,
}

impl FclassSArgs {
    /// The operands held by the instruction word `encoded`.
    pub open spec fn spec_take_args(encoded: u32) -> Self {
        FclassSArgs {
            rs1: ((encoded >> 15) & 0x1f) as u8,
            rd: ((encoded >> 7) & 0x1f) as u8,
        }
    }

    /// Every operand fits into its bit field.
    pub open spec fn wf(&self) -> bool {
        &&& self.rs1 < 32
        &&& self.rd < 32
    }

    /// The instruction word: the fixed bits of the instruction with every operand or-ed in at
    /// its bit offset.
    pub open spec fn spec_encoded(&self) -> u32 {
        0xe0001053u32 | ((self.rs1 as u32) << 15) | ((self.rd as u32) << 7)
    }

    /// Read the operands out of the instruction word `encoded`.
    pub fn take_args(encoded: u32) -> (args: Self)
        ensures
            args == Self::spec_take_args(encoded),
    {
        Self {
            rs1: ((encoded >> 15) & 0x1f) as u8,
            rd: ((encoded >> 7) & 0x1f) as u8,
        }
    }

    /// Append the little-endian bytes of the instruction word to `writer`.
    pub fn encode(&self, writer: &mut Vec<u8>)
        ensures
            final(writer)@ == old(writer)@ + le_bytes(self.spec_encoded()),
    {
        let mut encoded: u32 = 0xe0001053;
        encoded |= (self.rs1 as u32) << 15;
        encoded |= (self.rd as u32) << 7;
        push_le_bytes(writer, encoded);
    }
}

/// Operands of the `ecall` instruction.
pub struct EcallArgs {
}

impl EcallArgs {
    /// The operands held by the instruction word `encoded`.
    pub open spec fn spec_take_args(encoded: u32) -> Self {
        EcallArgs {
        }
    }

    /// Every operand fits into its bit field.
    pub open spec fn wf(&self) -> bool {
        true
    }

    /// The instruction word: the fixed bits of the instruction with every operand or-ed in at
    /// its bit offset.
    pub open spec fn spec_encoded(&self) -> u32 {
        0x73u32
    }

    /// Read the operands out of the instruction word `encoded`.
    pub fn take_args(encoded: u32) -> (args: Self)
        ensures
            args == Self::spec_take_args(encoded),
    {
        Self {
        }
    }

    /// Append the little-endian bytes of the instruction word to `writer`.
    pub fn encode(&self, writer: &mut Vec<u8>)
        ensures
            final(writer)@ == old(writer)@ + le_bytes(self.spec_encoded()),
    {
        let encoded: u32 = 0x73;
        push_le_bytes(writer, encoded);
    }
}

/// Operands of the `ebreak` instruction.
pub struct EbreakArgs {
}

impl EbreakArgs {
    /// The operands held by the instruction word `encoded`.
    pub open spec fn spec_take_args(encoded: u32) -> Self {
        EbreakArgs {
        }
    }

    /// Every operand fits into its bit field.
    pub open spec fn wf(&self) -> bool {
        true
    }

    /// The instruction word: the fixed bits of the instruction with every operand or-ed in at
    /// its bit offset.
    pub open spec fn spec_encoded(&self) -> u32 {
        0x100073u32
    }

    /// Read the operands out of the instruction word `encoded`.
    pub fn take_args(encoded: u32) -> (args: Self)
        ensures
            args == Self::spec_take_args(encoded),
    {
        Self {
        }
    }

    /// Append the little-endian bytes of the instruction word to `writer`.
    pub fn encode(&self, writer: &mut Vec<u8>)
        ensures
            final(writer)@ == old(writer)@ + le_bytes(self.spec_encoded()),
    {
        let encoded: u32 = 0x100073;
        push_le_bytes(writer, encoded);
    }
}

} // verus!
