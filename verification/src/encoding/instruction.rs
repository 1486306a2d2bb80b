//! The instruction set as a whole: the `Instruction` enum and its decoder.
//!
//! The decoder compares the instruction word against an ordered table of patterns (a mask and the
//! value that the masked word must have) and takes the operands of the first pattern that fits.
use vstd::prelude::*;

use super::args::{AuipcArgs, JalArgs, LuiArgs, FmsubSArgs, FnmsubSArgs, FnmaddSArgs, FmaddSArgs, SbArgs, LwArgs, BgeArgs, BneArgs, LbuArgs, BltuArgs, CsrrwArgs, XoriArgs, AndiArgs, SwArgs, CsrrsArgs, ShArgs, SltiuArgs, LbArgs, LhArgs, CsrrwiArgs, SltiArgs, CsrrcArgs, LhuArgs, FswArgs, AddiArgs, BltArgs, BgeuArgs, CsrrsiArgs, CsrrciArgs, JalrArgs, FlwArgs, BeqArgs, OriArgs, FdivSArgs, FsubSArgs, FaddSArgs, FmulSArgs, SraiArgs, FeqSArgs, AddArgs, SlliArgs, SltuArgs, FsgnjxSArgs, FltSArgs, FsgnjSArgs, FmaxSArgs, FsgnjnSArgs, FminSArgs, XorArgs, SrliArgs, SltArgs, SubArgs, SllArgs, SrlArgs, SraArgs, FleSArgs, AndArgs, OrArgs, FcvtWuSArgs, FcvtSWArgs, FcvtSWuArgs, FsqrtSArgs, FcvtWSArgs, FmvXWArgs, FmvWXArgs, FclassSArgs, EcallArgs, EbreakArgs};
use super::bitfields::{le_bytes, le_word, lemma_decoder_masks, lemma_le_word_of_le_bytes, read_le_word, lemma_layout_0, lemma_layout_1, lemma_layout_2, lemma_layout_3, lemma_layout_4, lemma_layout_5, lemma_layout_6, lemma_layout_7, lemma_layout_8, lemma_layout_9, lemma_layout_10};

verus! {

/// Number of entries in the pattern table of the decoder.
pub const NUM_PATTERNS: u8 = 71;

/// A decoded RV32IF instruction.
pub enum Instruction {
    Auipc(AuipcArgs),
    Jal(JalArgs),
    Lui(LuiArgs),
    FmsubS(FmsubSArgs),
    FnmsubS(FnmsubSArgs),
    FnmaddS(FnmaddSArgs),
    FmaddS(FmaddSArgs),
    Sb(SbArgs),
    Lw(LwArgs),
    Bge(BgeArgs),
    Bne(BneArgs),
    Lbu(LbuArgs),
    Bltu(BltuArgs),
    Csrrw(CsrrwArgs),
    Xori(XoriArgs),
    Andi(AndiArgs),
    Sw(SwArgs),
    Csrrs(CsrrsArgs),
    Sh(ShArgs),
    Sltiu(SltiuArgs),
    Lb(LbArgs),
    Lh(LhArgs),
    Csrrwi(CsrrwiArgs),
    Slti(SltiArgs),
    Csrrc(CsrrcArgs),
    Lhu(LhuArgs),
    Fsw(FswArgs),
    Addi(AddiArgs),
    Blt(BltArgs),
    Bgeu(BgeuArgs),
    Csrrsi(CsrrsiArgs),
    Csrrci(CsrrciArgs),
    Jalr(JalrArgs),
    Flw(FlwArgs),
    Beq(BeqArgs),
    Ori(OriArgs),
    FdivS(FdivSArgs),
    FsubS(FsubSArgs),
    FaddS(FaddSArgs),
    FmulS(FmulSArgs),
    Srai(SraiArgs),
    FeqS(FeqSArgs),
    Add(AddArgs),
    Slli(SlliArgs),
    Sltu(SltuArgs),
    FsgnjxS(FsgnjxSArgs),
    FltS(FltSArgs),
    FsgnjS(FsgnjSArgs),
    FmaxS(FmaxSArgs),
    FsgnjnS(FsgnjnSArgs),
    FminS(FminSArgs),
    Xor(XorArgs),
    Srli(SrliArgs),
    Slt(SltArgs),
    Sub(SubArgs),
    Sll(SllArgs),
    Srl(SrlArgs),
    Sra(SraArgs),
    FleS(FleSArgs),
    And(AndArgs),
    Or(OrArgs),
    FcvtWuS(FcvtWuSArgs),
    FcvtSW(FcvtSWArgs),
    FcvtSWu(FcvtSWuArgs),
    FsqrtS(FsqrtSArgs),
    FcvtWS(FcvtWSArgs),
    FmvXW(FmvXWArgs),
    FmvWX(FmvWXArgs),
    FclassS(FclassSArgs),
    Ecall(EcallArgs),
    Ebreak(EbreakArgs),
}

impl Instruction {
    /// The mask of the `k`-th entry of the pattern table.
    pub open spec fn pattern_mask(k: u8) -> u32 {
        match k {
            0 => 0x7f,
            1 => 0x7f,
            2 => 0x7f,
            3 => 0x600007f,
            4 => 0x600007f,
            5 => 0x600007f,
            6 => 0x600007f,
            7 => 0x707f,
            8 => 0x707f,
            9 => 0x707f,
            10 => 0x707f,
            11 => 0x707f,
            12 => 0x707f,
            13 => 0x707f,
            14 => 0x707f,
            15 => 0x707f,
            16 => 0x707f,
            17 => 0x707f,
            18 => 0x707f,
            19 => 0x707f,
            20 => 0x707f,
            21 => 0x707f,
            22 => 0x707f,
            23 => 0x707f,
            24 => 0x707f,
            25 => 0x707f,
            26 => 0x707f,
            27 => 0x707f,
            28 => 0x707f,
            29 => 0x707f,
            30 => 0x707f,
            31 => 0x707f,
            32 => 0x707f,
            33 => 0x707f,
            34 => 0x707f,
            35 => 0x707f,
            36 => 0xfe00007f,
            37 => 0xfe00007f,
            38 => 0xfe00007f,
            39 => 0xfe00007f,
            40 => 0xfe00707f,
            41 => 0xfe00707f,
            42 => 0xfe00707f,
            43 => 0xfe00707f,
            44 => 0xfe00707f,
            45 => 0xfe00707f,
            46 => 0xfe00707f,
            47 => 0xfe00707f,
            48 => 0xfe00707f,
            49 => 0xfe00707f,
            50 => 0xfe00707f,
            51 => 0xfe00707f,
            52 => 0xfe00707f,
            53 => 0xfe00707f,
            54 => 0xfe00707f,
            55 => 0xfe00707f,
            56 => 0xfe00707f,
            57 => 0xfe00707f,
            58 => 0xfe00707f,
            59 => 0xfe00707f,
            60 => 0xfe00707f,
            61 => 0xfff0007f,
            62 => 0xfff0007f,
            63 => 0xfff0007f,
            64 => 0xfff0007f,
            65 => 0xfff0007f,
            66 => 0xfff0707f,
            67 => 0xfff0707f,
            68 => 0xfff0707f,
            69 => 0xffffffff,
            70 => 0xffffffff,
            _ => 0,
        }
    }

    /// The value that the masked word must have to fit the `k`-th entry of the pattern table.
    pub open spec fn pattern_value(k: u8) -> u32 {
        match k {
            0 => 0x17,
            1 => 0x6f,
            2 => 0x37,
            3 => 0x47,
            4 => 0x4b,
            5 => 0x4f,
            6 => 0x43,
            7 => 0x23,
            8 => 0x2003,
            9 => 0x5063,
            10 => 0x1063,
            11 => 0x4003,
            12 => 0x6063,
            13 => 0x1073,
            14 => 0x4013,
            15 => 0x7013,
            16 => 0x2023,
            17 => 0x2073,
            18 => 0x1023,
            19 => 0x3013,
            20 => 0x3,
            21 => 0x1003,
            22 => 0x5073,
            23 => 0x2013,
            24 => 0x3073,
            25 => 0x5003,
            26 => 0x2027,
            27 => 0x13,
            28 => 0x4063,
            29 => 0x7063,
            30 => 0x6073,
            31 => 0x7073,
            32 => 0x67,
            33 => 0x2007,
            34 => 0x63,
            35 => 0x6013,
            36 => 0x18000053,
            37 => 0x8000053,
            38 => 0x53,
            39 => 0x10000053,
            40 => 0x40005013,
            41 => 0xa0002053,
            42 => 0x33,
            43 => 0x1013,
            44 => 0x3033,
            45 => 0x20002053,
            46 => 0xa0001053,
            47 => 0x20000053,
            48 => 0x28001053,
            49 => 0x20001053,
            50 => 0x28000053,
            51 => 0x4033,
            52 => 0x5013,
            53 => 0x2033,
            54 => 0x40000033,
            55 => 0x1033,
            56 => 0x5033,
            57 => 0x40005033,
            58 => 0xa0000053,
            59 => 0x7033,
            60 => 0x6033,
            61 => 0xc0100053,
            62 => 0xd0000053,
            63 => 0xd0100053,
            64 => 0x58000053,
            65 => 0xc0000053,
            66 => 0xe0000053,
            67 => 0xf0000053,
            68 => 0xe0001053,
            69 => 0x73,
            70 => 0x100073,
            _ => 0,
        }
    }

    /// The word `bits` fits the `k`-th pattern.
    pub open spec fn matches_pattern(bits: u32, k: int) -> bool {
        (bits & Self::pattern_mask(k as u8)) == Self::pattern_value(k as u8)
    }

    /// The first pattern at or after position `k` that `bits` fits, if any.
    pub open spec fn first_match(bits: u32, k: int) -> Option<int>
        decreases NUM_PATTERNS - k,
    {
        if k < 0 || k >= NUM_PATTERNS {
            None
        } else if Self::matches_pattern(bits, k) {
            Some(k)
        } else {
            Self::first_match(bits, k + 1)
        }
    }

    /// `bits` fits none of the patterns before position `k`.
    pub open spec fn no_match_before(bits: u32, k: int) -> bool
        decreases k,
    {
        if k <= 0 {
            true
        } else {
            !Self::matches_pattern(bits, k - 1) && Self::no_match_before(bits, k - 1)
        }
    }

    /// The instruction of the `k`-th pattern with the operands read out of `bits`.
    pub open spec fn from_pattern(k: u8, bits: u32) -> Instruction {
        match k {
            0 => Instruction::Auipc(AuipcArgs::spec_take_args(bits)),
            1 => Instruction::Jal(JalArgs::spec_take_args(bits)),
            2 => Instruction::Lui(LuiArgs::spec_take_args(bits)),
            3 => Instruction::FmsubS(FmsubSArgs::spec_take_args(bits)),
            4 => Instruction::FnmsubS(FnmsubSArgs::spec_take_args(bits)),
            5 => Instruction::FnmaddS(FnmaddSArgs::spec_take_args(bits)),
            6 => Instruction::FmaddS(FmaddSArgs::spec_take_args(bits)),
            7 => Instruction::Sb(SbArgs::spec_take_args(bits)),
            8 => Instruction::Lw(LwArgs::spec_take_args(bits)),
            9 => Instruction::Bge(BgeArgs::spec_take_args(bits)),
            10 => Instruction::Bne(BneArgs::spec_take_args(bits)),
            11 => Instruction::Lbu(LbuArgs::spec_take_args(bits)),
            12 => Instruction::Bltu(BltuArgs::spec_take_args(bits)),
            13 => Instruction::Csrrw(CsrrwArgs::spec_take_args(bits)),
            14 => Instruction::Xori(XoriArgs::spec_take_args(bits)),
            15 => Instruction::Andi(AndiArgs::spec_take_args(bits)),
            16 => Instruction::Sw(SwArgs::spec_take_args(bits)),
            17 => Instruction::Csrrs(CsrrsArgs::spec_take_args(bits)),
            18 => Instruction::Sh(ShArgs::spec_take_args(bits)),
            19 => Instruction::Sltiu(SltiuArgs::spec_take_args(bits)),
            20 => Instruction::Lb(LbArgs::spec_take_args(bits)),
            21 => Instruction::Lh(LhArgs::spec_take_args(bits)),
            22 => Instruction::Csrrwi(CsrrwiArgs::spec_take_args(bits)),
            23 => Instruction::Slti(SltiArgs::spec_take_args(bits)),
            24 => Instruction::Csrrc(CsrrcArgs::spec_take_args(bits)),
            25 => Instruction::Lhu(LhuArgs::spec_take_args(bits)),
            26 => Instruction::Fsw(FswArgs::spec_take_args(bits)),
            27 => Instruction::Addi(AddiArgs::spec_take_args(bits)),
            28 => Instruction::Blt(BltArgs::spec_take_args(bits)),
            29 => Instruction::Bgeu(BgeuArgs::spec_take_args(bits)),
            30 => Instruction::Csrrsi(CsrrsiArgs::spec_take_args(bits)),
            31 => Instruction::Csrrci(CsrrciArgs::spec_take_args(bits)),
            32 => Instruction::Jalr(JalrArgs::spec_take_args(bits)),
            33 => Instruction::Flw(FlwArgs::spec_take_args(bits)),
            34 => Instruction::Beq(BeqArgs::spec_take_args(bits)),
            35 => Instruction::Ori(OriArgs::spec_take_args(bits)),
            36 => Instruction::FdivS(FdivSArgs::spec_take_args(bits)),
            37 => Instruction::FsubS(FsubSArgs::spec_take_args(bits)),
            38 => Instruction::FaddS(FaddSArgs::spec_take_args(bits)),
            39 => Instruction::FmulS(FmulSArgs::spec_take_args(bits)),
            40 => Instruction::Srai(SraiArgs::spec_take_args(bits)),
            41 => Instruction::FeqS(FeqSArgs::spec_take_args(bits)),
            42 => Instruction::Add(AddArgs::spec_take_args(bits)),
            43 => Instruction::Slli(SlliArgs::spec_take_args(bits)),
            44 => Instruction::Sltu(SltuArgs::spec_take_args(bits)),
            45 => Instruction::FsgnjxS(FsgnjxSArgs::spec_take_args(bits)),
            46 => Instruction::FltS(FltSArgs::spec_take_args(bits)),
            47 => Instruction::FsgnjS(FsgnjSArgs::spec_take_args(bits)),
            48 => Instruction::FmaxS(FmaxSArgs::spec_take_args(bits)),
            49 => Instruction::FsgnjnS(FsgnjnSArgs::spec_take_args(bits)),
            50 => Instruction::FminS(FminSArgs::spec_take_args(bits)),
            51 => Instruction::Xor(XorArgs::spec_take_args(bits)),
            52 => Instruction::Srli(SrliArgs::spec_take_args(bits)),
            53 => Instruction::Slt(SltArgs::spec_take_args(bits)),
            54 => Instruction::Sub(SubArgs::spec_take_args(bits)),
            55 => Instruction::Sll(SllArgs::spec_take_args(bits)),
            56 => Instruction::Srl(SrlArgs::spec_take_args(bits)),
            57 => Instruction::Sra(SraArgs::spec_take_args(bits)),
            58 => Instruction::FleS(FleSArgs::spec_take_args(bits)),
            59 => Instruction::And(AndArgs::spec_take_args(bits)),
            60 => Instruction::Or(OrArgs::spec_take_args(bits)),
            61 => Instruction::FcvtWuS(FcvtWuSArgs::spec_take_args(bits)),
            62 => Instruction::FcvtSW(FcvtSWArgs::spec_take_args(bits)),
            63 => Instruction::FcvtSWu(FcvtSWuArgs::spec_take_args(bits)),
            64 => Instruction::FsqrtS(FsqrtSArgs::spec_take_args(bits)),
            65 => Instruction::FcvtWS(FcvtWSArgs::spec_take_args(bits)),
            66 => Instruction::FmvXW(FmvXWArgs::spec_take_args(bits)),
            67 => Instruction::FmvWX(FmvWXArgs::spec_take_args(bits)),
            68 => Instruction::FclassS(FclassSArgs::spec_take_args(bits)),
            69 => Instruction::Ecall(EcallArgs::spec_take_args(bits)),
            _ => Instruction::Ebreak(EbreakArgs::spec_take_args(bits)),
        }
    }

    /// What the decoder makes of the instruction word `bits`: the instruction of the first pattern
    /// that fits, or nothing.
    pub open spec fn spec_decode_word(bits: u32) -> Option<Instruction> {
        match Self::first_match(bits, 0) {
            Some(k) => Some(Self::from_pattern(k as u8, bits)),
            None => None,
        }
    }

    /// Every operand fits into its bit field.
    pub open spec fn wf(self) -> bool {
        match self {
            Instruction::Auipc(a) => a.wf(),
            Instruction::Jal(a) => a.wf(),
            Instruction::Lui(a) => a.wf(),
            Instruction::FmsubS(a) => a.wf(),
            Instruction::FnmsubS(a) => a.wf(),
            Instruction::FnmaddS(a) => a.wf(),
            Instruction::FmaddS(a) => a.wf(),
            Instruction::Sb(a) => a.wf(),
            Instruction::Lw(a) => a.wf(),
            Instruction::Bge(a) => a.wf(),
            Instruction::Bne(a) => a.wf(),
            Instruction::Lbu(a) => a.wf(),
            Instruction::Bltu(a) => a.wf(),
            Instruction::Csrrw(a) => a.wf(),
            Instruction::Xori(a) => a.wf(),
            Instruction::Andi(a) => a.wf(),
            Instruction::Sw(a) => a.wf(),
            Instruction::Csrrs(a) => a.wf(),
            Instruction::Sh(a) => a.wf(),
            Instruction::Sltiu(a) => a.wf(),
            Instruction::Lb(a) => a.wf(),
            Instruction::Lh(a) => a.wf(),
            Instruction::Csrrwi(a) => a.wf(),
            Instruction::Slti(a) => a.wf(),
            Instruction::Csrrc(a) => a.wf(),
            Instruction::Lhu(a) => a.wf(),
            Instruction::Fsw(a) => a.wf(),
            Instruction::Addi(a) => a.wf(),
            Instruction::Blt(a) => a.wf(),
            Instruction::Bgeu(a) => a.wf(),
            Instruction::Csrrsi(a) => a.wf(),
            Instruction::Csrrci(a) => a.wf(),
            Instruction::Jalr(a) => a.wf(),
            Instruction::Flw(a) => a.wf(),
            Instruction::Beq(a) => a.wf(),
            Instruction::Ori(a) => a.wf(),
            Instruction::FdivS(a) => a.wf(),
            Instruction::FsubS(a) => a.wf(),
            Instruction::FaddS(a) => a.wf(),
            Instruction::FmulS(a) => a.wf(),
            Instruction::Srai(a) => a.wf(),
            Instruction::FeqS(a) => a.wf(),
            Instruction::Add(a) => a.wf(),
            Instruction::Slli(a) => a.wf(),
            Instruction::Sltu(a) => a.wf(),
            Instruction::FsgnjxS(a) => a.wf(),
            Instruction::FltS(a) => a.wf(),
            Instruction::FsgnjS(a) => a.wf(),
            Instruction::FmaxS(a) => a.wf(),
            Instruction::FsgnjnS(a) => a.wf(),
            Instruction::FminS(a) => a.wf(),
            Instruction::Xor(a) => a.wf(),
            Instruction::Srli(a) => a.wf(),
            Instruction::Slt(a) => a.wf(),
            Instruction::Sub(a) => a.wf(),
            Instruction::Sll(a) => a.wf(),
            Instruction::Srl(a) => a.wf(),
            Instruction::Sra(a) => a.wf(),
            Instruction::FleS(a) => a.wf(),
            Instruction::And(a) => a.wf(),
            Instruction::Or(a) => a.wf(),
            Instruction::FcvtWuS(a) => a.wf(),
            Instruction::FcvtSW(a) => a.wf(),
            Instruction::FcvtSWu(a) => a.wf(),
            Instruction::FsqrtS(a) => a.wf(),
            Instruction::FcvtWS(a) => a.wf(),
            Instruction::FmvXW(a) => a.wf(),
            Instruction::FmvWX(a) => a.wf(),
            Instruction::FclassS(a) => a.wf(),
            Instruction::Ecall(a) => a.wf(),
            Instruction::Ebreak(a) => a.wf(),
        }
    }

    /// The instruction word of this instruction.
    pub open spec fn spec_encoded(self) -> u32 {
        match self {
            Instruction::Auipc(a) => a.spec_encoded(),
            Instruction::Jal(a) => a.spec_encoded(),
            Instruction::Lui(a) => a.spec_encoded(),
            Instruction::FmsubS(a) => a.spec_encoded(),
            Instruction::FnmsubS(a) => a.spec_encoded(),
            Instruction::FnmaddS(a) => a.spec_encoded(),
            Instruction::FmaddS(a) => a.spec_encoded(),
            Instruction::Sb(a) => a.spec_encoded(),
            Instruction::Lw(a) => a.spec_encoded(),
            Instruction::Bge(a) => a.spec_encoded(),
            Instruction::Bne(a) => a.spec_encoded(),
            Instruction::Lbu(a) => a.spec_encoded(),
            Instruction::Bltu(a) => a.spec_encoded(),
            Instruction::Csrrw(a) => a.spec_encoded(),
            Instruction::Xori(a) => a.spec_encoded(),
            Instruction::Andi(a) => a.spec_encoded(),
            Instruction::Sw(a) => a.spec_encoded(),
            Instruction::Csrrs(a) => a.spec_encoded(),
            Instruction::Sh(a) => a.spec_encoded(),
            Instruction::Sltiu(a) => a.spec_encoded(),
            Instruction::Lb(a) => a.spec_encoded(),
            Instruction::Lh(a) => a.spec_encoded(),
            Instruction::Csrrwi(a) => a.spec_encoded(),
            Instruction::Slti(a) => a.spec_encoded(),
            Instruction::Csrrc(a) => a.spec_encoded(),
            Instruction::Lhu(a) => a.spec_encoded(),
            Instruction::Fsw(a) => a.spec_encoded(),
            Instruction::Addi(a) => a.spec_encoded(),
            Instruction::Blt(a) => a.spec_encoded(),
            Instruction::Bgeu(a) => a.spec_encoded(),
            Instruction::Csrrsi(a) => a.spec_encoded(),
            Instruction::Csrrci(a) => a.spec_encoded(),
            Instruction::Jalr(a) => a.spec_encoded(),
            Instruction::Flw(a) => a.spec_encoded(),
            Instruction::Beq(a) => a.spec_encoded(),
            Instruction::Ori(a) => a.spec_encoded(),
            Instruction::FdivS(a) => a.spec_encoded(),
            Instruction::FsubS(a) => a.spec_encoded(),
            Instruction::FaddS(a) => a.spec_encoded(),
            Instruction::FmulS(a) => a.spec_encoded(),
            Instruction::Srai(a) => a.spec_encoded(),
            Instruction::FeqS(a) => a.spec_encoded(),
            Instruction::Add(a) => a.spec_encoded(),
            Instruction::Slli(a) => a.spec_encoded(),
            Instruction::Sltu(a) => a.spec_encoded(),
            Instruction::FsgnjxS(a) => a.spec_encoded(),
            Instruction::FltS(a) => a.spec_encoded(),
            Instruction::FsgnjS(a) => a.spec_encoded(),
            Instruction::FmaxS(a) => a.spec_encoded(),
            Instruction::FsgnjnS(a) => a.spec_encoded(),
            Instruction::FminS(a) => a.spec_encoded(),
            Instruction::Xor(a) => a.spec_encoded(),
            Instruction::Srli(a) => a.spec_encoded(),
            Instruction::Slt(a) => a.spec_encoded(),
            Instruction::Sub(a) => a.spec_encoded(),
            Instruction::Sll(a) => a.spec_encoded(),
            Instruction::Srl(a) => a.spec_encoded(),
            Instruction::Sra(a) => a.spec_encoded(),
            Instruction::FleS(a) => a.spec_encoded(),
            Instruction::And(a) => a.spec_encoded(),
            Instruction::Or(a) => a.spec_encoded(),
            Instruction::FcvtWuS(a) => a.spec_encoded(),
            Instruction::FcvtSW(a) => a.spec_encoded(),
            Instruction::FcvtSWu(a) => a.spec_encoded(),
            Instruction::FsqrtS(a) => a.spec_encoded(),
            Instruction::FcvtWS(a) => a.spec_encoded(),
            Instruction::FmvXW(a) => a.spec_encoded(),
            Instruction::FmvWX(a) => a.spec_encoded(),
            Instruction::FclassS(a) => a.spec_encoded(),
            Instruction::Ecall(a) => a.spec_encoded(),
            Instruction::Ebreak(a) => a.spec_encoded(),
        }
    }

    /// The `k`-th entry of the pattern table: the mask and the value.
    fn pattern(k: u8) -> (p: (u32, u32))
        requires
            k < NUM_PATTERNS,
        ensures
            p.0 == Self::pattern_mask(k),
            p.1 == Self::pattern_value(k),
    {
        match k {
            0 => (0x7f, 0x17),
            1 => (0x7f, 0x6f),
            2 => (0x7f, 0x37),
            3 => (0x600007f, 0x47),
            4 => (0x600007f, 0x4b),
            5 => (0x600007f, 0x4f),
            6 => (0x600007f, 0x43),
            7 => (0x707f, 0x23),
            8 => (0x707f, 0x2003),
            9 => (0x707f, 0x5063),
            10 => (0x707f, 0x1063),
            11 => (0x707f, 0x4003),
            12 => (0x707f, 0x6063),
            13 => (0x707f, 0x1073),
            14 => (0x707f, 0x4013),
            15 => (0x707f, 0x7013),
            16 => (0x707f, 0x2023),
            17 => (0x707f, 0x2073),
            18 => (0x707f, 0x1023),
            19 => (0x707f, 0x3013),
            20 => (0x707f, 0x3),
            21 => (0x707f, 0x1003),
            22 => (0x707f, 0x5073),
            23 => (0x707f, 0x2013),
            24 => (0x707f, 0x3073),
            25 => (0x707f, 0x5003),
            26 => (0x707f, 0x2027),
            27 => (0x707f, 0x13),
            28 => (0x707f, 0x4063),
            29 => (0x707f, 0x7063),
            30 => (0x707f, 0x6073),
            31 => (0x707f, 0x7073),
            32 => (0x707f, 0x67),
            33 => (0x707f, 0x2007),
            34 => (0x707f, 0x63),
            35 => (0x707f, 0x6013),
            36 => (0xfe00007f, 0x18000053),
            37 => (0xfe00007f, 0x8000053),
            38 => (0xfe00007f, 0x53),
            39 => (0xfe00007f, 0x10000053),
            40 => (0xfe00707f, 0x40005013),
            41 => (0xfe00707f, 0xa0002053),
            42 => (0xfe00707f, 0x33),
            43 => (0xfe00707f, 0x1013),
            44 => (0xfe00707f, 0x3033),
            45 => (0xfe00707f, 0x20002053),
            46 => (0xfe00707f, 0xa0001053),
            47 => (0xfe00707f, 0x20000053),
            48 => (0xfe00707f, 0x28001053),
            49 => (0xfe00707f, 0x20001053),
            50 => (0xfe00707f, 0x28000053),
            51 => (0xfe00707f, 0x4033),
            52 => (0xfe00707f, 0x5013),
            53 => (0xfe00707f, 0x2033),
            54 => (0xfe00707f, 0x40000033),
            55 => (0xfe00707f, 0x1033),
            56 => (0xfe00707f, 0x5033),
            57 => (0xfe00707f, 0x40005033),
            58 => (0xfe00707f, 0xa0000053),
            59 => (0xfe00707f, 0x7033),
            60 => (0xfe00707f, 0x6033),
            61 => (0xfff0007f, 0xc0100053),
            62 => (0xfff0007f, 0xd0000053),
            63 => (0xfff0007f, 0xd0100053),
            64 => (0xfff0007f, 0x58000053),
            65 => (0xfff0007f, 0xc0000053),
            66 => (0xfff0707f, 0xe0000053),
            67 => (0xfff0707f, 0xf0000053),
            68 => (0xfff0707f, 0xe0001053),
            69 => (0xffffffff, 0x73),
            _ => (0xffffffff, 0x100073),
        }
    }

    /// The instruction of the `k`-th pattern with the operands read out of `bits`.
    fn take_pattern(k: u8, bits: u32) -> (instruction: Instruction)
        requires
            k < NUM_PATTERNS,
        ensures
            instruction == Self::from_pattern(k, bits),
    {
        match k {
            0 => Instruction::Auipc(AuipcArgs::take_args(bits)),
            1 => Instruction::Jal(JalArgs::take_args(bits)),
            2 => Instruction::Lui(LuiArgs::take_args(bits)),
            3 => Instruction::FmsubS(FmsubSArgs::take_args(bits)),
            4 => Instruction::FnmsubS(FnmsubSArgs::take_args(bits)),
            5 => Instruction::FnmaddS(FnmaddSArgs::take_args(bits)),
            6 => Instruction::FmaddS(FmaddSArgs::take_args(bits)),
            7 => Instruction::Sb(SbArgs::take_args(bits)),
            8 => Instruction::Lw(LwArgs::take_args(bits)),
            9 => Instruction::Bge(BgeArgs::take_args(bits)),
            10 => Instruction::Bne(BneArgs::take_args(bits)),
            11 => Instruction::Lbu(LbuArgs::take_args(bits)),
            12 => Instruction::Bltu(BltuArgs::take_args(bits)),
            13 => Instruction::Csrrw(CsrrwArgs::take_args(bits)),
            14 => Instruction::Xori(XoriArgs::take_args(bits)),
            15 => Instruction::Andi(AndiArgs::take_args(bits)),
            16 => Instruction::Sw(SwArgs::take_args(bits)),
            17 => Instruction::Csrrs(CsrrsArgs::take_args(bits)),
            18 => Instruction::Sh(ShArgs::take_args(bits)),
            19 => Instruction::Sltiu(SltiuArgs::take_args(bits)),
            20 => Instruction::Lb(LbArgs::take_args(bits)),
            21 => Instruction::Lh(LhArgs::take_args(bits)),
            22 => Instruction::Csrrwi(CsrrwiArgs::take_args(bits)),
            23 => Instruction::Slti(SltiArgs::take_args(bits)),
            24 => Instruction::Csrrc(CsrrcArgs::take_args(bits)),
            25 => Instruction::Lhu(LhuArgs::take_args(bits)),
            26 => Instruction::Fsw(FswArgs::take_args(bits)),
            27 => Instruction::Addi(AddiArgs::take_args(bits)),
            28 => Instruction::Blt(BltArgs::take_args(bits)),
            29 => Instruction::Bgeu(BgeuArgs::take_args(bits)),
            30 => Instruction::Csrrsi(CsrrsiArgs::take_args(bits)),
            31 => Instruction::Csrrci(CsrrciArgs::take_args(bits)),
            32 => Instruction::Jalr(JalrArgs::take_args(bits)),
            33 => Instruction::Flw(FlwArgs::take_args(bits)),
            34 => Instruction::Beq(BeqArgs::take_args(bits)),
            35 => Instruction::Ori(OriArgs::take_args(bits)),
            36 => Instruction::FdivS(FdivSArgs::take_args(bits)),
            37 => Instruction::FsubS(FsubSArgs::take_args(bits)),
            38 => Instruction::FaddS(FaddSArgs::take_args(bits)),
            39 => Instruction::FmulS(FmulSArgs::take_args(bits)),
            40 => Instruction::Srai(SraiArgs::take_args(bits)),
            41 => Instruction::FeqS(FeqSArgs::take_args(bits)),
            42 => Instruction::Add(AddArgs::take_args(bits)),
            43 => Instruction::Slli(SlliArgs::take_args(bits)),
            44 => Instruction::Sltu(SltuArgs::take_args(bits)),
            45 => Instruction::FsgnjxS(FsgnjxSArgs::take_args(bits)),
            46 => Instruction::FltS(FltSArgs::take_args(bits)),
            47 => Instruction::FsgnjS(FsgnjSArgs::take_args(bits)),
            48 => Instruction::FmaxS(FmaxSArgs::take_args(bits)),
            49 => Instruction::FsgnjnS(FsgnjnSArgs::take_args(bits)),
            50 => Instruction::FminS(FminSArgs::take_args(bits)),
            51 => Instruction::Xor(XorArgs::take_args(bits)),
            52 => Instruction::Srli(SrliArgs::take_args(bits)),
            53 => Instruction::Slt(SltArgs::take_args(bits)),
            54 => Instruction::Sub(SubArgs::take_args(bits)),
            55 => Instruction::Sll(SllArgs::take_args(bits)),
            56 => Instruction::Srl(SrlArgs::take_args(bits)),
            57 => Instruction::Sra(SraArgs::take_args(bits)),
            58 => Instruction::FleS(FleSArgs::take_args(bits)),
            59 => Instruction::And(AndArgs::take_args(bits)),
            60 => Instruction::Or(OrArgs::take_args(bits)),
            61 => Instruction::FcvtWuS(FcvtWuSArgs::take_args(bits)),
            62 => Instruction::FcvtSW(FcvtSWArgs::take_args(bits)),
            63 => Instruction::FcvtSWu(FcvtSWuArgs::take_args(bits)),
            64 => Instruction::FsqrtS(FsqrtSArgs::take_args(bits)),
            65 => Instruction::FcvtWS(FcvtWSArgs::take_args(bits)),
            66 => Instruction::FmvXW(FmvXWArgs::take_args(bits)),
            67 => Instruction::FmvWX(FmvWXArgs::take_args(bits)),
            68 => Instruction::FclassS(FclassSArgs::take_args(bits)),
            69 => Instruction::Ecall(EcallArgs::take_args(bits)),
            _ => Instruction::Ebreak(EbreakArgs::take_args(bits)),
        }
    }

    /// Decode the instruction whose little-endian word starts `encoded`.
    ///
    /// The patterns are tried in table order; the first that fits decides the instruction. A
    /// word that fits no pattern gives `None`.
    pub fn decode(encoded: &[u8]) -> (instruction: Option<Instruction>)
        requires
            encoded@.len() >= 4,
        ensures
            instruction == Self::spec_decode_word(le_word(encoded@)),
    {
        let bits = read_le_word(encoded);
        let mut k: u8 = 0;
        while k < NUM_PATTERNS
            invariant
                k <= NUM_PATTERNS,
                bits == le_word(encoded@),
                Self::first_match(bits, 0) == Self::first_match(bits, k as int),
            decreases NUM_PATTERNS - k,
        {
            let (mask, value) = Self::pattern(k);
            if bits & mask == value {
                assert(Self::matches_pattern(bits, k as int));
                return Some(Self::take_pattern(k, bits));
            }
            k = k + 1;
        }
        None
    }

    /// The first pattern that fits decides: with no fit before `k` and a fit at `k`, `k` is the
    /// first match.
    proof fn lemma_first_match_at(bits: u32, k: int)
        requires
            0 <= k < NUM_PATTERNS,
            Self::no_match_before(bits, k),
            Self::matches_pattern(bits, k),
        ensures
            Self::first_match(bits, 0) == Some(k),
    {
        Self::lemma_first_match_from(bits, 0, k);
    }

    proof fn lemma_first_match_from(bits: u32, j: int, k: int)
        requires
            0 <= j <= k < NUM_PATTERNS,
            Self::no_match_before(bits, k),
            Self::matches_pattern(bits, k),
        ensures
            Self::first_match(bits, j) == Some(k),
        decreases k - j,
    {
        if j < k {
            Self::lemma_no_match_before_at(bits, j, k);
            Self::lemma_first_match_from(bits, j + 1, k);
        }
    }

    proof fn lemma_no_match_before_at(bits: u32, j: int, k: int)
        requires
            0 <= j < k,
            Self::no_match_before(bits, k),
        ensures
            !Self::matches_pattern(bits, j),
        decreases k,
    {
        if j < k - 1 {
            Self::lemma_no_match_before_at(bits, j, k - 1);
        }
    }

    /// A first match lies in the table and fits.
    pub proof fn lemma_first_match_fits(bits: u32, j: int)
        requires
            0 <= j,
        ensures
            Self::first_match(bits, j) matches Some(k) ==> j <= k < NUM_PATTERNS
                && Self::matches_pattern(bits, k),
        decreases NUM_PATTERNS - j,
    {
        if j < NUM_PATTERNS && !Self::matches_pattern(bits, j) {
            Self::lemma_first_match_fits(bits, j + 1);
        }
    }

    proof fn lemma_decode_auipc(a: AuipcArgs)
        requires
            a.wf(),
        ensures
            Self::spec_decode_word(a.spec_encoded()) == Some(Instruction::Auipc(a)),
    {
        let w = a.spec_encoded();
        lemma_layout_0(0x17, w, a.rd as u32, a.imm31_12 as u32);
        lemma_decoder_masks(w);
        reveal_with_fuel(Instruction::no_match_before, 1);
        assert(Self::no_match_before(w, 0));
        assert(Self::matches_pattern(w, 0));
        Self::lemma_first_match_at(w, 0);
        assert(AuipcArgs::spec_take_args(w) == a);
    }

    proof fn lemma_decode_jal(a: JalArgs)
        requires
            a.wf(),
        ensures
            Self::spec_decode_word(a.spec_encoded()) == Some(Instruction::Jal(a)),
    {
        let w = a.spec_encoded();
        lemma_layout_1(0x6f, w, a.imm20 as u32, a.imm10_1 as u32, a.imm11 as u32, a.rd as u32, a.imm19_12 as u32);
        lemma_decoder_masks(w);
        reveal_with_fuel(Instruction::no_match_before, 2);
        assert(Self::no_match_before(w, 1));
        assert(Self::matches_pattern(w, 1));
        Self::lemma_first_match_at(w, 1);
        assert(JalArgs::spec_take_args(w) == a);
    }

    proof fn lemma_decode_lui(a: LuiArgs)
        requires
            a.wf(),
        ensures
            Self::spec_decode_word(a.spec_encoded()) == Some(Instruction::Lui(a)),
    {
        let w = a.spec_encoded();
        lemma_layout_0(0x37, w, a.rd as u32, a.imm31_12 as u32);
        lemma_decoder_masks(w);
        reveal_with_fuel(Instruction::no_match_before, 3);
        assert(Self::no_match_before(w, 2));
        assert(Self::matches_pattern(w, 2));
        Self::lemma_first_match_at(w, 2);
        assert(LuiArgs::spec_take_args(w) == a);
    }

    proof fn lemma_decode_fmsubs(a: FmsubSArgs)
        requires
            a.wf(),
        ensures
            Self::spec_decode_word(a.spec_encoded()) == Some(Instruction::FmsubS(a)),
    {
        let w = a.spec_encoded();
        lemma_layout_2(0x47, w, a.rm as u32, a.rs3 as u32, a.rs2 as u32, a.rd as u32, a.rs1 as u32);
        lemma_decoder_masks(w);
        reveal_with_fuel(Instruction::no_match_before, 4);
        assert(Self::no_match_before(w, 3));
        assert(Self::matches_pattern(w, 3));
        Self::lemma_first_match_at(w, 3);
        assert(FmsubSArgs::spec_take_args(w) == a);
    }

    proof fn lemma_decode_fnmsubs(a: FnmsubSArgs)
        requires
            a.wf(),
        ensures
            Self::spec_decode_word(a.spec_encoded()) == Some(Instruction::FnmsubS(a)),
    {
        let w = a.spec_encoded();
        lemma_layout_2(0x4b, w, a.rm as u32, a.rs3 as u32, a.rs2 as u32, a.rd as u32, a.rs1 as u32);
        lemma_decoder_masks(w);
        reveal_with_fuel(Instruction::no_match_before, 5);
        assert(Self::no_match_before(w, 4));
        assert(Self::matches_pattern(w, 4));
        Self::lemma_first_match_at(w, 4);
        assert(FnmsubSArgs::spec_take_args(w) == a);
    }

    proof fn lemma_decode_fnmadds(a: FnmaddSArgs)
        requires
            a.wf(),
        ensures
            Self::spec_decode_word(a.spec_encoded()) == Some(Instruction::FnmaddS(a)),
    {
        let w = a.spec_encoded();
        lemma_layout_2(0x4f, w, a.rm as u32, a.rs3 as u32, a.rs2 as u32, a.rd as u32, a.rs1 as u32);
        lemma_decoder_masks(w);
        reveal_with_fuel(Instruction::no_match_before, 6);
        assert(Self::no_match_before(w, 5));
        assert(Self::matches_pattern(w, 5));
        Self::lemma_first_match_at(w, 5);
        assert(FnmaddSArgs::spec_take_args(w) == a);
    }

    proof fn lemma_decode_fmadds(a: FmaddSArgs)
        requires
            a.wf(),
        ensures
            Self::spec_decode_word(a.spec_encoded()) == Some(Instruction::FmaddS(a)),
    {
        let w = a.spec_encoded();
        lemma_layout_2(0x43, w, a.rm as u32, a.rs3 as u32, a.rs2 as u32, a.rd as u32, a.rs1 as u32);
        lemma_decoder_masks(w);
        reveal_with_fuel(Instruction::no_match_before, 7);
        assert(Self::no_match_before(w, 6));
        assert(Self::matches_pattern(w, 6));
        Self::lemma_first_match_at(w, 6);
        assert(FmaddSArgs::spec_take_args(w) == a);
    }

    proof fn lemma_decode_sb(a: SbArgs)
        requires
            a.wf(),
        ensures
            Self::spec_decode_word(a.spec_encoded()) == Some(Instruction::Sb(a)),
    {
        let w = a.spec_encoded();
        lemma_layout_3(0x23, w, a.rs1 as u32, a.imm11_5 as u32, a.imm4_0 as u32, a.rs2 as u32);
        lemma_decoder_masks(w);
        reveal_with_fuel(Instruction::no_match_before, 8);
        assert(Self::no_match_before(w, 7));
        assert(Self::matches_pattern(w, 7));
        Self::lemma_first_match_at(w, 7);
        assert(SbArgs::spec_take_args(w) == a);
    }

    proof fn lemma_decode_lw(a: LwArgs)
        requires
            a.wf(),
        ensures
            Self::spec_decode_word(a.spec_encoded()) == Some(Instruction::Lw(a)),
    {
        let w = a.spec_encoded();
        lemma_layout_4(0x2003, w, a.rs as u32, a.rd as u32, a.imm11_0 as u32);
        lemma_decoder_masks(w);
        reveal_with_fuel(Instruction::no_match_before, 9);
        assert(Self::no_match_before(w, 8));
        assert(Self::matches_pattern(w, 8));
        Self::lemma_first_match_at(w, 8);
        assert(LwArgs::spec_take_args(w) == a);
    }

    proof fn lemma_decode_bge(a: BgeArgs)
        requires
            a.wf(),
        ensures
            Self::spec_decode_word(a.spec_encoded()) == Some(Instruction::Bge(a)),
    {
        let w = a.spec_encoded();
        lemma_layout_5(0x5063, w, a.imm10_5 as u32, a.rs1 as u32, a.imm4_1 as u32, a.imm12 as u32, a.rs2 as u32, a.imm11 as u32);
        lemma_decoder_masks(w);
        reveal_with_fuel(Instruction::no_match_before, 10);
        assert(Self::no_match_before(w, 9));
        assert(Self::matches_pattern(w, 9));
        Self::lemma_first_match_at(w, 9);
        assert(BgeArgs::spec_take_args(w) == a);
    }

    proof fn lemma_decode_bne(a: BneArgs)
        requires
            a.wf(),
        ensures
            Self::spec_decode_word(a.spec_encoded()) == Some(Instruction::Bne(a)),
    {
        let w = a.spec_encoded();
        lemma_layout_5(0x1063, w, a.imm10_5 as u32, a.rs1 as u32, a.imm4_1 as u32, a.imm12 as u32, a.rs2 as u32, a.imm11 as u32);
        lemma_decoder_masks(w);
        reveal_with_fuel(Instruction::no_match_before, 11);
        assert(Self::no_match_before(w, 10));
        assert(Self::matches_pattern(w, 10));
        Self::lemma_first_match_at(w, 10);
        assert(BneArgs::spec_take_args(w) == a);
    }

    proof fn lemma_decode_lbu(a: LbuArgs)
        requires
            a.wf(),
        ensures
            Self::spec_decode_word(a.spec_encoded()) == Some(Instruction::Lbu(a)),
    {
        let w = a.spec_encoded();
        lemma_layout_4(0x4003, w, a.rs as u32, a.rd as u32, a.imm11_0 as u32);
        lemma_decoder_masks(w);
        reveal_with_fuel(Instruction::no_match_before, 12);
        assert(Self::no_match_before(w, 11));
        assert(Self::matches_pattern(w, 11));
        Self::lemma_first_match_at(w, 11);
        assert(LbuArgs::spec_take_args(w) == a);
    }

    proof fn lemma_decode_bltu(a: BltuArgs)
        requires
            a.wf(),
        ensures
            Self::spec_decode_word(a.spec_encoded()) == Some(Instruction::Bltu(a)),
    {
        let w = a.spec_encoded();
        lemma_layout_5(0x6063, w, a.imm10_5 as u32, a.rs1 as u32, a.imm4_1 as u32, a.imm12 as u32, a.rs2 as u32, a.imm11 as u32);
        lemma_decoder_masks(w);
        reveal_with_fuel(Instruction::no_match_before, 13);
        assert(Self::no_match_before(w, 12));
        assert(Self::matches_pattern(w, 12));
        Self::lemma_first_match_at(w, 12);
        assert(BltuArgs::spec_take_args(w) == a);
    }

    proof fn lemma_decode_csrrw(a: CsrrwArgs)
        requires
            a.wf(),
        ensures
            Self::spec_decode_word(a.spec_encoded()) == Some(Instruction::Csrrw(a)),
    {
        let w = a.spec_encoded();
        lemma_layout_4(0x1073, w, a.rs1 as u32, a.rd as u32, a.csr as u32);
        lemma_decoder_masks(w);
        reveal_with_fuel(Instruction::no_match_before, 14);
        assert(Self::no_match_before(w, 13));
        assert(Self::matches_pattern(w, 13));
        Self::lemma_first_match_at(w, 13);
        assert(CsrrwArgs::spec_take_args(w) == a);
    }

    proof fn lemma_decode_xori(a: XoriArgs)
        requires
            a.wf(),
        ensures
            Self::spec_decode_word(a.spec_encoded()) == Some(Instruction::Xori(a)),
    {
        let w = a.spec_encoded();
        lemma_layout_4(0x4013, w, a.rs as u32, a.rd as u32, a.imm11_0 as u32);
        lemma_decoder_masks(w);
        reveal_with_fuel(Instruction::no_match_before, 15);
        assert(Self::no_match_before(w, 14));
        assert(Self::matches_pattern(w, 14));
        Self::lemma_first_match_at(w, 14);
        assert(XoriArgs::spec_take_args(w) == a);
    }

    proof fn lemma_decode_andi(a: AndiArgs)
        requires
            a.wf(),
        ensures
            Self::spec_decode_word(a.spec_encoded()) == Some(Instruction::Andi(a)),
    {
        let w = a.spec_encoded();
        lemma_layout_4(0x7013, w, a.rs as u32, a.rd as u32, a.imm11_0 as u32);
        lemma_decoder_masks(w);
        reveal_with_fuel(Instruction::no_match_before, 16);
        assert(Self::no_match_before(w, 15));
        assert(Self::matches_pattern(w, 15));
        Self::lemma_first_match_at(w, 15);
        assert(AndiArgs::spec_take_args(w) == a);
    }

    proof fn lemma_decode_sw(a: SwArgs)
        requires
            a.wf(),
        ensures
            Self::spec_decode_word(a.spec_encoded()) == Some(Instruction::Sw(a)),
    {
        let w = a.spec_encoded();
        lemma_layout_3(0x2023, w, a.rs1 as u32, a.imm11_5 as u32, a.imm4_0 as u32, a.rs2 as u32);
        lemma_decoder_masks(w);
        reveal_with_fuel(Instruction::no_match_before, 17);
        assert(Self::no_match_before(w, 16));
        assert(Self::matches_pattern(w, 16));
        Self::lemma_first_match_at(w, 16);
        assert(SwArgs::spec_take_args(w) == a);
    }

    proof fn lemma_decode_csrrs(a: CsrrsArgs)
        requires
            a.wf(),
        ensures
            Self::spec_decode_word(a.spec_encoded()) == Some(Instruction::Csrrs(a)),
    {
        let w = a.spec_encoded();
        lemma_layout_4(0x2073, w, a.rs1 as u32, a.rd as u32, a.csr as u32);
        lemma_decoder_masks(w);
        reveal_with_fuel(Instruction::no_match_before, 18);
        assert(Self::no_match_before(w, 17));
        assert(Self::matches_pattern(w, 17));
        Self::lemma_first_match_at(w, 17);
        assert(CsrrsArgs::spec_take_args(w) == a);
    }

    proof fn lemma_decode_sh(a: ShArgs)
        requires
            a.wf(),
        ensures
            Self::spec_decode_word(a.spec_encoded()) == Some(Instruction::Sh(a)),
    {
        let w = a.spec_encoded();
        lemma_layout_3(0x1023, w, a.rs1 as u32, a.imm11_5 as u32, a.imm4_0 as u32, a.rs2 as u32);
        lemma_decoder_masks(w);
        reveal_with_fuel(Instruction::no_match_before, 19);
        assert(Self::no_match_before(w, 18));
        assert(Self::matches_pattern(w, 18));
        Self::lemma_first_match_at(w, 18);
        assert(ShArgs::spec_take_args(w) == a);
    }

    proof fn lemma_decode_sltiu(a: SltiuArgs)
        requires
            a.wf(),
        ensures
            Self::spec_decode_word(a.spec_encoded()) == Some(Instruction::Sltiu(a)),
    {
        let w = a.spec_encoded();
        lemma_layout_4(0x3013, w, a.rs as u32, a.rd as u32, a.imm11_0 as u32);
        lemma_decoder_masks(w);
        reveal_with_fuel(Instruction::no_match_before, 20);
        assert(Self::no_match_before(w, 19));
        assert(Self::matches_pattern(w, 19));
        Self::lemma_first_match_at(w, 19);
        assert(SltiuArgs::spec_take_args(w) == a);
    }

    proof fn lemma_decode_lb(a: LbArgs)
        requires
            a.wf(),
        ensures
            Self::spec_decode_word(a.spec_encoded()) == Some(Instruction::Lb(a)),
    {
        let w = a.spec_encoded();
        lemma_layout_4(0x3, w, a.rs as u32, a.rd as u32, a.imm11_0 as u32);
        lemma_decoder_masks(w);
        reveal_with_fuel(Instruction::no_match_before, 21);
        assert(Self::no_match_before(w, 20));
        assert(Self::matches_pattern(w, 20));
        Self::lemma_first_match_at(w, 20);
        assert(LbArgs::spec_take_args(w) == a);
    }

    proof fn lemma_decode_lh(a: LhArgs)
        requires
            a.wf(),
        ensures
            Self::spec_decode_word(a.spec_encoded()) == Some(Instruction::Lh(a)),
    {
        let w = a.spec_encoded();
        lemma_layout_4(0x1003, w, a.rs as u32, a.rd as u32, a.imm11_0 as u32);
        lemma_decoder_masks(w);
        reveal_with_fuel(Instruction::no_match_before, 22);
        assert(Self::no_match_before(w, 21));
        assert(Self::matches_pattern(w, 21));
        Self::lemma_first_match_at(w, 21);
        assert(LhArgs::spec_take_args(w) == a);
    }

    proof fn lemma_decode_csrrwi(a: CsrrwiArgs)
        requires
            a.wf(),
        ensures
            Self::spec_decode_word(a.spec_encoded()) == Some(Instruction::Csrrwi(a)),
    {
        let w = a.spec_encoded();
        lemma_layout_4(0x5073, w, a.uimm as u32, a.rd as u32, a.csr as u32);
        lemma_decoder_masks(w);
        reveal_with_fuel(Instruction::no_match_before, 23);
        assert(Self::no_match_before(w, 22));
        assert(Self::matches_pattern(w, 22));
        Self::lemma_first_match_at(w, 22);
        assert(CsrrwiArgs::spec_take_args(w) == a);
    }

    proof fn lemma_decode_slti(a: SltiArgs)
        requires
            a.wf(),
        ensures
            Self::spec_decode_word(a.spec_encoded()) == Some(Instruction::Slti(a)),
    {
        let w = a.spec_encoded();
        lemma_layout_4(0x2013, w, a.rs as u32, a.rd as u32, a.imm11_0 as u32);
        lemma_decoder_masks(w);
        reveal_with_fuel(Instruction::no_match_before, 24);
        assert(Self::no_match_before(w, 23));
        assert(Self::matches_pattern(w, 23));
        Self::lemma_first_match_at(w, 23);
        assert(SltiArgs::spec_take_args(w) == a);
    }

    proof fn lemma_decode_csrrc(a: CsrrcArgs)
        requires
            a.wf(),
        ensures
            Self::spec_decode_word(a.spec_encoded()) == Some(Instruction::Csrrc(a)),
    {
        let w = a.spec_encoded();
        lemma_layout_4(0x3073, w, a.rs1 as u32, a.rd as u32, a.csr as u32);
        lemma_decoder_masks(w);
        reveal_with_fuel(Instruction::no_match_before, 25);
        assert(Self::no_match_before(w, 24));
        assert(Self::matches_pattern(w, 24));
        Self::lemma_first_match_at(w, 24);
        assert(CsrrcArgs::spec_take_args(w) == a);
    }

    proof fn lemma_decode_lhu(a: LhuArgs)
        requires
            a.wf(),
        ensures
            Self::spec_decode_word(a.spec_encoded()) == Some(Instruction::Lhu(a)),
    {
        let w = a.spec_encoded();
        lemma_layout_4(0x5003, w, a.rs as u32, a.rd as u32, a.imm11_0 as u32);
        lemma_decoder_masks(w);
        reveal_with_fuel(Instruction::no_match_before, 26);
        assert(Self::no_match_before(w, 25));
        assert(Self::matches_pattern(w, 25));
        Self::lemma_first_match_at(w, 25);
        assert(LhuArgs::spec_take_args(w) == a);
    }

    proof fn lemma_decode_fsw(a: FswArgs)
        requires
            a.wf(),
        ensures
            Self::spec_decode_word(a.spec_encoded()) == Some(Instruction::Fsw(a)),
    {
        let w = a.spec_encoded();
        lemma_layout_3(0x2027, w, a.rs1 as u32, a.imm11_5 as u32, a.imm4_0 as u32, a.rs2 as u32);
        lemma_decoder_masks(w);
        reveal_with_fuel(Instruction::no_match_before, 27);
        assert(Self::no_match_before(w, 26));
        assert(Self::matches_pattern(w, 26));
        Self::lemma_first_match_at(w, 26);
        assert(FswArgs::spec_take_args(w) == a);
    }

    proof fn lemma_decode_addi(a: AddiArgs)
        requires
            a.wf(),
        ensures
            Self::spec_decode_word(a.spec_encoded()) == Some(Instruction::Addi(a)),
    {
        let w = a.spec_encoded();
        lemma_layout_4(0x13, w, a.rs as u32, a.rd as u32, a.imm11_0 as u32);
        lemma_decoder_masks(w);
        reveal_with_fuel(Instruction::no_match_before, 28);
        assert(Self::no_match_before(w, 27));
        assert(Self::matches_pattern(w, 27));
        Self::lemma_first_match_at(w, 27);
        assert(AddiArgs::spec_take_args(w) == a);
    }

    proof fn lemma_decode_blt(a: BltArgs)
        requires
            a.wf(),
        ensures
            Self::spec_decode_word(a.spec_encoded()) == Some(Instruction::Blt(a)),
    {
        let w = a.spec_encoded();
        lemma_layout_5(0x4063, w, a.imm10_5 as u32, a.rs1 as u32, a.imm4_1 as u32, a.imm12 as u32, a.rs2 as u32, a.imm11 as u32);
        lemma_decoder_masks(w);
        reveal_with_fuel(Instruction::no_match_before, 29);
        assert(Self::no_match_before(w, 28));
        assert(Self::matches_pattern(w, 28));
        Self::lemma_first_match_at(w, 28);
        assert(BltArgs::spec_take_args(w) == a);
    }

    proof fn lemma_decode_bgeu(a: BgeuArgs)
        requires
            a.wf(),
        ensures
            Self::spec_decode_word(a.spec_encoded()) == Some(Instruction::Bgeu(a)),
    {
        let w = a.spec_encoded();
        lemma_layout_5(0x7063, w, a.imm10_5 as u32, a.rs1 as u32, a.imm4_1 as u32, a.imm12 as u32, a.rs2 as u32, a.imm11 as u32);
        lemma_decoder_masks(w);
        reveal_with_fuel(Instruction::no_match_before, 30);
        assert(Self::no_match_before(w, 29));
        assert(Self::matches_pattern(w, 29));
        Self::lemma_first_match_at(w, 29);
        assert(BgeuArgs::spec_take_args(w) == a);
    }

    proof fn lemma_decode_csrrsi(a: CsrrsiArgs)
        requires
            a.wf(),
        ensures
            Self::spec_decode_word(a.spec_encoded()) == Some(Instruction::Csrrsi(a)),
    {
        let w = a.spec_encoded();
        lemma_layout_4(0x6073, w, a.uimm as u32, a.rd as u32, a.csr as u32);
        lemma_decoder_masks(w);
        reveal_with_fuel(Instruction::no_match_before, 31);
        assert(Self::no_match_before(w, 30));
        assert(Self::matches_pattern(w, 30));
        Self::lemma_first_match_at(w, 30);
        assert(CsrrsiArgs::spec_take_args(w) == a);
    }

    proof fn lemma_decode_csrrci(a: CsrrciArgs)
        requires
            a.wf(),
        ensures
            Self::spec_decode_word(a.spec_encoded()) == Some(Instruction::Csrrci(a)),
    {
        let w = a.spec_encoded();
        lemma_layout_4(0x7073, w, a.uimm as u32, a.rd as u32, a.csr as u32);
        lemma_decoder_masks(w);
        reveal_with_fuel(Instruction::no_match_before, 32);
        assert(Self::no_match_before(w, 31));
        assert(Self::matches_pattern(w, 31));
        Self::lemma_first_match_at(w, 31);
        assert(CsrrciArgs::spec_take_args(w) == a);
    }

    proof fn lemma_decode_jalr(a: JalrArgs)
        requires
            a.wf(),
        ensures
            Self::spec_decode_word(a.spec_encoded()) == Some(Instruction::Jalr(a)),
    {
        let w = a.spec_encoded();
        lemma_layout_4(0x67, w, a.rs as u32, a.rd as u32, a.imm11_0 as u32);
        lemma_decoder_masks(w);
        reveal_with_fuel(Instruction::no_match_before, 33);
        assert(Self::no_match_before(w, 32));
        assert(Self::matches_pattern(w, 32));
        Self::lemma_first_match_at(w, 32);
        assert(JalrArgs::spec_take_args(w) == a);
    }

    proof fn lemma_decode_flw(a: FlwArgs)
        requires
            a.wf(),
        ensures
            Self::spec_decode_word(a.spec_encoded()) == Some(Instruction::Flw(a)),
    {
        let w = a.spec_encoded();
        lemma_layout_4(0x2007, w, a.rs1 as u32, a.rd as u32, a.imm11_0 as u32);
        lemma_decoder_masks(w);
        reveal_with_fuel(Instruction::no_match_before, 34);
        assert(Self::no_match_before(w, 33));
        assert(Self::matches_pattern(w, 33));
        Self::lemma_first_match_at(w, 33);
        assert(FlwArgs::spec_take_args(w) == a);
    }

    proof fn lemma_decode_beq(a: BeqArgs)
        requires
            a.wf(),
        ensures
            Self::spec_decode_word(a.spec_encoded()) == Some(Instruction::Beq(a)),
    {
        let w = a.spec_encoded();
        lemma_layout_5(0x63, w, a.imm10_5 as u32, a.rs1 as u32, a.imm4_1 as u32, a.imm12 as u32, a.rs2 as u32, a.imm11 as u32);
        lemma_decoder_masks(w);
        reveal_with_fuel(Instruction::no_match_before, 35);
        assert(Self::no_match_before(w, 34));
        assert(Self::matches_pattern(w, 34));
        Self::lemma_first_match_at(w, 34);
        assert(BeqArgs::spec_take_args(w) == a);
    }

    proof fn lemma_decode_ori(a: OriArgs)
        requires
            a.wf(),
        ensures
            Self::spec_decode_word(a.spec_encoded()) == Some(Instruction::Ori(a)),
    {
        let w = a.spec_encoded();
        lemma_layout_4(0x6013, w, a.rs as u32, a.rd as u32, a.imm11_0 as u32);
        lemma_decoder_masks(w);
        reveal_with_fuel(Instruction::no_match_before, 36);
        assert(Self::no_match_before(w, 35));
        assert(Self::matches_pattern(w, 35));
        Self::lemma_first_match_at(w, 35);
        assert(OriArgs::spec_take_args(w) == a);
    }

    proof fn lemma_decode_fdivs(a: FdivSArgs)
        requires
            a.wf(),
        ensures
            Self::spec_decode_word(a.spec_encoded()) == Some(Instruction::FdivS(a)),
    {
        let w = a.spec_encoded();
        lemma_layout_6(0x18000053, w, a.rs1 as u32, a.rm as u32, a.rd as u32, a.rs2 as u32);
        lemma_decoder_masks(w);
        reveal_with_fuel(Instruction::no_match_before, 37);
        assert(Self::no_match_before(w, 36));
        assert(Self::matches_pattern(w, 36));
        Self::lemma_first_match_at(w, 36);
        assert(FdivSArgs::spec_take_args(w) == a);
    }

    proof fn lemma_decode_fsubs(a: FsubSArgs)
        requires
            a.wf(),
        ensures
            Self::spec_decode_word(a.spec_encoded()) == Some(Instruction::FsubS(a)),
    {
        let w = a.spec_encoded();
        lemma_layout_6(0x8000053, w, a.rs1 as u32, a.rm as u32, a.rd as u32, a.rs2 as u32);
        lemma_decoder_masks(w);
        reveal_with_fuel(Instruction::no_match_before, 38);
        assert(Self::no_match_before(w, 37));
        assert(Self::matches_pattern(w, 37));
        Self::lemma_first_match_at(w, 37);
        assert(FsubSArgs::spec_take_args(w) == a);
    }

    proof fn lemma_decode_fadds(a: FaddSArgs)
        requires
            a.wf(),
        ensures
            Self::spec_decode_word(a.spec_encoded()) == Some(Instruction::FaddS(a)),
    {
        let w = a.spec_encoded();
        lemma_layout_6(0x53, w, a.rs1 as u32, a.rm as u32, a.rd as u32, a.rs2 as u32);
        lemma_decoder_masks(w);
        reveal_with_fuel(Instruction::no_match_before, 39);
        assert(Self::no_match_before(w, 38));
        assert(Self::matches_pattern(w, 38));
        Self::lemma_first_match_at(w, 38);
        assert(FaddSArgs::spec_take_args(w) == a);
    }

    proof fn lemma_decode_fmuls(a: FmulSArgs)
        requires
            a.wf(),
        ensures
            Self::spec_decode_word(a.spec_encoded()) == Some(Instruction::FmulS(a)),
    {
        let w = a.spec_encoded();
        lemma_layout_6(0x10000053, w, a.rs1 as u32, a.rm as u32, a.rd as u32, a.rs2 as u32);
        lemma_decoder_masks(w);
        reveal_with_fuel(Instruction::no_match_before, 40);
        assert(Self::no_match_before(w, 39));
        assert(Self::matches_pattern(w, 39));
        Self::lemma_first_match_at(w, 39);
        assert(FmulSArgs::spec_take_args(w) == a);
    }

    proof fn lemma_decode_srai(a: SraiArgs)
        requires
            a.wf(),
        ensures
            Self::spec_decode_word(a.spec_encoded()) == Some(Instruction::Srai(a)),
    {
        let w = a.spec_encoded();
        lemma_layout_7(0x40005013, w, a.rs as u32, a.rd as u32, a.shamt as u32);
        lemma_decoder_masks(w);
        reveal_with_fuel(Instruction::no_match_before, 41);
        assert(Self::no_match_before(w, 40));
        assert(Self::matches_pattern(w, 40));
        Self::lemma_first_match_at(w, 40);
        assert(SraiArgs::spec_take_args(w) == a);
    }

    proof fn lemma_decode_feqs(a: FeqSArgs)
        requires
            a.wf(),
        ensures
            Self::spec_decode_word(a.spec_encoded()) == Some(Instruction::FeqS(a)),
    {
        let w = a.spec_encoded();
        lemma_layout_7(0xa0002053, w, a.rs1 as u32, a.rd as u32, a.rs2 as u32);
        lemma_decoder_masks(w);
        reveal_with_fuel(Instruction::no_match_before, 42);
        assert(Self::no_match_before(w, 41));
        assert(Self::matches_pattern(w, 41));
        Self::lemma_first_match_at(w, 41);
        assert(FeqSArgs::spec_take_args(w) == a);
    }

    proof fn lemma_decode_add(a: AddArgs)
        requires
            a.wf(),
        ensures
            Self::spec_decode_word(a.spec_encoded()) == Some(Instruction::Add(a)),
    {
        let w = a.spec_encoded();
        lemma_layout_7(0x33, w, a.rs1 as u32, a.rd as u32, a.rs2 as u32);
        lemma_decoder_masks(w);
        reveal_with_fuel(Instruction::no_match_before, 43);
        assert(Self::no_match_before(w, 42));
        assert(Self::matches_pattern(w, 42));
        Self::lemma_first_match_at(w, 42);
        assert(AddArgs::spec_take_args(w) == a);
    }

    proof fn lemma_decode_slli(a: SlliArgs)
        requires
            a.wf(),
        ensures
            Self::spec_decode_word(a.spec_encoded()) == Some(Instruction::Slli(a)),
    {
        let w = a.spec_encoded();
        lemma_layout_7(0x1013, w, a.rs as u32, a.rd as u32, a.shamt as u32);
        lemma_decoder_masks(w);
        reveal_with_fuel(Instruction::no_match_before, 44);
        assert(Self::no_match_before(w, 43));
        assert(Self::matches_pattern(w, 43));
        Self::lemma_first_match_at(w, 43);
        assert(SlliArgs::spec_take_args(w) == a);
    }

    proof fn lemma_decode_sltu(a: SltuArgs)
        requires
            a.wf(),
        ensures
            Self::spec_decode_word(a.spec_encoded()) == Some(Instruction::Sltu(a)),
    {
        let w = a.spec_encoded();
        lemma_layout_7(0x3033, w, a.rs1 as u32, a.rd as u32, a.rs2 as u32);
        lemma_decoder_masks(w);
        reveal_with_fuel(Instruction::no_match_before, 45);
        assert(Self::no_match_before(w, 44));
        assert(Self::matches_pattern(w, 44));
        Self::lemma_first_match_at(w, 44);
        assert(SltuArgs::spec_take_args(w) == a);
    }

    proof fn lemma_decode_fsgnjxs(a: FsgnjxSArgs)
        requires
            a.wf(),
        ensures
            Self::spec_decode_word(a.spec_encoded()) == Some(Instruction::FsgnjxS(a)),
    {
        let w = a.spec_encoded();
        lemma_layout_7(0x20002053, w, a.rs1 as u32, a.rd as u32, a.rs2 as u32);
        lemma_decoder_masks(w);
        reveal_with_fuel(Instruction::no_match_before, 46);
        assert(Self::no_match_before(w, 45));
        assert(Self::matches_pattern(w, 45));
        Self::lemma_first_match_at(w, 45);
        assert(FsgnjxSArgs::spec_take_args(w) == a);
    }

    proof fn lemma_decode_flts(a: FltSArgs)
        requires
            a.wf(),
        ensures
            Self::spec_decode_word(a.spec_encoded()) == Some(Instruction::FltS(a)),
    {
        let w = a.spec_encoded();
        lemma_layout_7(0xa0001053, w, a.rs1 as u32, a.rd as u32, a.rs2 as u32);
        lemma_decoder_masks(w);
        reveal_with_fuel(Instruction::no_match_before, 47);
        assert(Self::no_match_before(w, 46));
        assert(Self::matches_pattern(w, 46));
        Self::lemma_first_match_at(w, 46);
        assert(FltSArgs::spec_take_args(w) == a);
    }

    proof fn lemma_decode_fsgnjs(a: FsgnjSArgs)
        requires
            a.wf(),
        ensures
            Self::spec_decode_word(a.spec_encoded()) == Some(Instruction::FsgnjS(a)),
    {
        let w = a.spec_encoded();
        lemma_layout_7(0x20000053, w, a.rs1 as u32, a.rd as u32, a.rs2 as u32);
        lemma_decoder_masks(w);
        reveal_with_fuel(Instruction::no_match_before, 48);
        assert(Self::no_match_before(w, 47));
        assert(Self::matches_pattern(w, 47));
        Self::lemma_first_match_at(w, 47);
        assert(FsgnjSArgs::spec_take_args(w) == a);
    }

    proof fn lemma_decode_fmaxs(a: FmaxSArgs)
        requires
            a.wf(),
        ensures
            Self::spec_decode_word(a.spec_encoded()) == Some(Instruction::FmaxS(a)),
    {
        let w = a.spec_encoded();
        lemma_layout_7(0x28001053, w, a.rs1 as u32, a.rd as u32, a.rs2 as u32);
        lemma_decoder_masks(w);
        reveal_with_fuel(Instruction::no_match_before, 49);
        assert(Self::no_match_before(w, 48));
        assert(Self::matches_pattern(w, 48));
        Self::lemma_first_match_at(w, 48);
        assert(FmaxSArgs::spec_take_args(w) == a);
    }

    proof fn lemma_decode_fsgnjns(a: FsgnjnSArgs)
        requires
            a.wf(),
        ensures
            Self::spec_decode_word(a.spec_encoded()) == Some(Instruction::FsgnjnS(a)),
    {
        let w = a.spec_encoded();
        lemma_layout_7(0x20001053, w, a.rs1 as u32, a.rd as u32, a.rs2 as u32);
        lemma_decoder_masks(w);
        reveal_with_fuel(Instruction::no_match_before, 50);
        assert(Self::no_match_before(w, 49));
        assert(Self::matches_pattern(w, 49));
        Self::lemma_first_match_at(w, 49);
        assert(FsgnjnSArgs::spec_take_args(w) == a);
    }

    proof fn lemma_decode_fmins(a: FminSArgs)
        requires
            a.wf(),
        ensures
            Self::spec_decode_word(a.spec_encoded()) == Some(Instruction::FminS(a)),
    {
        let w = a.spec_encoded();
        lemma_layout_7(0x28000053, w, a.rs1 as u32, a.rd as u32, a.rs2 as u32);
        lemma_decoder_masks(w);
        reveal_with_fuel(Instruction::no_match_before, 51);
        assert(Self::no_match_before(w, 50));
        assert(Self::matches_pattern(w, 50));
        Self::lemma_first_match_at(w, 50);
        assert(FminSArgs::spec_take_args(w) == a);
    }

    proof fn lemma_decode_xor(a: XorArgs)
        requires
            a.wf(),
        ensures
            Self::spec_decode_word(a.spec_encoded()) == Some(Instruction::Xor(a)),
    {
        let w = a.spec_encoded();
        lemma_layout_7(0x4033, w, a.rs1 as u32, a.rd as u32, a.rs2 as u32);
        lemma_decoder_masks(w);
        reveal_with_fuel(Instruction::no_match_before, 52);
        assert(Self::no_match_before(w, 51));
        assert(Self::matches_pattern(w, 51));
        Self::lemma_first_match_at(w, 51);
        assert(XorArgs::spec_take_args(w) == a);
    }

    proof fn lemma_decode_srli(a: SrliArgs)
        requires
            a.wf(),
        ensures
            Self::spec_decode_word(a.spec_encoded()) == Some(Instruction::Srli(a)),
    {
        let w = a.spec_encoded();
        lemma_layout_7(0x5013, w, a.rs as u32, a.rd as u32, a.shamt as u32);
        lemma_decoder_masks(w);
        reveal_with_fuel(Instruction::no_match_before, 53);
        assert(Self::no_match_before(w, 52));
        assert(Self::matches_pattern(w, 52));
        Self::lemma_first_match_at(w, 52);
        assert(SrliArgs::spec_take_args(w) == a);
    }

    proof fn lemma_decode_slt(a: SltArgs)
        requires
            a.wf(),
        ensures
            Self::spec_decode_word(a.spec_encoded()) == Some(Instruction::Slt(a)),
    {
        let w = a.spec_encoded();
        lemma_layout_7(0x2033, w, a.rs1 as u32, a.rd as u32, a.rs2 as u32);
        lemma_decoder_masks(w);
        reveal_with_fuel(Instruction::no_match_before, 54);
        assert(Self::no_match_before(w, 53));
        assert(Self::matches_pattern(w, 53));
        Self::lemma_first_match_at(w, 53);
        assert(SltArgs::spec_take_args(w) == a);
    }

    proof fn lemma_decode_sub(a: SubArgs)
        requires
            a.wf(),
        ensures
            Self::spec_decode_word(a.spec_encoded()) == Some(Instruction::Sub(a)),
    {
        let w = a.spec_encoded();
        lemma_layout_7(0x40000033, w, a.rs1 as u32, a.rd as u32, a.rs2 as u32);
        lemma_decoder_masks(w);
        reveal_with_fuel(Instruction::no_match_before, 55);
        assert(Self::no_match_before(w, 54));
        assert(Self::matches_pattern(w, 54));
        Self::lemma_first_match_at(w, 54);
        assert(SubArgs::spec_take_args(w) == a);
    }

    proof fn lemma_decode_sll(a: SllArgs)
        requires
            a.wf(),
        ensures
            Self::spec_decode_word(a.spec_encoded()) == Some(Instruction::Sll(a)),
    {
        let w = a.spec_encoded();
        lemma_layout_7(0x1033, w, a.rs1 as u32, a.rd as u32, a.rs2 as u32);
        lemma_decoder_masks(w);
        reveal_with_fuel(Instruction::no_match_before, 56);
        assert(Self::no_match_before(w, 55));
        assert(Self::matches_pattern(w, 55));
        Self::lemma_first_match_at(w, 55);
        assert(SllArgs::spec_take_args(w) == a);
    }

    proof fn lemma_decode_srl(a: SrlArgs)
        requires
            a.wf(),
        ensures
            Self::spec_decode_word(a.spec_encoded()) == Some(Instruction::Srl(a)),
    {
        let w = a.spec_encoded();
        lemma_layout_7(0x5033, w, a.rs1 as u32, a.rd as u32, a.rs2 as u32);
        lemma_decoder_masks(w);
        reveal_with_fuel(Instruction::no_match_before, 57);
        assert(Self::no_match_before(w, 56));
        assert(Self::matches_pattern(w, 56));
        Self::lemma_first_match_at(w, 56);
        assert(SrlArgs::spec_take_args(w) == a);
    }

    proof fn lemma_decode_sra(a: SraArgs)
        requires
            a.wf(),
        ensures
            Self::spec_decode_word(a.spec_encoded()) == Some(Instruction::Sra(a)),
    {
        let w = a.spec_encoded();
        lemma_layout_7(0x40005033, w, a.rs1 as u32, a.rd as u32, a.rs2 as u32);
        lemma_decoder_masks(w);
        reveal_with_fuel(Instruction::no_match_before, 58);
        assert(Self::no_match_before(w, 57));
        assert(Self::matches_pattern(w, 57));
        Self::lemma_first_match_at(w, 57);
        assert(SraArgs::spec_take_args(w) == a);
    }

    proof fn lemma_decode_fles(a: FleSArgs)
        requires
            a.wf(),
        ensures
            Self::spec_decode_word(a.spec_encoded()) == Some(Instruction::FleS(a)),
    {
        let w = a.spec_encoded();
        lemma_layout_7(0xa0000053, w, a.rs1 as u32, a.rd as u32, a.rs2 as u32);
        lemma_decoder_masks(w);
        reveal_with_fuel(Instruction::no_match_before, 59);
        assert(Self::no_match_before(w, 58));
        assert(Self::matches_pattern(w, 58));
        Self::lemma_first_match_at(w, 58);
        assert(FleSArgs::spec_take_args(w) == a);
    }

    proof fn lemma_decode_and(a: AndArgs)
        requires
            a.wf(),
        ensures
            Self::spec_decode_word(a.spec_encoded()) == Some(Instruction::And(a)),
    {
        let w = a.spec_encoded();
        lemma_layout_7(0x7033, w, a.rs1 as u32, a.rd as u32, a.rs2 as u32);
        lemma_decoder_masks(w);
        reveal_with_fuel(Instruction::no_match_before, 60);
        assert(Self::no_match_before(w, 59));
        assert(Self::matches_pattern(w, 59));
        Self::lemma_first_match_at(w, 59);
        assert(AndArgs::spec_take_args(w) == a);
    }

    proof fn lemma_decode_or(a: OrArgs)
        requires
            a.wf(),
        ensures
            Self::spec_decode_word(a.spec_encoded()) == Some(Instruction::Or(a)),
    {
        let w = a.spec_encoded();
        lemma_layout_7(0x6033, w, a.rs1 as u32, a.rd as u32, a.rs2 as u32);
        lemma_decoder_masks(w);
        reveal_with_fuel(Instruction::no_match_before, 61);
        assert(Self::no_match_before(w, 60));
        assert(Self::matches_pattern(w, 60));
        Self::lemma_first_match_at(w, 60);
        assert(OrArgs::spec_take_args(w) == a);
    }

    proof fn lemma_decode_fcvtwus(a: FcvtWuSArgs)
        requires
            a.wf(),
        ensures
            Self::spec_decode_word(a.spec_encoded()) == Some(Instruction::FcvtWuS(a)),
    {
        let w = a.spec_encoded();
        lemma_layout_8(0xc0100053, w, a.rs1 as u32, a.rm as u32, a.rd as u32);
        lemma_decoder_masks(w);
        reveal_with_fuel(Instruction::no_match_before, 62);
        assert(Self::no_match_before(w, 61));
        assert(Self::matches_pattern(w, 61));
        Self::lemma_first_match_at(w, 61);
        assert(FcvtWuSArgs::spec_take_args(w) == a);
    }

    proof fn lemma_decode_fcvtsw(a: FcvtSWArgs)
        requires
            a.wf(),
        ensures
            Self::spec_decode_word(a.spec_encoded()) == Some(Instruction::FcvtSW(a)),
    {
        let w = a.spec_encoded();
        lemma_layout_8(0xd0000053, w, a.rs1 as u32, a.rm as u32, a.rd as u32);
        lemma_decoder_masks(w);
        reveal_with_fuel(Instruction::no_match_before, 63);
        assert(Self::no_match_before(w, 62));
        assert(Self::matches_pattern(w, 62));
        Self::lemma_first_match_at(w, 62);
        assert(FcvtSWArgs::spec_take_args(w) == a);
    }

    proof fn lemma_decode_fcvtswu(a: FcvtSWuArgs)
        requires
            a.wf(),
        ensures
            Self::spec_decode_word(a.spec_encoded()) == Some(Instruction::FcvtSWu(a)),
    {
        let w = a.spec_encoded();
        lemma_layout_8(0xd0100053, w, a.rs1 as u32, a.rm as u32, a.rd as u32);
        lemma_decoder_masks(w);
        reveal_with_fuel(Instruction::no_match_before, 64);
        assert(Self::no_match_before(w, 63));
        assert(Self::matches_pattern(w, 63));
        Self::lemma_first_match_at(w, 63);
        assert(FcvtSWuArgs::spec_take_args(w) == a);
    }

    proof fn lemma_decode_fsqrts(a: FsqrtSArgs)
        requires
            a.wf(),
        ensures
            Self::spec_decode_word(a.spec_encoded()) == Some(Instruction::FsqrtS(a)),
    {
        let w = a.spec_encoded();
        lemma_layout_8(0x58000053, w, a.rs1 as u32, a.rm as u32, a.rd as u32);
        lemma_decoder_masks(w);
        reveal_with_fuel(Instruction::no_match_before, 65);
        assert(Self::no_match_before(w, 64));
        assert(Self::matches_pattern(w, 64));
        Self::lemma_first_match_at(w, 64);
        assert(FsqrtSArgs::spec_take_args(w) == a);
    }

    proof fn lemma_decode_fcvtws(a: FcvtWSArgs)
        requires
            a.wf(),
        ensures
            Self::spec_decode_word(a.spec_encoded()) == Some(Instruction::FcvtWS(a)),
    {
        let w = a.spec_encoded();
        lemma_layout_8(0xc0000053, w, a.rs1 as u32, a.rm as u32, a.rd as u32);
        lemma_decoder_masks(w);
        reveal_with_fuel(Instruction::no_match_before, 66);
        assert(Self::no_match_before(w, 65));
        assert(Self::matches_pattern(w, 65));
        Self::lemma_first_match_at(w, 65);
        assert(FcvtWSArgs::spec_take_args(w) == a);
    }

    proof fn lemma_decode_fmvxw(a: FmvXWArgs)
        requires
            a.wf(),
        ensures
            Self::spec_decode_word(a.spec_encoded()) == Some(Instruction::FmvXW(a)),
    {
        let w = a.spec_encoded();
        lemma_layout_9(0xe0000053, w, a.rs1 as u32, a.rd as u32);
        lemma_decoder_masks(w);
        reveal_with_fuel(Instruction::no_match_before, 67);
        assert(Self::no_match_before(w, 66));
        assert(Self::matches_pattern(w, 66));
        Self::lemma_first_match_at(w, 66);
        assert(FmvXWArgs::spec_take_args(w) == a);
    }

    proof fn lemma_decode_fmvwx(a: FmvWXArgs)
        requires
            a.wf(),
        ensures
            Self::spec_decode_word(a.spec_encoded()) == Some(Instruction::FmvWX(a)),
    {
        let w = a.spec_encoded();
        lemma_layout_9(0xf0000053, w, a.rs1 as u32, a.rd as u32);
        lemma_decoder_masks(w);
        reveal_with_fuel(Instruction::no_match_before, 68);
        assert(Self::no_match_before(w, 67));
        assert(Self::matches_pattern(w, 67));
        Self::lemma_first_match_at(w, 67);
        assert(FmvWXArgs::spec_take_args(w) == a);
    }

    proof fn lemma_decode_fclasss(a: FclassSArgs)
        requires
            a.wf(),
        ensures
            Self::spec_decode_word(a.spec_encoded()) == Some(Instruction::FclassS(a)),
    {
        let w = a.spec_encoded();
        lemma_layout_9(0xe0001053, w, a.rs1 as u32, a.rd as u32);
        lemma_decoder_masks(w);
        reveal_with_fuel(Instruction::no_match_before, 69);
        assert(Self::no_match_before(w, 68));
        assert(Self::matches_pattern(w, 68));
        Self::lemma_first_match_at(w, 68);
        assert(FclassSArgs::spec_take_args(w) == a);
    }

    proof fn lemma_decode_ecall(a: EcallArgs)
        requires
            a.wf(),
        ensures
            Self::spec_decode_word(a.spec_encoded()) == Some(Instruction::Ecall(a)),
    {
        let w = a.spec_encoded();
        lemma_layout_10(0x73, w);
        lemma_decoder_masks(w);
        reveal_with_fuel(Instruction::no_match_before, 70);
        assert(Self::no_match_before(w, 69));
        assert(Self::matches_pattern(w, 69));
        Self::lemma_first_match_at(w, 69);
        assert(EcallArgs::spec_take_args(w) == a);
    }

    proof fn lemma_decode_ebreak(a: EbreakArgs)
        requires
            a.wf(),
        ensures
            Self::spec_decode_word(a.spec_encoded()) == Some(Instruction::Ebreak(a)),
    {
        let w = a.spec_encoded();
        lemma_layout_10(0x100073, w);
        lemma_decoder_masks(w);
        reveal_with_fuel(Instruction::no_match_before, 71);
        assert(Self::no_match_before(w, 70));
        assert(Self::matches_pattern(w, 70));
        Self::lemma_first_match_at(w, 70);
        assert(EbreakArgs::spec_take_args(w) == a);
    }

    /// The operands read out of a word that fits the `k`-th pattern fit their fields and
    /// encode back to the word.
    proof fn lemma_from_pattern_encoded(k: u8, bits: u32)
        requires
            k < NUM_PATTERNS,
            Self::matches_pattern(bits, k as int),
        ensures
            Self::from_pattern(k, bits).wf(),
            Self::from_pattern(k, bits).spec_encoded() == bits,
    {
        if k == 0 {
            lemma_layout_0(0x17, bits, 0, 0);
        } else if k == 1 {
            lemma_layout_1(0x6f, bits, 0, 0, 0, 0, 0);
        } else if k == 2 {
            lemma_layout_0(0x37, bits, 0, 0);
        } else if k == 3 {
            lemma_layout_2(0x47, bits, 0, 0, 0, 0, 0);
        } else if k == 4 {
            lemma_layout_2(0x4b, bits, 0, 0, 0, 0, 0);
        } else if k == 5 {
            lemma_layout_2(0x4f, bits, 0, 0, 0, 0, 0);
        } else if k == 6 {
            lemma_layout_2(0x43, bits, 0, 0, 0, 0, 0);
        } else if k == 7 {
            lemma_layout_3(0x23, bits, 0, 0, 0, 0);
        } else if k == 8 {
            lemma_layout_4(0x2003, bits, 0, 0, 0);
        } else if k == 9 {
            lemma_layout_5(0x5063, bits, 0, 0, 0, 0, 0, 0);
        } else if k == 10 {
            lemma_layout_5(0x1063, bits, 0, 0, 0, 0, 0, 0);
        } else if k == 11 {
            lemma_layout_4(0x4003, bits, 0, 0, 0);
        } else if k == 12 {
            lemma_layout_5(0x6063, bits, 0, 0, 0, 0, 0, 0);
        } else if k == 13 {
            lemma_layout_4(0x1073, bits, 0, 0, 0);
        } else if k == 14 {
            lemma_layout_4(0x4013, bits, 0, 0, 0);
        } else if k == 15 {
            lemma_layout_4(0x7013, bits, 0, 0, 0);
        } else if k == 16 {
            lemma_layout_3(0x2023, bits, 0, 0, 0, 0);
        } else if k == 17 {
            lemma_layout_4(0x2073, bits, 0, 0, 0);
        } else if k == 18 {
            lemma_layout_3(0x1023, bits, 0, 0, 0, 0);
        } else if k == 19 {
            lemma_layout_4(0x3013, bits, 0, 0, 0);
        } else if k == 20 {
            lemma_layout_4(0x3, bits, 0, 0, 0);
        } else if k == 21 {
            lemma_layout_4(0x1003, bits, 0, 0, 0);
        } else if k == 22 {
            lemma_layout_4(0x5073, bits, 0, 0, 0);
        } else if k == 23 {
            lemma_layout_4(0x2013, bits, 0, 0, 0);
        } else if k == 24 {
            lemma_layout_4(0x3073, bits, 0, 0, 0);
        } else if k == 25 {
            lemma_layout_4(0x5003, bits, 0, 0, 0);
        } else if k == 26 {
            lemma_layout_3(0x2027, bits, 0, 0, 0, 0);
        } else if k == 27 {
            lemma_layout_4(0x13, bits, 0, 0, 0);
        } else if k == 28 {
            lemma_layout_5(0x4063, bits, 0, 0, 0, 0, 0, 0);
        } else if k == 29 {
            lemma_layout_5(0x7063, bits, 0, 0, 0, 0, 0, 0);
        } else if k == 30 {
            lemma_layout_4(0x6073, bits, 0, 0, 0);
        } else if k == 31 {
            lemma_layout_4(0x7073, bits, 0, 0, 0);
        } else if k == 32 {
            lemma_layout_4(0x67, bits, 0, 0, 0);
        } else if k == 33 {
            lemma_layout_4(0x2007, bits, 0, 0, 0);
        } else if k == 34 {
            lemma_layout_5(0x63, bits, 0, 0, 0, 0, 0, 0);
        } else if k == 35 {
            lemma_layout_4(0x6013, bits, 0, 0, 0);
        } else if k == 36 {
            lemma_layout_6(0x18000053, bits, 0, 0, 0, 0);
        } else if k == 37 {
            lemma_layout_6(0x8000053, bits, 0, 0, 0, 0);
        } else if k == 38 {
            lemma_layout_6(0x53, bits, 0, 0, 0, 0);
        } else if k == 39 {
            lemma_layout_6(0x10000053, bits, 0, 0, 0, 0);
        } else if k == 40 {
            lemma_layout_7(0x40005013, bits, 0, 0, 0);
        } else if k == 41 {
            lemma_layout_7(0xa0002053, bits, 0, 0, 0);
        } else if k == 42 {
            lemma_layout_7(0x33, bits, 0, 0, 0);
        } else if k == 43 {
            lemma_layout_7(0x1013, bits, 0, 0, 0);
        } else if k == 44 {
            lemma_layout_7(0x3033, bits, 0, 0, 0);
        } else if k == 45 {
            lemma_layout_7(0x20002053, bits, 0, 0, 0);
        } else if k == 46 {
            lemma_layout_7(0xa0001053, bits, 0, 0, 0);
        } else if k == 47 {
            lemma_layout_7(0x20000053, bits, 0, 0, 0);
        } else if k == 48 {
            lemma_layout_7(0x28001053, bits, 0, 0, 0);
        } else if k == 49 {
            lemma_layout_7(0x20001053, bits, 0, 0, 0);
        } else if k == 50 {
            lemma_layout_7(0x28000053, bits, 0, 0, 0);
        } else if k == 51 {
            lemma_layout_7(0x4033, bits, 0, 0, 0);
        } else if k == 52 {
            lemma_layout_7(0x5013, bits, 0, 0, 0);
        } else if k == 53 {
            lemma_layout_7(0x2033, bits, 0, 0, 0);
        } else if k == 54 {
            lemma_layout_7(0x40000033, bits, 0, 0, 0);
        } else if k == 55 {
            lemma_layout_7(0x1033, bits, 0, 0, 0);
        } else if k == 56 {
            lemma_layout_7(0x5033, bits, 0, 0, 0);
        } else if k == 57 {
            lemma_layout_7(0x40005033, bits, 0, 0, 0);
        } else if k == 58 {
            lemma_layout_7(0xa0000053, bits, 0, 0, 0);
        } else if k == 59 {
            lemma_layout_7(0x7033, bits, 0, 0, 0);
        } else if k == 60 {
            lemma_layout_7(0x6033, bits, 0, 0, 0);
        } else if k == 61 {
            lemma_layout_8(0xc0100053, bits, 0, 0, 0);
        } else if k == 62 {
            lemma_layout_8(0xd0000053, bits, 0, 0, 0);
        } else if k == 63 {
            lemma_layout_8(0xd0100053, bits, 0, 0, 0);
        } else if k == 64 {
            lemma_layout_8(0x58000053, bits, 0, 0, 0);
        } else if k == 65 {
            lemma_layout_8(0xc0000053, bits, 0, 0, 0);
        } else if k == 66 {
            lemma_layout_9(0xe0000053, bits, 0, 0);
        } else if k == 67 {
            lemma_layout_9(0xf0000053, bits, 0, 0);
        } else if k == 68 {
            lemma_layout_9(0xe0001053, bits, 0, 0);
        } else if k == 69 {
            lemma_layout_10(0x73, bits);
        } else if k == 70 {
            lemma_layout_10(0x100073, bits);
        }
    }

    /// Decoding the word that an instruction encodes to gives back that instruction, whenever every
    /// operand fits into its field; this holds of the word and of its little-endian bytes.
    pub proof fn lemma_decode_encoded(i: Instruction)
        requires
            i.wf(),
        ensures
            Self::spec_decode_word(i.spec_encoded()) == Some(i),
            Self::spec_decode_word(le_word(le_bytes(i.spec_encoded()))) == Some(i),
    {
        lemma_le_word_of_le_bytes(i.spec_encoded());
        match i {
            Instruction::Auipc(a) => Self::lemma_decode_auipc(a),
            Instruction::Jal(a) => Self::lemma_decode_jal(a),
            Instruction::Lui(a) => Self::lemma_decode_lui(a),
            Instruction::FmsubS(a) => Self::lemma_decode_fmsubs(a),
            Instruction::FnmsubS(a) => Self::lemma_decode_fnmsubs(a),
            Instruction::FnmaddS(a) => Self::lemma_decode_fnmadds(a),
            Instruction::FmaddS(a) => Self::lemma_decode_fmadds(a),
            Instruction::Sb(a) => Self::lemma_decode_sb(a),
            Instruction::Lw(a) => Self::lemma_decode_lw(a),
            Instruction::Bge(a) => Self::lemma_decode_bge(a),
            Instruction::Bne(a) => Self::lemma_decode_bne(a),
            Instruction::Lbu(a) => Self::lemma_decode_lbu(a),
            Instruction::Bltu(a) => Self::lemma_decode_bltu(a),
            Instruction::Csrrw(a) => Self::lemma_decode_csrrw(a),
            Instruction::Xori(a) => Self::lemma_decode_xori(a),
            Instruction::Andi(a) => Self::lemma_decode_andi(a),
            Instruction::Sw(a) => Self::lemma_decode_sw(a),
            Instruction::Csrrs(a) => Self::lemma_decode_csrrs(a),
            Instruction::Sh(a) => Self::lemma_decode_sh(a),
            Instruction::Sltiu(a) => Self::lemma_decode_sltiu(a),
            Instruction::Lb(a) => Self::lemma_decode_lb(a),
            Instruction::Lh(a) => Self::lemma_decode_lh(a),
            Instruction::Csrrwi(a) => Self::lemma_decode_csrrwi(a),
            Instruction::Slti(a) => Self::lemma_decode_slti(a),
            Instruction::Csrrc(a) => Self::lemma_decode_csrrc(a),
            Instruction::Lhu(a) => Self::lemma_decode_lhu(a),
            Instruction::Fsw(a) => Self::lemma_decode_fsw(a),
            Instruction::Addi(a) => Self::lemma_decode_addi(a),
            Instruction::Blt(a) => Self::lemma_decode_blt(a),
            Instruction::Bgeu(a) => Self::lemma_decode_bgeu(a),
            Instruction::Csrrsi(a) => Self::lemma_decode_csrrsi(a),
            Instruction::Csrrci(a) => Self::lemma_decode_csrrci(a),
            Instruction::Jalr(a) => Self::lemma_decode_jalr(a),
            Instruction::Flw(a) => Self::lemma_decode_flw(a),
            Instruction::Beq(a) => Self::lemma_decode_beq(a),
            Instruction::Ori(a) => Self::lemma_decode_ori(a),
            Instruction::FdivS(a) => Self::lemma_decode_fdivs(a),
            Instruction::FsubS(a) => Self::lemma_decode_fsubs(a),
            Instruction::FaddS(a) => Self::lemma_decode_fadds(a),
            Instruction::FmulS(a) => Self::lemma_decode_fmuls(a),
            Instruction::Srai(a) => Self::lemma_decode_srai(a),
            Instruction::FeqS(a) => Self::lemma_decode_feqs(a),
            Instruction::Add(a) => Self::lemma_decode_add(a),
            Instruction::Slli(a) => Self::lemma_decode_slli(a),
            Instruction::Sltu(a) => Self::lemma_decode_sltu(a),
            Instruction::FsgnjxS(a) => Self::lemma_decode_fsgnjxs(a),
            Instruction::FltS(a) => Self::lemma_decode_flts(a),
            Instruction::FsgnjS(a) => Self::lemma_decode_fsgnjs(a),
            Instruction::FmaxS(a) => Self::lemma_decode_fmaxs(a),
            Instruction::FsgnjnS(a) => Self::lemma_decode_fsgnjns(a),
            Instruction::FminS(a) => Self::lemma_decode_fmins(a),
            Instruction::Xor(a) => Self::lemma_decode_xor(a),
            Instruction::Srli(a) => Self::lemma_decode_srli(a),
            Instruction::Slt(a) => Self::lemma_decode_slt(a),
            Instruction::Sub(a) => Self::lemma_decode_sub(a),
            Instruction::Sll(a) => Self::lemma_decode_sll(a),
            Instruction::Srl(a) => Self::lemma_decode_srl(a),
            Instruction::Sra(a) => Self::lemma_decode_sra(a),
            Instruction::FleS(a) => Self::lemma_decode_fles(a),
            Instruction::And(a) => Self::lemma_decode_and(a),
            Instruction::Or(a) => Self::lemma_decode_or(a),
            Instruction::FcvtWuS(a) => Self::lemma_decode_fcvtwus(a),
            Instruction::FcvtSW(a) => Self::lemma_decode_fcvtsw(a),
            Instruction::FcvtSWu(a) => Self::lemma_decode_fcvtswu(a),
            Instruction::FsqrtS(a) => Self::lemma_decode_fsqrts(a),
            Instruction::FcvtWS(a) => Self::lemma_decode_fcvtws(a),
            Instruction::FmvXW(a) => Self::lemma_decode_fmvxw(a),
            Instruction::FmvWX(a) => Self::lemma_decode_fmvwx(a),
            Instruction::FclassS(a) => Self::lemma_decode_fclasss(a),
            Instruction::Ecall(a) => Self::lemma_decode_ecall(a),
            Instruction::Ebreak(a) => Self::lemma_decode_ebreak(a),
        }
    }

    /// An instruction that the decoder reads out of a word has operands that fit their fields and
    /// encodes back to exactly that word.
    pub proof fn lemma_encode_decoded(bits: u32)
        ensures
            Self::spec_decode_word(bits) matches Some(i) ==> i.wf() && i.spec_encoded() == bits,
    {
        Self::lemma_first_match_fits(bits, 0);
        if let Some(k) = Self::first_match(bits, 0) {
            Self::lemma_from_pattern_encoded(k as u8, bits);
        }
    }
}

} // verus!
