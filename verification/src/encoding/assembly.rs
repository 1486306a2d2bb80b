//! Assembly text of decoded instructions: the mnemonic, padded to a column, and the operands
//! separated by commas, registers by their ABI names and immediates in decimal or hexadecimal.
use vstd::prelude::*;
use vstd::string::StringExecFns;

use super::args::{AuipcArgs, JalArgs, LuiArgs, FmsubSArgs, FnmsubSArgs, FnmaddSArgs, FmaddSArgs, SbArgs, LwArgs, BgeArgs, BneArgs, LbuArgs, BltuArgs, CsrrwArgs, XoriArgs, AndiArgs, SwArgs, CsrrsArgs, ShArgs, SltiuArgs, LbArgs, LhArgs, CsrrwiArgs, SltiArgs, CsrrcArgs, LhuArgs, FswArgs, AddiArgs, BltArgs, BgeuArgs, CsrrsiArgs, CsrrciArgs, JalrArgs, FlwArgs, BeqArgs, OriArgs, FdivSArgs, FsubSArgs, FaddSArgs, FmulSArgs, SraiArgs, FeqSArgs, AddArgs, SlliArgs, SltuArgs, FsgnjxSArgs, FltSArgs, FsgnjSArgs, FmaxSArgs, FsgnjnSArgs, FminSArgs, XorArgs, SrliArgs, SltArgs, SubArgs, SllArgs, SrlArgs, SraArgs, FleSArgs, AndArgs, OrArgs, FcvtWuSArgs, FcvtSWArgs, FcvtSWuArgs, FsqrtSArgs, FcvtWSArgs, FmvXWArgs, FmvWXArgs, FclassSArgs, EcallArgs, EbreakArgs};
use super::instruction::Instruction;
use crate::digits::{digits, push_digits, push_signed_decimal, signed_decimal};

verus! {

/// How integer registers are named.
#[derive(Debug, Clone, Copy, PartialEq, Eq, Structural)]
pub enum XregDisplayVariant {
    Labeled,
    Numbered,
}

/// How floating-point registers are named.
#[derive(Debug, Clone, Copy, PartialEq, Eq, Structural)]
pub enum FregDisplayVariant {
    Labeled,
    Numbered,
}

/// How registers are shown in assembly text.
#[derive(Debug, Clone, Copy, PartialEq, Eq, Structural)]
pub struct AsmDisplayContext {
    pub xreg: XregDisplayVariant,
    pub freg: FregDisplayVariant,
}

impl Default for XregDisplayVariant {
    fn default() -> (r: Self)
        ensures
            r == XregDisplayVariant::Labeled,
    {
        XregDisplayVariant::Labeled
    }
}

impl Default for FregDisplayVariant {
    fn default() -> (r: Self)
        ensures
            r == FregDisplayVariant::Labeled,
    {
        FregDisplayVariant::Labeled
    }
}

impl Default for AsmDisplayContext {
    fn default() -> (r: Self)
        ensures
            r.xreg == XregDisplayVariant::Labeled,
            r.freg == FregDisplayVariant::Labeled,
    {
        AsmDisplayContext { xreg: XregDisplayVariant::Labeled, freg: FregDisplayVariant::Labeled }
    }
}

/// The ABI names of the integer registers.
pub open spec fn xreg_labels() -> Seq<Seq<char>> {
    seq!["zero"@, "ra"@, "sp"@, "gp"@, "tp"@, "t0"@, "t1"@, "t2"@, "fp"@, "s1"@, "a0"@, "a1"@, "a2"@, "a3"@, "a4"@, "a5"@, "a6"@, "a7"@, "s2"@, "s3"@, "s4"@, "s5"@, "s6"@, "s7"@, "s8"@, "s9"@, "s10"@, "s11"@, "t3"@, "t4"@, "t5"@, "t6"@]
}

/// The ABI names of the floating-point registers.
pub open spec fn freg_labels() -> Seq<Seq<char>> {
    seq!["ft0"@, "ft1"@, "ft2"@, "ft3"@, "ft4"@, "ft5"@, "ft6"@, "ft7"@, "fs0"@, "fs1"@, "fa0"@, "fa1"@, "fa2"@, "fa3"@, "fa4"@, "fa5"@, "fa6"@, "fa7"@, "fs2"@, "fs3"@, "fs4"@, "fs5"@, "fs6"@, "fs7"@, "fs8"@, "fs9"@, "fs10"@, "fs11"@, "ft8"@, "ft9"@, "ft10"@, "ft11"@]
}

/// The name of the integer register `r`, of which the low five bits count.
pub open spec fn xreg_text(ctx: AsmDisplayContext, r: u8) -> Seq<char> {
    match ctx.xreg {
        XregDisplayVariant::Labeled => xreg_labels()[(r % 32) as int],
        XregDisplayVariant::Numbered => Seq::empty(),
    }
}

/// The name of the floating-point register `r`, of which the low five bits count.
pub open spec fn freg_text(ctx: AsmDisplayContext, r: u8) -> Seq<char> {
    match ctx.freg {
        FregDisplayVariant::Labeled => freg_labels()[(r % 32) as int],
        FregDisplayVariant::Numbered => Seq::empty(),
    }
}

/// The bits of `v` read as a signed 64-bit integer, in decimal.
pub open spec fn signed_int_text(v: u64) -> Seq<char> {
    signed_decimal((v as i64) as int)
}

/// `v` in decimal.
pub open spec fn unsigned_int_text(v: u64) -> Seq<char> {
    digits(v as nat, 10)
}

/// The bits of `v` in hexadecimal, in lower case: a negative signed value shows its two's
/// complement.
pub open spec fn hex_text(v: u64) -> Seq<char> {
    digits(v as nat, 16)
}

fn xreg_label(i: u8) -> (r: &'static str)
    requires
        i < 32,
    ensures
        r@ == xreg_labels()[i as int],
{
    match i {
        0 => "zero",
        1 => "ra",
        2 => "sp",
        3 => "gp",
        4 => "tp",
        5 => "t0",
        6 => "t1",
        7 => "t2",
        8 => "fp",
        9 => "s1",
        10 => "a0",
        11 => "a1",
        12 => "a2",
        13 => "a3",
        14 => "a4",
        15 => "a5",
        16 => "a6",
        17 => "a7",
        18 => "s2",
        19 => "s3",
        20 => "s4",
        21 => "s5",
        22 => "s6",
        23 => "s7",
        24 => "s8",
        25 => "s9",
        26 => "s10",
        27 => "s11",
        28 => "t3",
        29 => "t4",
        30 => "t5",
        _ => "t6",
    }
}

fn freg_label(i: u8) -> (r: &'static str)
    requires
        i < 32,
    ensures
        r@ == freg_labels()[i as int],
{
    match i {
        0 => "ft0",
        1 => "ft1",
        2 => "ft2",
        3 => "ft3",
        4 => "ft4",
        5 => "ft5",
        6 => "ft6",
        7 => "ft7",
        8 => "fs0",
        9 => "fs1",
        10 => "fa0",
        11 => "fa1",
        12 => "fa2",
        13 => "fa3",
        14 => "fa4",
        15 => "fa5",
        16 => "fa6",
        17 => "fa7",
        18 => "fs2",
        19 => "fs3",
        20 => "fs4",
        21 => "fs5",
        22 => "fs6",
        23 => "fs7",
        24 => "fs8",
        25 => "fs9",
        26 => "fs10",
        27 => "fs11",
        28 => "ft8",
        29 => "ft9",
        30 => "ft10",
        _ => "ft11",
    }
}

/// An operand of an instruction, shown in assembly text.
pub trait AsmField {
    /// Whether the operand can be shown in the context.
    spec fn field_shown(&self, ctx: AsmDisplayContext) -> bool;

    /// The text of the operand.
    spec fn field_text(&self, ctx: AsmDisplayContext) -> Seq<char>;

    /// Append the text of the operand to `out`.
    fn fmt_field(&self, out: &mut String, ctx: &AsmDisplayContext)
        requires
            self.field_shown(*ctx),
        ensures
            final(out)@ == old(out)@ + self.field_text(*ctx),
    ;
}

/// A signed integer operand, in decimal.
pub struct AsmSignedInt(pub u64);

/// An unsigned integer operand, in decimal.
pub struct AsmUnsignedInt(pub u64);

/// A signed integer operand, in hexadecimal.
pub struct AsmSignedHex(pub u64);

/// An unsigned integer operand, in hexadecimal.
pub struct AsmUnsignedHex(pub u64);

/// A jump or branch offset, in decimal.
pub struct AsmRelLabel(pub u64);

/// An integer register.
pub struct AsmXreg(pub u8);

/// A floating-point register.
pub struct AsmFreg(pub u8);

impl AsmField for AsmSignedInt {
    open spec fn field_shown(&self, ctx: AsmDisplayContext) -> bool {
        true
    }

    open spec fn field_text(&self, ctx: AsmDisplayContext) -> Seq<char> {
        signed_int_text(self.0)
    }

    fn fmt_field(&self, out: &mut String, ctx: &AsmDisplayContext) {
        push_signed_decimal(out, self.0 as i64);
    }
}

impl AsmField for AsmUnsignedInt {
    open spec fn field_shown(&self, ctx: AsmDisplayContext) -> bool {
        true
    }

    open spec fn field_text(&self, ctx: AsmDisplayContext) -> Seq<char> {
        unsigned_int_text(self.0)
    }

    fn fmt_field(&self, out: &mut String, ctx: &AsmDisplayContext) {
        push_digits(out, self.0, 10);
    }
}

impl AsmField for AsmSignedHex {
    open spec fn field_shown(&self, ctx: AsmDisplayContext) -> bool {
        true
    }

    open spec fn field_text(&self, ctx: AsmDisplayContext) -> Seq<char> {
        hex_text(self.0)
    }

    fn fmt_field(&self, out: &mut String, ctx: &AsmDisplayContext) {
        push_digits(out, self.0, 16);
    }
}

impl AsmField for AsmUnsignedHex {
    open spec fn field_shown(&self, ctx: AsmDisplayContext) -> bool {
        true
    }

    open spec fn field_text(&self, ctx: AsmDisplayContext) -> Seq<char> {
        hex_text(self.0)
    }

    fn fmt_field(&self, out: &mut String, ctx: &AsmDisplayContext) {
        push_digits(out, self.0, 16);
    }
}

impl AsmField for AsmRelLabel {
    open spec fn field_shown(&self, ctx: AsmDisplayContext) -> bool {
        true
    }

    open spec fn field_text(&self, ctx: AsmDisplayContext) -> Seq<char> {
        signed_int_text(self.0)
    }

    fn fmt_field(&self, out: &mut String, ctx: &AsmDisplayContext) {
        push_signed_decimal(out, self.0 as i64);
    }
}

impl AsmField for AsmXreg {
    open spec fn field_shown(&self, ctx: AsmDisplayContext) -> bool {
        ctx.xreg is Labeled
    }

    open spec fn field_text(&self, ctx: AsmDisplayContext) -> Seq<char> {
        xreg_text(ctx, self.0)
    }

    fn fmt_field(&self, out: &mut String, ctx: &AsmDisplayContext) {
        out.append(xreg_label(self.0 % 32));
    }
}

impl AsmField for AsmFreg {
    open spec fn field_shown(&self, ctx: AsmDisplayContext) -> bool {
        ctx.freg is Labeled
    }

    open spec fn field_text(&self, ctx: AsmDisplayContext) -> Seq<char> {
        freg_text(ctx, self.0)
    }

    fn fmt_field(&self, out: &mut String, ctx: &AsmDisplayContext) {
        out.append(freg_label(self.0 % 32));
    }
}

/// An instruction shown in assembly text.
pub trait AsmInstruction {
    /// Whether the instruction can be shown in the context: numbered registers are not supported.
    spec fn shown_in(&self, ctx: AsmDisplayContext) -> bool;

    /// The assembly text of the instruction.
    spec fn asm_text(&self, ctx: AsmDisplayContext) -> Seq<char>;

    /// Append the assembly text of the instruction to `out`.
    fn write_asm(&self, out: &mut String, ctx: &AsmDisplayContext)
        requires
            self.shown_in(*ctx),
        ensures
            final(out)@ == old(out)@ + self.asm_text(*ctx),
    ;
}

/// An instruction together with the way to show it.
pub struct AsmDisplay<'a, T> {
    pub ctx: &'a AsmDisplayContext,
    pub instr: &'a T,
}

impl<'a, T: AsmInstruction> AsmDisplay<'a, T> {
    /// The assembly text of the instruction.
    pub fn to_string(&self) -> (r: String)
        requires
            self.instr.shown_in(*self.ctx),
        ensures
            r@ == self.instr.asm_text(*self.ctx),
    {
        let mut out = String::new();
        self.instr.write_asm(&mut out, self.ctx);
        proof {
            assert(out@ =~= self.instr.asm_text(*self.ctx));
        }
        out
    }
}

impl AsmInstruction for AuipcArgs {
    open spec fn shown_in(&self, ctx: AsmDisplayContext) -> bool {
        ctx.xreg is Labeled
    }

    open spec fn asm_text(&self, ctx: AsmDisplayContext) -> Seq<char> {
        "auipc      "@ + xreg_text(ctx, self.rd) + ","@ + hex_text(self.spec_imm() as u64)
    }

    fn write_asm(&self, out: &mut String, ctx: &AsmDisplayContext) {
        let ghost before = out@;
        out.append("auipc      ");
        AsmXreg(self.rd).fmt_field(out, ctx);
        out.append(",");
        AsmSignedHex(self.imm() as u64).fmt_field(out, ctx);
        proof {
            assert(out@ =~= before + self.asm_text(*ctx));
        }
    }
}

impl AsmInstruction for JalArgs {
    open spec fn shown_in(&self, ctx: AsmDisplayContext) -> bool {
        ctx.xreg is Labeled
    }

    open spec fn asm_text(&self, ctx: AsmDisplayContext) -> Seq<char> {
        "jal        "@ + xreg_text(ctx, self.rd) + ","@ + signed_int_text(self.spec_imm() as u64)
    }

    fn write_asm(&self, out: &mut String, ctx: &AsmDisplayContext) {
        let ghost before = out@;
        out.append("jal        ");
        AsmXreg(self.rd).fmt_field(out, ctx);
        out.append(",");
        AsmRelLabel(self.imm() as u64).fmt_field(out, ctx);
        proof {
            assert(out@ =~= before + self.asm_text(*ctx));
        }
    }
}

impl AsmInstruction for LuiArgs {
    open spec fn shown_in(&self, ctx: AsmDisplayContext) -> bool {
        ctx.xreg is Labeled
    }

    open spec fn asm_text(&self, ctx: AsmDisplayContext) -> Seq<char> {
        "lui        "@ + xreg_text(ctx, self.rd) + ","@ + hex_text(self.spec_imm() as u64)
    }

    fn write_asm(&self, out: &mut String, ctx: &AsmDisplayContext) {
        let ghost before = out@;
        out.append("lui        ");
        AsmXreg(self.rd).fmt_field(out, ctx);
        out.append(",");
        AsmSignedHex(self.imm() as u64).fmt_field(out, ctx);
        proof {
            assert(out@ =~= before + self.asm_text(*ctx));
        }
    }
}

impl AsmInstruction for FmsubSArgs {
    open spec fn shown_in(&self, ctx: AsmDisplayContext) -> bool {
        ctx.freg is Labeled
    }

    open spec fn asm_text(&self, ctx: AsmDisplayContext) -> Seq<char> {
        "fmsub.s    "@ + freg_text(ctx, self.rd) + ","@ + freg_text(ctx, self.rs1) + ","@ + freg_text(ctx, self.rs2) + ","@ + freg_text(ctx, self.rs3)
    }

    fn write_asm(&self, out: &mut String, ctx: &AsmDisplayContext) {
        let ghost before = out@;
        out.append("fmsub.s    ");
        AsmFreg(self.rd).fmt_field(out, ctx);
        out.append(",");
        AsmFreg(self.rs1).fmt_field(out, ctx);
        out.append(",");
        AsmFreg(self.rs2).fmt_field(out, ctx);
        out.append(",");
        AsmFreg(self.rs3).fmt_field(out, ctx);
        proof {
            assert(out@ =~= before + self.asm_text(*ctx));
        }
    }
}

impl AsmInstruction for FnmsubSArgs {
    open spec fn shown_in(&self, ctx: AsmDisplayContext) -> bool {
        ctx.freg is Labeled
    }

    open spec fn asm_text(&self, ctx: AsmDisplayContext) -> Seq<char> {
        "fnmsub.s   "@ + freg_text(ctx, self.rd) + ","@ + freg_text(ctx, self.rs1) + ","@ + freg_text(ctx, self.rs2) + ","@ + freg_text(ctx, self.rs3)
    }

    fn write_asm(&self, out: &mut String, ctx: &AsmDisplayContext) {
        let ghost before = out@;
        out.append("fnmsub.s   ");
        AsmFreg(self.rd).fmt_field(out, ctx);
        out.append(",");
        AsmFreg(self.rs1).fmt_field(out, ctx);
        out.append(",");
        AsmFreg(self.rs2).fmt_field(out, ctx);
        out.append(",");
        AsmFreg(self.rs3).fmt_field(out, ctx);
        proof {
            assert(out@ =~= before + self.asm_text(*ctx));
        }
    }
}

impl AsmInstruction for FnmaddSArgs {
    open spec fn shown_in(&self, ctx: AsmDisplayContext) -> bool {
        ctx.freg is Labeled
    }

    open spec fn asm_text(&self, ctx: AsmDisplayContext) -> Seq<char> {
        "fnmadd.s   "@ + freg_text(ctx, self.rd) + ","@ + freg_text(ctx, self.rs1) + ","@ + freg_text(ctx, self.rs2) + ","@ + freg_text(ctx, self.rs3)
    }

    fn write_asm(&self, out: &mut String, ctx: &AsmDisplayContext) {
        let ghost before = out@;
        out.append("fnmadd.s   ");
        AsmFreg(self.rd).fmt_field(out, ctx);
        out.append(",");
        AsmFreg(self.rs1).fmt_field(out, ctx);
        out.append(",");
        AsmFreg(self.rs2).fmt_field(out, ctx);
        out.append(",");
        AsmFreg(self.rs3).fmt_field(out, ctx);
        proof {
            assert(out@ =~= before + self.asm_text(*ctx));
        }
    }
}

impl AsmInstruction for FmaddSArgs {
    open spec fn shown_in(&self, ctx: AsmDisplayContext) -> bool {
        ctx.freg is Labeled
    }

    open spec fn asm_text(&self, ctx: AsmDisplayContext) -> Seq<char> {
        "fmadd.s    "@ + freg_text(ctx, self.rd) + ","@ + freg_text(ctx, self.rs1) + ","@ + freg_text(ctx, self.rs2) + ","@ + freg_text(ctx, self.rs3)
    }

    fn write_asm(&self, out: &mut String, ctx: &AsmDisplayContext) {
        let ghost before = out@;
        out.append("fmadd.s    ");
        AsmFreg(self.rd).fmt_field(out, ctx);
        out.append(",");
        AsmFreg(self.rs1).fmt_field(out, ctx);
        out.append(",");
        AsmFreg(self.rs2).fmt_field(out, ctx);
        out.append(",");
        AsmFreg(self.rs3).fmt_field(out, ctx);
        proof {
            assert(out@ =~= before + self.asm_text(*ctx));
        }
    }
}

impl AsmInstruction for SbArgs {
    open spec fn shown_in(&self, ctx: AsmDisplayContext) -> bool {
        ctx.xreg is Labeled
    }

    open spec fn asm_text(&self, ctx: AsmDisplayContext) -> Seq<char> {
        "sb         "@ + xreg_text(ctx, self.rs1) + ","@ + xreg_text(ctx, self.rs2) + ","@ + signed_int_text(self.spec_imm() as u64)
    }

    fn write_asm(&self, out: &mut String, ctx: &AsmDisplayContext) {
        let ghost before = out@;
        out.append("sb         ");
        AsmXreg(self.rs1).fmt_field(out, ctx);
        out.append(",");
        AsmXreg(self.rs2).fmt_field(out, ctx);
        out.append(",");
        AsmSignedInt(self.imm() as u64).fmt_field(out, ctx);
        proof {
            assert(out@ =~= before + self.asm_text(*ctx));
        }
    }
}

impl AsmInstruction for LwArgs {
    open spec fn shown_in(&self, ctx: AsmDisplayContext) -> bool {
        ctx.xreg is Labeled
    }

    open spec fn asm_text(&self, ctx: AsmDisplayContext) -> Seq<char> {
        "lw         "@ + xreg_text(ctx, self.rd) + ","@ + xreg_text(ctx, self.rs) + ","@ + signed_int_text(self.spec_imm() as u64)
    }

    fn write_asm(&self, out: &mut String, ctx: &AsmDisplayContext) {
        let ghost before = out@;
        out.append("lw         ");
        AsmXreg(self.rd).fmt_field(out, ctx);
        out.append(",");
        AsmXreg(self.rs).fmt_field(out, ctx);
        out.append(",");
        AsmSignedInt(self.imm() as u64).fmt_field(out, ctx);
        proof {
            assert(out@ =~= before + self.asm_text(*ctx));
        }
    }
}

impl AsmInstruction for BgeArgs {
    open spec fn shown_in(&self, ctx: AsmDisplayContext) -> bool {
        ctx.xreg is Labeled
    }

    open spec fn asm_text(&self, ctx: AsmDisplayContext) -> Seq<char> {
        "bge        "@ + xreg_text(ctx, self.rs1) + ","@ + xreg_text(ctx, self.rs2) + ","@ + signed_int_text(self.spec_imm() as u64)
    }

    fn write_asm(&self, out: &mut String, ctx: &AsmDisplayContext) {
        let ghost before = out@;
        out.append("bge        ");
        AsmXreg(self.rs1).fmt_field(out, ctx);
        out.append(",");
        AsmXreg(self.rs2).fmt_field(out, ctx);
        out.append(",");
        AsmRelLabel(self.imm() as u64).fmt_field(out, ctx);
        proof {
            assert(out@ =~= before + self.asm_text(*ctx));
        }
    }
}

impl AsmInstruction for BneArgs {
    open spec fn shown_in(&self, ctx: AsmDisplayContext) -> bool {
        ctx.xreg is Labeled
    }

    open spec fn asm_text(&self, ctx: AsmDisplayContext) -> Seq<char> {
        "bne        "@ + xreg_text(ctx, self.rs1) + ","@ + xreg_text(ctx, self.rs2) + ","@ + signed_int_text(self.spec_imm() as u64)
    }

    fn write_asm(&self, out: &mut String, ctx: &AsmDisplayContext) {
        let ghost before = out@;
        out.append("bne        ");
        AsmXreg(self.rs1).fmt_field(out, ctx);
        out.append(",");
        AsmXreg(self.rs2).fmt_field(out, ctx);
        out.append(",");
        AsmRelLabel(self.imm() as u64).fmt_field(out, ctx);
        proof {
            assert(out@ =~= before + self.asm_text(*ctx));
        }
    }
}

impl AsmInstruction for LbuArgs {
    open spec fn shown_in(&self, ctx: AsmDisplayContext) -> bool {
        ctx.xreg is Labeled
    }

    open spec fn asm_text(&self, ctx: AsmDisplayContext) -> Seq<char> {
        "lbu        "@ + xreg_text(ctx, self.rd) + ","@ + xreg_text(ctx, self.rs) + ","@ + signed_int_text(self.spec_imm() as u64)
    }

    fn write_asm(&self, out: &mut String, ctx: &AsmDisplayContext) {
        let ghost before = out@;
        out.append("lbu        ");
        AsmXreg(self.rd).fmt_field(out, ctx);
        out.append(",");
        AsmXreg(self.rs).fmt_field(out, ctx);
        out.append(",");
        AsmSignedInt(self.imm() as u64).fmt_field(out, ctx);
        proof {
            assert(out@ =~= before + self.asm_text(*ctx));
        }
    }
}

impl AsmInstruction for BltuArgs {
    open spec fn shown_in(&self, ctx: AsmDisplayContext) -> bool {
        ctx.xreg is Labeled
    }

    open spec fn asm_text(&self, ctx: AsmDisplayContext) -> Seq<char> {
        "bltu       "@ + xreg_text(ctx, self.rs1) + ","@ + xreg_text(ctx, self.rs2) + ","@ + signed_int_text(self.spec_imm() as u64)
    }

    fn write_asm(&self, out: &mut String, ctx: &AsmDisplayContext) {
        let ghost before = out@;
        out.append("bltu       ");
        AsmXreg(self.rs1).fmt_field(out, ctx);
        out.append(",");
        AsmXreg(self.rs2).fmt_field(out, ctx);
        out.append(",");
        AsmRelLabel(self.imm() as u64).fmt_field(out, ctx);
        proof {
            assert(out@ =~= before + self.asm_text(*ctx));
        }
    }
}

impl AsmInstruction for CsrrwArgs {
    open spec fn shown_in(&self, ctx: AsmDisplayContext) -> bool {
        ctx.xreg is Labeled
    }

    open spec fn asm_text(&self, ctx: AsmDisplayContext) -> Seq<char> {
        "csrrw      "@ + xreg_text(ctx, self.rd) + ","@ + xreg_text(ctx, self.rs1) + ","@ + unsigned_int_text(self.csr as u64)
    }

    fn write_asm(&self, out: &mut String, ctx: &AsmDisplayContext) {
        let ghost before = out@;
        out.append("csrrw      ");
        AsmXreg(self.rd).fmt_field(out, ctx);
        out.append(",");
        AsmXreg(self.rs1).fmt_field(out, ctx);
        out.append(",");
        AsmUnsignedInt(self.csr as u64).fmt_field(out, ctx);
        proof {
            assert(out@ =~= before + self.asm_text(*ctx));
        }
    }
}

impl AsmInstruction for XoriArgs {
    open spec fn shown_in(&self, ctx: AsmDisplayContext) -> bool {
        ctx.xreg is Labeled
    }

    open spec fn asm_text(&self, ctx: AsmDisplayContext) -> Seq<char> {
        "xori       "@ + xreg_text(ctx, self.rd) + ","@ + xreg_text(ctx, self.rs) + ","@ + signed_int_text(self.spec_imm() as u64)
    }

    fn write_asm(&self, out: &mut String, ctx: &AsmDisplayContext) {
        let ghost before = out@;
        out.append("xori       ");
        AsmXreg(self.rd).fmt_field(out, ctx);
        out.append(",");
        AsmXreg(self.rs).fmt_field(out, ctx);
        out.append(",");
        AsmSignedInt(self.imm() as u64).fmt_field(out, ctx);
        proof {
            assert(out@ =~= before + self.asm_text(*ctx));
        }
    }
}

impl AsmInstruction for AndiArgs {
    open spec fn shown_in(&self, ctx: AsmDisplayContext) -> bool {
        ctx.xreg is Labeled
    }

    open spec fn asm_text(&self, ctx: AsmDisplayContext) -> Seq<char> {
        "andi       "@ + xreg_text(ctx, self.rd) + ","@ + xreg_text(ctx, self.rs) + ","@ + signed_int_text(self.spec_imm() as u64)
    }

    fn write_asm(&self, out: &mut String, ctx: &AsmDisplayContext) {
        let ghost before = out@;
        out.append("andi       ");
        AsmXreg(self.rd).fmt_field(out, ctx);
        out.append(",");
        AsmXreg(self.rs).fmt_field(out, ctx);
        out.append(",");
        AsmSignedInt(self.imm() as u64).fmt_field(out, ctx);
        proof {
            assert(out@ =~= before + self.asm_text(*ctx));
        }
    }
}

impl AsmInstruction for SwArgs {
    open spec fn shown_in(&self, ctx: AsmDisplayContext) -> bool {
        ctx.xreg is Labeled
    }

    open spec fn asm_text(&self, ctx: AsmDisplayContext) -> Seq<char> {
        "sw         "@ + xreg_text(ctx, self.rs1) + ","@ + xreg_text(ctx, self.rs2) + ","@ + signed_int_text(self.spec_imm() as u64)
    }

    fn write_asm(&self, out: &mut String, ctx: &AsmDisplayContext) {
        let ghost before = out@;
        out.append("sw         ");
        AsmXreg(self.rs1).fmt_field(out, ctx);
        out.append(",");
        AsmXreg(self.rs2).fmt_field(out, ctx);
        out.append(",");
        AsmSignedInt(self.imm() as u64).fmt_field(out, ctx);
        proof {
            assert(out@ =~= before + self.asm_text(*ctx));
        }
    }
}

impl AsmInstruction for CsrrsArgs {
    open spec fn shown_in(&self, ctx: AsmDisplayContext) -> bool {
        ctx.xreg is Labeled
    }

    open spec fn asm_text(&self, ctx: AsmDisplayContext) -> Seq<char> {
        "csrrs      "@ + xreg_text(ctx, self.rd) + ","@ + xreg_text(ctx, self.rs1) + ","@ + unsigned_int_text(self.csr as u64)
    }

    fn write_asm(&self, out: &mut String, ctx: &AsmDisplayContext) {
        let ghost before = out@;
        out.append("csrrs      ");
        AsmXreg(self.rd).fmt_field(out, ctx);
        out.append(",");
        AsmXreg(self.rs1).fmt_field(out, ctx);
        out.append(",");
        AsmUnsignedInt(self.csr as u64).fmt_field(out, ctx);
        proof {
            assert(out@ =~= before + self.asm_text(*ctx));
        }
    }
}

impl AsmInstruction for ShArgs {
    open spec fn shown_in(&self, ctx: AsmDisplayContext) -> bool {
        ctx.xreg is Labeled
    }

    open spec fn asm_text(&self, ctx: AsmDisplayContext) -> Seq<char> {
        "sh         "@ + xreg_text(ctx, self.rs1) + ","@ + xreg_text(ctx, self.rs2) + ","@ + signed_int_text(self.spec_imm() as u64)
    }

    fn write_asm(&self, out: &mut String, ctx: &AsmDisplayContext) {
        let ghost before = out@;
        out.append("sh         ");
        AsmXreg(self.rs1).fmt_field(out, ctx);
        out.append(",");
        AsmXreg(self.rs2).fmt_field(out, ctx);
        out.append(",");
        AsmSignedInt(self.imm() as u64).fmt_field(out, ctx);
        proof {
            assert(out@ =~= before + self.asm_text(*ctx));
        }
    }
}

impl AsmInstruction for SltiuArgs {
    open spec fn shown_in(&self, ctx: AsmDisplayContext) -> bool {
        ctx.xreg is Labeled
    }

    open spec fn asm_text(&self, ctx: AsmDisplayContext) -> Seq<char> {
        "sltiu      "@ + xreg_text(ctx, self.rd) + ","@ + xreg_text(ctx, self.rs) + ","@ + signed_int_text(self.spec_imm() as u64)
    }

    fn write_asm(&self, out: &mut String, ctx: &AsmDisplayContext) {
        let ghost before = out@;
        out.append("sltiu      ");
        AsmXreg(self.rd).fmt_field(out, ctx);
        out.append(",");
        AsmXreg(self.rs).fmt_field(out, ctx);
        out.append(",");
        AsmSignedInt(self.imm() as u64).fmt_field(out, ctx);
        proof {
            assert(out@ =~= before + self.asm_text(*ctx));
        }
    }
}

impl AsmInstruction for LbArgs {
    open spec fn shown_in(&self, ctx: AsmDisplayContext) -> bool {
        ctx.xreg is Labeled
    }

    open spec fn asm_text(&self, ctx: AsmDisplayContext) -> Seq<char> {
        "lb         "@ + xreg_text(ctx, self.rd) + ","@ + xreg_text(ctx, self.rs) + ","@ + signed_int_text(self.spec_imm() as u64)
    }

    fn write_asm(&self, out: &mut String, ctx: &AsmDisplayContext) {
        let ghost before = out@;
        out.append("lb         ");
        AsmXreg(self.rd).fmt_field(out, ctx);
        out.append(",");
        AsmXreg(self.rs).fmt_field(out, ctx);
        out.append(",");
        AsmSignedInt(self.imm() as u64).fmt_field(out, ctx);
        proof {
            assert(out@ =~= before + self.asm_text(*ctx));
        }
    }
}

impl AsmInstruction for LhArgs {
    open spec fn shown_in(&self, ctx: AsmDisplayContext) -> bool {
        ctx.xreg is Labeled
    }

    open spec fn asm_text(&self, ctx: AsmDisplayContext) -> Seq<char> {
        "lh         "@ + xreg_text(ctx, self.rd) + ","@ + xreg_text(ctx, self.rs) + ","@ + signed_int_text(self.spec_imm() as u64)
    }

    fn write_asm(&self, out: &mut String, ctx: &AsmDisplayContext) {
        let ghost before = out@;
        out.append("lh         ");
        AsmXreg(self.rd).fmt_field(out, ctx);
        out.append(",");
        AsmXreg(self.rs).fmt_field(out, ctx);
        out.append(",");
        AsmSignedInt(self.imm() as u64).fmt_field(out, ctx);
        proof {
            assert(out@ =~= before + self.asm_text(*ctx));
        }
    }
}

impl AsmInstruction for CsrrwiArgs {
    open spec fn shown_in(&self, ctx: AsmDisplayContext) -> bool {
        ctx.xreg is Labeled
    }

    open spec fn asm_text(&self, ctx: AsmDisplayContext) -> Seq<char> {
        "csrrwi     "@ + xreg_text(ctx, self.rd) + ","@ + unsigned_int_text(self.uimm as u64) + ","@ + unsigned_int_text(self.csr as u64)
    }

    fn write_asm(&self, out: &mut String, ctx: &AsmDisplayContext) {
        let ghost before = out@;
        out.append("csrrwi     ");
        AsmXreg(self.rd).fmt_field(out, ctx);
        out.append(",");
        AsmUnsignedInt(self.uimm as u64).fmt_field(out, ctx);
        out.append(",");
        AsmUnsignedInt(self.csr as u64).fmt_field(out, ctx);
        proof {
            assert(out@ =~= before + self.asm_text(*ctx));
        }
    }
}

impl AsmInstruction for SltiArgs {
    open spec fn shown_in(&self, ctx: AsmDisplayContext) -> bool {
        ctx.xreg is Labeled
    }

    open spec fn asm_text(&self, ctx: AsmDisplayContext) -> Seq<char> {
        "slti       "@ + xreg_text(ctx, self.rd) + ","@ + xreg_text(ctx, self.rs) + ","@ + signed_int_text(self.spec_imm() as u64)
    }

    fn write_asm(&self, out: &mut String, ctx: &AsmDisplayContext) {
        let ghost before = out@;
        out.append("slti       ");
        AsmXreg(self.rd).fmt_field(out, ctx);
        out.append(",");
        AsmXreg(self.rs).fmt_field(out, ctx);
        out.append(",");
        AsmSignedInt(self.imm() as u64).fmt_field(out, ctx);
        proof {
            assert(out@ =~= before + self.asm_text(*ctx));
        }
    }
}

impl AsmInstruction for CsrrcArgs {
    open spec fn shown_in(&self, ctx: AsmDisplayContext) -> bool {
        ctx.xreg is Labeled
    }

    open spec fn asm_text(&self, ctx: AsmDisplayContext) -> Seq<char> {
        "csrrc      "@ + xreg_text(ctx, self.rd) + ","@ + xreg_text(ctx, self.rs1) + ","@ + unsigned_int_text(self.csr as u64)
    }

    fn write_asm(&self, out: &mut String, ctx: &AsmDisplayContext) {
        let ghost before = out@;
        out.append("csrrc      ");
        AsmXreg(self.rd).fmt_field(out, ctx);
        out.append(",");
        AsmXreg(self.rs1).fmt_field(out, ctx);
        out.append(",");
        AsmUnsignedInt(self.csr as u64).fmt_field(out, ctx);
        proof {
            assert(out@ =~= before + self.asm_text(*ctx));
        }
    }
}

impl AsmInstruction for LhuArgs {
    open spec fn shown_in(&self, ctx: AsmDisplayContext) -> bool {
        ctx.xreg is Labeled
    }

    open spec fn asm_text(&self, ctx: AsmDisplayContext) -> Seq<char> {
        "lhu        "@ + xreg_text(ctx, self.rd) + ","@ + xreg_text(ctx, self.rs) + ","@ + signed_int_text(self.spec_imm() as u64)
    }

    fn write_asm(&self, out: &mut String, ctx: &AsmDisplayContext) {
        let ghost before = out@;
        out.append("lhu        ");
        AsmXreg(self.rd).fmt_field(out, ctx);
        out.append(",");
        AsmXreg(self.rs).fmt_field(out, ctx);
        out.append(",");
        AsmSignedInt(self.imm() as u64).fmt_field(out, ctx);
        proof {
            assert(out@ =~= before + self.asm_text(*ctx));
        }
    }
}

impl AsmInstruction for FswArgs {
    open spec fn shown_in(&self, ctx: AsmDisplayContext) -> bool {
        ctx.freg is Labeled && ctx.xreg is Labeled
    }

    open spec fn asm_text(&self, ctx: AsmDisplayContext) -> Seq<char> {
        "fsw        "@ + xreg_text(ctx, self.rs1) + ","@ + freg_text(ctx, self.rs2) + ","@ + signed_int_text(self.spec_imm() as u64)
    }

    fn write_asm(&self, out: &mut String, ctx: &AsmDisplayContext) {
        let ghost before = out@;
        out.append("fsw        ");
        AsmXreg(self.rs1).fmt_field(out, ctx);
        out.append(",");
        AsmFreg(self.rs2).fmt_field(out, ctx);
        out.append(",");
        AsmSignedInt(self.imm() as u64).fmt_field(out, ctx);
        proof {
            assert(out@ =~= before + self.asm_text(*ctx));
        }
    }
}

impl AsmInstruction for AddiArgs {
    open spec fn shown_in(&self, ctx: AsmDisplayContext) -> bool {
        ctx.xreg is Labeled
    }

    open spec fn asm_text(&self, ctx: AsmDisplayContext) -> Seq<char> {
        "addi       "@ + xreg_text(ctx, self.rd) + ","@ + xreg_text(ctx, self.rs) + ","@ + signed_int_text(self.spec_imm() as u64)
    }

    fn write_asm(&self, out: &mut String, ctx: &AsmDisplayContext) {
        let ghost before = out@;
        out.append("addi       ");
        AsmXreg(self.rd).fmt_field(out, ctx);
        out.append(",");
        AsmXreg(self.rs).fmt_field(out, ctx);
        out.append(",");
        AsmSignedInt(self.imm() as u64).fmt_field(out, ctx);
        proof {
            assert(out@ =~= before + self.asm_text(*ctx));
        }
    }
}

impl AsmInstruction for BltArgs {
    open spec fn shown_in(&self, ctx: AsmDisplayContext) -> bool {
        ctx.xreg is Labeled
    }

    open spec fn asm_text(&self, ctx: AsmDisplayContext) -> Seq<char> {
        "blt        "@ + xreg_text(ctx, self.rs1) + ","@ + xreg_text(ctx, self.rs2) + ","@ + signed_int_text(self.spec_imm() as u64)
    }

    fn write_asm(&self, out: &mut String, ctx: &AsmDisplayContext) {
        let ghost before = out@;
        out.append("blt        ");
        AsmXreg(self.rs1).fmt_field(out, ctx);
        out.append(",");
        AsmXreg(self.rs2).fmt_field(out, ctx);
        out.append(",");
        AsmRelLabel(self.imm() as u64).fmt_field(out, ctx);
        proof {
            assert(out@ =~= before + self.asm_text(*ctx));
        }
    }
}

impl AsmInstruction for BgeuArgs {
    open spec fn shown_in(&self, ctx: AsmDisplayContext) -> bool {
        ctx.xreg is Labeled
    }

    open spec fn asm_text(&self, ctx: AsmDisplayContext) -> Seq<char> {
        "bgeu       "@ + xreg_text(ctx, self.rs1) + ","@ + xreg_text(ctx, self.rs2) + ","@ + signed_int_text(self.spec_imm() as u64)
    }

    fn write_asm(&self, out: &mut String, ctx: &AsmDisplayContext) {
        let ghost before = out@;
        out.append("bgeu       ");
        AsmXreg(self.rs1).fmt_field(out, ctx);
        out.append(",");
        AsmXreg(self.rs2).fmt_field(out, ctx);
        out.append(",");
        AsmRelLabel(self.imm() as u64).fmt_field(out, ctx);
        proof {
            assert(out@ =~= before + self.asm_text(*ctx));
        }
    }
}

impl AsmInstruction for CsrrsiArgs {
    open spec fn shown_in(&self, ctx: AsmDisplayContext) -> bool {
        ctx.xreg is Labeled
    }

    open spec fn asm_text(&self, ctx: AsmDisplayContext) -> Seq<char> {
        "csrrsi     "@ + xreg_text(ctx, self.rd) + ","@ + unsigned_int_text(self.uimm as u64) + ","@ + unsigned_int_text(self.csr as u64)
    }

    fn write_asm(&self, out: &mut String, ctx: &AsmDisplayContext) {
        let ghost before = out@;
        out.append("csrrsi     ");
        AsmXreg(self.rd).fmt_field(out, ctx);
        out.append(",");
        AsmUnsignedInt(self.uimm as u64).fmt_field(out, ctx);
        out.append(",");
        AsmUnsignedInt(self.csr as u64).fmt_field(out, ctx);
        proof {
            assert(out@ =~= before + self.asm_text(*ctx));
        }
    }
}

impl AsmInstruction for CsrrciArgs {
    open spec fn shown_in(&self, ctx: AsmDisplayContext) -> bool {
        ctx.xreg is Labeled
    }

    open spec fn asm_text(&self, ctx: AsmDisplayContext) -> Seq<char> {
        "csrrci     "@ + xreg_text(ctx, self.rd) + ","@ + unsigned_int_text(self.uimm as u64) + ","@ + unsigned_int_text(self.csr as u64)
    }

    fn write_asm(&self, out: &mut String, ctx: &AsmDisplayContext) {
        let ghost before = out@;
        out.append("csrrci     ");
        AsmXreg(self.rd).fmt_field(out, ctx);
        out.append(",");
        AsmUnsignedInt(self.uimm as u64).fmt_field(out, ctx);
        out.append(",");
        AsmUnsignedInt(self.csr as u64).fmt_field(out, ctx);
        proof {
            assert(out@ =~= before + self.asm_text(*ctx));
        }
    }
}

impl AsmInstruction for JalrArgs {
    open spec fn shown_in(&self, ctx: AsmDisplayContext) -> bool {
        ctx.xreg is Labeled
    }

    open spec fn asm_text(&self, ctx: AsmDisplayContext) -> Seq<char> {
        "jalr       "@ + xreg_text(ctx, self.rd) + ","@ + xreg_text(ctx, self.rs) + ","@ + signed_int_text(self.spec_imm() as u64)
    }

    fn write_asm(&self, out: &mut String, ctx: &AsmDisplayContext) {
        let ghost before = out@;
        out.append("jalr       ");
        AsmXreg(self.rd).fmt_field(out, ctx);
        out.append(",");
        AsmXreg(self.rs).fmt_field(out, ctx);
        out.append(",");
        AsmRelLabel(self.imm() as u64).fmt_field(out, ctx);
        proof {
            assert(out@ =~= before + self.asm_text(*ctx));
        }
    }
}

impl AsmInstruction for FlwArgs {
    open spec fn shown_in(&self, ctx: AsmDisplayContext) -> bool {
        ctx.freg is Labeled && ctx.xreg is Labeled
    }

    open spec fn asm_text(&self, ctx: AsmDisplayContext) -> Seq<char> {
        "flw        "@ + freg_text(ctx, self.rd) + ","@ + xreg_text(ctx, self.rs1) + ","@ + signed_int_text(self.spec_imm() as u64)
    }

    fn write_asm(&self, out: &mut String, ctx: &AsmDisplayContext) {
        let ghost before = out@;
        out.append("flw        ");
        AsmFreg(self.rd).fmt_field(out, ctx);
        out.append(",");
        AsmXreg(self.rs1).fmt_field(out, ctx);
        out.append(",");
        AsmSignedInt(self.imm() as u64).fmt_field(out, ctx);
        proof {
            assert(out@ =~= before + self.asm_text(*ctx));
        }
    }
}

impl AsmInstruction for BeqArgs {
    open spec fn shown_in(&self, ctx: AsmDisplayContext) -> bool {
        ctx.xreg is Labeled
    }

    open spec fn asm_text(&self, ctx: AsmDisplayContext) -> Seq<char> {
        "beq        "@ + xreg_text(ctx, self.rs1) + ","@ + xreg_text(ctx, self.rs2) + ","@ + signed_int_text(self.spec_imm() as u64)
    }

    fn write_asm(&self, out: &mut String, ctx: &AsmDisplayContext) {
        let ghost before = out@;
        out.append("beq        ");
        AsmXreg(self.rs1).fmt_field(out, ctx);
        out.append(",");
        AsmXreg(self.rs2).fmt_field(out, ctx);
        out.append(",");
        AsmRelLabel(self.imm() as u64).fmt_field(out, ctx);
        proof {
            assert(out@ =~= before + self.asm_text(*ctx));
        }
    }
}

impl AsmInstruction for OriArgs {
    open spec fn shown_in(&self, ctx: AsmDisplayContext) -> bool {
        ctx.xreg is Labeled
    }

    open spec fn asm_text(&self, ctx: AsmDisplayContext) -> Seq<char> {
        "ori        "@ + xreg_text(ctx, self.rd) + ","@ + xreg_text(ctx, self.rs) + ","@ + signed_int_text(self.spec_imm() as u64)
    }

    fn write_asm(&self, out: &mut String, ctx: &AsmDisplayContext) {
        let ghost before = out@;
        out.append("ori        ");
        AsmXreg(self.rd).fmt_field(out, ctx);
        out.append(",");
        AsmXreg(self.rs).fmt_field(out, ctx);
        out.append(",");
        AsmSignedInt(self.imm() as u64).fmt_field(out, ctx);
        proof {
            assert(out@ =~= before + self.asm_text(*ctx));
        }
    }
}

impl AsmInstruction for FdivSArgs {
    open spec fn shown_in(&self, ctx: AsmDisplayContext) -> bool {
        ctx.freg is Labeled
    }

    open spec fn asm_text(&self, ctx: AsmDisplayContext) -> Seq<char> {
        "fdiv.s     "@ + freg_text(ctx, self.rd) + ","@ + freg_text(ctx, self.rs1) + ","@ + freg_text(ctx, self.rs2)
    }

    fn write_asm(&self, out: &mut String, ctx: &AsmDisplayContext) {
        let ghost before = out@;
        out.append("fdiv.s     ");
        AsmFreg(self.rd).fmt_field(out, ctx);
        out.append(",");
        AsmFreg(self.rs1).fmt_field(out, ctx);
        out.append(",");
        AsmFreg(self.rs2).fmt_field(out, ctx);
        proof {
            assert(out@ =~= before + self.asm_text(*ctx));
        }
    }
}

impl AsmInstruction for FsubSArgs {
    open spec fn shown_in(&self, ctx: AsmDisplayContext) -> bool {
        ctx.freg is Labeled
    }

    open spec fn asm_text(&self, ctx: AsmDisplayContext) -> Seq<char> {
        "fsub.s     "@ + freg_text(ctx, self.rd) + ","@ + freg_text(ctx, self.rs1) + ","@ + freg_text(ctx, self.rs2)
    }

    fn write_asm(&self, out: &mut String, ctx: &AsmDisplayContext) {
        let ghost before = out@;
        out.append("fsub.s     ");
        AsmFreg(self.rd).fmt_field(out, ctx);
        out.append(",");
        AsmFreg(self.rs1).fmt_field(out, ctx);
        out.append(",");
        AsmFreg(self.rs2).fmt_field(out, ctx);
        proof {
            assert(out@ =~= before + self.asm_text(*ctx));
        }
    }
}

impl AsmInstruction for FaddSArgs {
    open spec fn shown_in(&self, ctx: AsmDisplayContext) -> bool {
        ctx.freg is Labeled
    }

    open spec fn asm_text(&self, ctx: AsmDisplayContext) -> Seq<char> {
        "fadd.s     "@ + freg_text(ctx, self.rd) + ","@ + freg_text(ctx, self.rs1) + ","@ + freg_text(ctx, self.rs2)
    }

    fn write_asm(&self, out: &mut String, ctx: &AsmDisplayContext) {
        let ghost before = out@;
        out.append("fadd.s     ");
        AsmFreg(self.rd).fmt_field(out, ctx);
        out.append(",");
        AsmFreg(self.rs1).fmt_field(out, ctx);
        out.append(",");
        AsmFreg(self.rs2).fmt_field(out, ctx);
        proof {
            assert(out@ =~= before + self.asm_text(*ctx));
        }
    }
}

impl AsmInstruction for FmulSArgs {
    open spec fn shown_in(&self, ctx: AsmDisplayContext) -> bool {
        ctx.freg is Labeled
    }

    open spec fn asm_text(&self, ctx: AsmDisplayContext) -> Seq<char> {
        "fmul.s     "@ + freg_text(ctx, self.rd) + ","@ + freg_text(ctx, self.rs1) + ","@ + freg_text(ctx, self.rs2)
    }

    fn write_asm(&self, out: &mut String, ctx: &AsmDisplayContext) {
        let ghost before = out@;
        out.append("fmul.s     ");
        AsmFreg(self.rd).fmt_field(out, ctx);
        out.append(",");
        AsmFreg(self.rs1).fmt_field(out, ctx);
        out.append(",");
        AsmFreg(self.rs2).fmt_field(out, ctx);
        proof {
            assert(out@ =~= before + self.asm_text(*ctx));
        }
    }
}

impl AsmInstruction for SraiArgs {
    open spec fn shown_in(&self, ctx: AsmDisplayContext) -> bool {
        ctx.xreg is Labeled
    }

    open spec fn asm_text(&self, ctx: AsmDisplayContext) -> Seq<char> {
        "srai       "@ + xreg_text(ctx, self.rd) + ","@ + xreg_text(ctx, self.rs) + ","@ + unsigned_int_text(self.shamt as u64)
    }

    fn write_asm(&self, out: &mut String, ctx: &AsmDisplayContext) {
        let ghost before = out@;
        out.append("srai       ");
        AsmXreg(self.rd).fmt_field(out, ctx);
        out.append(",");
        AsmXreg(self.rs).fmt_field(out, ctx);
        out.append(",");
        AsmUnsignedInt(self.shamt as u64).fmt_field(out, ctx);
        proof {
            assert(out@ =~= before + self.asm_text(*ctx));
        }
    }
}

impl AsmInstruction for FeqSArgs {
    open spec fn shown_in(&self, ctx: AsmDisplayContext) -> bool {
        ctx.freg is Labeled && ctx.xreg is Labeled
    }

    open spec fn asm_text(&self, ctx: AsmDisplayContext) -> Seq<char> {
        "feq.s      "@ + xreg_text(ctx, self.rd) + ","@ + freg_text(ctx, self.rs1) + ","@ + freg_text(ctx, self.rs2)
    }

    fn write_asm(&self, out: &mut String, ctx: &AsmDisplayContext) {
        let ghost before = out@;
        out.append("feq.s      ");
        AsmXreg(self.rd).fmt_field(out, ctx);
        out.append(",");
        AsmFreg(self.rs1).fmt_field(out, ctx);
        out.append(",");
        AsmFreg(self.rs2).fmt_field(out, ctx);
        proof {
            assert(out@ =~= before + self.asm_text(*ctx));
        }
    }
}

impl AsmInstruction for AddArgs {
    open spec fn shown_in(&self, ctx: AsmDisplayContext) -> bool {
        ctx.xreg is Labeled
    }

    open spec fn asm_text(&self, ctx: AsmDisplayContext) -> Seq<char> {
        "add        "@ + xreg_text(ctx, self.rd) + ","@ + xreg_text(ctx, self.rs1) + ","@ + xreg_text(ctx, self.rs1)
    }

    fn write_asm(&self, out: &mut String, ctx: &AsmDisplayContext) {
        let ghost before = out@;
        out.append("add        ");
        AsmXreg(self.rd).fmt_field(out, ctx);
        out.append(",");
        AsmXreg(self.rs1).fmt_field(out, ctx);
        out.append(",");
        AsmXreg(self.rs1).fmt_field(out, ctx);
        proof {
            assert(out@ =~= before + self.asm_text(*ctx));
        }
    }
}

impl AsmInstruction for SlliArgs {
    open spec fn shown_in(&self, ctx: AsmDisplayContext) -> bool {
        ctx.xreg is Labeled
    }

    open spec fn asm_text(&self, ctx: AsmDisplayContext) -> Seq<char> {
        "slli       "@ + xreg_text(ctx, self.rd) + ","@ + xreg_text(ctx, self.rs) + ","@ + unsigned_int_text(self.shamt as u64)
    }

    fn write_asm(&self, out: &mut String, ctx: &AsmDisplayContext) {
        let ghost before = out@;
        out.append("slli       ");
        AsmXreg(self.rd).fmt_field(out, ctx);
        out.append(",");
        AsmXreg(self.rs).fmt_field(out, ctx);
        out.append(",");
        AsmUnsignedInt(self.shamt as u64).fmt_field(out, ctx);
        proof {
            assert(out@ =~= before + self.asm_text(*ctx));
        }
    }
}

impl AsmInstruction for SltuArgs {
    open spec fn shown_in(&self, ctx: AsmDisplayContext) -> bool {
        ctx.xreg is Labeled
    }

    open spec fn asm_text(&self, ctx: AsmDisplayContext) -> Seq<char> {
        "sltu       "@ + xreg_text(ctx, self.rd) + ","@ + xreg_text(ctx, self.rs1) + ","@ + xreg_text(ctx, self.rs1)
    }

    fn write_asm(&self, out: &mut String, ctx: &AsmDisplayContext) {
        let ghost before = out@;
        out.append("sltu       ");
        AsmXreg(self.rd).fmt_field(out, ctx);
        out.append(",");
        AsmXreg(self.rs1).fmt_field(out, ctx);
        out.append(",");
        AsmXreg(self.rs1).fmt_field(out, ctx);
        proof {
            assert(out@ =~= before + self.asm_text(*ctx));
        }
    }
}

impl AsmInstruction for FsgnjxSArgs {
    open spec fn shown_in(&self, ctx: AsmDisplayContext) -> bool {
        ctx.freg is Labeled
    }

    open spec fn asm_text(&self, ctx: AsmDisplayContext) -> Seq<char> {
        "fsgnjx.s   "@ + freg_text(ctx, self.rd) + ","@ + freg_text(ctx, self.rs1) + ","@ + freg_text(ctx, self.rs2)
    }

    fn write_asm(&self, out: &mut String, ctx: &AsmDisplayContext) {
        let ghost before = out@;
        out.append("fsgnjx.s   ");
        AsmFreg(self.rd).fmt_field(out, ctx);
        out.append(",");
        AsmFreg(self.rs1).fmt_field(out, ctx);
        out.append(",");
        AsmFreg(self.rs2).fmt_field(out, ctx);
        proof {
            assert(out@ =~= before + self.asm_text(*ctx));
        }
    }
}

impl AsmInstruction for FltSArgs {
    open spec fn shown_in(&self, ctx: AsmDisplayContext) -> bool {
        ctx.freg is Labeled
    }

    open spec fn asm_text(&self, ctx: AsmDisplayContext) -> Seq<char> {
        "flt.s      "@ + freg_text(ctx, self.rd) + ","@ + freg_text(ctx, self.rs1) + ","@ + freg_text(ctx, self.rs2)
    }

    fn write_asm(&self, out: &mut String, ctx: &AsmDisplayContext) {
        let ghost before = out@;
        out.append("flt.s      ");
        AsmFreg(self.rd).fmt_field(out, ctx);
        out.append(",");
        AsmFreg(self.rs1).fmt_field(out, ctx);
        out.append(",");
        AsmFreg(self.rs2).fmt_field(out, ctx);
        proof {
            assert(out@ =~= before + self.asm_text(*ctx));
        }
    }
}

impl AsmInstruction for FsgnjSArgs {
    open spec fn shown_in(&self, ctx: AsmDisplayContext) -> bool {
        ctx.freg is Labeled
    }

    open spec fn asm_text(&self, ctx: AsmDisplayContext) -> Seq<char> {
        "fsgnj.s    "@ + freg_text(ctx, self.rd) + ","@ + freg_text(ctx, self.rs1) + ","@ + freg_text(ctx, self.rs2)
    }

    fn write_asm(&self, out: &mut String, ctx: &AsmDisplayContext) {
        let ghost before = out@;
        out.append("fsgnj.s    ");
        AsmFreg(self.rd).fmt_field(out, ctx);
        out.append(",");
        AsmFreg(self.rs1).fmt_field(out, ctx);
        out.append(",");
        AsmFreg(self.rs2).fmt_field(out, ctx);
        proof {
            assert(out@ =~= before + self.asm_text(*ctx));
        }
    }
}

impl AsmInstruction for FmaxSArgs {
    open spec fn shown_in(&self, ctx: AsmDisplayContext) -> bool {
        ctx.freg is Labeled
    }

    open spec fn asm_text(&self, ctx: AsmDisplayContext) -> Seq<char> {
        "fmax.s     "@ + freg_text(ctx, self.rd) + ","@ + freg_text(ctx, self.rs1) + ","@ + freg_text(ctx, self.rs2)
    }

    fn write_asm(&self, out: &mut String, ctx: &AsmDisplayContext) {
        let ghost before = out@;
        out.append("fmax.s     ");
        AsmFreg(self.rd).fmt_field(out, ctx);
        out.append(",");
        AsmFreg(self.rs1).fmt_field(out, ctx);
        out.append(",");
        AsmFreg(self.rs2).fmt_field(out, ctx);
        proof {
            assert(out@ =~= before + self.asm_text(*ctx));
        }
    }
}

impl AsmInstruction for FsgnjnSArgs {
    open spec fn shown_in(&self, ctx: AsmDisplayContext) -> bool {
        ctx.freg is Labeled
    }

    open spec fn asm_text(&self, ctx: AsmDisplayContext) -> Seq<char> {
        "fsgnjn.s   "@ + freg_text(ctx, self.rd) + ","@ + freg_text(ctx, self.rs1) + ","@ + freg_text(ctx, self.rs2)
    }

    fn write_asm(&self, out: &mut String, ctx: &AsmDisplayContext) {
        let ghost before = out@;
        out.append("fsgnjn.s   ");
        AsmFreg(self.rd).fmt_field(out, ctx);
        out.append(",");
        AsmFreg(self.rs1).fmt_field(out, ctx);
        out.append(",");
        AsmFreg(self.rs2).fmt_field(out, ctx);
        proof {
            assert(out@ =~= before + self.asm_text(*ctx));
        }
    }
}

impl AsmInstruction for FminSArgs {
    open spec fn shown_in(&self, ctx: AsmDisplayContext) -> bool {
        ctx.freg is Labeled
    }

    open spec fn asm_text(&self, ctx: AsmDisplayContext) -> Seq<char> {
        "fmin.s     "@ + freg_text(ctx, self.rd) + ","@ + freg_text(ctx, self.rs1) + ","@ + freg_text(ctx, self.rs2)
    }

    fn write_asm(&self, out: &mut String, ctx: &AsmDisplayContext) {
        let ghost before = out@;
        out.append("fmin.s     ");
        AsmFreg(self.rd).fmt_field(out, ctx);
        out.append(",");
        AsmFreg(self.rs1).fmt_field(out, ctx);
        out.append(",");
        AsmFreg(self.rs2).fmt_field(out, ctx);
        proof {
            assert(out@ =~= before + self.asm_text(*ctx));
        }
    }
}

impl AsmInstruction for XorArgs {
    open spec fn shown_in(&self, ctx: AsmDisplayContext) -> bool {
        ctx.xreg is Labeled
    }

    open spec fn asm_text(&self, ctx: AsmDisplayContext) -> Seq<char> {
        "xor        "@ + xreg_text(ctx, self.rd) + ","@ + xreg_text(ctx, self.rs1) + ","@ + xreg_text(ctx, self.rs1)
    }

    fn write_asm(&self, out: &mut String, ctx: &AsmDisplayContext) {
        let ghost before = out@;
        out.append("xor        ");
        AsmXreg(self.rd).fmt_field(out, ctx);
        out.append(",");
        AsmXreg(self.rs1).fmt_field(out, ctx);
        out.append(",");
        AsmXreg(self.rs1).fmt_field(out, ctx);
        proof {
            assert(out@ =~= before + self.asm_text(*ctx));
        }
    }
}

impl AsmInstruction for SrliArgs {
    open spec fn shown_in(&self, ctx: AsmDisplayContext) -> bool {
        ctx.xreg is Labeled
    }

    open spec fn asm_text(&self, ctx: AsmDisplayContext) -> Seq<char> {
        "srli       "@ + xreg_text(ctx, self.rd) + ","@ + xreg_text(ctx, self.rs) + ","@ + unsigned_int_text(self.shamt as u64)
    }

    fn write_asm(&self, out: &mut String, ctx: &AsmDisplayContext) {
        let ghost before = out@;
        out.append("srli       ");
        AsmXreg(self.rd).fmt_field(out, ctx);
        out.append(",");
        AsmXreg(self.rs).fmt_field(out, ctx);
        out.append(",");
        AsmUnsignedInt(self.shamt as u64).fmt_field(out, ctx);
        proof {
            assert(out@ =~= before + self.asm_text(*ctx));
        }
    }
}

impl AsmInstruction for SltArgs {
    open spec fn shown_in(&self, ctx: AsmDisplayContext) -> bool {
        ctx.xreg is Labeled
    }

    open spec fn asm_text(&self, ctx: AsmDisplayContext) -> Seq<char> {
        "slt        "@ + xreg_text(ctx, self.rd) + ","@ + xreg_text(ctx, self.rs1) + ","@ + xreg_text(ctx, self.rs1)
    }

    fn write_asm(&self, out: &mut String, ctx: &AsmDisplayContext) {
        let ghost before = out@;
        out.append("slt        ");
        AsmXreg(self.rd).fmt_field(out, ctx);
        out.append(",");
        AsmXreg(self.rs1).fmt_field(out, ctx);
        out.append(",");
        AsmXreg(self.rs1).fmt_field(out, ctx);
        proof {
            assert(out@ =~= before + self.asm_text(*ctx));
        }
    }
}

impl AsmInstruction for SubArgs {
    open spec fn shown_in(&self, ctx: AsmDisplayContext) -> bool {
        ctx.xreg is Labeled
    }

    open spec fn asm_text(&self, ctx: AsmDisplayContext) -> Seq<char> {
        "sub        "@ + xreg_text(ctx, self.rd) + ","@ + xreg_text(ctx, self.rs1) + ","@ + xreg_text(ctx, self.rs1)
    }

    fn write_asm(&self, out: &mut String, ctx: &AsmDisplayContext) {
        let ghost before = out@;
        out.append("sub        ");
        AsmXreg(self.rd).fmt_field(out, ctx);
        out.append(",");
        AsmXreg(self.rs1).fmt_field(out, ctx);
        out.append(",");
        AsmXreg(self.rs1).fmt_field(out, ctx);
        proof {
            assert(out@ =~= before + self.asm_text(*ctx));
        }
    }
}

impl AsmInstruction for SllArgs {
    open spec fn shown_in(&self, ctx: AsmDisplayContext) -> bool {
        ctx.xreg is Labeled
    }

    open spec fn asm_text(&self, ctx: AsmDisplayContext) -> Seq<char> {
        "sll        "@ + xreg_text(ctx, self.rd) + ","@ + xreg_text(ctx, self.rs1) + ","@ + xreg_text(ctx, self.rs1)
    }

    fn write_asm(&self, out: &mut String, ctx: &AsmDisplayContext) {
        let ghost before = out@;
        out.append("sll        ");
        AsmXreg(self.rd).fmt_field(out, ctx);
        out.append(",");
        AsmXreg(self.rs1).fmt_field(out, ctx);
        out.append(",");
        AsmXreg(self.rs1).fmt_field(out, ctx);
        proof {
            assert(out@ =~= before + self.asm_text(*ctx));
        }
    }
}

impl AsmInstruction for SrlArgs {
    open spec fn shown_in(&self, ctx: AsmDisplayContext) -> bool {
        ctx.xreg is Labeled
    }

    open spec fn asm_text(&self, ctx: AsmDisplayContext) -> Seq<char> {
        "srl        "@ + xreg_text(ctx, self.rd) + ","@ + xreg_text(ctx, self.rs1) + ","@ + xreg_text(ctx, self.rs1)
    }

    fn write_asm(&self, out: &mut String, ctx: &AsmDisplayContext) {
        let ghost before = out@;
        out.append("srl        ");
        AsmXreg(self.rd).fmt_field(out, ctx);
        out.append(",");
        AsmXreg(self.rs1).fmt_field(out, ctx);
        out.append(",");
        AsmXreg(self.rs1).fmt_field(out, ctx);
        proof {
            assert(out@ =~= before + self.asm_text(*ctx));
        }
    }
}

impl AsmInstruction for SraArgs {
    open spec fn shown_in(&self, ctx: AsmDisplayContext) -> bool {
        ctx.xreg is Labeled
    }

    open spec fn asm_text(&self, ctx: AsmDisplayContext) -> Seq<char> {
        "sra        "@ + xreg_text(ctx, self.rd) + ","@ + xreg_text(ctx, self.rs1) + ","@ + xreg_text(ctx, self.rs1)
    }

    fn write_asm(&self, out: &mut String, ctx: &AsmDisplayContext) {
        let ghost before = out@;
        out.append("sra        ");
        AsmXreg(self.rd).fmt_field(out, ctx);
        out.append(",");
        AsmXreg(self.rs1).fmt_field(out, ctx);
        out.append(",");
        AsmXreg(self.rs1).fmt_field(out, ctx);
        proof {
            assert(out@ =~= before + self.asm_text(*ctx));
        }
    }
}

impl AsmInstruction for FleSArgs {
    open spec fn shown_in(&self, ctx: AsmDisplayContext) -> bool {
        ctx.freg is Labeled
    }

    open spec fn asm_text(&self, ctx: AsmDisplayContext) -> Seq<char> {
        "fle.s      "@ + freg_text(ctx, self.rd) + ","@ + freg_text(ctx, self.rs1) + ","@ + freg_text(ctx, self.rs2)
    }

    fn write_asm(&self, out: &mut String, ctx: &AsmDisplayContext) {
        let ghost before = out@;
        out.append("fle.s      ");
        AsmFreg(self.rd).fmt_field(out, ctx);
        out.append(",");
        AsmFreg(self.rs1).fmt_field(out, ctx);
        out.append(",");
        AsmFreg(self.rs2).fmt_field(out, ctx);
        proof {
            assert(out@ =~= before + self.asm_text(*ctx));
        }
    }
}

impl AsmInstruction for AndArgs {
    open spec fn shown_in(&self, ctx: AsmDisplayContext) -> bool {
        ctx.xreg is Labeled
    }

    open spec fn asm_text(&self, ctx: AsmDisplayContext) -> Seq<char> {
        "and        "@ + xreg_text(ctx, self.rd) + ","@ + xreg_text(ctx, self.rs1) + ","@ + xreg_text(ctx, self.rs1)
    }

    fn write_asm(&self, out: &mut String, ctx: &AsmDisplayContext) {
        let ghost before = out@;
        out.append("and        ");
        AsmXreg(self.rd).fmt_field(out, ctx);
        out.append(",");
        AsmXreg(self.rs1).fmt_field(out, ctx);
        out.append(",");
        AsmXreg(self.rs1).fmt_field(out, ctx);
        proof {
            assert(out@ =~= before + self.asm_text(*ctx));
        }
    }
}

impl AsmInstruction for OrArgs {
    open spec fn shown_in(&self, ctx: AsmDisplayContext) -> bool {
        ctx.xreg is Labeled
    }

    open spec fn asm_text(&self, ctx: AsmDisplayContext) -> Seq<char> {
        "or         "@ + xreg_text(ctx, self.rd) + ","@ + xreg_text(ctx, self.rs1) + ","@ + xreg_text(ctx, self.rs1)
    }

    fn write_asm(&self, out: &mut String, ctx: &AsmDisplayContext) {
        let ghost before = out@;
        out.append("or         ");
        AsmXreg(self.rd).fmt_field(out, ctx);
        out.append(",");
        AsmXreg(self.rs1).fmt_field(out, ctx);
        out.append(",");
        AsmXreg(self.rs1).fmt_field(out, ctx);
        proof {
            assert(out@ =~= before + self.asm_text(*ctx));
        }
    }
}

impl AsmInstruction for FcvtWuSArgs {
    open spec fn shown_in(&self, ctx: AsmDisplayContext) -> bool {
        ctx.freg is Labeled && ctx.xreg is Labeled
    }

    open spec fn asm_text(&self, ctx: AsmDisplayContext) -> Seq<char> {
        "fcvt.wu.s  "@ + xreg_text(ctx, self.rd) + ","@ + freg_text(ctx, self.rs1)
    }

    fn write_asm(&self, out: &mut String, ctx: &AsmDisplayContext) {
        let ghost before = out@;
        out.append("fcvt.wu.s  ");
        AsmXreg(self.rd).fmt_field(out, ctx);
        out.append(",");
        AsmFreg(self.rs1).fmt_field(out, ctx);
        proof {
            assert(out@ =~= before + self.asm_text(*ctx));
        }
    }
}

impl AsmInstruction for FcvtSWArgs {
    open spec fn shown_in(&self, ctx: AsmDisplayContext) -> bool {
        ctx.freg is Labeled && ctx.xreg is Labeled
    }

    open spec fn asm_text(&self, ctx: AsmDisplayContext) -> Seq<char> {
        "fcvt.s.w   "@ + freg_text(ctx, self.rd) + ","@ + xreg_text(ctx, self.rs1)
    }

    fn write_asm(&self, out: &mut String, ctx: &AsmDisplayContext) {
        let ghost before = out@;
        out.append("fcvt.s.w   ");
        AsmFreg(self.rd).fmt_field(out, ctx);
        out.append(",");
        AsmXreg(self.rs1).fmt_field(out, ctx);
        proof {
            assert(out@ =~= before + self.asm_text(*ctx));
        }
    }
}

impl AsmInstruction for FcvtSWuArgs {
    open spec fn shown_in(&self, ctx: AsmDisplayContext) -> bool {
        ctx.freg is Labeled && ctx.xreg is Labeled
    }

    open spec fn asm_text(&self, ctx: AsmDisplayContext) -> Seq<char> {
        "fcvt.s.wu  "@ + freg_text(ctx, self.rd) + ","@ + xreg_text(ctx, self.rs1)
    }

    fn write_asm(&self, out: &mut String, ctx: &AsmDisplayContext) {
        let ghost before = out@;
        out.append("fcvt.s.wu  ");
        AsmFreg(self.rd).fmt_field(out, ctx);
        out.append(",");
        AsmXreg(self.rs1).fmt_field(out, ctx);
        proof {
            assert(out@ =~= before + self.asm_text(*ctx));
        }
    }
}

impl AsmInstruction for FsqrtSArgs {
    open spec fn shown_in(&self, ctx: AsmDisplayContext) -> bool {
        ctx.freg is Labeled
    }

    open spec fn asm_text(&self, ctx: AsmDisplayContext) -> Seq<char> {
        "fsqrt.s    "@ + freg_text(ctx, self.rd) + ","@ + freg_text(ctx, self.rs1)
    }

    fn write_asm(&self, out: &mut String, ctx: &AsmDisplayContext) {
        let ghost before = out@;
        out.append("fsqrt.s    ");
        AsmFreg(self.rd).fmt_field(out, ctx);
        out.append(",");
        AsmFreg(self.rs1).fmt_field(out, ctx);
        proof {
            assert(out@ =~= before + self.asm_text(*ctx));
        }
    }
}

impl AsmInstruction for FcvtWSArgs {
    open spec fn shown_in(&self, ctx: AsmDisplayContext) -> bool {
        ctx.freg is Labeled && ctx.xreg is Labeled
    }

    open spec fn asm_text(&self, ctx: AsmDisplayContext) -> Seq<char> {
        "fcvt.w.s   "@ + xreg_text(ctx, self.rd) + ","@ + freg_text(ctx, self.rs1)
    }

    fn write_asm(&self, out: &mut String, ctx: &AsmDisplayContext) {
        let ghost before = out@;
        out.append("fcvt.w.s   ");
        AsmXreg(self.rd).fmt_field(out, ctx);
        out.append(",");
        AsmFreg(self.rs1).fmt_field(out, ctx);
        proof {
            assert(out@ =~= before + self.asm_text(*ctx));
        }
    }
}

impl AsmInstruction for FmvXWArgs {
    open spec fn shown_in(&self, ctx: AsmDisplayContext) -> bool {
        ctx.freg is Labeled && ctx.xreg is Labeled
    }

    open spec fn asm_text(&self, ctx: AsmDisplayContext) -> Seq<char> {
        "fmv.x.w    "@ + xreg_text(ctx, self.rd) + ","@ + freg_text(ctx, self.rs1)
    }

    fn write_asm(&self, out: &mut String, ctx: &AsmDisplayContext) {
        let ghost before = out@;
        out.append("fmv.x.w    ");
        AsmXreg(self.rd).fmt_field(out, ctx);
        out.append(",");
        AsmFreg(self.rs1).fmt_field(out, ctx);
        proof {
            assert(out@ =~= before + self.asm_text(*ctx));
        }
    }
}

impl AsmInstruction for FmvWXArgs {
    open spec fn shown_in(&self, ctx: AsmDisplayContext) -> bool {
        ctx.freg is Labeled && ctx.xreg is Labeled
    }

    open spec fn asm_text(&self, ctx: AsmDisplayContext) -> Seq<char> {
        "fmv.w.x    "@ + freg_text(ctx, self.rd) + ","@ + xreg_text(ctx, self.rs1)
    }

    fn write_asm(&self, out: &mut String, ctx: &AsmDisplayContext) {
        let ghost before = out@;
        out.append("fmv.w.x    ");
        AsmFreg(self.rd).fmt_field(out, ctx);
        out.append(",");
        AsmXreg(self.rs1).fmt_field(out, ctx);
        proof {
            assert(out@ =~= before + self.asm_text(*ctx));
        }
    }
}

impl AsmInstruction for FclassSArgs {
    open spec fn shown_in(&self, ctx: AsmDisplayContext) -> bool {
        ctx.freg is Labeled && ctx.xreg is Labeled
    }

    open spec fn asm_text(&self, ctx: AsmDisplayContext) -> Seq<char> {
        "fclass.s   "@ + xreg_text(ctx, self.rd) + ","@ + freg_text(ctx, self.rs1)
    }

    fn write_asm(&self, out: &mut String, ctx: &AsmDisplayContext) {
        let ghost before = out@;
        out.append("fclass.s   ");
        AsmXreg(self.rd).fmt_field(out, ctx);
        out.append(",");
        AsmFreg(self.rs1).fmt_field(out, ctx);
        proof {
            assert(out@ =~= before + self.asm_text(*ctx));
        }
    }
}

impl AsmInstruction for EcallArgs {
    open spec fn shown_in(&self, ctx: AsmDisplayContext) -> bool {
        true
    }

    open spec fn asm_text(&self, ctx: AsmDisplayContext) -> Seq<char> {
        "ecall      "@
    }

    fn write_asm(&self, out: &mut String, ctx: &AsmDisplayContext) {
        let ghost before = out@;
        out.append("ecall      ");
        proof {
            assert(out@ =~= before + self.asm_text(*ctx));
        }
    }
}

impl AsmInstruction for EbreakArgs {
    open spec fn shown_in(&self, ctx: AsmDisplayContext) -> bool {
        true
    }

    open spec fn asm_text(&self, ctx: AsmDisplayContext) -> Seq<char> {
        "ebreak     "@
    }

    fn write_asm(&self, out: &mut String, ctx: &AsmDisplayContext) {
        let ghost before = out@;
        out.append("ebreak     ");
        proof {
            assert(out@ =~= before + self.asm_text(*ctx));
        }
    }
}

impl AsmInstruction for Instruction {
    open spec fn shown_in(&self, ctx: AsmDisplayContext) -> bool {
        match self {
            Instruction::Auipc(args) => args.shown_in(ctx),
            Instruction::Jal(args) => args.shown_in(ctx),
            Instruction::Lui(args) => args.shown_in(ctx),
            Instruction::FmsubS(args) => args.shown_in(ctx),
            Instruction::FnmsubS(args) => args.shown_in(ctx),
            Instruction::FnmaddS(args) => args.shown_in(ctx),
            Instruction::FmaddS(args) => args.shown_in(ctx),
            Instruction::Sb(args) => args.shown_in(ctx),
            Instruction::Lw(args) => args.shown_in(ctx),
            Instruction::Bge(args) => args.shown_in(ctx),
            Instruction::Bne(args) => args.shown_in(ctx),
            Instruction::Lbu(args) => args.shown_in(ctx),
            Instruction::Bltu(args) => args.shown_in(ctx),
            Instruction::Csrrw(args) => args.shown_in(ctx),
            Instruction::Xori(args) => args.shown_in(ctx),
            Instruction::Andi(args) => args.shown_in(ctx),
            Instruction::Sw(args) => args.shown_in(ctx),
            Instruction::Csrrs(args) => args.shown_in(ctx),
            Instruction::Sh(args) => args.shown_in(ctx),
            Instruction::Sltiu(args) => args.shown_in(ctx),
            Instruction::Lb(args) => args.shown_in(ctx),
            Instruction::Lh(args) => args.shown_in(ctx),
            Instruction::Csrrwi(args) => args.shown_in(ctx),
            Instruction::Slti(args) => args.shown_in(ctx),
            Instruction::Csrrc(args) => args.shown_in(ctx),
            Instruction::Lhu(args) => args.shown_in(ctx),
            Instruction::Fsw(args) => args.shown_in(ctx),
            Instruction::Addi(args) => args.shown_in(ctx),
            Instruction::Blt(args) => args.shown_in(ctx),
            Instruction::Bgeu(args) => args.shown_in(ctx),
            Instruction::Csrrsi(args) => args.shown_in(ctx),
            Instruction::Csrrci(args) => args.shown_in(ctx),
            Instruction::Jalr(args) => args.shown_in(ctx),
            Instruction::Flw(args) => args.shown_in(ctx),
            Instruction::Beq(args) => args.shown_in(ctx),
            Instruction::Ori(args) => args.shown_in(ctx),
            Instruction::FdivS(args) => args.shown_in(ctx),
            Instruction::FsubS(args) => args.shown_in(ctx),
            Instruction::FaddS(args) => args.shown_in(ctx),
            Instruction::FmulS(args) => args.shown_in(ctx),
            Instruction::Srai(args) => args.shown_in(ctx),
            Instruction::FeqS(args) => args.shown_in(ctx),
            Instruction::Add(args) => args.shown_in(ctx),
            Instruction::Slli(args) => args.shown_in(ctx),
            Instruction::Sltu(args) => args.shown_in(ctx),
            Instruction::FsgnjxS(args) => args.shown_in(ctx),
            Instruction::FltS(args) => args.shown_in(ctx),
            Instruction::FsgnjS(args) => args.shown_in(ctx),
            Instruction::FmaxS(args) => args.shown_in(ctx),
            Instruction::FsgnjnS(args) => args.shown_in(ctx),
            Instruction::FminS(args) => args.shown_in(ctx),
            Instruction::Xor(args) => args.shown_in(ctx),
            Instruction::Srli(args) => args.shown_in(ctx),
            Instruction::Slt(args) => args.shown_in(ctx),
            Instruction::Sub(args) => args.shown_in(ctx),
            Instruction::Sll(args) => args.shown_in(ctx),
            Instruction::Srl(args) => args.shown_in(ctx),
            Instruction::Sra(args) => args.shown_in(ctx),
            Instruction::FleS(args) => args.shown_in(ctx),
            Instruction::And(args) => args.shown_in(ctx),
            Instruction::Or(args) => args.shown_in(ctx),
            Instruction::FcvtWuS(args) => args.shown_in(ctx),
            Instruction::FcvtSW(args) => args.shown_in(ctx),
            Instruction::FcvtSWu(args) => args.shown_in(ctx),
            Instruction::FsqrtS(args) => args.shown_in(ctx),
            Instruction::FcvtWS(args) => args.shown_in(ctx),
            Instruction::FmvXW(args) => args.shown_in(ctx),
            Instruction::FmvWX(args) => args.shown_in(ctx),
            Instruction::FclassS(args) => args.shown_in(ctx),
            Instruction::Ecall(args) => args.shown_in(ctx),
            Instruction::Ebreak(args) => args.shown_in(ctx),
        }
    }

    open spec fn asm_text(&self, ctx: AsmDisplayContext) -> Seq<char> {
        match self {
            Instruction::Auipc(args) => args.asm_text(ctx),
            Instruction::Jal(args) => args.asm_text(ctx),
            Instruction::Lui(args) => args.asm_text(ctx),
            Instruction::FmsubS(args) => args.asm_text(ctx),
            Instruction::FnmsubS(args) => args.asm_text(ctx),
            Instruction::FnmaddS(args) => args.asm_text(ctx),
            Instruction::FmaddS(args) => args.asm_text(ctx),
            Instruction::Sb(args) => args.asm_text(ctx),
            Instruction::Lw(args) => args.asm_text(ctx),
            Instruction::Bge(args) => args.asm_text(ctx),
            Instruction::Bne(args) => args.asm_text(ctx),
            Instruction::Lbu(args) => args.asm_text(ctx),
            Instruction::Bltu(args) => args.asm_text(ctx),
            Instruction::Csrrw(args) => args.asm_text(ctx),
            Instruction::Xori(args) => args.asm_text(ctx),
            Instruction::Andi(args) => args.asm_text(ctx),
            Instruction::Sw(args) => args.asm_text(ctx),
            Instruction::Csrrs(args) => args.asm_text(ctx),
            Instruction::Sh(args) => args.asm_text(ctx),
            Instruction::Sltiu(args) => args.asm_text(ctx),
            Instruction::Lb(args) => args.asm_text(ctx),
            Instruction::Lh(args) => args.asm_text(ctx),
            Instruction::Csrrwi(args) => args.asm_text(ctx),
            Instruction::Slti(args) => args.asm_text(ctx),
            Instruction::Csrrc(args) => args.asm_text(ctx),
            Instruction::Lhu(args) => args.asm_text(ctx),
            Instruction::Fsw(args) => args.asm_text(ctx),
            Instruction::Addi(args) => args.asm_text(ctx),
            Instruction::Blt(args) => args.asm_text(ctx),
            Instruction::Bgeu(args) => args.asm_text(ctx),
            Instruction::Csrrsi(args) => args.asm_text(ctx),
            Instruction::Csrrci(args) => args.asm_text(ctx),
            Instruction::Jalr(args) => args.asm_text(ctx),
            Instruction::Flw(args) => args.asm_text(ctx),
            Instruction::Beq(args) => args.asm_text(ctx),
            Instruction::Ori(args) => args.asm_text(ctx),
            Instruction::FdivS(args) => args.asm_text(ctx),
            Instruction::FsubS(args) => args.asm_text(ctx),
            Instruction::FaddS(args) => args.asm_text(ctx),
            Instruction::FmulS(args) => args.asm_text(ctx),
            Instruction::Srai(args) => args.asm_text(ctx),
            Instruction::FeqS(args) => args.asm_text(ctx),
            Instruction::Add(args) => args.asm_text(ctx),
            Instruction::Slli(args) => args.asm_text(ctx),
            Instruction::Sltu(args) => args.asm_text(ctx),
            Instruction::FsgnjxS(args) => args.asm_text(ctx),
            Instruction::FltS(args) => args.asm_text(ctx),
            Instruction::FsgnjS(args) => args.asm_text(ctx),
            Instruction::FmaxS(args) => args.asm_text(ctx),
            Instruction::FsgnjnS(args) => args.asm_text(ctx),
            Instruction::FminS(args) => args.asm_text(ctx),
            Instruction::Xor(args) => args.asm_text(ctx),
            Instruction::Srli(args) => args.asm_text(ctx),
            Instruction::Slt(args) => args.asm_text(ctx),
            Instruction::Sub(args) => args.asm_text(ctx),
            Instruction::Sll(args) => args.asm_text(ctx),
            Instruction::Srl(args) => args.asm_text(ctx),
            Instruction::Sra(args) => args.asm_text(ctx),
            Instruction::FleS(args) => args.asm_text(ctx),
            Instruction::And(args) => args.asm_text(ctx),
            Instruction::Or(args) => args.asm_text(ctx),
            Instruction::FcvtWuS(args) => args.asm_text(ctx),
            Instruction::FcvtSW(args) => args.asm_text(ctx),
            Instruction::FcvtSWu(args) => args.asm_text(ctx),
            Instruction::FsqrtS(args) => args.asm_text(ctx),
            Instruction::FcvtWS(args) => args.asm_text(ctx),
            Instruction::FmvXW(args) => args.asm_text(ctx),
            Instruction::FmvWX(args) => args.asm_text(ctx),
            Instruction::FclassS(args) => args.asm_text(ctx),
            Instruction::Ecall(args) => args.asm_text(ctx),
            Instruction::Ebreak(args) => args.asm_text(ctx),
        }
    }

    fn write_asm(&self, out: &mut String, ctx: &AsmDisplayContext) {
        match self {
            Instruction::Auipc(args) => args.write_asm(out, ctx),
            Instruction::Jal(args) => args.write_asm(out, ctx),
            Instruction::Lui(args) => args.write_asm(out, ctx),
            Instruction::FmsubS(args) => args.write_asm(out, ctx),
            Instruction::FnmsubS(args) => args.write_asm(out, ctx),
            Instruction::FnmaddS(args) => args.write_asm(out, ctx),
            Instruction::FmaddS(args) => args.write_asm(out, ctx),
            Instruction::Sb(args) => args.write_asm(out, ctx),
            Instruction::Lw(args) => args.write_asm(out, ctx),
            Instruction::Bge(args) => args.write_asm(out, ctx),
            Instruction::Bne(args) => args.write_asm(out, ctx),
            Instruction::Lbu(args) => args.write_asm(out, ctx),
            Instruction::Bltu(args) => args.write_asm(out, ctx),
            Instruction::Csrrw(args) => args.write_asm(out, ctx),
            Instruction::Xori(args) => args.write_asm(out, ctx),
            Instruction::Andi(args) => args.write_asm(out, ctx),
            Instruction::Sw(args) => args.write_asm(out, ctx),
            Instruction::Csrrs(args) => args.write_asm(out, ctx),
            Instruction::Sh(args) => args.write_asm(out, ctx),
            Instruction::Sltiu(args) => args.write_asm(out, ctx),
            Instruction::Lb(args) => args.write_asm(out, ctx),
            Instruction::Lh(args) => args.write_asm(out, ctx),
            Instruction::Csrrwi(args) => args.write_asm(out, ctx),
            Instruction::Slti(args) => args.write_asm(out, ctx),
            Instruction::Csrrc(args) => args.write_asm(out, ctx),
            Instruction::Lhu(args) => args.write_asm(out, ctx),
            Instruction::Fsw(args) => args.write_asm(out, ctx),
            Instruction::Addi(args) => args.write_asm(out, ctx),
            Instruction::Blt(args) => args.write_asm(out, ctx),
            Instruction::Bgeu(args) => args.write_asm(out, ctx),
            Instruction::Csrrsi(args) => args.write_asm(out, ctx),
            Instruction::Csrrci(args) => args.write_asm(out, ctx),
            Instruction::Jalr(args) => args.write_asm(out, ctx),
            Instruction::Flw(args) => args.write_asm(out, ctx),
            Instruction::Beq(args) => args.write_asm(out, ctx),
            Instruction::Ori(args) => args.write_asm(out, ctx),
            Instruction::FdivS(args) => args.write_asm(out, ctx),
            Instruction::FsubS(args) => args.write_asm(out, ctx),
            Instruction::FaddS(args) => args.write_asm(out, ctx),
            Instruction::FmulS(args) => args.write_asm(out, ctx),
            Instruction::Srai(args) => args.write_asm(out, ctx),
            Instruction::FeqS(args) => args.write_asm(out, ctx),
            Instruction::Add(args) => args.write_asm(out, ctx),
            Instruction::Slli(args) => args.write_asm(out, ctx),
            Instruction::Sltu(args) => args.write_asm(out, ctx),
            Instruction::FsgnjxS(args) => args.write_asm(out, ctx),
            Instruction::FltS(args) => args.write_asm(out, ctx),
            Instruction::FsgnjS(args) => args.write_asm(out, ctx),
            Instruction::FmaxS(args) => args.write_asm(out, ctx),
            Instruction::FsgnjnS(args) => args.write_asm(out, ctx),
            Instruction::FminS(args) => args.write_asm(out, ctx),
            Instruction::Xor(args) => args.write_asm(out, ctx),
            Instruction::Srli(args) => args.write_asm(out, ctx),
            Instruction::Slt(args) => args.write_asm(out, ctx),
            Instruction::Sub(args) => args.write_asm(out, ctx),
            Instruction::Sll(args) => args.write_asm(out, ctx),
            Instruction::Srl(args) => args.write_asm(out, ctx),
            Instruction::Sra(args) => args.write_asm(out, ctx),
            Instruction::FleS(args) => args.write_asm(out, ctx),
            Instruction::And(args) => args.write_asm(out, ctx),
            Instruction::Or(args) => args.write_asm(out, ctx),
            Instruction::FcvtWuS(args) => args.write_asm(out, ctx),
            Instruction::FcvtSW(args) => args.write_asm(out, ctx),
            Instruction::FcvtSWu(args) => args.write_asm(out, ctx),
            Instruction::FsqrtS(args) => args.write_asm(out, ctx),
            Instruction::FcvtWS(args) => args.write_asm(out, ctx),
            Instruction::FmvXW(args) => args.write_asm(out, ctx),
            Instruction::FmvWX(args) => args.write_asm(out, ctx),
            Instruction::FclassS(args) => args.write_asm(out, ctx),
            Instruction::Ecall(args) => args.write_asm(out, ctx),
            Instruction::Ebreak(args) => args.write_asm(out, ctx),
        }
    }
}

} // verus!
