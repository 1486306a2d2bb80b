//! The checked instruction set: types, instructions, their fields and encodings.
use vstd::prelude::*;

use super::bits::Bits;
use super::to_result::SnakeCaseIdent;

verus! {

/// An instruction set.
pub struct Isa<'a> {
    pub name: SnakeCaseIdent<'a>,
    pub description: &'a str,
    pub types: Vec<Type<'a>>,
    pub instructions: Vec<Instruction<'a>>,
}

impl<'a> Isa<'a> {
    /// The name of the instruction set.
    pub fn name(&self) -> (r: SnakeCaseIdent<'a>)
        ensures
            r == self.name,
    {
        self.name
    }

    /// The description of the instruction set.
    pub fn description(&self) -> (r: &str)
        ensures
            r@ == self.description@,
    {
        self.description
    }

    /// The types, builtin ones first.
    pub fn types(&self) -> (r: &[Type<'a>])
        ensures
            r@ == self.types@,
    {
        self.types.as_slice()
    }

    /// The instructions.
    pub fn instructions(&self) -> (r: &[Instruction<'a>])
        ensures
            r@ == self.instructions@,
    {
        self.instructions.as_slice()
    }
}

/// A named type.
pub struct Type<'a> {
    pub name: SnakeCaseIdent<'a>,
    pub content: TypeContent<'a>,
}

/// What a type is.
pub enum TypeContent<'a> {
    Builtin(BuiltinType),
    Enum(EnumType<'a>),
}

/// A type that every instruction set has.
pub enum BuiltinType {
    Integer(IntegerType),
}

/// A type with named values.
pub struct EnumType<'a> {
    pub variants: Vec<SnakeCaseIdent<'a>>,
}

impl<'a> Type<'a> {
    /// The name of the type.
    pub fn name(&self) -> (r: SnakeCaseIdent<'a>)
        ensures
            r == self.name,
    {
        self.name
    }

    /// What the type is.
    pub fn content(&self) -> (r: &TypeContent<'a>)
        ensures
            *r == self.content,
    {
        &self.content
    }
}

/// `2^n`.
pub open spec fn pow2(n: nat) -> nat
    decreases n,
{
    if n == 0 {
        1
    } else {
        2 * pow2((n - 1) as nat)
    }
}

impl<'a> EnumType<'a> {
    /// The number of bits that a value of the type takes: the base two logarithm of the number of
    /// variants, which is a power of two.
    pub fn max_bits(&self) -> (r: u32)
        requires
            exists|n: nat| pow2(n) == self.variants@.len(),
        ensures
            pow2(r as nat) == self.variants@.len(),
    {
        let len = self.variants.len();
        let mut r: u32 = 0;
        let mut rest: usize = len;
        proof {
            let n = choose|n: nat| pow2(n) == self.variants@.len();
            lemma_pow2_positive(n);
            assert(pow2(0) == 1);
        }
        while rest > 1
            invariant
                rest >= 1,
                rest * pow2(r as nat) == len,
                exists|n: nat| pow2(n) == rest,
                r <= 64,
            decreases rest,
        {
            proof {
                let n = choose|n: nat| pow2(n) == rest;
                if n == 0 {
                    assert(false);
                }
                assert(pow2(n) == 2 * pow2((n - 1) as nat));
                assert(rest / 2 == pow2((n - 1) as nat));
                assert(pow2((r + 1) as nat) == 2 * pow2(r as nat));
                assert((rest / 2) * pow2((r + 1) as nat) == len) by (nonlinear_arith)
                    requires
                        rest == 2 * pow2((n - 1) as nat),
                        rest / 2 == pow2((n - 1) as nat),
                        pow2((r + 1) as nat) == 2 * pow2(r as nat),
                        rest * pow2(r as nat) == len,
                ;
                lemma_pow2_positive((r + 1) as nat);
                assert(pow2((r + 1) as nat) <= len) by (nonlinear_arith)
                    requires
                        (rest / 2) * pow2((r + 1) as nat) == len,
                        rest / 2 >= 1,
                ;
                lemma_pow2_bound(r as nat + 1, len as nat);
            }
            rest = rest / 2;
            r = r + 1;
        }
        r
    }

    /// The names of the values.
    pub fn variants(&self) -> (r: &[SnakeCaseIdent<'a>])
        ensures
            r@ == self.variants@,
    {
        self.variants.as_slice()
    }
}

/// A power of two is positive.
proof fn lemma_pow2_positive(n: nat)
    ensures
        pow2(n) >= 1,
    decreases n,
{
    if n > 0 {
        lemma_pow2_positive((n - 1) as nat);
    }
}

/// A power of two that divides a machine-sized number has an exponent of at most 64.
proof fn lemma_pow2_bound(n: nat, len: nat)
    requires
        pow2(n) <= len,
        len <= usize::MAX,
    ensures
        n <= 64,
    decreases n,
{
    if n > 64 {
        lemma_pow2_monotone(65, n);
        assert(pow2(65) > usize::MAX) by {
            reveal_with_fuel(pow2, 66);
        }
    }
}

/// Powers of two grow with the exponent.
proof fn lemma_pow2_monotone(m: nat, n: nat)
    requires
        m <= n,
    ensures
        pow2(m) <= pow2(n),
    decreases n,
{
    if m < n {
        lemma_pow2_monotone(m, (n - 1) as nat);
        lemma_pow2_positive((n - 1) as nat);
    }
}

/// A builtin integer type.
pub struct IntegerType {
    pub signed: bool,
    pub shift: u32,
    pub display: BitsDisplay,
}

/// How bits are shown.
pub enum BitsDisplay {
    Decimal,
    Binary,
    Octal,
    Hexadecimal,
}

/// A checked instruction.
pub struct Instruction<'a> {
    pub name: SnakeCaseIdent<'a>,
    pub assembly: Assembly<'a>,
    pub encoding: Encoding,
    pub fields: Vec<InstructionField<'a>>,
}

/// The assembly of an instruction.
pub struct Assembly<'a> {
    pub mnemonic: &'a str,
    pub fields: Vec<AssemblyField>,
}

/// The index of a field of an instruction.
#[derive(Clone, Copy)]
pub struct FieldId(pub usize);

/// The index of a type of the instruction set.
#[derive(Clone, Copy)]
pub struct TypeId(pub usize);

/// A field of the assembly.
pub enum AssemblyField {
    Field(FieldId),
    FormatString(AssemblyFieldFormatString),
}

/// Text with fields inserted at positions.
pub struct AssemblyFieldFormatString {
    pub base: String,
    pub fields: Vec<(usize, FieldId)>,
}

/// Which bits of an encoding are fixed, and to what.
pub struct Encoding {
    pub enable_mask: Vec<u8>,
    pub value_mask: Vec<u8>,
}

/// A field of an instruction: its parts and its type.
pub struct InstructionField<'a> {
    pub name: SnakeCaseIdent<'a>,
    pub parts: Vec<InstructionFieldPart>,
    pub type_id: TypeId,
}

/// The bits from `lsb` to `msb` of an encoding.
#[derive(Clone, Copy)]
pub struct BitRange {
    pub msb: u32,
    pub lsb: u32,
}

/// A part of a field: fixed bits, or a range of the encoding.
pub enum InstructionFieldPart {
    Static(Bits),
    Dynamic(BitRange),
}

} // verus!
