//! A checked instruction set description: formats, field variants and instructions.
use vstd::prelude::*;

use super::bits::Bits;
use super::raw::FormatFieldPart;

verus! {

/// An instruction set description.
pub struct KiwiFile {
    pub name: String,
    pub description: String,
    pub formats: Vec<Format>,
    pub field_variants: Vec<FieldVariant>,
    pub instructions: Vec<Instruction>,
}

impl KiwiFile {
    /// The name of the instruction set.
    pub fn name(&self) -> (r: &str)
        ensures
            r@ == self.name@,
    {
        self.name.as_str()
    }

    /// The description of the instruction set.
    pub fn description(&self) -> (r: &str)
        ensures
            r@ == self.description@,
    {
        self.description.as_str()
    }

    /// The instructions, by ascending size of their format and number of fixed bits.
    pub fn instructions(&self) -> (r: &[Instruction])
        ensures
            r@ == self.instructions@,
    {
        self.instructions.as_slice()
    }

    /// The formats.
    pub fn formats(&self) -> (r: &[Format])
        ensures
            r@ == self.formats@,
    {
        self.formats.as_slice()
    }

    /// The field variants: the builtin ones, then those of the description.
    pub fn field_variants(&self) -> (r: &[FieldVariant])
        ensures
            r@ == self.field_variants@,
    {
        self.field_variants.as_slice()
    }

    /// The last instruction whose fixed bits of `encoded` have their required values.
    pub fn decode(&self, encoded: u32) -> (r: Option<&Instruction>)
        requires
            forall|i: int|
                0 <= i < self.instructions@.len() ==> #[trigger] self.instructions@[i].encoding.activated.short_value() is Some
                    && self.instructions@[i].encoding.activated.num_bits_spec() <= 32
                    && self.instructions@[i].encoding.mask.short_value() is Some
                    && self.instructions@[i].encoding.mask.num_bits_spec() <= 32,
        ensures
            r matches Some(instruction) ==> exists|i: int|
                0 <= i < self.instructions@.len() && *instruction == self.instructions@[i] && decodes_as(
                    self.instructions@[i],
                    encoded,
                ) && forall|j: int| i < j < self.instructions@.len() ==> !decodes_as(#[trigger] self.instructions@[j], encoded),
            r is None ==> forall|i: int| 0 <= i < self.instructions@.len() ==> !decodes_as(#[trigger] self.instructions@[i], encoded),
    {
        let mut i: usize = self.instructions.len();
        while i > 0
            invariant
                i <= self.instructions@.len(),
                forall|j: int| i <= j < self.instructions@.len() ==> !decodes_as(#[trigger] self.instructions@[j], encoded),
                forall|k: int|
                    0 <= k < self.instructions@.len() ==> #[trigger] self.instructions@[k].encoding.activated.short_value() is Some
                        && self.instructions@[k].encoding.activated.num_bits_spec() <= 32
                        && self.instructions@[k].encoding.mask.short_value() is Some
                        && self.instructions@[k].encoding.mask.num_bits_spec() <= 32,
            decreases i,
        {
            let instruction = &self.instructions[i - 1];
            let activated = instruction.encoding.activated.as_u32().unwrap();
            let mask = instruction.encoding.mask.as_u32().unwrap();
            if activated & encoded == mask {
                return Some(instruction);
            }
            i = i - 1;
        }
        None
    }
}

/// Whether the fixed bits of `instruction` have in `encoded` the values it requires.
pub open spec fn decodes_as(instruction: Instruction, encoded: u32) -> bool {
    let activated = (instruction.encoding.activated.short_value()->0 % 0x1_0000_0000) as u32;
    let mask = (instruction.encoding.mask.short_value()->0 % 0x1_0000_0000) as u32;
    activated & encoded == mask
}

/// An instruction: its name, encoding and assembly.
pub struct Instruction {
    pub name: String,
    pub encoding: InstructionEncoding,
    pub assembly: InstructionAssembly,
}

impl Instruction {
    /// The format of the instruction's encoding.
    pub fn format<'a>(&self, kiwi_file: &'a KiwiFile) -> (r: &'a Format)
        requires
            self.encoding.format < kiwi_file.formats@.len(),
        ensures
            *r == kiwi_file.formats@[self.encoding.format as int],
    {
        &kiwi_file.formats[self.encoding.format]
    }

    /// The name of the instruction.
    pub fn name(&self) -> (r: &str)
        ensures
            r@ == self.name@,
    {
        self.name.as_str()
    }

    /// The encoding of the instruction.
    pub fn encoding(&self) -> (r: &InstructionEncoding)
        ensures
            *r == self.encoding,
    {
        &self.encoding
    }

    /// The assembly of the instruction.
    pub fn assembly(&self) -> (r: &InstructionAssembly)
        ensures
            *r == self.assembly,
    {
        &self.assembly
    }
}

/// The encoding of an instruction: which bits are fixed (`activated`) and to what (`mask`), its
/// format, the fields whose bits are fixed, and the fields that are renamed.
pub struct InstructionEncoding {
    pub mask: Bits,
    pub activated: Bits,
    pub format: usize,
    pub predefined: Vec<String>,
    pub renamings: Vec<(String, String)>,
}

impl InstructionEncoding {
    /// The values of the fixed bits.
    pub fn mask(&self) -> (r: &Bits)
        ensures
            *r == self.mask,
    {
        &self.mask
    }

    /// Which bits are fixed.
    pub fn activated(&self) -> (r: &Bits)
        ensures
            *r == self.activated,
    {
        &self.activated
    }

    /// The fields whose bits are fixed.
    pub fn predefined(&self) -> (r: &[String])
        ensures
            r@ == self.predefined@,
    {
        self.predefined.as_slice()
    }

    /// The renamed fields, each with its new name.
    pub fn renamings(&self) -> (r: &[(String, String)])
        ensures
            r@ == self.renamings@,
    {
        self.renamings.as_slice()
    }

    /// The index of the format.
    pub fn format(&self) -> (r: usize)
        ensures
            r == self.format,
    {
        self.format
    }
}

/// The assembly of an instruction: its mnemonic and its fields.
pub struct InstructionAssembly {
    pub mnemonic: String,
    pub fields: Vec<InstructionAssemblyField>,
}

/// A field of the assembly: the index of its variant and its arguments.
pub struct InstructionAssemblyField {
    pub variant: usize,
    pub arguments: Vec<String>,
}

impl InstructionAssembly {
    /// The mnemonic.
    pub fn mnemonic(&self) -> (r: &str)
        ensures
            r@ == self.mnemonic@,
    {
        self.mnemonic.as_str()
    }

    /// The fields.
    pub fn fields(&self) -> (r: &[InstructionAssemblyField])
        ensures
            r@ == self.fields@,
    {
        self.fields.as_slice()
    }
}

impl InstructionAssemblyField {
    /// The variant of the field.
    pub fn variant<'a>(&self, kiwi_file: &'a KiwiFile) -> (r: &'a FieldVariant)
        requires
            self.variant < kiwi_file.field_variants@.len(),
        ensures
            *r == kiwi_file.field_variants@[self.variant as int],
    {
        &kiwi_file.field_variants[self.variant]
    }

    /// The arguments.
    pub fn arguments(&self) -> (r: &[String])
        ensures
            r@ == self.arguments@,
    {
        self.arguments.as_slice()
    }
}

/// An instruction format: its name, its size, where each of its fields lies, and the fields that
/// are composed of others.
pub struct Format {
    pub name: String,
    pub num_bits: u32,
    pub parts: Vec<(String, Part)>,
    pub added_fields: Vec<(String, Vec<FormatFieldPart>)>,
}

impl Format {
    /// The name of the format.
    pub fn name(&self) -> (r: &str)
        ensures
            r@ == self.name@,
    {
        self.name.as_str()
    }

    /// The number of bits of the format.
    pub fn num_bits(&self) -> (r: u32)
        ensures
            r == self.num_bits,
    {
        self.num_bits
    }

    /// The fields, each with its size and offset.
    pub fn parts(&self) -> (r: &[(String, Part)])
        ensures
            r@ == self.parts@,
    {
        self.parts.as_slice()
    }

    /// The fields composed of others.
    pub fn added_fields(&self) -> (r: &[(String, Vec<FormatFieldPart>)])
        ensures
            r@ == self.added_fields@,
    {
        self.added_fields.as_slice()
    }
}

/// Where a field lies in a format: its size and the position of its lowest bit.
pub struct Part {
    pub num_bits: u32,
    pub offset: u32,
}

/// A way to show a field in assembly.
pub struct FieldVariant {
    pub name: String,
    pub arg_max_sizes: Vec<u32>,
    pub default_display: String,
    pub display: Vec<(String, Option<FieldDisplay>)>,
}

impl FieldVariant {
    /// The name of the variant.
    pub fn name(&self) -> (r: &str)
        ensures
            r@ == self.name@,
    {
        self.name.as_str()
    }

    /// The largest size of each argument.
    pub fn arg_max_sizes(&self) -> (r: &[u32])
        ensures
            r@ == self.arg_max_sizes@,
    {
        self.arg_max_sizes.as_slice()
    }

    /// The name of the display used by default.
    pub fn default_display(&self) -> (r: &str)
        ensures
            r@ == self.default_display@,
    {
        self.default_display.as_str()
    }

    /// The displays, by name.
    pub fn display(&self) -> (r: &[(String, Option<FieldDisplay>)])
        ensures
            r@ == self.display@,
    {
        self.display.as_slice()
    }
}

/// How a field is shown: through a template, or a lookup table.
pub enum FieldDisplay {
    Template(FieldTemplate),
    Lut(Vec<String>),
}

/// A template with its arguments.
pub struct FieldTemplate {
    pub template: String,
    pub arguments: Vec<(usize, FieldTemplateArgument)>,
}

/// An argument of a template.
pub struct FieldTemplateArgument;

} // verus!
