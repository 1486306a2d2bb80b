//! The instruction set description as it is read: names paired with their entries, in the
//! order in which they were read.
use vstd::prelude::*;

use super::bits::Bits;

verus! {

/// A whole description file.
pub struct File {
    pub meta: Meta,
    pub instructions: Instructions,
}

/// The name of the instruction set, its types and its formats.
pub struct Meta {
    pub name: String,
    pub description: String,
    pub extends: Option<String>,
    pub types: Option<Vec<(String, Type)>>,
    pub formats: Vec<(String, Format)>,
}

/// The encoding and the assembly of each instruction, by name.
pub struct Instructions {
    pub encoding: Vec<(String, FormatEncoding)>,
    pub assembly: Vec<(String, Assembly)>,
}

/// A user-defined type.
pub struct Type {
    pub max_bits: Option<u32>,
    pub enumerate: Option<Vec<String>>,
}

/// An instruction format: its fields from the most significant on, and the fields composed of
/// others.
pub struct Format {
    pub encoding: Vec<EncodingPart>,
    pub subfields: Option<Vec<(String, Vec<FieldOrBits>)>>,
}

/// A field of a format.
pub struct EncodingPart {
    pub name: String,
    pub bits: u32,
    pub ty: Option<String>,
}

/// Fixed bits, or the name of a field.
pub enum FieldOrBits {
    Bits(Bits),
    Field(String),
}

/// The encoding of an instruction: its format and the value or the new name of its fields.
pub struct FormatEncoding {
    pub format: String,
    pub fields: Vec<(String, FieldOrBits)>,
}

/// The assembly of an instruction.
pub struct Assembly {
    pub mnemonic: String,
    pub fields: Vec<String>,
}

} // verus!
