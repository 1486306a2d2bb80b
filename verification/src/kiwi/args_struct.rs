//! The Rust source of the struct that holds the operands of an instruction: its fields, how they
//! are taken from an encoded instruction, how they are encoded again, and the accessors of the
//! fields composed of several parts.
use vstd::prelude::*;
use vstd::string::StringExecFns;

use super::bits::Bits;
use super::codegen::{BitContainerType, camel_prefix, to_args_struct_name};
use super::kiwi_file::{InstructionEncoding, Instruction, KiwiFile, Part};
use super::raw::{FormatFieldPart, find_first, find_last, first_named, last_named, lemma_named_in};
use crate::digits::{digits, push_digits, push_padded_digits, push_repeated, repeated, zero_padded};

verus! {

/// The name of the smallest unsigned integer type that holds `num_bits` bits.
pub open spec fn int_type_name(num_bits: u32) -> Seq<char> {
    if num_bits <= 8 {
        "u8"@
    } else if num_bits <= 16 {
        "u16"@
    } else if num_bits <= 32 {
        "u32"@
    } else {
        "u64"@
    }
}

/// Whether the encoding gives the field `name` fixed bits.
pub open spec fn is_predefined(enc: InstructionEncoding, name: Seq<char>) -> bool {
    exists|i: int| 0 <= i < enc.predefined@.len() && #[trigger] enc.predefined@[i]@ == name
}

/// The name under which the instruction knows the format field `name`.
pub open spec fn renamed(enc: InstructionEncoding, name: Seq<char>) -> Seq<char> {
    match last_named(enc.renamings@, name) {
        Some(i) => enc.renamings@[i].1@,
        None => name,
    }
}

/// `n` in decimal.
pub open spec fn decimal(n: int) -> Seq<char> {
    digits(n as nat, 10)
}

/// The line of the format part `part` in the struct (`kind` 0), in `take_args` (`kind` 1) or in
/// `encode` (`kind` 2).
pub open spec fn part_line(kind: u8, enc: InstructionEncoding, format_type: Seq<char>, part: (String, Part)) -> Seq<char> {
    let name = renamed(enc, part.0@);
    let ty = int_type_name(part.1.num_bits);
    if kind == 0 {
        "\tpub "@ + name + ": "@ + ty + ",\n"@
    } else if kind == 1 {
        "\t\t\t"@ + name + ": ((encoded >> "@ + decimal(part.1.offset as int) + ") & 0b"@ + repeated(
            '1',
            part.1.num_bits as nat,
        ) + ") as "@ + ty + ",\n"@
    } else {
        "\t\tencoded |= (self."@ + name + " as "@ + format_type + ") << "@ + decimal(part.1.offset as int) + ";\n"@
    }
}

/// The lines of the parts that the encoding does not fix, in order.
pub open spec fn part_lines(kind: u8, enc: InstructionEncoding, format_type: Seq<char>, parts: Seq<(String, Part)>) -> Seq<char>
    decreases parts.len(),
{
    if parts.len() == 0 {
        Seq::empty()
    } else {
        part_lines(kind, enc, format_type, parts.drop_last()) + if is_predefined(enc, parts.last().0@) {
            Seq::<char>::empty()
        } else {
            part_line(kind, enc, format_type, parts.last())
        }
    }
}

/// Whether a part of the composed field is a field that the encoding does not fix.
pub open spec fn is_variable(enc: InstructionEncoding, parts: Seq<FormatFieldPart>) -> bool {
    exists|i: int|
        0 <= i < parts.len() && (#[trigger] parts[i] matches FormatFieldPart::Field(f) && !is_predefined(enc, f@))
}

/// Whether a part of the composed field is a field that the instruction renames.
pub open spec fn is_overwritten(enc: InstructionEncoding, parts: Seq<FormatFieldPart>) -> bool {
    exists|i: int|
        0 <= i < parts.len() && (#[trigger] parts[i] matches FormatFieldPart::Field(f) && last_named(
            enc.renamings@,
            f@,
        ) is Some)
}

/// Whether the composed field gets an accessor.
pub open spec fn has_accessor(enc: InstructionEncoding, parts: Seq<FormatFieldPart>) -> bool {
    is_variable(enc, parts) && !is_overwritten(enc, parts)
}

/// The value of fixed bits, as a word.
pub open spec fn bits_word(b: Bits) -> nat {
    (b.short_value().unwrap() % 0x1_0000_0000) as nat
}

/// How a part of a composed field is shown in the comment of its accessor.
pub open spec fn part_label(p: FormatFieldPart) -> Seq<char> {
    match p {
        FormatFieldPart::Bits(b) => digits(bits_word(b), 2),
        FormatFieldPart::Field(f) => f@,
    }
}

/// The comment of the accessor of a composed field: its parts, each followed by ` @ `.
pub open spec fn comment_text(parts: Seq<FormatFieldPart>) -> Seq<char>
    decreases parts.len(),
{
    if parts.len() == 0 {
        Seq::empty()
    } else {
        comment_text(parts.drop_last()) + part_label(parts.last()) + " @ "@
    }
}

/// The number of bits of a part of a composed field.
pub open spec fn part_width(p: FormatFieldPart, format_parts: Seq<(String, Part)>) -> int {
    match p {
        FormatFieldPart::Bits(b) => b.num_bits_spec() as int,
        FormatFieldPart::Field(f) => match first_named(format_parts, f@) {
            Some(j) => format_parts[j].1.num_bits as int,
            None => 0,
        },
    }
}

/// The term of the accessor for a part of a composed field placed at bit `offset`.
pub open spec fn part_term(p: FormatFieldPart, offset: int) -> Seq<char> {
    match p {
        FormatFieldPart::Bits(b) => "((0b"@ + digits(bits_word(b), 2) + " as u32) << "@ + decimal(offset) + ") | "@,
        FormatFieldPart::Field(f) => "((self."@ + f@ + " as u32) << "@ + decimal(offset) + ") | "@,
    }
}

/// The terms of the parts from `n` on, the last part first, placed from bit 0 up; and the number
/// of bits they take.
pub open spec fn body_from(parts: Seq<FormatFieldPart>, format_parts: Seq<(String, Part)>, n: int) -> (Seq<char>, int)
    decreases parts.len() - n,
{
    if n < 0 || n >= parts.len() {
        (Seq::empty(), 0)
    } else {
        let (text, offset) = body_from(parts, format_parts, n + 1);
        (text + part_term(parts[n], offset), offset + part_width(parts[n], format_parts))
    }
}

/// The accessor of the composed field `name`.
pub open spec fn accessor_text(name: Seq<char>, parts: Seq<FormatFieldPart>, format_parts: Seq<(String, Part)>) -> Seq<char> {
    "\t/// "@ + comment_text(parts) + "\n"@ + "\tpub fn "@ + name + "(&self) -> u32 {\n"@ + "\t\t"@ + body_from(
        parts,
        format_parts,
        0,
    ).0 + "0\n"@ + "\t}\n"@
}

/// The accessors of the composed fields that get one, in order.
pub open spec fn accessors_text(
    enc: InstructionEncoding,
    added: Seq<(String, Vec<FormatFieldPart>)>,
    format_parts: Seq<(String, Part)>,
) -> Seq<char>
    decreases added.len(),
{
    if added.len() == 0 {
        Seq::empty()
    } else {
        accessors_text(enc, added.drop_last(), format_parts) + if has_accessor(enc, added.last().1@) {
            accessor_text(added.last().0@, added.last().1@, format_parts)
        } else {
            Seq::<char>::empty()
        }
    }
}

/// Whether the accessor of a composed field can be written: its fixed bits fit in a word, its
/// fields are fields of the format, and its bits can be counted in a word.
pub open spec fn accessor_ok(parts: Seq<FormatFieldPart>, format_parts: Seq<(String, Part)>) -> bool {
    &&& forall|i: int|
        0 <= i < parts.len() ==> (#[trigger] parts[i] matches FormatFieldPart::Bits(b) ==> b.short_value() is Some
            && b.num_bits_spec() <= 32)
    &&& forall|i: int|
        0 <= i < parts.len() ==> (#[trigger] parts[i] matches FormatFieldPart::Field(f) ==> first_named(
            format_parts,
            f@,
        ) is Some)
    &&& body_from(parts, format_parts, 0).1 <= u32::MAX
}

/// The Rust source of the operand struct of `ins`.
pub open spec fn args_struct_text(kiwi: KiwiFile, ins: Instruction) -> Seq<char> {
    let name = camel_prefix(ins.name@, ins.name@.len(), true).0 + "Args"@;
    let enc = ins.encoding;
    let format = kiwi.formats@[enc.format as int];
    let format_type = int_type_name(format.num_bits);
    let parts = format.parts@;
    "#[derive(Debug)]\n"@ + "pub struct "@ + name + " {\n"@ + part_lines(0, enc, format_type, parts) + "}\n"@ + "impl "@
        + name + " {\n"@ + "\tpub fn take_args(encoded: "@ + format_type + ") -> Self {\n"@ + "\t\tSelf {\n"@
        + part_lines(1, enc, format_type, parts) + "\t\t}\n"@ + "\t}\n"@
        + "\tpub fn encode(&self, writer: &mut impl ::std::io::Write) -> ::std::io::Result<()> {\n"@
        + "\t\tlet mut encoded: "@ + format_type + " = 0b"@ + zero_padded(
        digits(bits_word(enc.mask), 2),
        format.num_bits as nat,
    ) + ";\n"@ + part_lines(2, enc, format_type, parts) + "\n"@ + "\t\twriter.write_all(&encoded.to_le_bytes())\n"@
        + "\t}\n"@ + accessors_text(enc, format.added_fields@, parts) + "}\n"@
}

/// Whether `args_struct_text` can be written for `ins`: its format is one of the file, the types
/// of the format and of its free parts have at most 64 bits, its fixed bits fit in a word, and the
/// accessors can be written.
pub open spec fn args_struct_ok(kiwi: KiwiFile, ins: Instruction) -> bool {
    let enc = ins.encoding;
    let format = kiwi.formats@[enc.format as int];
    &&& enc.format < kiwi.formats@.len()
    &&& format.num_bits <= 64
    &&& forall|i: int|
        0 <= i < format.parts@.len() && !is_predefined(enc, format.parts@[i].0@) ==> #[trigger] format.parts@[i].1.num_bits
            <= 64
    &&& enc.mask.short_value() is Some
    &&& enc.mask.num_bits_spec() <= 32
    &&& forall|i: int|
        0 <= i < format.added_fields@.len() && has_accessor(enc, format.added_fields@[i].1@) ==> accessor_ok(
            #[trigger] format.added_fields@[i].1@,
            format.parts@,
        )
}

/// Whether the encoding fixes the bits of the field `name`.
fn predefined_contains(enc: &InstructionEncoding, name: &String) -> (r: bool)
    ensures
        r == is_predefined(*enc, name@),
{
    let mut i: usize = 0;
    while i < enc.predefined.len()
        invariant
            i <= enc.predefined@.len(),
            forall|j: int| 0 <= j < i ==> (#[trigger] enc.predefined@[j])@ != name@,
        decreases enc.predefined@.len() - i,
    {
        if enc.predefined[i] == *name {
            return true;
        }
        i = i + 1;
    }
    false
}

/// The name under which the instruction knows the format field `name`.
fn renamed_name<'a>(enc: &'a InstructionEncoding, name: &'a String) -> (r: &'a String)
    ensures
        r@ == renamed(*enc, name@),
{
    proof {
        lemma_named_in(enc.renamings@, name@);
    }
    match find_last(&enc.renamings, name.as_str()) {
        Some(i) => &enc.renamings[i].1,
        None => name,
    }
}

/// Append the lines of the free parts of a format to `out`.
fn push_part_lines(out: &mut String, kind: u8, enc: &InstructionEncoding, format_type: &String, parts: &Vec<(String, Part)>)
    requires
        kind <= 2,
        forall|i: int|
            0 <= i < parts@.len() && !is_predefined(*enc, parts@[i].0@) ==> #[trigger] parts@[i].1.num_bits <= 64,
    ensures
        final(out)@ == old(out)@ + part_lines(kind, *enc, format_type@, parts@),
{
    let ghost before = old(out)@;
    let mut i: usize = 0;
    proof {
        assert(parts@.take(0) =~= Seq::<(String, Part)>::empty());
        assert(out@ =~= before + part_lines(kind, *enc, format_type@, parts@.take(0)));
    }
    while i < parts.len()
        invariant
            kind <= 2,
            i <= parts@.len(),
            forall|i: int|
                0 <= i < parts@.len() && !is_predefined(*enc, parts@[i].0@) ==> #[trigger] parts@[i].1.num_bits <= 64,
            out@ == before + part_lines(kind, *enc, format_type@, parts@.take(i as int)),
        decreases parts@.len() - i,
    {
        let ghost prev = out@;
        let entry = &parts[i];
        let fixed = predefined_contains(enc, &entry.0);
        if !fixed {
            let name = renamed_name(enc, &entry.0);
            let num_bits = entry.1.num_bits;
            let offset = entry.1.offset;
            if kind == 0 {
                let ty = BitContainerType(num_bits).rust_type();
                out.append("\tpub ");
                out.append(name.as_str());
                out.append(": ");
                out.append(ty.as_str());
                out.append(",\n");
            } else if kind == 1 {
                let ty = BitContainerType(num_bits).rust_type();
                out.append("\t\t\t");
                out.append(name.as_str());
                out.append(": ((encoded >> ");
                push_digits(out, offset as u64, 10);
                out.append(") & 0b");
                push_repeated(out, '1', num_bits as usize);
                out.append(") as ");
                out.append(ty.as_str());
                out.append(",\n");
            } else {
                out.append("\t\tencoded |= (self.");
                out.append(name.as_str());
                out.append(" as ");
                out.append(format_type.as_str());
                out.append(") << ");
                push_digits(out, offset as u64, 10);
                out.append(";\n");
            }
            proof {
                assert(out@ =~= prev + part_line(kind, *enc, format_type@, parts@[i as int]));
            }
        }
        proof {
            assert(parts@.take(i + 1).drop_last() =~= parts@.take(i as int));
            assert(out@ =~= before + part_lines(kind, *enc, format_type@, parts@.take(i + 1)));
        }
        i = i + 1;
    }
    proof {
        assert(parts@.take(parts@.len() as int) =~= parts@);
    }
}

/// Whether a part of the composed field is a free field, and whether one is renamed.
fn field_kinds(enc: &InstructionEncoding, parts: &Vec<FormatFieldPart>) -> (r: (bool, bool))
    ensures
        r.0 == is_variable(*enc, parts@),
        r.1 == is_overwritten(*enc, parts@),
{
    let mut variable = false;
    let mut overwritten = false;
    let mut i: usize = 0;
    while i < parts.len()
        invariant
            i <= parts@.len(),
            variable == exists|j: int|
                0 <= j < i && (#[trigger] parts@[j] matches FormatFieldPart::Field(f) && !is_predefined(*enc, f@)),
            overwritten == exists|j: int|
                0 <= j < i && (#[trigger] parts@[j] matches FormatFieldPart::Field(f) && last_named(
                    enc.renamings@,
                    f@,
                ) is Some),
        decreases parts@.len() - i,
    {
        match &parts[i] {
            FormatFieldPart::Bits(_) => {},
            FormatFieldPart::Field(field) => {
                if !predefined_contains(enc, field) {
                    variable = true;
                }
                if find_last(&enc.renamings, field.as_str()).is_some() {
                    overwritten = true;
                }
            },
        }
        i = i + 1;
    }
    (variable, overwritten)
}

/// Append the comment of the accessor of a composed field to `out`.
fn push_comment(out: &mut String, parts: &Vec<FormatFieldPart>)
    requires
        forall|i: int|
            0 <= i < parts@.len() ==> (#[trigger] parts@[i] matches FormatFieldPart::Bits(b) ==> b.short_value() is Some
                && b.num_bits_spec() <= 32),
    ensures
        final(out)@ == old(out)@ + comment_text(parts@),
{
    let ghost before = old(out)@;
    let mut i: usize = 0;
    proof {
        assert(parts@.take(0) =~= Seq::<FormatFieldPart>::empty());
        assert(out@ =~= before + comment_text(parts@.take(0)));
    }
    while i < parts.len()
        invariant
            i <= parts@.len(),
            forall|i: int|
                0 <= i < parts@.len() ==> (#[trigger] parts@[i] matches FormatFieldPart::Bits(b) ==> b.short_value()
                    is Some && b.num_bits_spec() <= 32),
            out@ == before + comment_text(parts@.take(i as int)),
        decreases parts@.len() - i,
    {
        let ghost prev = out@;
        match &parts[i] {
            FormatFieldPart::Bits(bits) => {
                let value = bits.as_u32().unwrap();
                push_digits(out, value as u64, 2);
            },
            FormatFieldPart::Field(field) => {
                out.append(field.as_str());
            },
        }
        out.append(" @ ");
        proof {
            assert(out@ =~= prev + part_label(parts@[i as int]) + " @ "@);
            assert(parts@.take(i + 1).drop_last() =~= parts@.take(i as int));
            assert(out@ =~= before + comment_text(parts@.take(i + 1)));
        }
        i = i + 1;
    }
    proof {
        assert(parts@.take(parts@.len() as int) =~= parts@);
    }
}

/// The bits taken by the parts from `b` on are at most those taken by the parts from `a` on.
proof fn lemma_body_offset_grows(parts: Seq<FormatFieldPart>, format_parts: Seq<(String, Part)>, a: int, b: int)
    requires
        0 <= a <= b,
    ensures
        0 <= body_from(parts, format_parts, b).1 <= body_from(parts, format_parts, a).1,
    decreases b - a,
{
    if a < b {
        lemma_body_offset_grows(parts, format_parts, a + 1, b);
    } else {
        lemma_body_offset_nonneg(parts, format_parts, a);
    }
}

/// The bits taken by the parts from `n` on are never negative.
proof fn lemma_body_offset_nonneg(parts: Seq<FormatFieldPart>, format_parts: Seq<(String, Part)>, n: int)
    ensures
        0 <= body_from(parts, format_parts, n).1,
    decreases parts.len() - n,
{
    if 0 <= n < parts.len() {
        lemma_body_offset_nonneg(parts, format_parts, n + 1);
    }
}

/// Append the terms of the accessor of a composed field to `out`.
fn push_body(out: &mut String, parts: &Vec<FormatFieldPart>, format_parts: &Vec<(String, Part)>)
    requires
        accessor_ok(parts@, format_parts@),
    ensures
        final(out)@ == old(out)@ + body_from(parts@, format_parts@, 0).0,
{
    let ghost before = old(out)@;
    let mut offset: u32 = 0;
    let mut j: usize = parts.len();
    proof {
        assert(out@ =~= before + body_from(parts@, format_parts@, j as int).0);
    }
    while j > 0
        invariant
            j <= parts@.len(),
            accessor_ok(parts@, format_parts@),
            out@ == before + body_from(parts@, format_parts@, j as int).0,
            offset == body_from(parts@, format_parts@, j as int).1,
        decreases j,
    {
        let ghost prev = out@;
        proof {
            lemma_body_offset_grows(parts@, format_parts@, 0, j - 1);
        }
        match &parts[j - 1] {
            FormatFieldPart::Bits(bits) => {
                let value = bits.as_u32().unwrap();
                out.append("((0b");
                push_digits(out, value as u64, 2);
                out.append(" as u32) << ");
                push_digits(out, offset as u64, 10);
                out.append(") | ");
                offset = offset + bits.num_bits();
            },
            FormatFieldPart::Field(field) => {
                proof {
                    lemma_named_in(format_parts@, field@);
                }
                let k = find_first(format_parts, field).unwrap();
                out.append("((self.");
                out.append(field.as_str());
                out.append(" as u32) << ");
                push_digits(out, offset as u64, 10);
                out.append(") | ");
                offset = offset + format_parts[k].1.num_bits;
            },
        }
        proof {
            assert(out@ =~= prev + part_term(parts@[j - 1], body_from(parts@, format_parts@, j as int).1));
        }
        j = j - 1;
    }
}

/// Append the accessors of the composed fields that get one to `out`.
fn push_accessors(
    out: &mut String,
    enc: &InstructionEncoding,
    added: &Vec<(String, Vec<FormatFieldPart>)>,
    format_parts: &Vec<(String, Part)>,
)
    requires
        forall|i: int|
            0 <= i < added@.len() && has_accessor(*enc, added@[i].1@) ==> accessor_ok(
                #[trigger] added@[i].1@,
                format_parts@,
            ),
    ensures
        final(out)@ == old(out)@ + accessors_text(*enc, added@, format_parts@),
{
    let ghost before = old(out)@;
    let mut i: usize = 0;
    proof {
        assert(added@.take(0) =~= Seq::<(String, Vec<FormatFieldPart>)>::empty());
        assert(out@ =~= before + accessors_text(*enc, added@.take(0), format_parts@));
    }
    while i < added.len()
        invariant
            i <= added@.len(),
            forall|i: int|
                0 <= i < added@.len() && has_accessor(*enc, added@[i].1@) ==> accessor_ok(
                    #[trigger] added@[i].1@,
                    format_parts@,
                ),
            out@ == before + accessors_text(*enc, added@.take(i as int), format_parts@),
        decreases added@.len() - i,
    {
        let ghost prev = out@;
        let entry = &added[i];
        let (variable, overwritten) = field_kinds(enc, &entry.1);
        if variable && !overwritten {
            proof {
                assert(accessor_ok(added@[i as int].1@, format_parts@));
            }
            out.append("\t/// ");
            push_comment(out, &entry.1);
            out.append("\n");
            out.append("\tpub fn ");
            out.append(entry.0.as_str());
            out.append("(&self) -> u32 {\n");
            out.append("\t\t");
            push_body(out, &entry.1, format_parts);
            out.append("0\n");
            out.append("\t}\n");
            proof {
                assert(out@ =~= prev + accessor_text(entry.0@, entry.1@, format_parts@));
            }
        }
        proof {
            assert(added@.take(i + 1).drop_last() =~= added@.take(i as int));
            assert(out@ =~= before + accessors_text(*enc, added@.take(i + 1), format_parts@));
        }
        i = i + 1;
    }
    proof {
        assert(added@.take(added@.len() as int) =~= added@);
    }
}

/// The Rust source of the struct that holds the operands of `instruction`: its fields, the
/// function that takes them from an encoded instruction, the function that encodes them again
/// with the fixed bits of the instruction, and an accessor for each composed field with a free
/// part that is not renamed.
pub fn generate_args_struct(kiwi: &KiwiFile, instruction: &Instruction) -> (r: String)
    requires
        args_struct_ok(*kiwi, *instruction),
    ensures
        r@ == args_struct_text(*kiwi, *instruction),
{
    let mut struct_name = to_args_struct_name(instruction.name.as_str());
    struct_name.append("Args");
    let enc = &instruction.encoding;
    let format = &kiwi.formats[enc.format];
    let format_type = BitContainerType(format.num_bits).rust_type();
    let mut out = String::new();
    out.append("#[derive(Debug)]\n");
    out.append("pub struct ");
    out.append(struct_name.as_str());
    out.append(" {\n");
    push_part_lines(&mut out, 0, enc, &format_type, &format.parts);
    out.append("}\n");
    out.append("impl ");
    out.append(struct_name.as_str());
    out.append(" {\n");
    out.append("\tpub fn take_args(encoded: ");
    out.append(format_type.as_str());
    out.append(") -> Self {\n");
    out.append("\t\tSelf {\n");
    push_part_lines(&mut out, 1, enc, &format_type, &format.parts);
    out.append("\t\t}\n");
    out.append("\t}\n");
    out.append("\tpub fn encode(&self, writer: &mut impl ::std::io::Write) -> ::std::io::Result<()> {\n");
    let mask = enc.mask.as_u32().unwrap();
    out.append("\t\tlet mut encoded: ");
    out.append(format_type.as_str());
    out.append(" = 0b");
    push_padded_digits(&mut out, mask as u64, 2, format.num_bits as usize);
    out.append(";\n");
    push_part_lines(&mut out, 2, enc, &format_type, &format.parts);
    out.append("\n");
    out.append("\t\twriter.write_all(&encoded.to_le_bytes())\n");
    out.append("\t}\n");
    push_accessors(&mut out, enc, &format.added_fields, &format.parts);
    out.append("}\n");
    proof {
        assert(out@ =~= args_struct_text(*kiwi, *instruction));
    }
    out
}

} // verus!
