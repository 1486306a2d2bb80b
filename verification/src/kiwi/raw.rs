//! An instruction set description as it is read, and its check into a [`KiwiFile`].
//!
//! Every table of the description is a list of entries with their names, in the order in which
//! they were read.
use vstd::prelude::*;
use vstd::string::StringExecFns;

use super::bits::Bits;
use super::kiwi_file::{
    FieldDisplay, FieldTemplate, FieldVariant, Format, Instruction, InstructionAssembly,
    InstructionAssemblyField, InstructionEncoding, KiwiFile, Part,
};

verus! {

/// A whole description as read.
pub struct RawKiwiFile {
    pub name: String,
    pub description: String,
    pub formats: Formats,
    pub format_fields: FormatFields,
    pub asm_fields: AsmFields,
    pub encoding: Encodings,
    pub assembly: Asm,
}

/// The formats: each with its fields, the most significant first.
pub struct Formats {
    pub inner: Vec<(String, Vec<(String, FormatFieldInfoSerde)>)>,
}

/// The composed fields of each format.
pub struct FormatFields {
    pub inner: Vec<(String, Vec<(String, Vec<FormatFieldPart>)>)>,
}

/// A piece of a composed field: fixed bits, or a field.
pub enum FormatFieldPart {
    Bits(Bits),
    Field(String),
}

/// The assembly field kinds, by name.
pub struct AsmFields {
    pub inner: Vec<(String, AsmField)>,
}

/// The encodings, by instruction name.
pub struct Encodings {
    pub inner: Vec<(String, Encoding)>,
}

/// The assembly, by instruction name.
pub struct Asm {
    pub inner: Vec<(String, AsmInstruction)>,
}

/// The encoding of an instruction: its format and what it says of each field.
pub struct Encoding {
    pub format: String,
    pub fields: Vec<(String, EncodingField)>,
}

/// What an encoding says of a field: its bits are fixed, it is renamed, or it is restricted.
pub enum EncodingField {
    Bits(Bits),
    Ident(String),
    Specify(EncodingFieldSpecify),
}

/// A field with restricted values.
pub struct EncodingFieldSpecify {
    pub name: String,
    pub undefined: Option<Vec<Bits>>,
    pub excludes: Vec<(String, Vec<Bits>)>,
}

/// The assembly of an instruction as read.
pub struct AsmInstruction {
    pub mnemonic: String,
    pub fields: Vec<AsmInstructionField>,
}

/// An assembly field: `argument:variant`, or a structure.
pub enum AsmInstructionField {
    Str(String),
    Structure(AsmInstructionFieldStruct),
}

/// An assembly field given as a structure.
pub struct AsmInstructionFieldStruct {
    pub variant: String,
    pub arguments: Vec<String>,
}

/// An assembly field kind: its size, its default display and its displays.
pub struct AsmField {
    pub max_bits: u32,
    pub default_display: String,
    pub display: Vec<(String, AsmFieldDisplay)>,
}

/// A display of an assembly field kind: a template, or a lookup table.
pub enum AsmFieldDisplay {
    Format(String),
    Lut(Vec<String>),
}

/// A field of a format: its size, alone or with more information.
pub enum FormatFieldInfoSerde {
    Bits(u32),
    Full(FormatFieldInfo),
}

impl FormatFieldInfoSerde {
    /// The size of the field.
    pub open spec fn bits_spec(&self) -> u32 {
        match self {
            FormatFieldInfoSerde::Bits(n) => *n,
            FormatFieldInfoSerde::Full(i) => i.bits,
        }
    }

    /// The size of the field.
    pub fn num_bits(&self) -> (r: u32)
        ensures
            r == self.bits_spec(),
    {
        match self {
            FormatFieldInfoSerde::Bits(n) => *n,
            FormatFieldInfoSerde::Full(i) => i.bits,
        }
    }
}

/// A field of a format with all its information.
pub struct FormatFieldInfo {
    pub bits: u32,
    pub match_group: Option<u32>,
}

impl From<FormatFieldInfoSerde> for FormatFieldInfo {
    fn from(value: FormatFieldInfoSerde) -> (r: Self)
        ensures
            r.bits == value.bits_spec(),
            r.match_group == match value {
                FormatFieldInfoSerde::Bits(_) => None,
                FormatFieldInfoSerde::Full(info) => info.match_group,
            },
    {
        match value {
            FormatFieldInfoSerde::Bits(bits) => Self { bits, match_group: None },
            FormatFieldInfoSerde::Full(info) => info,
        }
    }
}

impl vstd::std_specs::convert::FromSpecImpl<FormatFieldInfoSerde> for FormatFieldInfo {
    open spec fn obeys_from_spec() -> bool {
        true
    }

    open spec fn from_spec(v: FormatFieldInfoSerde) -> Self {
        match v {
            FormatFieldInfoSerde::Bits(bits) => FormatFieldInfo { bits, match_group: None },
            FormatFieldInfoSerde::Full(info) => info,
        }
    }
}

// ---------------------------------------------------------------------------------------------
// Copies

/// A copy of `s`.
fn copy_string(s: &String) -> (r: String)
    ensures
        r@ == s@,
{
    s.clone()
}

/// Copies of the strings.
fn copy_strings(v: &Vec<String>) -> (r: Vec<String>)
    ensures
        r@.len() == v@.len(),
        forall|i: int| 0 <= i < v@.len() ==> #[trigger] r@[i]@ == v@[i]@,
{
    let mut r: Vec<String> = Vec::new();
    let mut i: usize = 0;
    while i < v.len()
        invariant
            i <= v@.len(),
            r@.len() == i,
            forall|j: int| 0 <= j < i ==> #[trigger] r@[j]@ == v@[j]@,
        decreases v@.len() - i,
    {
        r.push(copy_string(&v[i]));
        i = i + 1;
    }
    r
}

/// Whether two pieces of a composed field are the same.
pub open spec fn same_part(a: FormatFieldPart, b: FormatFieldPart) -> bool {
    match (a, b) {
        (FormatFieldPart::Bits(x), FormatFieldPart::Bits(y)) => x.same_bits(&y),
        (FormatFieldPart::Field(x), FormatFieldPart::Field(y)) => x@ == y@,
        _ => false,
    }
}

/// Whether two lists of composed fields are the same.
pub open spec fn same_added_fields(a: Seq<(String, Vec<FormatFieldPart>)>, b: Seq<(String, Vec<FormatFieldPart>)>) -> bool {
    &&& a.len() == b.len()
    &&& forall|i: int| 0 <= i < a.len() ==> (#[trigger] a[i]).0@ == b[i].0@ && a[i].1@.len() == b[i].1@.len()
        && forall|k: int| 0 <= k < a[i].1@.len() ==> same_part(#[trigger] a[i].1@[k], b[i].1@[k])
}

/// A copy of the pieces of a composed field.
fn copy_parts(v: &Vec<FormatFieldPart>) -> (r: Vec<FormatFieldPart>)
    ensures
        r@.len() == v@.len(),
        forall|i: int| 0 <= i < v@.len() ==> same_part(#[trigger] r@[i], v@[i]),
{
    let mut r: Vec<FormatFieldPart> = Vec::new();
    let mut i: usize = 0;
    while i < v.len()
        invariant
            i <= v@.len(),
            r@.len() == i,
            forall|j: int| 0 <= j < i ==> same_part(#[trigger] r@[j], v@[j]),
        decreases v@.len() - i,
    {
        let part = match &v[i] {
            FormatFieldPart::Bits(bits) => FormatFieldPart::Bits(bits.clone()),
            FormatFieldPart::Field(field) => FormatFieldPart::Field(copy_string(field)),
        };
        r.push(part);
        i = i + 1;
    }
    r
}

/// A copy of a list of composed fields.
fn copy_added_fields(v: &Vec<(String, Vec<FormatFieldPart>)>) -> (r: Vec<(String, Vec<FormatFieldPart>)>)
    ensures
        same_added_fields(r@, v@),
{
    let mut r: Vec<(String, Vec<FormatFieldPart>)> = Vec::new();
    let mut i: usize = 0;
    while i < v.len()
        invariant
            i <= v@.len(),
            r@.len() == i,
            forall|j: int| 0 <= j < i ==> (#[trigger] r@[j]).0@ == v@[j].0@ && r@[j].1@.len() == v@[j].1@.len()
                && forall|k: int| 0 <= k < r@[j].1@.len() ==> same_part(#[trigger] r@[j].1@[k], v@[j].1@[k]),
        decreases v@.len() - i,
    {
        r.push((copy_string(&v[i].0), copy_parts(&v[i].1)));
        i = i + 1;
    }
    r
}

// ---------------------------------------------------------------------------------------------
// Formats

/// The sum of the sizes of the fields from position `k` on.
pub open spec fn bits_from(fields: Seq<(String, FormatFieldInfoSerde)>, k: int) -> int
    decreases fields.len() - k,
{
    if k < 0 || k >= fields.len() {
        0
    } else {
        fields[k].1.bits_spec() + bits_from(fields, k + 1)
    }
}

/// The position of the first entry named `name`, if any.
pub open spec fn first_named<T>(entries: Seq<(String, T)>, name: Seq<char>) -> Option<int>
    decreases entries.len(),
{
    if entries.len() == 0 {
        None
    } else if entries[0].0@ == name {
        Some(0)
    } else {
        match first_named(entries.drop_first(), name) {
            Some(i) => Some(i + 1),
            None => None,
        }
    }
}

/// The position of the last entry named `name`, if any.
pub open spec fn last_named<T>(entries: Seq<(String, T)>, name: Seq<char>) -> Option<int>
    decreases entries.len(),
{
    if entries.len() == 0 {
        None
    } else if entries.last().0@ == name {
        Some(entries.len() - 1)
    } else {
        last_named(entries.drop_last(), name)
    }
}

/// A position found by `first_named` or `last_named` is a position of the entries, with that
/// name.
pub proof fn lemma_named_in<T>(entries: Seq<(String, T)>, name: Seq<char>)
    ensures
        first_named(entries, name) matches Some(i) ==> 0 <= i < entries.len() && entries[i].0@ == name,
        last_named(entries, name) matches Some(i) ==> 0 <= i < entries.len() && entries[i].0@ == name,
        first_named(entries, name) is None <==> last_named(entries, name) is None,
    decreases entries.len(),
{
    if entries.len() > 0 {
        lemma_named_in(entries.drop_first(), name);
        lemma_named_in(entries.drop_last(), name);
        if entries.len() > 1 {
            assert(entries.drop_first().drop_last() =~= entries.drop_last().drop_first());
            lemma_named_in(entries.drop_first().drop_last(), name);
        }
        if first_named(entries, name) is None {
            assert forall|i: int| 0 <= i < entries.len() implies entries[i].0@ != name by {
                lemma_first_named_none(entries, name, i);
            }
            if last_named(entries, name) is Some {
                let i = last_named(entries, name)->0;
                assert(entries[i].0@ == name);
            }
        } else if last_named(entries, name) is None {
            assert forall|i: int| 0 <= i < entries.len() implies entries[i].0@ != name by {
                lemma_last_named_none(entries, name, i);
            }
            let i = first_named(entries, name)->0;
            assert(entries[i].0@ == name);
        }
    }
}

/// Where `first_named` finds nothing, no entry has the name.
proof fn lemma_first_named_none<T>(entries: Seq<(String, T)>, name: Seq<char>, i: int)
    requires
        first_named(entries, name) is None,
        0 <= i < entries.len(),
    ensures
        entries[i].0@ != name,
    decreases entries.len(),
{
    if i > 0 {
        lemma_first_named_none(entries.drop_first(), name, i - 1);
    }
}

/// Where `last_named` finds nothing, no entry has the name.
proof fn lemma_last_named_none<T>(entries: Seq<(String, T)>, name: Seq<char>, i: int)
    requires
        last_named(entries, name) is None,
        0 <= i < entries.len(),
    ensures
        entries[i].0@ != name,
    decreases entries.len(),
{
    if i < entries.len() - 1 {
        lemma_last_named_none(entries.drop_last(), name, i);
    }
}

/// The first entry named `name`.
pub(crate) fn find_first<T>(entries: &Vec<(String, T)>, name: &String) -> (r: Option<usize>)
    ensures
        r matches Some(i) ==> first_named(entries@, name@) == Some(i as int),
        r is None ==> first_named(entries@, name@) is None,
{
    let mut i: usize = 0;
    while i < entries.len()
        invariant
            i <= entries@.len(),
            forall|j: int| 0 <= j < i ==> (#[trigger] entries@[j]).0@ != name@,
        decreases entries@.len() - i,
    {
        if entries[i].0 == *name {
            proof {
                lemma_first_named_at(entries@, name@, i as int);
            }
            return Some(i);
        }
        i = i + 1;
    }
    proof {
        lemma_first_named_absent(entries@, name@);
    }
    None
}

/// The last entry named `name`.
pub(crate) fn find_last<T>(entries: &Vec<(String, T)>, name: &str) -> (r: Option<usize>)
    ensures
        r matches Some(i) ==> last_named(entries@, name@) == Some(i as int),
        r is None ==> last_named(entries@, name@) is None,
{
    let mut i: usize = entries.len();
    proof {
        assert(entries@.take(i as int) =~= entries@);
    }
    while i > 0
        invariant
            i <= entries@.len(),
            last_named(entries@, name@) == last_named(entries@.take(i as int), name@),
        decreases i,
    {
        let found = super::to_result::str_eq(entries[i - 1].0.as_str(), name);
        proof {
            assert(entries@.take(i as int).drop_last() =~= entries@.take(i - 1));
        }
        if found {
            return Some(i - 1);
        }
        i = i - 1;
    }
    None
}

/// Where the entry at `i` is the first named `name`, `first_named` finds it.
proof fn lemma_first_named_at<T>(entries: Seq<(String, T)>, name: Seq<char>, i: int)
    requires
        0 <= i < entries.len(),
        entries[i].0@ == name,
        forall|j: int| 0 <= j < i ==> (#[trigger] entries[j]).0@ != name,
    ensures
        first_named(entries, name) == Some(i),
    decreases i,
{
    if i > 0 {
        assert forall|j: int| 0 <= j < i - 1 implies (#[trigger] entries.drop_first()[j]).0@ != name by {
            assert(entries.drop_first()[j] == entries[j + 1]);
        }
        lemma_first_named_at(entries.drop_first(), name, i - 1);
    }
}

/// Where no entry is named `name`, `first_named` finds nothing.
proof fn lemma_first_named_absent<T>(entries: Seq<(String, T)>, name: Seq<char>)
    requires
        forall|j: int| 0 <= j < entries.len() ==> (#[trigger] entries[j]).0@ != name,
    ensures
        first_named(entries, name) is None,
    decreases entries.len(),
{
    if entries.len() > 0 {
        assert forall|j: int| 0 <= j < entries.len() - 1 implies (#[trigger] entries.drop_first()[j]).0@ != name by {
            assert(entries.drop_first()[j] == entries[j + 1]);
        }
        lemma_first_named_absent(entries.drop_first(), name);
    }
}

/// The format that `build_format` makes of the fields: each field lies above the fields after it.
pub open spec fn format_matches(
    format: Format,
    name: Seq<char>,
    fields: Seq<(String, FormatFieldInfoSerde)>,
    format_fields: Seq<(String, Vec<(String, Vec<FormatFieldPart>)>)>,
) -> bool {
    let n = fields.len();
    &&& format.name@ == name
    &&& format.num_bits == bits_from(fields, 0)
    &&& format.parts@.len() == n
    &&& forall|j: int|
        0 <= j < n ==> (#[trigger] format.parts@[j]).0@ == fields[n - 1 - j].0@ && format.parts@[j].1.num_bits
            == fields[n - 1 - j].1.bits_spec() && format.parts@[j].1.offset == bits_from(fields, n - j)
    &&& match first_named(format_fields, name) {
        Some(k) => same_added_fields(format.added_fields@, format_fields[k].1@),
        None => format.added_fields@.len() == 0,
    }
}

/// The format named `name` with `fields`, the most significant first, and its composed fields.
fn build_format(
    name: &String,
    fields: &Vec<(String, FormatFieldInfoSerde)>,
    format_fields: &FormatFields,
) -> (r: Format)
    requires
        bits_from(fields@, 0) <= u32::MAX,
    ensures
        format_matches(r, name@, fields@, format_fields.inner@),
{
    let n = fields.len();
    let mut offset: u32 = 0;
    let mut parts: Vec<(String, Part)> = Vec::new();
    let mut k: usize = n;
    proof {
        lemma_bits_from_bounds(fields@, 0);
    }
    while k > 0
        invariant
            n == fields@.len(),
            k <= n,
            bits_from(fields@, 0) <= u32::MAX,
            offset == bits_from(fields@, k as int),
            parts@.len() == n - k,
            forall|j: int|
                0 <= j < n - k ==> (#[trigger] parts@[j]).0@ == fields@[n - 1 - j].0@ && parts@[j].1.num_bits
                    == fields@[n - 1 - j].1.bits_spec() && parts@[j].1.offset == bits_from(fields@, n - j),
        decreases k,
    {
        let num_bits = fields[k - 1].1.num_bits();
        proof {
            lemma_bits_from_bounds(fields@, k - 1);
            lemma_bits_from_monotone(fields@, 0, k - 1);
        }
        parts.push((copy_string(&fields[k - 1].0), Part { num_bits, offset }));
        offset = offset + num_bits;
        k = k - 1;
    }
    let added_fields = match find_first(&format_fields.inner, name) {
        Some(i) => {
            proof {
                lemma_named_in(format_fields.inner@, name@);
            }
            copy_added_fields(&format_fields.inner[i].1)
        },
        None => Vec::new(),
    };
    Format { name: copy_string(name), num_bits: offset, parts, added_fields }
}

/// Sums of field sizes are not negative.
proof fn lemma_bits_from_bounds(fields: Seq<(String, FormatFieldInfoSerde)>, k: int)
    ensures
        bits_from(fields, k) >= 0,
    decreases fields.len() - k,
{
    if 0 <= k < fields.len() {
        lemma_bits_from_bounds(fields, k + 1);
    }
}

/// The sum from an earlier position is at least the sum from a later one.
proof fn lemma_bits_from_monotone(fields: Seq<(String, FormatFieldInfoSerde)>, i: int, k: int)
    requires
        0 <= i <= k,
    ensures
        bits_from(fields, i) >= bits_from(fields, k),
    decreases k - i,
{
    if i < k {
        lemma_bits_from_monotone(fields, i + 1, k);
        if i < fields.len() {
            lemma_bits_from_bounds(fields, i + 1);
        }
    }
}

// ---------------------------------------------------------------------------------------------
// Field variants

/// The name and the default display of the builtin field variant `i`.
pub open spec fn builtin_variant(i: int) -> (Seq<char>, Seq<char>) {
    if i == 0 {
        ("signed-int"@, "default"@)
    } else if i == 1 {
        ("unsigned-int"@, "default"@)
    } else if i == 2 {
        ("signed-hex"@, "default"@)
    } else if i == 3 {
        ("unsigned-hex"@, "default"@)
    } else {
        ("rel-label"@, "imm"@)
    }
}

/// The number of builtin field variants.
pub open spec fn num_builtin_variants() -> int {
    5
}

/// Whether `v` is the builtin field variant `i`: one argument without size limit, and one display,
/// its default, with nothing more to it.
pub open spec fn is_builtin_variant(v: FieldVariant, i: int) -> bool {
    &&& v.name@ == builtin_variant(i).0
    &&& v.arg_max_sizes@ == seq![0u32]
    &&& v.default_display@ == builtin_variant(i).1
    &&& v.display@.len() == 1
    &&& v.display@[0].0@ == builtin_variant(i).1
    &&& v.display@[0].1 is None
}

/// Whether `v` is the field variant made of the assembly field kind `name`.
pub open spec fn is_asm_variant(v: FieldVariant, name: Seq<char>, field: AsmField) -> bool {
    &&& v.name@ == name
    &&& v.arg_max_sizes@ == seq![field.max_bits]
    &&& v.default_display@ == field.default_display@
    &&& v.display@.len() == field.display@.len()
    &&& forall|m: int|
        0 <= m < field.display@.len() ==> (#[trigger] v.display@[m]).0@ == field.display@[m].0@ && match field.display@[m].1 {
            AsmFieldDisplay::Format(template) => (v.display@[m].1 matches Some(FieldDisplay::Template(t))
                && t.template@ == template@ && t.arguments@.len() == 0),
            AsmFieldDisplay::Lut(lut) => (v.display@[m].1 matches Some(FieldDisplay::Lut(l)) && l@.len()
                == lut@.len() && forall|q: int| 0 <= q < lut@.len() ==> (#[trigger] l@[q])@ == lut@[q]@),
        }
}

/// Whether `variants` are the builtin field variants followed by those of `asm_fields`.
pub open spec fn variants_match(variants: Seq<FieldVariant>, asm_fields: Seq<(String, AsmField)>) -> bool {
    &&& variants.len() == num_builtin_variants() + asm_fields.len()
    &&& forall|i: int| 0 <= i < num_builtin_variants() ==> is_builtin_variant(#[trigger] variants[i], i)
    &&& forall|k: int|
        0 <= k < asm_fields.len() ==> is_asm_variant(#[trigger] variants[num_builtin_variants() + k], asm_fields[k].0@, asm_fields[k].1)
}

/// The builtin field variant `i`.
fn builtin_field_variant(i: usize) -> (r: FieldVariant)
    requires
        i < 5,
    ensures
        is_builtin_variant(r, i as int),
{
    let (name, display) = if i == 0 {
        (String::from_str("signed-int"), String::from_str("default"))
    } else if i == 1 {
        (String::from_str("unsigned-int"), String::from_str("default"))
    } else if i == 2 {
        (String::from_str("signed-hex"), String::from_str("default"))
    } else if i == 3 {
        (String::from_str("unsigned-hex"), String::from_str("default"))
    } else {
        (String::from_str("rel-label"), String::from_str("imm"))
    };
    let mut arg_max_sizes: Vec<u32> = Vec::new();
    arg_max_sizes.push(0);
    let mut displays: Vec<(String, Option<FieldDisplay>)> = Vec::new();
    displays.push((copy_string(&display), None));
    proof {
        assert(arg_max_sizes@ =~= seq![0u32]);
    }
    FieldVariant { name, arg_max_sizes, default_display: display, display: displays }
}

/// The field variant of the assembly field kind `name`.
fn asm_field_variant(name: &String, field: &AsmField) -> (r: FieldVariant)
    ensures
        is_asm_variant(r, name@, *field),
{
    let mut display: Vec<(String, Option<FieldDisplay>)> = Vec::new();
    let mut m: usize = 0;
    while m < field.display.len()
        invariant
            m <= field.display@.len(),
            display@.len() == m,
            forall|j: int|
                0 <= j < m ==> (#[trigger] display@[j]).0@ == field.display@[j].0@ && match field.display@[j].1 {
                    AsmFieldDisplay::Format(template) => (display@[j].1 matches Some(FieldDisplay::Template(t))
                        && t.template@ == template@ && t.arguments@.len() == 0),
                    AsmFieldDisplay::Lut(lut) => (display@[j].1 matches Some(FieldDisplay::Lut(l)) && l@.len()
                        == lut@.len() && forall|q: int| 0 <= q < lut@.len() ==> (#[trigger] l@[q])@ == lut@[q]@),
                },
        decreases field.display@.len() - m,
    {
        let content = match &field.display[m].1 {
            AsmFieldDisplay::Format(template) => FieldDisplay::Template(
                FieldTemplate { template: copy_string(template), arguments: Vec::new() },
            ),
            AsmFieldDisplay::Lut(lut) => FieldDisplay::Lut(copy_strings(lut)),
        };
        display.push((copy_string(&field.display[m].0), Some(content)));
        m = m + 1;
    }
    let mut arg_max_sizes: Vec<u32> = Vec::new();
    arg_max_sizes.push(field.max_bits);
    proof {
        assert(arg_max_sizes@ =~= seq![field.max_bits]);
    }
    FieldVariant {
        name: copy_string(name),
        arg_max_sizes,
        default_display: copy_string(&field.default_display),
        display,
    }
}

/// The builtin field variants, then one for each assembly field kind.
fn build_field_variants(asm_fields: &AsmFields) -> (r: Vec<FieldVariant>)
    ensures
        variants_match(r@, asm_fields.inner@),
{
    let mut variants: Vec<FieldVariant> = Vec::new();
    let mut i: usize = 0;
    while i < 5
        invariant
            i <= 5,
            variants@.len() == i,
            forall|j: int| 0 <= j < i ==> is_builtin_variant(#[trigger] variants@[j], j),
        decreases 5 - i,
    {
        variants.push(builtin_field_variant(i));
        i = i + 1;
    }
    let mut k: usize = 0;
    while k < asm_fields.inner.len()
        invariant
            k <= asm_fields.inner@.len(),
            variants@.len() == 5 + k,
            forall|j: int| 0 <= j < 5 ==> is_builtin_variant(#[trigger] variants@[j], j),
            forall|j: int|
                0 <= j < k ==> is_asm_variant(#[trigger] variants@[5 + j], asm_fields.inner@[j].0@, asm_fields.inner@[j].1),
        decreases asm_fields.inner@.len() - k,
    {
        variants.push(asm_field_variant(&asm_fields.inner[k].0, &asm_fields.inner[k].1));
        k = k + 1;
    }
    variants
}

// ---------------------------------------------------------------------------------------------
// Instructions

/// The position of the last of `names` equal to `name`, if any.
pub open spec fn last_equal(names: Seq<Seq<char>>, name: Seq<char>) -> Option<int>
    decreases names.len(),
{
    if names.len() == 0 {
        None
    } else if names.last() == name {
        Some(names.len() - 1)
    } else {
        last_equal(names.drop_last(), name)
    }
}

/// A position found by `last_equal` is a position of `names`, with that name.
proof fn lemma_last_equal_in(names: Seq<Seq<char>>, name: Seq<char>)
    ensures
        last_equal(names, name) matches Some(i) ==> 0 <= i < names.len() && names[i] == name,
    decreases names.len(),
{
    if names.len() > 0 {
        lemma_last_equal_in(names.drop_last(), name);
    }
}

/// The names of the formats.
pub open spec fn format_names(formats: Seq<Format>) -> Seq<Seq<char>> {
    formats.map_values(|f: Format| f.name@)
}

/// The names of the field variants.
pub open spec fn variant_names(variants: Seq<FieldVariant>) -> Seq<Seq<char>> {
    variants.map_values(|v: FieldVariant| v.name@)
}

/// The last format named `name`.
fn find_format(formats: &Vec<Format>, name: &str) -> (r: Option<usize>)
    ensures
        r matches Some(i) ==> last_equal(format_names(formats@), name@) == Some(i as int),
        r is None ==> last_equal(format_names(formats@), name@) is None,
{
    let ghost names = format_names(formats@);
    let mut i: usize = formats.len();
    proof {
        assert(names.take(i as int) =~= names);
    }
    while i > 0
        invariant
            i <= formats@.len(),
            names == format_names(formats@),
            last_equal(names, name@) == last_equal(names.take(i as int), name@),
        decreases i,
    {
        let found = super::to_result::str_eq(formats[i - 1].name.as_str(), name);
        proof {
            assert(names.take(i as int).drop_last() =~= names.take(i - 1));
        }
        if found {
            return Some(i - 1);
        }
        i = i - 1;
    }
    None
}

/// The last field variant named `name`.
fn find_variant(variants: &Vec<FieldVariant>, name: &str) -> (r: Option<usize>)
    ensures
        r matches Some(i) ==> last_equal(variant_names(variants@), name@) == Some(i as int),
        r is None ==> last_equal(variant_names(variants@), name@) is None,
{
    let ghost names = variant_names(variants@);
    let mut i: usize = variants.len();
    proof {
        assert(names.take(i as int) =~= names);
    }
    while i > 0
        invariant
            i <= variants@.len(),
            names == variant_names(variants@),
            last_equal(names, name@) == last_equal(names.take(i as int), name@),
        decreases i,
    {
        let found = super::to_result::str_eq(variants[i - 1].name.as_str(), name);
        proof {
            assert(names.take(i as int).drop_last() =~= names.take(i - 1));
        }
        if found {
            return Some(i - 1);
        }
        i = i - 1;
    }
    None
}

/// The position of the first field that is fixed to bits but is no part of the format.
pub open spec fn first_unknown_field(fields: Seq<(String, EncodingField)>, parts: Seq<(String, Part)>) -> Option<int>
    decreases fields.len(),
{
    if fields.len() == 0 {
        None
    } else if fields[0].1 is Bits && last_named(parts, fields[0].0@) is None {
        Some(0)
    } else {
        match first_unknown_field(fields.drop_first(), parts) {
            Some(k) => Some(k + 1),
            None => None,
        }
    }
}

/// The error of the encoding `enc` of the instruction `name`: its format is unknown, a field fixed
/// to bits is not a field of the format, or the instruction has no assembly.
pub open spec fn instruction_error(
    name: Seq<char>,
    enc: Encoding,
    formats: Seq<Format>,
    assembly: Seq<(String, AsmInstruction)>,
) -> Option<Seq<char>> {
    match last_equal(format_names(formats), enc.format@) {
        None => Some("Unknown format: "@ + enc.format@),
        Some(fi) => match first_unknown_field(enc.fields@, formats[fi].parts@) {
            Some(k) => Some("Unknown field name: "@ + enc.fields@[k].0@),
            None => if first_named(assembly, name) is None {
                Some("Undefined assembly"@)
            } else {
                None
            },
        },
    }
}

/// The fixed bits and their values after the first `k` fields of an encoding in a format of
/// `num_bits` bits.
pub open spec fn fixed_bits(fields: Seq<(String, EncodingField)>, parts: Seq<(String, Part)>, num_bits: u32, k: int) -> (u64, u64)
    decreases k,
{
    if k <= 0 || k > fields.len() {
        (0, 0)
    } else {
        let (activated, mask) = fixed_bits(fields, parts, num_bits, k - 1);
        match fields[k - 1].1 {
            EncodingField::Bits(bits) => {
                let p = parts[last_named(parts, fields[k - 1].0@)->0].1;
                if p.offset > num_bits {
                    (activated, mask)
                } else {
                    (
                        activated | ((((1u64 << p.num_bits as u64) - 1) as u64) << p.offset as u64 & ((1u64
                            << num_bits as u64) - 1) as u64),
                        mask | (bits.short_value()->0 << p.offset as u64 & ((1u64 << num_bits as u64) - 1) as u64),
                    )
                }
            },
            _ => (activated, mask),
        }
    }
}

/// The position of the first `:` of `s`, if any.
pub open spec fn colon_at(s: Seq<char>) -> Option<int>
    decreases s.len(),
{
    if s.len() == 0 {
        None
    } else if s[0] == ':' {
        Some(0)
    } else {
        match colon_at(s.drop_first()) {
            Some(i) => Some(i + 1),
            None => None,
        }
    }
}

/// Whether the assembly field `field` is an argument and a variant, separated by a colon, whose
/// variant is known.
pub open spec fn asm_field_ok(field: AsmInstructionField, variants: Seq<FieldVariant>) -> bool {
    match field {
        AsmInstructionField::Str(s) => colon_at(s@) matches Some(c) && last_equal(
            variant_names(variants),
            s@.subrange(c + 1, s@.len() as int),
        ) is Some,
        AsmInstructionField::Structure(_) => false,
    }
}

/// Whether `field` is the assembly field read from `raw`.
pub open spec fn asm_field_matches(field: InstructionAssemblyField, raw: AsmInstructionField, variants: Seq<FieldVariant>) -> bool {
    match raw {
        AsmInstructionField::Str(s) => {
            let c = colon_at(s@)->0;
            &&& last_equal(variant_names(variants), s@.subrange(c + 1, s@.len() as int)) == Some(field.variant as int)
            &&& field.arguments@.len() == 1
            &&& field.arguments@[0]@ == s@.subrange(0, c)
        },
        AsmInstructionField::Structure(_) => false,
    }
}

/// The names of the fields fixed to bits, in order.
pub open spec fn fixed_field_names(fields: Seq<(String, EncodingField)>) -> Seq<Seq<char>>
    decreases fields.len(),
{
    if fields.len() == 0 {
        Seq::empty()
    } else if fields.last().1 is Bits {
        fixed_field_names(fields.drop_last()).push(fields.last().0@)
    } else {
        fixed_field_names(fields.drop_last())
    }
}

/// The renamed fields with their new names, in order.
pub open spec fn renamed_fields(fields: Seq<(String, EncodingField)>) -> Seq<(Seq<char>, Seq<char>)>
    decreases fields.len(),
{
    if fields.len() == 0 {
        Seq::empty()
    } else {
        match fields.last().1 {
            EncodingField::Ident(rename) => renamed_fields(fields.drop_last()).push((fields.last().0@, rename@)),
            _ => renamed_fields(fields.drop_last()),
        }
    }
}

/// Whether `b` holds `num_bits` bits: in one word with the value `value` where there are fewer
/// than 64, else all clear.
pub open spec fn bits_are(b: Bits, num_bits: u32, value: u64) -> bool {
    &&& b.wf()
    &&& b.num_bits_spec() == num_bits
    &&& num_bits < 64 ==> b.short_value() == Some(value)
    &&& num_bits >= 64 ==> b.short_value() is None && forall|i: int| 0 <= i < b.cells().len() ==> #[trigger] b.cells()[i] == 0
}

/// Whether `ins` is the instruction made of the encoding `enc` of the instruction `name`, in the
/// format at `fi`, with the assembly `assembly`.
pub open spec fn instruction_matches(
    ins: Instruction,
    name: Seq<char>,
    enc: Encoding,
    fi: int,
    formats: Seq<Format>,
    variants: Seq<FieldVariant>,
    assembly: AsmInstruction,
) -> bool {
    let format = formats[fi];
    let (activated, mask) = fixed_bits(enc.fields@, format.parts@, format.num_bits, enc.fields@.len() as int);
    &&& ins.name@ == name
    &&& ins.encoding.format == fi
    &&& bits_are(ins.encoding.activated, format.num_bits, activated)
    &&& bits_are(ins.encoding.mask, format.num_bits, mask)
    &&& ins.encoding.predefined@.map_values(|s: String| s@) == fixed_field_names(enc.fields@)
    &&& ins.encoding.renamings@.map_values(|r: (String, String)| (r.0@, r.1@)) == renamed_fields(enc.fields@)
    &&& ins.assembly.mnemonic@ == assembly.mnemonic@
    &&& ins.assembly.fields@.len() == assembly.fields@.len()
    &&& forall|m: int| 0 <= m < assembly.fields@.len() ==> asm_field_matches(#[trigger] ins.assembly.fields@[m], assembly.fields@[m], variants)
}

/// Whether the field is fixed to bits but is no part of the format.
pub open spec fn is_unknown_field(field: (String, EncodingField), parts: Seq<(String, Part)>) -> bool {
    field.1 is Bits && last_named(parts, field.0@) is None
}

/// Where the field at `k` is the first unknown one, `first_unknown_field` finds it; where there is
/// none, it finds nothing.
proof fn lemma_first_unknown_field(fields: Seq<(String, EncodingField)>, parts: Seq<(String, Part)>, k: int)
    requires
        0 <= k <= fields.len(),
        forall|j: int| 0 <= j < k ==> !is_unknown_field(#[trigger] fields[j], parts),
        k < fields.len() ==> is_unknown_field(fields[k], parts),
    ensures
        k < fields.len() ==> first_unknown_field(fields, parts) == Some(k),
        k == fields.len() ==> first_unknown_field(fields, parts) is None,
    decreases k,
{
    if k > 0 {
        assert forall|j: int| 0 <= j < k - 1 implies !is_unknown_field(#[trigger] fields.drop_first()[j], parts) by {
            assert(fields.drop_first()[j] == fields[j + 1]);
        }
        lemma_first_unknown_field(fields.drop_first(), parts, k - 1);
    } else if fields.len() > 0 && k == fields.len() {
    }
}

/// Whether fixing the bits of the fields before `upto` cannot fail.
pub open spec fn fields_fit_upto(fields: Seq<(String, EncodingField)>, parts: Seq<(String, Part)>, num_bits: u32, upto: int) -> bool {
    forall|k: int|
        0 <= k < upto ==> match #[trigger] fields[k].1 {
            EncodingField::Bits(bits) => {
                let p = parts[last_named(parts, fields[k].0@)->0].1;
                p.num_bits < 64 && (p.offset <= num_bits ==> num_bits < 64 && bits.short_value() is Some)
            },
            _ => true,
        }
}

/// The position of the first `:` of `s`.
fn find_colon(s: &str) -> (r: Option<usize>)
    ensures
        r matches Some(i) ==> colon_at(s@) == Some(i as int) && i < s@.len(),
        r is None ==> colon_at(s@) is None,
{
    let n = s.unicode_len();
    let mut i: usize = 0;
    while i < n
        invariant
            n == s@.len(),
            i <= n,
            forall|j: int| 0 <= j < i ==> s@[j] != ':',
        decreases n - i,
    {
        if s.get_char(i) == ':' {
            proof {
                lemma_colon_at(s@, i as int);
            }
            return Some(i);
        }
        i = i + 1;
    }
    proof {
        lemma_colon_at(s@, n as int);
    }
    None
}

/// `colon_at` finds the first `:`.
proof fn lemma_colon_at(s: Seq<char>, i: int)
    requires
        0 <= i <= s.len(),
        forall|j: int| 0 <= j < i ==> s[j] != ':',
        i < s.len() ==> s[i] == ':',
    ensures
        i < s.len() ==> colon_at(s) == Some(i),
        i == s.len() ==> colon_at(s) is None,
    decreases i,
{
    if i > 0 {
        assert forall|j: int| 0 <= j < i - 1 implies s.drop_first()[j] != ':' by {
            assert(s.drop_first()[j] == s[j + 1]);
        }
        lemma_colon_at(s.drop_first(), i - 1);
    }
}

/// The assembly field read from `field`, an argument and a variant separated by a colon.
fn build_asm_field(field: &AsmInstructionField, variants: &Vec<FieldVariant>) -> (r: InstructionAssemblyField)
    requires
        asm_field_ok(*field, variants@),
    ensures
        asm_field_matches(r, *field, variants@),
{
    match field {
        AsmInstructionField::Str(s) => {
            let text = s.as_str();
            let c = find_colon(text).unwrap();
            let n = text.unicode_len();
            let arg = text.substring_char(0, c);
            let variant_name = text.substring_char(c + 1, n);
            let variant = find_variant(variants, variant_name).unwrap();
            let mut arguments: Vec<String> = Vec::new();
            arguments.push(String::from_str(arg));
            InstructionAssemblyField { variant, arguments }
        },
        AsmInstructionField::Structure(_) => InstructionAssemblyField { variant: 0, arguments: Vec::new() },
    }
}

/// The instruction `name` made of its encoding `enc`, in one of `formats`, with its assembly; or
/// the error that its format is unknown, that a field fixed to bits is no field of the format, or
/// that it has no assembly.
fn build_instruction(
    name: &String,
    enc: &Encoding,
    formats: &Vec<Format>,
    variants: &Vec<FieldVariant>,
    assembly: &Asm,
) -> (r: Result<Instruction, String>)
    requires
        forall|fi: int|
            last_equal(format_names(formats@), enc.format@) == Some(fi) ==> fields_fit_upto(
                enc.fields@,
                formats@[fi].parts@,
                formats@[fi].num_bits,
                match first_unknown_field(enc.fields@, formats@[fi].parts@) {
                    Some(k) => k,
                    None => enc.fields@.len() as int,
                },
            ),
        instruction_error(name@, *enc, formats@, assembly.inner@) is None ==> forall|m: int|
            0 <= m < assembly.inner@[first_named(assembly.inner@, name@)->0].1.fields@.len()
                ==> asm_field_ok(#[trigger] assembly.inner@[first_named(assembly.inner@, name@)->0].1.fields@[m], variants@),
    ensures
        r is Ok <==> instruction_error(name@, *enc, formats@, assembly.inner@) is None,
        r matches Err(e) ==> instruction_error(name@, *enc, formats@, assembly.inner@) == Some(e@),
        r matches Ok(ins) ==> instruction_matches(
            ins,
            name@,
            *enc,
            last_equal(format_names(formats@), enc.format@)->0,
            formats@,
            variants@,
            assembly.inner@[first_named(assembly.inner@, name@)->0].1,
        ),
{
    let format_idx = match find_format(formats, enc.format.as_str()) {
        Some(i) => i,
        None => {
            return Err(String::from_str("Unknown format: ").concat(enc.format.as_str()));
        },
    };
    proof {
        lemma_last_equal_in(format_names(formats@), enc.format@);
    }
    let format = &formats[format_idx];
    let nb = format.num_bits;
    let ghost parts = format.parts@;
    let ghost fields = enc.fields@;
    let mut mask = Bits::zeros(nb);
    let mut activated = Bits::zeros(nb);
    let mut predefined: Vec<String> = Vec::new();
    let mut renamings: Vec<(String, String)> = Vec::new();
    let mut k: usize = 0;
    proof {
        assert(fields.take(0) =~= Seq::<(String, EncodingField)>::empty());
        assert(predefined@.map_values(|s: String| s@) =~= Seq::<Seq<char>>::empty());
        assert(renamings@.map_values(|r: (String, String)| (r.0@, r.1@)) =~= Seq::<(Seq<char>, Seq<char>)>::empty());
    }
    while k < enc.fields.len()
        invariant
            fields == enc.fields@,
            parts == format.parts@,
            *format == formats@[format_idx as int],
            nb == format.num_bits,
            last_equal(format_names(formats@), enc.format@) == Some(format_idx as int),
            fields_fit_upto(fields, parts, nb, match first_unknown_field(fields, parts) {
                Some(u) => u,
                None => fields.len() as int,
            }),
            k <= fields.len(),
            forall|j: int| 0 <= j < k ==> !is_unknown_field(#[trigger] fields[j], parts),
            bits_are(activated, nb, fixed_bits(fields, parts, nb, k as int).0),
            bits_are(mask, nb, fixed_bits(fields, parts, nb, k as int).1),
            predefined@.map_values(|s: String| s@) == fixed_field_names(fields.take(k as int)),
            renamings@.map_values(|r: (String, String)| (r.0@, r.1@)) == renamed_fields(fields.take(k as int)),
        decreases fields.len() - k,
    {
        let ghost before_predefined = predefined@;
        let ghost before_renamings = renamings@;
        proof {
            assert(fields.take(k + 1).drop_last() =~= fields.take(k as int));
        }
        match &enc.fields[k].1 {
            EncodingField::Bits(bits) => {
                let part_idx = match find_last(&format.parts, enc.fields[k].0.as_str()) {
                    Some(p) => p,
                    None => {
                        proof {
                            assert(is_unknown_field(fields[k as int], parts));
                            lemma_first_unknown_field(fields, parts, k as int);
                        }
                        return Err(String::from_str("Unknown field name: ").concat(enc.fields[k].0.as_str()));
                    },
                };
                proof {
                    lemma_named_in(parts, fields[k as int].0@);
                    if first_unknown_field(fields, parts) is Some {
                        let u = first_unknown_field(fields, parts)->0;
                        if u <= k {
                            lemma_first_unknown_field_is_unknown(fields, parts);
                            assert(!is_unknown_field(fields[u], parts));
                        }
                    }
                    assert(match fields[k as int].1 {
                        EncodingField::Bits(bits) => {
                            let p = parts[last_named(parts, fields[k as int].0@)->0].1;
                            p.num_bits < 64 && (p.offset <= nb ==> nb < 64 && bits.short_value() is Some)
                        },
                        _ => true,
                    });
                    lemma_ones_in_zero_fit(activated);
                }
                predefined.push(copy_string(&enc.fields[k].0));
                let part = &format.parts[part_idx].1;
                activated.bitor_ones(part.offset, part.num_bits);
                mask.bitor_at(part.offset, bits);
                proof {
                    assert(predefined@.map_values(|s: String| s@) =~= before_predefined.map_values(|s: String| s@).push(fields[k as int].0@));
                    assert(renamings@ == before_renamings);
                }
            },
            EncodingField::Ident(rename) => {
                renamings.push((copy_string(&enc.fields[k].0), copy_string(rename)));
                proof {
                    assert(renamings@.map_values(|r: (String, String)| (r.0@, r.1@)) =~= before_renamings.map_values(
                        |r: (String, String)| (r.0@, r.1@),
                    ).push((fields[k as int].0@, rename@)));
                }
            },
            EncodingField::Specify(_) => {},
        }
        k = k + 1;
    }
    proof {
        assert(fields.take(k as int) =~= fields);
        lemma_first_unknown_field(fields, parts, k as int);
    }
    let asm_idx = match find_first(&assembly.inner, name) {
        Some(i) => i,
        None => {
            return Err(String::from_str("Undefined assembly"));
        },
    };
    proof {
        lemma_named_in(assembly.inner@, name@);
    }
    let entry = &assembly.inner[asm_idx].1;
    let mut asm_fields: Vec<InstructionAssemblyField> = Vec::new();
    let mut m: usize = 0;
    while m < entry.fields.len()
        invariant
            *entry == assembly.inner@[asm_idx as int].1,
            first_named(assembly.inner@, name@) == Some(asm_idx as int),
            forall|q: int| 0 <= q < entry.fields@.len() ==> asm_field_ok(#[trigger] entry.fields@[q], variants@),
            m <= entry.fields@.len(),
            asm_fields@.len() == m,
            forall|q: int| 0 <= q < m ==> asm_field_matches(#[trigger] asm_fields@[q], entry.fields@[q], variants@),
        decreases entry.fields@.len() - m,
    {
        asm_fields.push(build_asm_field(&entry.fields[m], variants));
        m = m + 1;
    }
    Ok(Instruction {
        name: copy_string(name),
        encoding: InstructionEncoding { mask, activated, format: format_idx, predefined, renamings },
        assembly: InstructionAssembly { mnemonic: copy_string(&entry.mnemonic), fields: asm_fields },
    })
}

/// The field found by `first_unknown_field` is unknown, and the fields before it are not.
proof fn lemma_first_unknown_field_is_unknown(fields: Seq<(String, EncodingField)>, parts: Seq<(String, Part)>)
    ensures
        first_unknown_field(fields, parts) matches Some(u) ==> 0 <= u < fields.len() && is_unknown_field(fields[u], parts)
            && forall|j: int| 0 <= j < u ==> !is_unknown_field(#[trigger] fields[j], parts),
    decreases fields.len(),
{
    if fields.len() > 0 {
        lemma_first_unknown_field_is_unknown(fields.drop_first(), parts);
        if first_unknown_field(fields, parts) is Some {
            let u = first_unknown_field(fields, parts)->0;
            if u > 0 {
                assert forall|j: int| 0 <= j < u implies !is_unknown_field(#[trigger] fields[j], parts) by {
                    if j > 0 {
                        assert(fields[j] == fields.drop_first()[j - 1]);
                    }
                }
                assert(fields[u] == fields.drop_first()[u - 1]);
            }
        }
    }
}

/// A pattern held in one word fits any count of set bits; one of several words counts zero where
/// its words are all clear.
proof fn lemma_ones_in_zero_fit(b: Bits)
    requires
        b.short_value() is None ==> forall|i: int| 0 <= i < b.cells().len() ==> #[trigger] b.cells()[i] == 0,
    ensures
        b.short_value() is None ==> super::bits::ones_in(b.cells()) == 0,
{
    if b.short_value() is None {
        super::bits::lemma_ones_in_zeros(b.cells());
    }
}

// ---------------------------------------------------------------------------------------------
// Ordering

/// Whether `a` comes before or with `b`: by the size of the format, then by the number of fixed
/// bits.
pub open spec fn key_le(a: (u32, u32), b: (u32, u32)) -> bool {
    a.0 < b.0 || (a.0 == b.0 && a.1 <= b.1)
}

/// Whether `out` is `input` stably sorted by `keys`, the positions of the items of `out` in
/// `input` being `idx`.
pub open spec fn is_stable_sort<T>(input: Seq<T>, keys: Seq<(u32, u32)>, out: Seq<T>, idx: Seq<int>) -> bool {
    &&& keys.len() == input.len()
    &&& out.len() == input.len()
    &&& idx.len() == input.len()
    &&& forall|j: int| 0 <= j < idx.len() ==> 0 <= #[trigger] idx[j] < input.len() && out[j] == input[idx[j]]
    &&& forall|i: int, j: int| 0 <= i < j < idx.len() ==> #[trigger] idx[i] != #[trigger] idx[j]
    &&& forall|i: int, j: int| 0 <= i < j < idx.len() ==> key_le(keys[#[trigger] idx[i]], keys[#[trigger] idx[j]])
    &&& forall|i: int, j: int|
        0 <= i < j < idx.len() && keys[idx[i]] == keys[idx[j]] ==> #[trigger] idx[i] < #[trigger] idx[j]
}

/// The items sorted by their keys, keeping the order of items with equal keys.
pub(crate) fn stable_sort<T>(items: Vec<T>, keys: Vec<(u32, u32)>) -> (r: Vec<T>)
    requires
        keys@.len() == items@.len(),
    ensures
        exists|idx: Seq<int>| is_stable_sort(items@, keys@, r@, idx),
{
    let ghost input = items@;
    let ghost n = items@.len() as int;
    let mut items = items;
    let mut sorted: Vec<T> = Vec::new();
    let mut sorted_keys: Vec<(u32, u32)> = Vec::new();
    let ghost mut idx: Seq<int> = Seq::empty();
    while items.len() > 0
        invariant
            n == input.len(),
            keys@.len() == n,
            items@.len() <= n,
            items@ == input.take(items@.len() as int),
            sorted@.len() == n - items@.len(),
            sorted_keys@.len() == sorted@.len(),
            idx.len() == sorted@.len(),
            forall|j: int| 0 <= j < idx.len() ==> items@.len() <= #[trigger] idx[j] < n && sorted@[j] == input[idx[j]]
                && sorted_keys@[j] == keys@[idx[j]],
            forall|i: int, j: int| 0 <= i < j < idx.len() ==> #[trigger] idx[i] != #[trigger] idx[j],
            forall|i: int, j: int| 0 <= i < j < idx.len() ==> key_le(keys@[#[trigger] idx[i]], keys@[#[trigger] idx[j]]),
            forall|i: int, j: int|
                0 <= i < j < idx.len() && keys@[idx[i]] == keys@[idx[j]] ==> #[trigger] idx[i] < #[trigger] idx[j],
        decreases items@.len(),
    {
        let t = items.len() - 1;
        let item = items.pop().unwrap();
        let key = keys[t];
        proof {
            assert(items@ =~= input.take(t as int));
            assert(item == input[t as int]);
        }
        let mut p: usize = 0;
        while p < sorted_keys.len() && !(key.0 < sorted_keys[p].0 || (key.0 == sorted_keys[p].0 && key.1 <= sorted_keys[p].1))
            invariant
                p <= sorted_keys@.len(),
                forall|q: int| 0 <= q < p ==> !key_le(key, #[trigger] sorted_keys@[q]),
            decreases sorted_keys@.len() - p,
        {
            p = p + 1;
        }
        let ghost old_idx = idx;
        let ghost old_keys = sorted_keys@;
        sorted.insert(p, item);
        sorted_keys.insert(p, key);
        proof {
            idx = old_idx.insert(p as int, t as int);
            assert forall|j: int| 0 <= j < idx.len() implies t <= #[trigger] idx[j] < n && sorted@[j] == input[idx[j]]
                && sorted_keys@[j] == keys@[idx[j]] by {
                if j < p {
                    assert(idx[j] == old_idx[j]);
                } else if j > p {
                    assert(idx[j] == old_idx[j - 1]);
                }
            }
            assert forall|i: int, j: int| 0 <= i < j < idx.len() implies #[trigger] idx[i] != #[trigger] idx[j] by {
                if i < p && j < p {
                    assert(old_idx[i] != old_idx[j]);
                } else if i > p && j > p {
                    assert(old_idx[i - 1] != old_idx[j - 1]);
                } else if i < p && j > p {
                    assert(old_idx[i] != old_idx[j - 1]);
                }
            }
            assert forall|i: int, j: int| 0 <= i < j < idx.len() implies key_le(keys@[#[trigger] idx[i]], keys@[#[trigger] idx[j]]) by {
                if i < p && j < p {
                    assert(key_le(keys@[old_idx[i]], keys@[old_idx[j]]));
                } else if i > p && j > p {
                    assert(key_le(keys@[old_idx[i - 1]], keys@[old_idx[j - 1]]));
                } else if i < p && j > p {
                    assert(key_le(keys@[old_idx[i]], keys@[old_idx[j - 1]]));
                } else if i < p && j == p {
                    assert(!key_le(key, old_keys[i]));
                } else if i == p && j > p {
                    if j - 1 == p {
                    } else {
                        assert(key_le(keys@[old_idx[p as int]], keys@[old_idx[j - 1]]));
                    }
                }
            }
            assert forall|i: int, j: int|
                0 <= i < j < idx.len() && keys@[idx[i]] == keys@[idx[j]] implies #[trigger] idx[i] < #[trigger] idx[j] by {
                if i < p && j < p {
                } else if i > p && j > p {
                } else if i < p && j > p {
                    assert(!key_le(key, old_keys[i]));
                    assert(key_le(keys@[old_idx[i]], keys@[old_idx[j - 1]]));
                } else if i < p && j == p {
                    assert(!key_le(key, old_keys[i]));
                } else if i == p && j > p {
                }
            }
        }
    }
    proof {
        assert(is_stable_sort(input, keys@, sorted@, idx));
    }
    sorted
}

// ---------------------------------------------------------------------------------------------
// The whole file

/// Whether `fs` are the formats of `raw`, in order.
pub open spec fn formats_match(fs: Seq<Format>, raw: RawKiwiFile) -> bool {
    &&& fs.len() == raw.formats.inner@.len()
    &&& forall|i: int|
        0 <= i < fs.len() ==> format_matches(
            #[trigger] fs[i],
            raw.formats.inner@[i].0@,
            raw.formats.inner@[i].1@,
            raw.format_fields.inner@,
        )
}

/// The error of the first instruction of `encs` that has one.
pub open spec fn first_instruction_error(
    encs: Seq<(String, Encoding)>,
    fs: Seq<Format>,
    assembly: Seq<(String, AsmInstruction)>,
) -> Option<Seq<char>>
    decreases encs.len(),
{
    if encs.len() == 0 {
        None
    } else {
        match instruction_error(encs[0].0@, encs[0].1, fs, assembly) {
            Some(e) => Some(e),
            None => first_instruction_error(encs.drop_first(), fs, assembly),
        }
    }
}

/// Where the instructions before `t` have no error, the first error is that of `t`, or none where
/// `t` is the end.
proof fn lemma_first_instruction_error(
    encs: Seq<(String, Encoding)>,
    fs: Seq<Format>,
    assembly: Seq<(String, AsmInstruction)>,
    t: int,
)
    requires
        0 <= t <= encs.len(),
        forall|j: int| 0 <= j < t ==> instruction_error((#[trigger] encs[j]).0@, encs[j].1, fs, assembly) is None,
    ensures
        t < encs.len() ==> first_instruction_error(encs, fs, assembly) == instruction_error(encs[t].0@, encs[t].1, fs, assembly)
            || instruction_error(encs[t].0@, encs[t].1, fs, assembly) is None,
        t < encs.len() && instruction_error(encs[t].0@, encs[t].1, fs, assembly) is Some ==> first_instruction_error(encs, fs, assembly)
            == instruction_error(encs[t].0@, encs[t].1, fs, assembly),
        t == encs.len() ==> first_instruction_error(encs, fs, assembly) is None,
    decreases t,
{
    if t > 0 {
        assert forall|j: int| 0 <= j < t - 1 implies instruction_error((#[trigger] encs.drop_first()[j]).0@, encs.drop_first()[j].1, fs, assembly) is None by {
            assert(encs.drop_first()[j] == encs[j + 1]);
        }
        assert(encs.drop_first().len() == encs.len() - 1);
        lemma_first_instruction_error(encs.drop_first(), fs, assembly, t - 1);
        if t < encs.len() {
            assert(encs.drop_first()[t - 1] == encs[t]);
        }
    }
}

/// Whether checking every instruction of `raw` cannot fail on the way: the fields fixed to bits fit
/// until an unknown one, and where the instruction has no error, its assembly fields are
/// arguments with known variants.
pub open spec fn instructions_fit(raw: RawKiwiFile, fs: Seq<Format>, vs: Seq<FieldVariant>) -> bool {
    forall|t: int|
        0 <= t < raw.encoding.inner@.len() ==> {
            let (name, enc) = #[trigger] raw.encoding.inner@[t];
            &&& forall|fi: int|
                last_equal(format_names(fs), enc.format@) == Some(fi) ==> fields_fit_upto(
                    enc.fields@,
                    fs[fi].parts@,
                    fs[fi].num_bits,
                    match first_unknown_field(enc.fields@, fs[fi].parts@) {
                        Some(k) => k,
                        None => enc.fields@.len() as int,
                    },
                )
            &&& instruction_error(name@, enc, fs, raw.assembly.inner@) is None ==> forall|m: int|
                0 <= m < raw.assembly.inner@[first_named(raw.assembly.inner@, name@)->0].1.fields@.len()
                    ==> asm_field_ok(
                    #[trigger] raw.assembly.inner@[first_named(raw.assembly.inner@, name@)->0].1.fields@[m],
                    vs,
                )
        }
}

/// The sort key of an instruction: the size of its format and its number of fixed bits.
pub open spec fn instruction_key(ins: Instruction, fs: Seq<Format>) -> (u32, u32) {
    (
        fs[ins.encoding.format as int].num_bits,
        match ins.encoding.activated.short_value() {
            Some(v) => super::bits::ones_below(v, 64) as u32,
            None => super::bits::ones_in(ins.encoding.activated.cells()) as u32,
        },
    )
}

/// The sort keys of the instructions.
pub open spec fn instruction_keys(instructions: Seq<Instruction>, fs: Seq<Format>) -> Seq<(u32, u32)> {
    instructions.map_values(|i: Instruction| instruction_key(i, fs))
}

/// Whether `built` are the instructions of `raw`, one for each encoding, in order.
pub open spec fn instructions_built(built: Seq<Instruction>, raw: RawKiwiFile, fs: Seq<Format>, vs: Seq<FieldVariant>) -> bool {
    &&& built.len() == raw.encoding.inner@.len()
    &&& forall|t: int|
        0 <= t < built.len() ==> {
            let (name, enc) = raw.encoding.inner@[t];
            instruction_matches(
                #[trigger] built[t],
                name@,
                enc,
                last_equal(format_names(fs), enc.format@)->0,
                fs,
                vs,
                raw.assembly.inner@[first_named(raw.assembly.inner@, name@)->0].1,
            )
        }
}

impl KiwiFile {
    /// Check an instruction set description.
    ///
    /// The formats keep their order; each field lies above the fields after it. The field
    /// variants are the builtin ones followed by one for each assembly field kind. Each encoding
    /// gives an instruction, in a format found by name, whose fields fixed to bits set its fixed
    /// bits and their values; the instructions are then ordered by the size of their format and
    /// their number of fixed bits, keeping the order of equal ones. The first instruction whose
    /// format is unknown, that fixes the bits of a field that its format does not have, or that
    /// has no assembly gives the error.
    pub fn try_from(value: RawKiwiFile) -> (r: Result<KiwiFile, String>)
        requires
            forall|i: int| 0 <= i < value.formats.inner@.len() ==> bits_from(#[trigger] value.formats.inner@[i].1@, 0) <= u32::MAX,
            forall|fs: Seq<Format>, vs: Seq<FieldVariant>|
                formats_match(fs, value) && variants_match(vs, value.asm_fields.inner@) ==> #[trigger] instructions_fit(value, fs, vs),
        ensures
            exists|fs: Seq<Format>, vs: Seq<FieldVariant>| {
                &&& formats_match(fs, value)
                &&& variants_match(vs, value.asm_fields.inner@)
                &&& (r is Ok <==> first_instruction_error(value.encoding.inner@, fs, value.assembly.inner@) is None)
                &&& (r matches Err(e) ==> first_instruction_error(value.encoding.inner@, fs, value.assembly.inner@) == Some(e@))
                &&& (r matches Ok(k) ==> {
                    &&& k.name@ == value.name@
                    &&& k.description@ == value.description@
                    &&& k.formats@ == fs
                    &&& k.field_variants@ == vs
                    &&& exists|built: Seq<Instruction>, idx: Seq<int>|
                        instructions_built(built, value, fs, vs) && #[trigger] is_stable_sort(
                            built,
                            instruction_keys(built, fs),
                            k.instructions@,
                            idx,
                        )
                })
            },
    {
        let RawKiwiFile { name, description, formats: raw_formats, format_fields, asm_fields, encoding, assembly } = value;
        let mut formats: Vec<Format> = Vec::new();
        let mut i: usize = 0;
        while i < raw_formats.inner.len()
            invariant
                raw_formats == value.formats,
                format_fields == value.format_fields,
                i <= raw_formats.inner@.len(),
                forall|j: int| 0 <= j < raw_formats.inner@.len() ==> bits_from(#[trigger] raw_formats.inner@[j].1@, 0) <= u32::MAX,
                formats@.len() == i,
                forall|j: int|
                    0 <= j < i ==> format_matches(
                        #[trigger] formats@[j],
                        raw_formats.inner@[j].0@,
                        raw_formats.inner@[j].1@,
                        format_fields.inner@,
                    ),
            decreases raw_formats.inner@.len() - i,
        {
            formats.push(build_format(&raw_formats.inner[i].0, &raw_formats.inner[i].1, &format_fields));
            i = i + 1;
        }
        let variants = build_field_variants(&asm_fields);
        proof {
            assert(formats_match(formats@, value));
            assert(instructions_fit(value, formats@, variants@));
        }
        let mut built: Vec<Instruction> = Vec::new();
        let mut keys: Vec<(u32, u32)> = Vec::new();
        let mut t: usize = 0;
        while t < encoding.inner.len()
            invariant
                encoding == value.encoding,
                assembly == value.assembly,
                formats_match(formats@, value),
                variants_match(variants@, value.asm_fields.inner@),
                instructions_fit(value, formats@, variants@),
                t <= encoding.inner@.len(),
                built@.len() == t,
                keys@.len() == t,
                forall|j: int| 0 <= j < t ==> instruction_error((#[trigger] encoding.inner@[j]).0@, encoding.inner@[j].1, formats@, assembly.inner@) is None,
                forall|j: int|
                    0 <= j < t ==> {
                        let (n, e) = encoding.inner@[j];
                        instruction_matches(
                            #[trigger] built@[j],
                            n@,
                            e,
                            last_equal(format_names(formats@), e.format@)->0,
                            formats@,
                            variants@,
                            assembly.inner@[first_named(assembly.inner@, n@)->0].1,
                        )
                    },
                forall|j: int| 0 <= j < t ==> #[trigger] keys@[j] == instruction_key(built@[j], formats@),
            decreases encoding.inner@.len() - t,
        {
            proof {
                let (n, e) = encoding.inner@[t as int];
                assert(instructions_fit(value, formats@, variants@));
                assert(value.encoding.inner@[t as int] == encoding.inner@[t as int]);
            }
            match build_instruction(&encoding.inner[t].0, &encoding.inner[t].1, &formats, &variants, &assembly) {
                Err(e) => {
                    proof {
                        lemma_first_instruction_error(encoding.inner@, formats@, assembly.inner@, t as int);
                        assert(first_instruction_error(value.encoding.inner@, formats@, value.assembly.inner@) == Some(e@));
                    }
                    let r: Result<KiwiFile, String> = Err(e);
                    proof {
                        assert(formats_match(formats@, value) && variants_match(variants@, value.asm_fields.inner@)
                            && (r is Ok <==> first_instruction_error(value.encoding.inner@, formats@, value.assembly.inner@) is None)
                            && (r matches Err(e) ==> first_instruction_error(value.encoding.inner@, formats@, value.assembly.inner@) == Some(e@)));
                    }
                    return r;
                },
                Ok(ins) => {
                    proof {
                        let fi = ins.encoding.format as int;
                        lemma_last_equal_in(format_names(formats@), encoding.inner@[t as int].1.format@);
                        ins.encoding.activated.lemma_short_has_no_cells();
                        if ins.encoding.activated.short_value() is None {
                            super::bits::lemma_ones_in_zeros(ins.encoding.activated.cells());
                        } else {
                            assert(ins.encoding.activated.cells() =~= Seq::<u64>::empty());
                        }
                    }
                    let count = ins.encoding.activated.count_ones();
                    let key = (formats[ins.encoding.format].num_bits, count);
                    built.push(ins);
                    keys.push(key);
                },
            }
            t = t + 1;
        }
        proof {
            lemma_first_instruction_error(encoding.inner@, formats@, assembly.inner@, t as int);
            assert(keys@ =~= instruction_keys(built@, formats@));
        }
        let ghost built_seq = built@;
        let ghost keys_seq = keys@;
        let instructions = stable_sort(built, keys);
        let ghost fs = formats@;
        let ghost vs = variants@;
        let ghost idx = choose|idx: Seq<int>| is_stable_sort(built_seq, keys_seq, instructions@, idx);
        proof {
            assert(instructions_built(built_seq, value, fs, vs));
            assert(is_stable_sort(built_seq, instruction_keys(built_seq, fs), instructions@, idx));
        }
        let r: Result<KiwiFile, String> = Ok(KiwiFile { name, description, formats, field_variants: variants, instructions });
        proof {
            assert(formats_match(fs, value) && variants_match(vs, value.asm_fields.inner@)
                && (r is Ok <==> first_instruction_error(value.encoding.inner@, fs, value.assembly.inner@) is None));
            let k = r->Ok_0;
            assert(k.name@ == value.name@);
            assert(k.description@ == value.description@);
            assert(k.formats@ == fs);
            assert(k.field_variants@ == vs);
            assert(k.instructions@ == instructions@);
            assert(is_stable_sort(built_seq, instruction_keys(built_seq, fs), k.instructions@, idx));
            assert(exists|built: Seq<Instruction>, idx: Seq<int>|
                instructions_built(built, value, fs, vs) && #[trigger] is_stable_sort(
                    built,
                    instruction_keys(built, fs),
                    k.instructions@,
                    idx,
                ));
        }
        r
    }
}

} // verus!
