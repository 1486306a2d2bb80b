//! Checking an instruction set description: identifiers, the types and fields it defines, and
//! the formats of its encodings.
use vstd::prelude::*;
use vstd::string::StringExecFns;

use super::bits::Bits;
use super::new_raw::{EncodingPart, FieldOrBits, Format, Type as RawType};
use super::result::{
    BitRange, BuiltinType, BitsDisplay, EnumType, FieldId, InstructionField, InstructionFieldPart,
    IntegerType, Type, TypeContent, TypeId,
};

verus! {

/// Why a description is refused.
#[derive(Debug)]
pub enum KiwiFileError {
    InvalidSnakeCase(String),
    UnknownType(String),
    MissingAssembly(String),
    AdditionalAssembly(String),
    UnknownFormat(String),
    ZeroBitField(String),
    UnknownFormatField(String),
    DuplicateFieldName(String),
    FormatFieldsNotByteRound(u32),
    FormatEncodingSizeNotByteRound(u32),
    FormatEncodingTooLarge(u32),
}

/// Whether `c` is an ASCII letter.
pub open spec fn is_ascii_alphabetic(c: char) -> bool {
    ('a' <= c && c <= 'z') || ('A' <= c && c <= 'Z')
}

/// Whether `c` is an ASCII letter or digit.
pub open spec fn is_ascii_alphanumeric(c: char) -> bool {
    is_ascii_alphabetic(c) || ('0' <= c && c <= '9')
}

/// Whether `s` is a snake case identifier: it starts with an ASCII letter, and holds nothing but
/// ASCII letters, digits and underscores.
pub open spec fn is_snake_case(s: Seq<char>) -> bool {
    &&& s.len() > 0
    &&& is_ascii_alphabetic(s[0])
    &&& forall|i: int| 0 <= i < s.len() ==> #[trigger] is_ascii_alphanumeric(s[i]) || s[i] == '_'
}

/// Whether two strings hold the same characters.
pub fn str_eq(a: &str, b: &str) -> (r: bool)
    ensures
        r == (a@ == b@),
{
    let n = a.unicode_len();
    if n != b.unicode_len() {
        return false;
    }
    let mut i: usize = 0;
    while i < n
        invariant
            n == a@.len(),
            n == b@.len(),
            i <= n,
            forall|j: int| 0 <= j < i ==> a@[j] == b@[j],
        decreases n - i,
    {
        if a.get_char(i) != b.get_char(i) {
            return false;
        }
        i = i + 1;
    }
    proof {
        assert(a@ =~= b@);
    }
    true
}

/// An owned copy of `s`.
fn to_owned_string(s: &str) -> (r: String)
    ensures
        r@ == s@,
{
    String::from_str(s)
}

/// A snake case identifier.
#[derive(Debug, Clone, Copy)]
pub struct SnakeCaseIdent<'a>(&'a str);

impl<'a> SnakeCaseIdent<'a> {
    /// The characters of the identifier.
    pub closed spec fn chars(&self) -> Seq<char> {
        self.0@
    }

    /// Whether the characters form a snake case identifier.
    pub closed spec fn wf(&self) -> bool {
        is_snake_case(self.0@)
    }

    /// `s` as an identifier, if it is a snake case one.
    pub fn new(s: &'a str) -> (r: Option<Self>)
        ensures
            r is Some <==> is_snake_case(s@),
            r matches Some(ident) ==> ident.chars() == s@ && ident.wf(),
    {
        let n = s.unicode_len();
        if n == 0 {
            return None;
        }
        let first = s.get_char(0);
        if !(('a' <= first && first <= 'z') || ('A' <= first && first <= 'Z')) {
            return None;
        }
        let mut i: usize = 0;
        while i < n
            invariant
                n == s@.len(),
                i <= n,
                forall|j: int| 0 <= j < i ==> #[trigger] is_ascii_alphanumeric(s@[j]) || s@[j] == '_',
            decreases n - i,
        {
            let c = s.get_char(i);
            let ok = ('a' <= c && c <= 'z') || ('A' <= c && c <= 'Z') || ('0' <= c && c <= '9') || c == '_';
            if !ok {
                proof {
                    assert(!(is_ascii_alphanumeric(s@[i as int]) || s@[i as int] == '_'));
                }
                return None;
            }
            i = i + 1;
        }
        Some(Self(s))
    }

    /// `s` as an identifier, or the error that it is not a snake case one.
    pub fn take(s: &'a str) -> (r: Result<Self, KiwiFileError>)
        ensures
            r is Ok <==> is_snake_case(s@),
            r matches Ok(ident) ==> ident.chars() == s@ && ident.wf(),
            r matches Err(e) ==> (e matches KiwiFileError::InvalidSnakeCase(t) && t@ == s@),
    {
        match Self::new(s) {
            Some(ident) => Ok(ident),
            None => Err(KiwiFileError::InvalidSnakeCase(to_owned_string(s))),
        }
    }

    /// The identifier as text.
    pub fn as_str(&self) -> (r: &'a str)
        ensures
            r@ == self.chars(),
    {
        self.0
    }
}

/// The position of the last type named `name`, if any.
pub open spec fn last_type_named<'a>(types: Seq<Type<'a>>, name: Seq<char>) -> Option<int>
    decreases types.len(),
{
    if types.len() == 0 {
        None
    } else if types.last().name.chars() == name {
        Some(types.len() - 1)
    } else {
        last_type_named(types.drop_last(), name)
    }
}

/// The types of an instruction set, built one by one; a name that is pushed again hides the
/// earlier type of that name.
pub struct TypesBuilder<'a> {
    types: Vec<Type<'a>>,
}

impl<'a> TypesBuilder<'a> {
    /// The types pushed so far.
    pub closed spec fn types_spec(&self) -> Seq<Type<'a>> {
        self.types@
    }

    /// No type yet.
    pub fn new() -> (r: Self)
        ensures
            r.types_spec().len() == 0,
    {
        Self { types: Vec::new() }
    }

    /// The types that `new_with_builtins` gives.
    pub closed spec fn new_with_builtins_spec() -> Seq<Type<'a>> {
        seq![
            Type { name: SnakeCaseIdent("sint"), content: TypeContent::Builtin(BuiltinType::Integer(IntegerType { signed: true, shift: 0, display: BitsDisplay::Decimal })) },
            Type { name: SnakeCaseIdent("uint"), content: TypeContent::Builtin(BuiltinType::Integer(IntegerType { signed: false, shift: 0, display: BitsDisplay::Decimal })) },
            Type { name: SnakeCaseIdent("shex"), content: TypeContent::Builtin(BuiltinType::Integer(IntegerType { signed: true, shift: 0, display: BitsDisplay::Hexadecimal })) },
            Type { name: SnakeCaseIdent("uhex"), content: TypeContent::Builtin(BuiltinType::Integer(IntegerType { signed: false, shift: 0, display: BitsDisplay::Hexadecimal })) },
        ]
    }

    /// The builtin integer types: signed and unsigned, shown in decimal (`sint`, `uint`) and in
    /// hexadecimal (`shex`, `uhex`).
    pub fn new_with_builtins() -> (r: Self)
        ensures
            r.types_spec() == Self::new_with_builtins_spec(),
            r.types_spec().len() == 4,
            r.types_spec()[0].name.chars() == "sint"@,
            r.types_spec()[1].name.chars() == "uint"@,
            r.types_spec()[2].name.chars() == "shex"@,
            r.types_spec()[3].name.chars() == "uhex"@,
            forall|i: int|
                0 <= i < 4 ==> ((#[trigger] r.types_spec()[i]).content matches TypeContent::Builtin(
                    BuiltinType::Integer(integer),
                ) && integer.shift == 0 && integer.signed == (i == 0 || i == 2) && (if i < 2 {
                    integer.display is Decimal
                } else {
                    integer.display is Hexadecimal
                })),
    {
        let mut builder = Self::new();
        builder.push(
            SnakeCaseIdent("sint"),
            TypeContent::Builtin(
                BuiltinType::Integer(IntegerType { signed: true, shift: 0, display: BitsDisplay::Decimal }),
            ),
        );
        builder.push(
            SnakeCaseIdent("uint"),
            TypeContent::Builtin(
                BuiltinType::Integer(IntegerType { signed: false, shift: 0, display: BitsDisplay::Decimal }),
            ),
        );
        builder.push(
            SnakeCaseIdent("shex"),
            TypeContent::Builtin(
                BuiltinType::Integer(IntegerType { signed: true, shift: 0, display: BitsDisplay::Hexadecimal }),
            ),
        );
        builder.push(
            SnakeCaseIdent("uhex"),
            TypeContent::Builtin(
                BuiltinType::Integer(IntegerType { signed: false, shift: 0, display: BitsDisplay::Hexadecimal }),
            ),
        );
        builder
    }

    /// Add a type named `name`.
    pub fn push(&mut self, name: SnakeCaseIdent<'a>, content: TypeContent<'a>)
        ensures
            final(self).types_spec() == old(self).types_spec().push(Type { name, content }),
    {
        self.types.push(Type { name, content });
    }

    /// The id of the type named `name`.
    pub fn get_id(&self, name: &str) -> (r: Option<TypeId>)
        ensures
            r matches Some(id) ==> last_type_named(self.types_spec(), name@) == Some(id.0 as int),
            r is None ==> last_type_named(self.types_spec(), name@) is None,
    {
        let mut i: usize = self.types.len();
        proof {
            assert(self.types@.take(i as int) =~= self.types@);
        }
        while i > 0
            invariant
                i <= self.types@.len(),
                last_type_named(self.types@, name@) == last_type_named(self.types@.take(i as int), name@),
            decreases i,
        {
            let found = str_eq(self.types[i - 1].name.0, name);
            proof {
                assert(self.types@.take(i as int).drop_last() =~= self.types@.take(i - 1));
            }
            if found {
                return Some(TypeId(i - 1));
            }
            i = i - 1;
        }
        None
    }

    /// The type named `name`.
    pub fn get(&self, name: &str) -> (r: Option<&Type<'a>>)
        ensures
            r matches Some(ty) ==> last_type_named(self.types_spec(), name@) matches Some(i) && *ty
                == self.types_spec()[i],
            r is None ==> last_type_named(self.types_spec(), name@) is None,
    {
        match self.get_id(name) {
            Some(id) => {
                proof {
                    lemma_last_type_named_in(self.types@, name@);
                }
                Some(&self.types[id.0])
            },
            None => None,
        }
    }

    /// The id of the type named `name`, or the error that there is none.
    pub fn get_id_with_error(&self, name: &str) -> (r: Result<TypeId, KiwiFileError>)
        ensures
            r matches Ok(id) ==> last_type_named(self.types_spec(), name@) == Some(id.0 as int),
            r matches Err(e) ==> last_type_named(self.types_spec(), name@) is None && (e matches KiwiFileError::UnknownType(t) && t@ == name@),
    {
        match self.get_id(name) {
            Some(id) => Ok(id),
            None => Err(KiwiFileError::UnknownType(to_owned_string(name))),
        }
    }

    /// The type named `name`, or the error that there is none.
    pub fn get_with_error(&self, name: &str) -> (r: Result<&Type<'a>, KiwiFileError>)
        ensures
            r matches Ok(ty) ==> last_type_named(self.types_spec(), name@) matches Some(i) && *ty
                == self.types_spec()[i],
            r matches Err(e) ==> last_type_named(self.types_spec(), name@) is None && (e matches KiwiFileError::UnknownType(t) && t@ == name@),
    {
        match self.get(name) {
            Some(ty) => Ok(ty),
            None => Err(KiwiFileError::UnknownType(to_owned_string(name))),
        }
    }

    /// The types, in the order pushed.
    pub fn finalize(self) -> (r: Vec<Type<'a>>)
        ensures
            r@ == self.types_spec(),
    {
        self.types
    }
}

/// A position found by `last_type_named` is a position of the types.
proof fn lemma_last_type_named_in<'a>(types: Seq<Type<'a>>, name: Seq<char>)
    ensures
        last_type_named(types, name) matches Some(i) ==> 0 <= i < types.len(),
    decreases types.len(),
{
    if types.len() > 0 {
        lemma_last_type_named_in(types.drop_last(), name);
    }
}

/// A lookup by name finds the type pushed last under that name: it finds a type exactly when one
/// of the pushed types has that name, the type it finds has that name, and no type pushed after it
/// does. Pushing a type of that name makes the lookup find the new type; pushing one of another
/// name leaves the lookup as it was.
pub proof fn law_lookup_finds_last_push<'a>(types: Seq<Type<'a>>, name: Seq<char>, pushed: Type<'a>)
    ensures
        last_type_named(types, name) is None <==> forall|j: int|
            0 <= j < types.len() ==> (#[trigger] types[j]).name.chars() != name,
        last_type_named(types, name) matches Some(i) ==> 0 <= i < types.len() && types[i].name.chars()
            == name && forall|j: int| i < j < types.len() ==> (#[trigger] types[j]).name.chars() != name,
        last_type_named(types.push(pushed), name) == if pushed.name.chars() == name {
            Some(types.len() as int)
        } else {
            last_type_named(types, name)
        },
    decreases types.len(),
{
    assert(types.push(pushed).drop_last() =~= types);
    if types.len() > 0 {
        law_lookup_finds_last_push(types.drop_last(), name, types.last());
        assert(types.drop_last().push(types.last()) =~= types);
        if types.last().name.chars() != name {
            assert forall|j: int| 0 <= j < types.len() - 1 implies #[trigger] types[j] == types.drop_last()[j] by {}
        }
    }
}

/// The position of the last field named `name`, if any.
pub open spec fn last_field_named<'a>(fields: Seq<InstructionField<'a>>, name: Seq<char>) -> Option<int>
    decreases fields.len(),
{
    if fields.len() == 0 {
        None
    } else if fields.last().name.chars() == name {
        Some(fields.len() - 1)
    } else {
        last_field_named(fields.drop_last(), name)
    }
}

/// A position found by `last_field_named` is a position of the fields.
proof fn lemma_last_field_named_in<'a>(fields: Seq<InstructionField<'a>>, name: Seq<char>)
    ensures
        last_field_named(fields, name) matches Some(i) ==> 0 <= i < fields.len(),
    decreases fields.len(),
{
    if fields.len() > 0 {
        lemma_last_field_named_in(fields.drop_last(), name);
    }
}

/// The fields of an instruction, built one by one; a name that is pushed again hides the earlier
/// field of that name.
pub struct FieldsBuilder<'a> {
    fields: Vec<InstructionField<'a>>,
}

impl<'a> FieldsBuilder<'a> {
    /// The fields pushed so far.
    pub closed spec fn fields_spec(&self) -> Seq<InstructionField<'a>> {
        self.fields@
    }

    /// No field yet.
    pub fn new() -> (r: Self)
        ensures
            r.fields_spec().len() == 0,
    {
        Self { fields: Vec::new() }
    }

    /// Add a field named `name` with its parts and type.
    pub fn push(&mut self, name: SnakeCaseIdent<'a>, parts: Vec<InstructionFieldPart>, type_id: TypeId)
        ensures
            final(self).fields_spec() == old(self).fields_spec().push(
                InstructionField { name, parts, type_id },
            ),
    {
        self.fields.push(InstructionField { name, parts, type_id });
    }

    /// The field named `name`.
    pub fn get(&self, name: &str) -> (r: Option<&InstructionField<'a>>)
        ensures
            r matches Some(f) ==> last_field_named(self.fields_spec(), name@) matches Some(i) && *f
                == self.fields_spec()[i],
            r is None ==> last_field_named(self.fields_spec(), name@) is None,
    {
        match self.get_id(name) {
            Some(id) => {
                proof {
                    lemma_last_field_named_in(self.fields@, name@);
                }
                Some(&self.fields[id.0])
            },
            None => None,
        }
    }

    /// The field named `name`, or the error that there is none.
    pub fn get_with_error(&self, name: &str) -> (r: Result<&InstructionField<'a>, KiwiFileError>)
        ensures
            r matches Ok(f) ==> last_field_named(self.fields_spec(), name@) matches Some(i) && *f
                == self.fields_spec()[i],
            r matches Err(e) ==> last_field_named(self.fields_spec(), name@) is None && (e matches KiwiFileError::UnknownFormatField(t) && t@ == name@),
    {
        match self.get(name) {
            Some(f) => Ok(f),
            None => Err(KiwiFileError::UnknownFormatField(to_owned_string(name))),
        }
    }

    /// The id of the field named `name`.
    pub fn get_id(&self, name: &str) -> (r: Option<FieldId>)
        ensures
            r matches Some(id) ==> last_field_named(self.fields_spec(), name@) == Some(id.0 as int),
            r is None ==> last_field_named(self.fields_spec(), name@) is None,
    {
        let mut i: usize = self.fields.len();
        proof {
            assert(self.fields@.take(i as int) =~= self.fields@);
        }
        while i > 0
            invariant
                i <= self.fields@.len(),
                last_field_named(self.fields@, name@) == last_field_named(self.fields@.take(i as int), name@),
            decreases i,
        {
            let found = str_eq(self.fields[i - 1].name.0, name);
            proof {
                assert(self.fields@.take(i as int).drop_last() =~= self.fields@.take(i - 1));
            }
            if found {
                return Some(FieldId(i - 1));
            }
            i = i - 1;
        }
        None
    }

    /// The id of the field named `name`, or the error that there is none.
    pub fn get_id_with_error(&self, name: &str) -> (r: Result<FieldId, KiwiFileError>)
        ensures
            r matches Ok(id) ==> last_field_named(self.fields_spec(), name@) == Some(id.0 as int),
            r matches Err(e) ==> last_field_named(self.fields_spec(), name@) is None && (e matches KiwiFileError::UnknownFormatField(t) && t@ == name@),
    {
        match self.get_id(name) {
            Some(id) => Ok(id),
            None => Err(KiwiFileError::UnknownFormatField(to_owned_string(name))),
        }
    }

    /// The fields, in the order pushed.
    pub fn finalize(self) -> (r: Vec<InstructionField<'a>>)
        ensures
            r@ == self.fields_spec(),
    {
        self.fields
    }
}

/// The core fields of a format with their bit ranges and types, the fields composed of others,
/// and the size of the encoding.
pub struct FormatInfo<'a> {
    pub fields: Vec<(SnakeCaseIdent<'a>, (BitRange, TypeId))>,
    pub subfields: Vec<(SnakeCaseIdent<'a>, (&'a [FieldOrBits], TypeId))>,
    pub num_bytes: u8,
}

/// The position of the last core field named `name`, if any.
pub open spec fn last_core_field<'a>(fields: Seq<(SnakeCaseIdent<'a>, (BitRange, TypeId))>, name: Seq<char>) -> Option<int>
    decreases fields.len(),
{
    if fields.len() == 0 {
        None
    } else if fields.last().0.chars() == name {
        Some(fields.len() - 1)
    } else {
        last_core_field(fields.drop_last(), name)
    }
}

/// The position of the last composed field named `name`, if any.
pub open spec fn last_subfield<'a>(fields: Seq<(SnakeCaseIdent<'a>, (&'a [FieldOrBits], TypeId))>, name: Seq<char>) -> Option<int>
    decreases fields.len(),
{
    if fields.len() == 0 {
        None
    } else if fields.last().0.chars() == name {
        Some(fields.len() - 1)
    } else {
        last_subfield(fields.drop_last(), name)
    }
}

/// A position found by `last_core_field` is a position of the fields.
proof fn lemma_last_core_field_in<'a>(fields: Seq<(SnakeCaseIdent<'a>, (BitRange, TypeId))>, name: Seq<char>)
    ensures
        last_core_field(fields, name) matches Some(i) ==> 0 <= i < fields.len(),
    decreases fields.len(),
{
    if fields.len() > 0 {
        lemma_last_core_field_in(fields.drop_last(), name);
    }
}

/// A position found by `last_subfield` is a position of the fields.
proof fn lemma_last_subfield_in<'a>(fields: Seq<(SnakeCaseIdent<'a>, (&'a [FieldOrBits], TypeId))>, name: Seq<char>)
    ensures
        last_subfield(fields, name) matches Some(i) ==> 0 <= i < fields.len(),
    decreases fields.len(),
{
    if fields.len() > 0 {
        lemma_last_subfield_in(fields.drop_last(), name);
    }
}

/// The part that `part` of a composed field stands for: its bits, or the range of the core field
/// that it names.
pub open spec fn part_of<'a>(info: &FormatInfo<'a>, part: FieldOrBits, result: InstructionFieldPart) -> bool {
    match part {
        FieldOrBits::Bits(bits) => result matches InstructionFieldPart::Static(b) && b.same_bits(&bits),
        FieldOrBits::Field(f) => result matches InstructionFieldPart::Dynamic(range) && last_core_field(
            info.fields@,
            f@,
        ) matches Some(i) && range == info.fields@[i].1.0,
    }
}

/// Whether `part` of a composed field names no core field, or is not an identifier.
pub open spec fn part_fails<'a>(info: &FormatInfo<'a>, part: FieldOrBits) -> bool {
    match part {
        FieldOrBits::Bits(_) => false,
        FieldOrBits::Field(f) => last_core_field(info.fields@, f@) is None || !is_snake_case(f@),
    }
}

impl<'a> FormatInfo<'a> {
    /// The bit range of the core field `name`, or the error that there is none.
    pub fn get_core_field_bitrange(&self, name: SnakeCaseIdent<'a>) -> (r: Result<BitRange, KiwiFileError>)
        ensures
            r matches Ok(range) ==> last_core_field(self.fields@, name.chars()) matches Some(i) && range
                == self.fields@[i].1.0,
            r matches Err(e) ==> last_core_field(self.fields@, name.chars()) is None && (e matches KiwiFileError::UnknownFormatField(t) && t@ == name.chars()),
    {
        let mut i: usize = self.fields.len();
        proof {
            assert(self.fields@.take(i as int) =~= self.fields@);
        }
        while i > 0
            invariant
                i <= self.fields@.len(),
                last_core_field(self.fields@, name.chars()) == last_core_field(self.fields@.take(i as int), name.chars()),
            decreases i,
        {
            let found = str_eq(self.fields[i - 1].0.as_str(), name.as_str());
            proof {
                assert(self.fields@.take(i as int).drop_last() =~= self.fields@.take(i - 1));
            }
            if found {
                return Ok(self.fields[i - 1].1.0);
            }
            i = i - 1;
        }
        Err(KiwiFileError::UnknownFormatField(to_owned_string(name.as_str())))
    }

    /// The last composed field named `name`.
    fn find_subfield(&self, name: SnakeCaseIdent<'a>) -> (r: Option<usize>)
        ensures
            r matches Some(i) ==> last_subfield(self.subfields@, name.chars()) == Some(i as int),
            r is None ==> last_subfield(self.subfields@, name.chars()) is None,
    {
        let mut i: usize = self.subfields.len();
        proof {
            assert(self.subfields@.take(i as int) =~= self.subfields@);
        }
        while i > 0
            invariant
                i <= self.subfields@.len(),
                last_subfield(self.subfields@, name.chars()) == last_subfield(self.subfields@.take(i as int), name.chars()),
            decreases i,
        {
            let found = str_eq(self.subfields[i - 1].0.as_str(), name.as_str());
            proof {
                assert(self.subfields@.take(i as int).drop_last() =~= self.subfields@.take(i - 1));
            }
            if found {
                return Some(i - 1);
            }
            i = i - 1;
        }
        None
    }

    /// The parts and the type of the field `name`: a core field is one range of the encoding; a
    /// composed field has a part for each of its pieces, in order. Fails where there is no such
    /// field, or a piece names no core field.
    pub fn get_field_parts_and_type(&self, name: SnakeCaseIdent<'a>) -> (r: Result<(Vec<InstructionFieldPart>, TypeId), KiwiFileError>)
        ensures
            last_core_field(self.fields@, name.chars()) matches Some(i) ==> (r matches Ok((parts, tid))
                && parts@.len() == 1 && (parts@[0] matches InstructionFieldPart::Dynamic(range) && range
                == self.fields@[i].1.0) && tid == self.fields@[i].1.1),
            last_subfield(self.subfields@, name.chars()) matches Some(j) ==> (last_core_field(self.fields@, name.chars()) is None
                ==> ({
                let pieces = self.subfields@[j].1.0@;
                &&& (forall|k: int| 0 <= k < pieces.len() ==> !part_fails(self, #[trigger] pieces[k])) <==> r is Ok
                &&& (r matches Ok((parts, tid)) ==> tid == self.subfields@[j].1.1 && parts@.len() == pieces.len()
                    && forall|k: int| 0 <= k < pieces.len() ==> part_of(self, pieces[k], #[trigger] parts@[k]))
            })),
            last_core_field(self.fields@, name.chars()) is None && last_subfield(self.subfields@, name.chars()) is None
                ==> (r matches Err(e) && e matches KiwiFileError::UnknownFormatField(t) && t@ == name.chars()),
    {
        match self.get_core_field_bitrange(name) {
            Ok(range) => {
                proof {
                    lemma_last_core_field_in(self.fields@, name.chars());
                }
                let tid = self.core_field_type(name);
                let mut parts: Vec<InstructionFieldPart> = Vec::new();
                parts.push(InstructionFieldPart::Dynamic(range));
                return Ok((parts, tid));
            },
            Err(_) => {},
        }
        let j = match self.find_subfield(name) {
            Some(j) => j,
            None => {
                return Err(KiwiFileError::UnknownFormatField(to_owned_string(name.as_str())));
            },
        };
        proof {
            lemma_last_subfield_in(self.subfields@, name.chars());
        }
        let pieces = self.subfields[j].1.0;
        let tid = self.subfields[j].1.1;
        let mut parts: Vec<InstructionFieldPart> = Vec::new();
        let mut k: usize = 0;
        while k < pieces.len()
            invariant
                pieces@ == self.subfields@[j as int].1.0@,
                last_core_field(self.fields@, name.chars()) is None,
                last_subfield(self.subfields@, name.chars()) == Some(j as int),
                k <= pieces@.len(),
                parts@.len() == k,
                forall|m: int| 0 <= m < k ==> !part_fails(self, #[trigger] pieces@[m]),
                forall|m: int| 0 <= m < k ==> part_of(self, pieces@[m], #[trigger] parts@[m]),
            decreases pieces@.len() - k,
        {
            match &pieces[k] {
                FieldOrBits::Bits(bits) => {
                    parts.push(InstructionFieldPart::Static(bits.clone()));
                },
                FieldOrBits::Field(field) => {
                    let field = match SnakeCaseIdent::take(field.as_str()) {
                        Ok(f) => f,
                        Err(e) => {
                            proof {
                                assert(part_fails(self, pieces@[k as int]));
                                assert(pieces@ == self.subfields@[last_subfield(self.subfields@, name.chars())->0].1.0@);
                                assert(!(forall|m: int| 0 <= m < pieces@.len() ==> !part_fails(self, #[trigger] pieces@[m])));
                            }
                            return Err(e);
                        },
                    };
                    let range = match self.get_core_field_bitrange(field) {
                        Ok(range) => range,
                        Err(e) => {
                            proof {
                                assert(part_fails(self, pieces@[k as int]));
                                assert(pieces@ == self.subfields@[last_subfield(self.subfields@, name.chars())->0].1.0@);
                                assert(!(forall|m: int| 0 <= m < pieces@.len() ==> !part_fails(self, #[trigger] pieces@[m])));
                            }
                            return Err(e);
                        },
                    };
                    parts.push(InstructionFieldPart::Dynamic(range));
                },
            }
            k = k + 1;
        }
        Ok((parts, tid))
    }

    /// The type of the core field `name`, which exists.
    fn core_field_type(&self, name: SnakeCaseIdent<'a>) -> (r: TypeId)
        requires
            last_core_field(self.fields@, name.chars()) is Some,
        ensures
            last_core_field(self.fields@, name.chars()) matches Some(i) && r == self.fields@[i].1.1,
    {
        let mut i: usize = self.fields.len();
        proof {
            assert(self.fields@.take(i as int) =~= self.fields@);
        }
        while i > 0
            invariant
                i <= self.fields@.len(),
                last_core_field(self.fields@, name.chars()) == last_core_field(self.fields@.take(i as int), name.chars()),
                last_core_field(self.fields@, name.chars()) is Some,
            decreases i,
        {
            let found = str_eq(self.fields[i - 1].0.as_str(), name.as_str());
            proof {
                assert(self.fields@.take(i as int).drop_last() =~= self.fields@.take(i - 1));
            }
            if found {
                return self.fields[i - 1].1.1;
            }
            i = i - 1;
        }
        proof {
            assert(self.fields@.take(0) =~= Seq::<(SnakeCaseIdent<'a>, (BitRange, TypeId))>::empty());
        }
        self.fields[0].1.1
    }
}

/// A fault found in a format: its kind (0 a field of no bits, 1 an unknown type, 2 a name that
/// is no snake case identifier, 3 a size that is no whole number of bytes, 4 a size over 255
/// bits, 5 a composed field named like a core field, 6 a piece naming no core field), with the
/// text or the number it is about.
pub open spec fn fault_is(e: KiwiFileError, fault: (int, Seq<char>, u32)) -> bool {
    match e {
        KiwiFileError::ZeroBitField(t) => fault.0 == 0 && t@ == fault.1,
        KiwiFileError::UnknownType(t) => fault.0 == 1 && t@ == fault.1,
        KiwiFileError::InvalidSnakeCase(t) => fault.0 == 2 && t@ == fault.1,
        KiwiFileError::FormatEncodingSizeNotByteRound(n) => fault.0 == 3 && n == fault.2,
        KiwiFileError::FormatEncodingTooLarge(n) => fault.0 == 4 && n == fault.2,
        KiwiFileError::DuplicateFieldName(t) => fault.0 == 5 && t@ == fault.1,
        KiwiFileError::UnknownFormatField(t) => fault.0 == 6 && t@ == fault.1,
        _ => false,
    }
}

/// The name of the type of a format field: the one given, else `sint`.
pub open spec fn part_type_name(part: EncodingPart) -> Seq<char> {
    match part.ty {
        Some(t) => t@,
        None => "sint"@,
    }
}

/// The number of bits of the format fields.
pub open spec fn total_bits(parts: Seq<EncodingPart>) -> int
    decreases parts.len(),
{
    if parts.len() == 0 {
        0
    } else {
        total_bits(parts.drop_last()) + parts.last().bits
    }
}

/// A core field as checked: its name, its bit range and the position of its type.
pub type CoreField = (Seq<char>, (BitRange, int));

/// The core fields of a format, its fields taken from the last (the least significant bits,
/// starting at bit `offset`) to the first; or the first fault: a field of no bits, a type that is
/// not defined, or a name that is no snake case identifier.
pub open spec fn core_fields<'a>(
    types: Seq<Type<'a>>,
    format_name: Seq<char>,
    parts: Seq<EncodingPart>,
    offset: int,
) -> Result<Seq<CoreField>, (int, Seq<char>, u32)>
    decreases parts.len(),
{
    if parts.len() == 0 {
        Ok(Seq::empty())
    } else {
        let p = parts.last();
        if p.bits == 0 {
            Err((0, format_name, 0u32))
        } else if last_type_named(types, part_type_name(p)) is None {
            Err((1, part_type_name(p), 0u32))
        } else if !is_snake_case(p.name@) {
            Err((2, p.name@, 0u32))
        } else {
            match core_fields(types, format_name, parts.drop_last(), offset + p.bits) {
                Ok(rest) => Ok(seq![(p.name@, (BitRange { msb: (offset + p.bits - 1) as u32, lsb: offset as u32 }, last_type_named(types, part_type_name(p))->0))] + rest),
                Err(e) => Err(e),
            }
        }
    }
}

/// Whether a core field is named `name`.
pub open spec fn has_core_field(fields: Seq<CoreField>, name: Seq<char>) -> bool {
    exists|i: int| 0 <= i < fields.len() && (#[trigger] fields[i]).0 == name
}

/// The first fault among the pieces of a composed field: a name that is no snake case
/// identifier, or that names no core field.
pub open spec fn pieces_fault(fields: Seq<CoreField>, pieces: Seq<FieldOrBits>) -> Option<(int, Seq<char>, u32)>
    decreases pieces.len(),
{
    if pieces.len() == 0 {
        None
    } else {
        match pieces[0] {
            FieldOrBits::Field(f) => if !is_snake_case(f@) {
                Some((2, f@, 0u32))
            } else if !has_core_field(fields, f@) {
                Some((6, f@, 0u32))
            } else {
                pieces_fault(fields, pieces.drop_first())
            },
            FieldOrBits::Bits(_) => pieces_fault(fields, pieces.drop_first()),
        }
    }
}

/// The first fault among the composed fields: a name that is no snake case identifier or that a
/// core field has, a fault among the pieces, or no `sint` type.
pub open spec fn subfields_fault<'a>(
    types: Seq<Type<'a>>,
    fields: Seq<CoreField>,
    subs: Seq<(String, Vec<FieldOrBits>)>,
) -> Option<(int, Seq<char>, u32)>
    decreases subs.len(),
{
    if subs.len() == 0 {
        None
    } else {
        let (name, pieces) = subs[0];
        if !is_snake_case(name@) {
            Some((2, name@, 0u32))
        } else if has_core_field(fields, name@) {
            Some((5, name@, 0u32))
        } else if pieces_fault(fields, pieces@) is Some {
            pieces_fault(fields, pieces@)
        } else if last_type_named(types, "sint"@) is None {
            Some((1, "sint"@, 0u32))
        } else {
            subfields_fault(types, fields, subs.drop_first())
        }
    }
}

/// The core fields of a checked format as plain values.
pub open spec fn core_view<'a>(fields: Seq<(SnakeCaseIdent<'a>, (BitRange, TypeId))>) -> Seq<CoreField> {
    fields.map_values(|f: (SnakeCaseIdent<'a>, (BitRange, TypeId))| (f.0.chars(), (f.1.0, f.1.1.0 as int)))
}

/// The composed fields of a format, if it has any.
pub open spec fn subs_of(format: Format) -> Seq<(String, Vec<FieldOrBits>)> {
    match format.subfields {
        Some(subs) => subs@,
        None => Seq::empty(),
    }
}

/// A format checked: its core fields, from the least significant on, with their bit ranges and
/// types; its size; and its composed fields, in order, each with its pieces and the type `sint`.
/// Refused at the first fault: of a core field, of the size (a whole number of bytes, at most
/// 255 bits), or of a composed field.
pub fn format_info<'a>(format_name: &str, format: &'a Format, types: &TypesBuilder<'a>) -> (r: Result<FormatInfo<'a>, KiwiFileError>)
    requires
        total_bits(format.encoding@) <= u32::MAX,
    ensures
        match core_fields(types.types_spec(), format_name@, format.encoding@, 0) {
            Err(f) => r matches Err(e) && fault_is(e, f),
            Ok(fields) => {
                let total = total_bits(format.encoding@);
                if total % 8 != 0 {
                    r matches Err(e) && fault_is(e, (3, Seq::empty(), total as u32))
                } else if total > 255 {
                    r matches Err(e) && fault_is(e, (4, Seq::empty(), total as u32))
                } else {
                    match subfields_fault(types.types_spec(), fields, subs_of(*format)) {
                        Some(f) => r matches Err(e) && fault_is(e, f),
                        None => r matches Ok(info) && core_view(info.fields@) == fields && info.num_bytes == total / 8
                            && info.subfields@.len() == subs_of(*format).len() && forall|k: int|
                            0 <= k < info.subfields@.len() ==> (#[trigger] info.subfields@[k]).0.chars()
                                == subs_of(*format)[k].0@ && info.subfields@[k].1.0@ == subs_of(*format)[k].1@
                                && last_type_named(types.types_spec(), "sint"@) == Some(info.subfields@[k].1.1.0 as int),
                    }
                }
            },
        },
{
    let parts = &format.encoding;
    let n = parts.len();
    let mut fields: Vec<(SnakeCaseIdent<'a>, (BitRange, TypeId))> = Vec::new();
    let mut offset: u32 = 0;
    let mut i: usize = n;
    proof {
        assert(parts@.take(n as int) =~= parts@);
        assert(core_view(fields@) + Seq::<CoreField>::empty() =~= core_view(fields@));
        lemma_total_bits_take(parts@, n as int);
    }
    while i > 0
        invariant
            i <= n,
            n == parts@.len(),
            parts@ == format.encoding@,
            total_bits(parts@) <= u32::MAX,
            offset + total_bits(parts@.take(i as int)) == total_bits(parts@),
            core_fields(types.types_spec(), format_name@, parts@, 0) == match core_fields(
                types.types_spec(),
                format_name@,
                parts@.take(i as int),
                offset as int,
            ) {
                Ok(rest) => Ok(core_view(fields@) + rest),
                Err(e) => Err(e),
            },
        decreases i,
    {
        let part = &parts[i - 1];
        proof {
            assert(parts@.take(i as int).drop_last() =~= parts@.take(i - 1));
            assert(parts@.take(i as int).last() == parts@[i - 1]);
            lemma_total_bits_nonneg(parts@.take(i - 1));
        }
        if part.bits == 0 {
            return Err(KiwiFileError::ZeroBitField(to_owned_string(format_name)));
        }
        let type_id = match &part.ty {
            Some(t) => types.get_id_with_error(t.as_str()),
            None => {
                proof {
                    reveal_strlit("sint");
                }
                types.get_id_with_error("sint")
            },
        };
        let type_id = match type_id {
            Ok(t) => t,
            Err(e) => {
                return Err(e);
            },
        };
        let field_name = match SnakeCaseIdent::take(part.name.as_str()) {
            Ok(f) => f,
            Err(e) => {
                return Err(e);
            },
        };
        let range = BitRange { msb: offset + part.bits - 1, lsb: offset };
        let ghost before = core_view(fields@);
        fields.push((field_name, (range, type_id)));
        proof {
            assert(core_view(fields@) =~= before.push((part.name@, (range, type_id.0 as int))));
            let rest = core_fields(types.types_spec(), format_name@, parts@.take(i - 1), offset + part.bits);
            if let Ok(rest_fields) = rest {
                assert(before + (seq![(part.name@, (range, type_id.0 as int))] + rest_fields) =~= core_view(fields@) + rest_fields);
            }
        }
        offset = offset + part.bits;
        i = i - 1;
    }
    proof {
        assert(parts@.take(0) =~= Seq::<EncodingPart>::empty());
        assert(core_view(fields@) + Seq::<CoreField>::empty() =~= core_view(fields@));
    }
    if offset % 8 != 0 {
        return Err(KiwiFileError::FormatEncodingSizeNotByteRound(offset));
    }
    if offset > 255 {
        return Err(KiwiFileError::FormatEncodingTooLarge(offset));
    }
    let num_bytes = (offset / 8) as u8;
    let mut subfields: Vec<(SnakeCaseIdent<'a>, (&'a [FieldOrBits], TypeId))> = Vec::new();
    match &format.subfields {
        None => {},
        Some(subs) => {
            let mut k: usize = 0;
            proof {
                assert(subs@.skip(0) =~= subs@);
            }
            while k < subs.len()
                invariant
                    k <= subs@.len(),
                    format.subfields == Some(*subs),
                    core_fields(types.types_spec(), format_name@, format.encoding@, 0) == Ok::<Seq<CoreField>, (int, Seq<char>, u32)>(core_view(fields@)),
                    total_bits(format.encoding@) % 8 == 0,
                    total_bits(format.encoding@) <= 255,
                    subs_of(*format) == subs@,
                    subfields_fault(types.types_spec(), core_view(fields@), subs@) == subfields_fault(
                        types.types_spec(),
                        core_view(fields@),
                        subs@.skip(k as int),
                    ),
                    subfields@.len() == k,
                    forall|m: int|
                        0 <= m < k ==> (#[trigger] subfields@[m]).0.chars() == subs@[m].0@ && subfields@[m].1.0@
                            == subs@[m].1@ && last_type_named(types.types_spec(), "sint"@) == Some(subfields@[m].1.1.0 as int),
                decreases subs@.len() - k,
            {
                let (name, pieces) = (&subs[k].0, &subs[k].1);
                proof {
                    assert(subs@.skip(k as int)[0] == subs@[k as int]);
                    assert(subs@.skip(k as int).drop_first() =~= subs@.skip(k + 1));
                }
                let name = match SnakeCaseIdent::take(name.as_str()) {
                    Ok(n) => n,
                    Err(e) => {
                        return Err(e);
                    },
                };
                if find_core_field(&fields, name.as_str()) {
                    return Err(KiwiFileError::DuplicateFieldName(to_owned_string(name.as_str())));
                }
                match check_pieces(&fields, pieces.as_slice()) {
                    Ok(()) => {},
                    Err(e) => {
                        return Err(e);
                    },
                }
                proof {
                    reveal_strlit("sint");
                }
                let sint = match types.get_id_with_error("sint") {
                    Ok(t) => t,
                    Err(e) => {
                        return Err(e);
                    },
                };
                subfields.push((name, (pieces.as_slice(), sint)));
                k = k + 1;
            }
            proof {
                assert(subs@.skip(k as int) =~= Seq::<(String, Vec<FieldOrBits>)>::empty());
            }
        },
    }
    Ok(FormatInfo { fields, subfields, num_bytes })
}

/// The bits of the first fields are at most those of all.
proof fn lemma_total_bits_take(parts: Seq<EncodingPart>, i: int)
    requires
        0 <= i <= parts.len(),
    ensures
        total_bits(parts.take(i)) <= total_bits(parts),
        total_bits(parts.take(i)) >= 0,
    decreases parts.len() - i,
{
    lemma_total_bits_nonneg(parts);
    lemma_total_bits_nonneg(parts.take(i));
    if i < parts.len() {
        lemma_total_bits_take(parts, i + 1);
        assert(parts.take(i + 1).drop_last() =~= parts.take(i));
    } else {
        assert(parts.take(i) =~= parts);
    }
}

/// A number of bits is never negative.
proof fn lemma_total_bits_nonneg(parts: Seq<EncodingPart>)
    ensures
        total_bits(parts) >= 0,
    decreases parts.len(),
{
    if parts.len() > 0 {
        lemma_total_bits_nonneg(parts.drop_last());
    }
}

/// Whether a core field is named `name`.
fn find_core_field<'a>(fields: &Vec<(SnakeCaseIdent<'a>, (BitRange, TypeId))>, name: &str) -> (b: bool)
    ensures
        b == has_core_field(core_view(fields@), name@),
{
    let mut i: usize = 0;
    while i < fields.len()
        invariant
            i <= fields@.len(),
            forall|j: int| 0 <= j < i ==> (#[trigger] core_view(fields@)[j]).0 != name@,
        decreases fields@.len() - i,
    {
        if str_eq(fields[i].0.as_str(), name) {
            proof {
                assert(core_view(fields@)[i as int].0 == name@);
            }
            return true;
        }
        i = i + 1;
    }
    false
}

/// The first fault among the pieces of a composed field, if any.
fn check_pieces<'a>(fields: &Vec<(SnakeCaseIdent<'a>, (BitRange, TypeId))>, pieces: &[FieldOrBits]) -> (r: Result<(), KiwiFileError>)
    ensures
        match pieces_fault(core_view(fields@), pieces@) {
            None => r is Ok,
            Some(f) => r matches Err(e) && fault_is(e, f),
        },
{
    let mut k: usize = 0;
    proof {
        assert(pieces@.skip(0) =~= pieces@);
    }
    while k < pieces.len()
        invariant
            k <= pieces@.len(),
            pieces_fault(core_view(fields@), pieces@) == pieces_fault(core_view(fields@), pieces@.skip(k as int)),
        decreases pieces@.len() - k,
    {
        proof {
            assert(pieces@.skip(k as int)[0] == pieces@[k as int]);
            assert(pieces@.skip(k as int).drop_first() =~= pieces@.skip(k + 1));
        }
        match &pieces[k] {
            FieldOrBits::Bits(_) => {},
            FieldOrBits::Field(f) => {
                let name = match SnakeCaseIdent::take(f.as_str()) {
                    Ok(n) => n,
                    Err(e) => {
                        return Err(e);
                    },
                };
                if !find_core_field(fields, name.as_str()) {
                    return Err(KiwiFileError::UnknownFormatField(to_owned_string(f.as_str())));
                }
            },
        }
        k = k + 1;
    }
    proof {
        assert(pieces@.skip(k as int) =~= Seq::<FieldOrBits>::empty());
    }
    Ok(())
}

/// Whether every declared type lists its values.
pub open spec fn all_enumerated(types: Seq<(String, RawType)>) -> bool {
    forall|i: int| 0 <= i < types.len() ==> (#[trigger] types[i]).1.enumerate is Some
}

/// The first name among the declared types and their values that is no snake case identifier,
/// in order: each type's name, then its values.
pub open spec fn first_bad_name(types: Seq<(String, RawType)>) -> Option<Seq<char>>
    decreases types.len(),
{
    if types.len() == 0 {
        None
    } else if !is_snake_case(types[0].0@) {
        Some(types[0].0@)
    } else if exists|j: int|
        0 <= j < types[0].1.enumerate->0@.len() && !is_snake_case(#[trigger] types[0].1.enumerate->0@[j]@) {
        Some(
            types[0].1.enumerate->0@[choose|j: int|
                0 <= j < types[0].1.enumerate->0@.len() && !is_snake_case(#[trigger] types[0].1.enumerate->0@[j]@)
                    && forall|m: int| 0 <= m < j ==> is_snake_case(#[trigger] types[0].1.enumerate->0@[m]@)]@,
        )
    } else {
        first_bad_name(types.drop_first())
    }
}

/// Whether `t` is the enumeration type declared as `declared`.
pub open spec fn is_declared_enum<'a>(t: Type<'a>, declared: (String, RawType)) -> bool {
    &&& t.name.chars() == declared.0@
    &&& t.content matches TypeContent::Enum(e) && e.variants@.len() == declared.1.enumerate->0@.len()
        && forall|j: int| 0 <= j < e.variants@.len() ==> (#[trigger] e.variants@[j]).chars()
            == declared.1.enumerate->0@[j]@
}

/// The values of an enumeration as identifiers, or the first that is no snake case identifier.
fn enum_variants<'a>(values: &'a Vec<String>) -> (r: Result<Vec<SnakeCaseIdent<'a>>, KiwiFileError>)
    ensures
        (forall|j: int| 0 <= j < values@.len() ==> is_snake_case(#[trigger] values@[j]@)) ==> (r matches Ok(v)
            && v@.len() == values@.len() && forall|j: int| 0 <= j < v@.len() ==> (#[trigger] v@[j]).chars() == values@[j]@),
        !(forall|j: int| 0 <= j < values@.len() ==> is_snake_case(#[trigger] values@[j]@)) ==> (r matches Err(e)
            && e matches KiwiFileError::InvalidSnakeCase(t) && t@ == values@[choose|j: int|
            0 <= j < values@.len() && !is_snake_case(#[trigger] values@[j]@) && forall|m: int|
                0 <= m < j ==> is_snake_case(#[trigger] values@[m]@)]@),
{
    let mut variants: Vec<SnakeCaseIdent<'a>> = Vec::new();
    let mut k: usize = 0;
    while k < values.len()
        invariant
            k <= values@.len(),
            variants@.len() == k,
            forall|j: int| 0 <= j < k ==> is_snake_case(#[trigger] values@[j]@),
            forall|j: int| 0 <= j < k ==> (#[trigger] variants@[j]).chars() == values@[j]@,
        decreases values@.len() - k,
    {
        match SnakeCaseIdent::take(values[k].as_str()) {
            Ok(v) => variants.push(v),
            Err(e) => {
                proof {
                    let j0 = choose|j: int|
                        0 <= j < values@.len() && !is_snake_case(#[trigger] values@[j]@) && forall|m: int|
                            0 <= m < j ==> is_snake_case(#[trigger] values@[m]@);
                    assert(0 <= k < values@.len() && !is_snake_case(values@[k as int]@) && forall|m: int|
                        0 <= m < k ==> is_snake_case(#[trigger] values@[m]@));
                    if j0 < k {
                        assert(is_snake_case(values@[j0]@));
                    } else if j0 > k {
                        assert(is_snake_case(values@[k as int]@));
                    }
                }
                return Err(e);
            },
        }
        k = k + 1;
    }
    Ok(variants)
}

/// The types of an instruction set: the builtin ones, then each declared type as an enumeration
/// of its values, in order. Refused at the first name, of a type or of a value, that is no snake
/// case identifier. Every declared type lists its values.
pub fn declared_types<'a>(declared: &'a Option<Vec<(String, RawType)>>) -> (r: Result<TypesBuilder<'a>, KiwiFileError>)
    requires
        declared matches Some(d) ==> all_enumerated(d@),
    ensures
        ({
            let d = match declared {
                Some(d) => d@,
                None => Seq::empty(),
            };
            match first_bad_name(d) {
                Some(name) => r matches Err(e) && e matches KiwiFileError::InvalidSnakeCase(t) && t@ == name,
                None => r matches Ok(b) && b.types_spec().len() == 4 + d.len() && b.types_spec().take(4)
                    == TypesBuilder::new_with_builtins_spec() && forall|i: int|
                    0 <= i < d.len() ==> is_declared_enum(#[trigger] b.types_spec()[4 + i], d[i]),
            }
        }),
{
    let mut builder = TypesBuilder::new_with_builtins();
    let ghost builtins = builder.types_spec();
    let d = match declared {
        Some(d) => d,
        None => {
            proof {
                assert(builder.types_spec().take(4) =~= builder.types_spec());
            }
            return Ok(builder);
        },
    };
    let mut k: usize = 0;
    proof {
        assert(d@.skip(0) =~= d@);
    }
    while k < d.len()
        invariant
            k <= d@.len(),
            *declared == Some(*d),
            all_enumerated(d@),
            builder.types_spec().len() == 4 + k,
            builder.types_spec().take(4) == builtins,
            builtins == TypesBuilder::new_with_builtins_spec(),
            first_bad_name(d@) == first_bad_name(d@.skip(k as int)),
            forall|i: int| 0 <= i < k ==> is_declared_enum(#[trigger] builder.types_spec()[4 + i], d@[i]),
        decreases d@.len() - k,
    {
        let (name, ty) = (&d[k].0, &d[k].1);
        proof {
            assert(d@.skip(k as int)[0] == d@[k as int]);
            assert(d@.skip(k as int).drop_first() =~= d@.skip(k + 1));
            assert(d@[k as int].1.enumerate is Some);
        }
        let name = match SnakeCaseIdent::take(name.as_str()) {
            Ok(n) => n,
            Err(e) => {
                return Err(e);
            },
        };
        let values = match &ty.enumerate {
            Some(v) => v,
            None => {
                proof {
                    assert(false);
                }
                return Err(KiwiFileError::InvalidSnakeCase(to_owned_string(name.as_str())));
            },
        };
        let variants = match enum_variants(values) {
            Ok(v) => v,
            Err(e) => {
                return Err(e);
            },
        };
        let ghost before = builder.types_spec();
        builder.push(name, TypeContent::Enum(EnumType { variants }));
        proof {
            assert(builder.types_spec().take(4) =~= before.take(4));
            assert forall|i: int| 0 <= i < k + 1 implies is_declared_enum(#[trigger] builder.types_spec()[4 + i], d@[i]) by {
                if i < k {
                    assert(builder.types_spec()[4 + i] == before[4 + i]);
                }
            }
        }
        k = k + 1;
    }
    proof {
        assert(d@.skip(k as int) =~= Seq::<(String, RawType)>::empty());
    }
    Ok(builder)
}

} // verus!
