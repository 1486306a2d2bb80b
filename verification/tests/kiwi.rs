use rvhwfuzzer::kiwi::args_struct::generate_args_struct;
use rvhwfuzzer::kiwi::bits::Bits;
use rvhwfuzzer::kiwi::bytemask::BytesMask;
use rvhwfuzzer::kiwi::codegen::{
    field_display_fmt_codegen, field_display_intrinsic_fmt_codegen, kebab_to_camel, to_args_struct_name,
    BitContainerType,
};
use rvhwfuzzer::kiwi::kiwi_file::{FieldDisplay, FieldTemplate, FieldVariant, KiwiFile};
use rvhwfuzzer::kiwi::raw::{
    Asm, AsmField, AsmFieldDisplay, AsmFields, AsmInstruction, AsmInstructionField, Encoding,
    EncodingField, Encodings, FormatFieldInfo, FormatFieldInfoSerde, FormatFieldPart, FormatFields, Formats,
    RawKiwiFile,
};
use rvhwfuzzer::kiwi::result::EnumType;
use rvhwfuzzer::kiwi::to_result::{declared_types, format_info, str_eq, KiwiFileError, SnakeCaseIdent, TypesBuilder};
use rvhwfuzzer::kiwi::new_raw::{FieldOrBits, Type as RawType};

#[test]
fn camel_case_names() {
    assert_eq!(kebab_to_camel("add-imm"), "AddImm");
    assert_eq!(kebab_to_camel("-x"), "X");
    assert_eq!(to_args_struct_name("fmv_x-w"), "FmvXW");
    assert_eq!(to_args_struct_name("addi"), "Addi");
}

#[test]
fn bit_container_types() {
    assert_eq!(BitContainerType(5).rust_type(), "u8");
    assert_eq!(BitContainerType(12).rust_type(), "u16");
    assert_eq!(BitContainerType(32).rust_type(), "u32");
    assert_eq!(BitContainerType(33).rust_type(), "u64");
}

#[test]
fn snake_case_identifiers() {
    assert!(SnakeCaseIdent::new("abc_1").is_some());
    assert!(SnakeCaseIdent::new("1abc").is_none());
    assert!(SnakeCaseIdent::new("").is_none());
    assert!(SnakeCaseIdent::new("a-b").is_none());
    assert_eq!(SnakeCaseIdent::new("rd").unwrap().as_str(), "rd");
    match SnakeCaseIdent::take("Bad Name") {
        Err(KiwiFileError::InvalidSnakeCase(s)) => assert_eq!(s, "Bad Name"),
        _ => panic!("expected an error"),
    }
    assert!(str_eq("abc", "abc"));
    assert!(!str_eq("abc", "abd"));
}

#[test]
fn builtin_types() {
    let types = TypesBuilder::new_with_builtins();
    assert_eq!(types.get_id("sint").map(|t| t.0), Some(0));
    assert_eq!(types.get_id("uhex").map(|t| t.0), Some(3));
    assert!(types.get_id("float").is_none());
    match types.get_id_with_error("float") {
        Err(KiwiFileError::UnknownType(s)) => assert_eq!(s, "float"),
        _ => panic!("expected an error"),
    }
    assert_eq!(types.finalize().len(), 4);
}

#[test]
fn enum_bits() {
    let variants = vec![
        SnakeCaseIdent::new("a").unwrap(),
        SnakeCaseIdent::new("b").unwrap(),
        SnakeCaseIdent::new("c").unwrap(),
        SnakeCaseIdent::new("d").unwrap(),
    ];
    let e = EnumType { variants };
    assert_eq!(e.max_bits(), 2);
}

fn sample_file(with_assembly: bool) -> RawKiwiFile {
    let fields = vec![
        ("imm".to_string(), FormatFieldInfoSerde::Bits(12)),
        ("rs1".to_string(), FormatFieldInfoSerde::Full(FormatFieldInfo { bits: 5, match_group: None })),
        ("opcode".to_string(), FormatFieldInfoSerde::Bits(7)),
    ];
    let encoding = Encoding {
        format: "i".to_string(),
        fields: vec![
            ("opcode".to_string(), EncodingField::Bits(Bits::try_from("0010011".to_string()).unwrap())),
            ("rs1".to_string(), EncodingField::Ident("src".to_string())),
        ],
    };
    let mut assembly = Vec::new();
    if with_assembly {
        assembly.push((
            "addi".to_string(),
            AsmInstruction {
                mnemonic: "addi".to_string(),
                fields: vec![AsmInstructionField::Str("imm:signed-int".to_string())],
            },
        ));
    }
    RawKiwiFile {
        name: "test".to_string(),
        description: "a test".to_string(),
        formats: Formats { inner: vec![("i".to_string(), fields)] },
        format_fields: FormatFields { inner: Vec::new() },
        asm_fields: AsmFields {
            inner: vec![(
                "xreg".to_string(),
                AsmField {
                    max_bits: 5,
                    default_display: "abi".to_string(),
                    display: vec![("abi".to_string(), AsmFieldDisplay::Lut(vec!["zero".to_string()]))],
                },
            )],
        },
        encoding: Encodings { inner: vec![("addi".to_string(), encoding)] },
        assembly: Asm { inner: assembly },
    }
}

#[test]
fn check_description() {
    let file = KiwiFile::try_from(sample_file(true)).unwrap();
    assert_eq!(file.name(), "test");
    assert_eq!(file.formats().len(), 1);
    let format = &file.formats()[0];
    assert_eq!(format.num_bits(), 24);
    assert_eq!(format.parts()[0].0, "opcode");
    assert_eq!(format.parts()[0].1.offset, 0);
    assert_eq!(format.parts()[2].1.offset, 12);
    assert_eq!(file.field_variants().len(), 6);
    assert_eq!(file.field_variants()[5].name(), "xreg");
    let instruction = &file.instructions()[0];
    assert_eq!(instruction.name(), "addi");
    assert_eq!(instruction.encoding().activated().as_u32(), Some(0x7F));
    assert_eq!(instruction.encoding().mask().as_u32(), Some(0x13));
    assert_eq!(instruction.encoding().predefined().len(), 1);
    assert_eq!(instruction.encoding().renamings()[0].1, "src");
    assert_eq!(instruction.assembly().fields()[0].variant, 0);
    assert_eq!(instruction.assembly().fields()[0].arguments()[0], "imm");
    assert_eq!(file.decode(0x1234_5613).map(|i| i.name().to_string()), Some("addi".to_string()));
    assert!(file.decode(0x1234_5614).is_none());
}

#[test]
fn check_description_errors() {
    assert_eq!(KiwiFile::try_from(sample_file(false)).err(), Some("Undefined assembly".to_string()));
    let mut raw = sample_file(true);
    raw.encoding.inner[0].1.format = "r".to_string();
    assert_eq!(KiwiFile::try_from(raw).err(), Some("Unknown format: r".to_string()));
}

#[test]
fn args_struct_source() {
    let mut raw = sample_file(true);
    raw.format_fields = FormatFields {
        inner: vec![(
            "i".to_string(),
            vec![
                (
                    "big_imm".to_string(),
                    vec![
                        FormatFieldPart::Bits(Bits::try_from("01".to_string()).unwrap()),
                        FormatFieldPart::Field("imm".to_string()),
                    ],
                ),
                ("src_field".to_string(), vec![FormatFieldPart::Field("rs1".to_string())]),
                ("fixed".to_string(), vec![FormatFieldPart::Field("opcode".to_string())]),
            ],
        )],
    };
    let file = KiwiFile::try_from(raw).unwrap();
    let text = generate_args_struct(&file, &file.instructions()[0]);
    let expected = [
        "#[derive(Debug)]\n",
        "pub struct AddiArgs {\n",
        "\tpub src: u8,\n",
        "\tpub imm: u16,\n",
        "}\n",
        "impl AddiArgs {\n",
        "\tpub fn take_args(encoded: u32) -> Self {\n",
        "\t\tSelf {\n",
        "\t\t\tsrc: ((encoded >> 7) & 0b11111) as u8,\n",
        "\t\t\timm: ((encoded >> 12) & 0b111111111111) as u16,\n",
        "\t\t}\n",
        "\t}\n",
        "\tpub fn encode(&self, writer: &mut impl ::std::io::Write) -> ::std::io::Result<()> {\n",
        "\t\tlet mut encoded: u32 = 0b000000000000000000010011;\n",
        "\t\tencoded |= (self.src as u32) << 7;\n",
        "\t\tencoded |= (self.imm as u32) << 12;\n",
        "\n",
        "\t\twriter.write_all(&encoded.to_le_bytes())\n",
        "\t}\n",
        "\t/// 1 @ imm @ \n",
        "\tpub fn big_imm(&self) -> u32 {\n",
        "\t\t((self.imm as u32) << 0) | ((0b1 as u32) << 12) | 0\n",
        "\t}\n",
        "}\n",
    ]
    .concat();
    assert_eq!(text, expected);
}

#[test]
fn bytes_mask_bits() {
    let mut mask = BytesMask::new(2);
    mask.set_bits_at(&Bits::try_from("101".to_string()).unwrap(), 2);
    mask.set_bits_at(&Bits::try_from("1".to_string()).unwrap(), 0);
    mask.set_bits_at(&Bits::try_from("1111".to_string()).unwrap(), 12);
    assert_eq!(
        format!("{:?}", mask),
        "BytesMask { content: [BytesMaskCell { enable: 29, value: 21 }, BytesMaskCell { enable: 240, value: 240 }] }"
    );
    let mut mask = BytesMask::new(2);
    mask.set_bits_at(&Bits::try_from("111111".to_string()).unwrap(), 6);
    assert_eq!(
        format!("{:?}", mask),
        "BytesMask { content: [BytesMaskCell { enable: 192, value: 192 }, BytesMaskCell { enable: 0, value: 0 }] }"
    );
}

#[test]
fn field_display_code() {
    let mut out = String::new();
    field_display_intrinsic_fmt_codegen(&mut out, "signed-hex", "default", "\t\t");
    field_display_intrinsic_fmt_codegen(&mut out, "rel-label", "imm", "");
    assert_eq!(out, "\t\twrite!(f, \"{:x}\", self.0 as i64)?;\nwrite!(f, \"{}\", self.0 as i64)?;\n");
    let variant = FieldVariant {
        name: "xreg".to_string(),
        arg_max_sizes: vec![1],
        default_display: "abi".to_string(),
        display: Vec::new(),
    };
    let mut out = String::new();
    field_display_fmt_codegen(&mut out, &variant, &FieldDisplay::Lut(vec!["zero".to_string(), "ra".to_string()]), "\t");
    assert_eq!(
        out,
        "\tstatic LUT: [&str; 2] = [\"zero\", \"ra\", ];\n\tf.write_str(LUT[(self.0 & 0b1) as usize])?;\n"
    );
    let mut out = String::new();
    let template = FieldTemplate { template: "{}".to_string(), arguments: Vec::new() };
    field_display_fmt_codegen(&mut out, &variant, &FieldDisplay::Template(template), "  ");
    assert_eq!(out, "  todo!();\n");
}

fn encoding_part(name: &str, bits: u32, ty: Option<&str>) -> rvhwfuzzer::kiwi::new_raw::EncodingPart {
    rvhwfuzzer::kiwi::new_raw::EncodingPart { name: name.to_string(), bits, ty: ty.map(|t| t.to_string()) }
}

fn u_format(subfields: Vec<(String, Vec<rvhwfuzzer::kiwi::new_raw::FieldOrBits>)>) -> rvhwfuzzer::kiwi::new_raw::Format {
    rvhwfuzzer::kiwi::new_raw::Format {
        encoding: vec![encoding_part("imm", 20, None), encoding_part("rd", 5, Some("uint")), encoding_part("opcode", 7, None)],
        subfields: Some(subfields),
    }
}

#[test]
fn format_info_checks_a_format() {
    let types = TypesBuilder::new_with_builtins();
    let format = u_format(vec![("imm_hi".to_string(), vec![FieldOrBits::Field("imm".to_string())])]);
    let info = format_info("u", &format, &types).ok().unwrap();
    assert_eq!(info.num_bytes, 4);
    let names: Vec<&str> = info.fields.iter().map(|f| f.0.as_str()).collect();
    assert_eq!(names, vec!["opcode", "rd", "imm"]);
    assert_eq!((info.fields[1].1 .0.msb, info.fields[1].1 .0.lsb), (11, 7));
    assert_eq!((info.fields[2].1 .0.msb, info.fields[2].1 .0.lsb), (31, 12));
    assert_eq!(info.fields[1].1 .1 .0, 1);
    assert_eq!(info.subfields.len(), 1);
    assert_eq!(info.subfields[0].0.as_str(), "imm_hi");

    let duplicate = u_format(vec![("rd".to_string(), vec![])]);
    assert!(matches!(format_info("u", &duplicate, &types), Err(KiwiFileError::DuplicateFieldName(n)) if n == "rd"));
    let unknown_piece = u_format(vec![("hi".to_string(), vec![FieldOrBits::Field("nope".to_string())])]);
    assert!(matches!(format_info("u", &unknown_piece, &types), Err(KiwiFileError::UnknownFormatField(n)) if n == "nope"));

    let zero = rvhwfuzzer::kiwi::new_raw::Format { encoding: vec![encoding_part("a", 0, None)], subfields: None };
    assert!(matches!(format_info("z", &zero, &types), Err(KiwiFileError::ZeroBitField(n)) if n == "z"));
    let odd = rvhwfuzzer::kiwi::new_raw::Format { encoding: vec![encoding_part("a", 12, None)], subfields: None };
    assert!(matches!(format_info("o", &odd, &types), Err(KiwiFileError::FormatEncodingSizeNotByteRound(12))));
    let typed = rvhwfuzzer::kiwi::new_raw::Format { encoding: vec![encoding_part("a", 8, Some("foo"))], subfields: None };
    assert!(matches!(format_info("t", &typed, &types), Err(KiwiFileError::UnknownType(n)) if n == "foo"));
}

#[test]
fn declared_types_become_enumerations() {
    let declared = Some(vec![(
        "rounding".to_string(),
        RawType { max_bits: None, enumerate: Some(vec!["rne".to_string(), "rtz".to_string()]) },
    )]);
    let builder = declared_types(&declared).ok().unwrap();
    assert_eq!(builder.get_id("rounding").map(|t| t.0), Some(4));
    assert_eq!(builder.get_id("sint").map(|t| t.0), Some(0));

    let bad_value = Some(vec![(
        "rounding".to_string(),
        RawType { max_bits: None, enumerate: Some(vec!["rne".to_string(), "Bad-Name".to_string()]) },
    )]);
    assert!(matches!(declared_types(&bad_value), Err(KiwiFileError::InvalidSnakeCase(n)) if n == "Bad-Name"));
    let bad_name = Some(vec![("9lives".to_string(), RawType { max_bits: None, enumerate: Some(vec![]) })]);
    assert!(matches!(declared_types(&bad_name), Err(KiwiFileError::InvalidSnakeCase(n)) if n == "9lives"));
    assert!(declared_types(&None).is_ok());
}
