use rvhwfuzzer::encoding::assembly::{AsmDisplay, AsmDisplayContext, AsmField, AsmFreg, AsmRelLabel, AsmSignedHex, AsmSignedInt, AsmUnsignedHex, AsmUnsignedInt, AsmXreg};
use rvhwfuzzer::encoding::{AddiArgs, EcallArgs, Instruction, JalArgs, SwArgs};

#[test]
fn decode_addi() {
    // addi x1, x2, 5
    let word: u32 = 0x0051_0093;
    let instruction = Instruction::decode(&word.to_le_bytes()).unwrap();
    match instruction {
        Instruction::Addi(args) => {
            assert_eq!(args.rd, 1);
            assert_eq!(args.rs, 2);
            assert_eq!(args.imm11_0, 5);
        }
        _ => panic!("not an addi"),
    }
}

#[test]
fn encode_then_decode_addi() {
    let args = AddiArgs { rs: 3, rd: 4, imm11_0: 0x7ff };
    let mut bytes = Vec::new();
    args.encode(&mut bytes);
    assert_eq!(bytes.len(), 4);
    let word = u32::from_le_bytes([bytes[0], bytes[1], bytes[2], bytes[3]]);
    assert_eq!(AddiArgs::take_args(word).imm11_0, 0x7ff);
    match Instruction::decode(&bytes).unwrap() {
        Instruction::Addi(decoded) => {
            assert_eq!(decoded.rs, 3);
            assert_eq!(decoded.rd, 4);
            assert_eq!(decoded.imm11_0, 0x7ff);
        }
        _ => panic!("not an addi"),
    }
}

#[test]
fn decode_ecall_and_unknown() {
    let ecall: u32 = 0x0000_0073;
    assert!(matches!(Instruction::decode(&ecall.to_le_bytes()), Some(Instruction::Ecall(_))));
    let mut bytes = Vec::new();
    EcallArgs {}.encode(&mut bytes);
    assert_eq!(bytes, ecall.to_le_bytes().to_vec());
    let unknown: u32 = 0xFFFF_FFFF;
    assert!(Instruction::decode(&unknown.to_le_bytes()).is_none());
}

#[test]
fn store_and_jump_immediates() {
    let sw = SwArgs::take_args(0x00A1_2423);
    let mut bytes = Vec::new();
    sw.encode(&mut bytes);
    assert_eq!(bytes, 0x00A1_2423u32.to_le_bytes().to_vec());
    let jal = JalArgs::take_args(0x0080_006F);
    assert_eq!(jal.imm(), 8);
}

#[test]
fn assembly_text() {
    let ctx = AsmDisplayContext::default();
    let addi = Instruction::decode(&[0x93, 0x00, 0x50, 0x00]).unwrap();
    assert_eq!(AsmDisplay { ctx: &ctx, instr: &addi }.to_string(), "addi       ra,zero,5");
    let lui = Instruction::decode(&0x1234_52B7u32.to_le_bytes()).unwrap();
    assert_eq!(AsmDisplay { ctx: &ctx, instr: &lui }.to_string(), "lui        t0,12345000");
    let ecall = Instruction::decode(&0x0000_0073u32.to_le_bytes()).unwrap();
    assert_eq!(AsmDisplay { ctx: &ctx, instr: &ecall }.to_string(), "ecall      ");
    let mut text = String::new();
    AsmXreg(33).fmt_field(&mut text, &ctx);
    text.push(' ');
    AsmFreg(10).fmt_field(&mut text, &ctx);
    text.push(' ');
    AsmSignedInt(u64::MAX).fmt_field(&mut text, &ctx);
    text.push(' ');
    AsmUnsignedHex(255).fmt_field(&mut text, &ctx);
    text.push(' ');
    AsmSignedHex(u64::MAX).fmt_field(&mut text, &ctx);
    text.push(' ');
    AsmUnsignedInt(42).fmt_field(&mut text, &ctx);
    text.push(' ');
    AsmRelLabel(8).fmt_field(&mut text, &ctx);
    assert_eq!(text, "ra fa0 -1 ff ffffffffffffffff 42 8");
}
