use rvhwfuzzer::risico::elf::{load_program, text_section, LoadError};
use rvhwfuzzer::risico::listing::{dump_listing, program_listing, ListingError};

fn push_u16(out: &mut Vec<u8>, v: u16) {
    out.extend_from_slice(&v.to_le_bytes());
}

fn push_u32(out: &mut Vec<u8>, v: u32) {
    out.extend_from_slice(&v.to_le_bytes());
}

fn pad4(out: &mut Vec<u8>) {
    while out.len() % 4 != 0 {
        out.push(0);
    }
}

#[allow(clippy::too_many_arguments)]
fn section_header(out: &mut Vec<u8>, name: u32, kind: u32, flags: u32, addr: u32, offset: u32, size: u32, link: u32, info: u32, entsize: u32) {
    for v in [name, kind, flags, addr, offset, size, link, info, 4, entsize] {
        push_u32(out, v);
    }
}

/// A small 32-bit little endian ELF file for `machine` with a `.text` section of two words at
/// 0x1000, two symbols in it (`main` at 0x1000, `loop` at 0x1004), and entry point 0x1000.
fn tiny_elf(machine: u16, text: &[u8]) -> Vec<u8> {
    let mut out = Vec::new();
    out.extend_from_slice(&[0x7f, b'E', b'L', b'F', 1, 1, 1, 0]);
    out.extend_from_slice(&[0; 8]);
    push_u16(&mut out, 2);
    push_u16(&mut out, machine);
    push_u32(&mut out, 1);
    push_u32(&mut out, 0x1000);
    push_u32(&mut out, 0);
    let shoff_at = out.len();
    push_u32(&mut out, 0);
    push_u32(&mut out, 0);
    push_u16(&mut out, 52);
    push_u16(&mut out, 32);
    push_u16(&mut out, 0);
    push_u16(&mut out, 40);
    push_u16(&mut out, 5);
    push_u16(&mut out, 2);
    assert_eq!(out.len(), 52);

    let text_off = out.len() as u32;
    out.extend_from_slice(text);
    pad4(&mut out);
    let shstrtab = b"\0.text\0.shstrtab\0.strtab\0.symtab\0";
    let shstr_off = out.len() as u32;
    out.extend_from_slice(shstrtab);
    pad4(&mut out);
    let strtab = b"\0main\0loop\0";
    let str_off = out.len() as u32;
    out.extend_from_slice(strtab);
    pad4(&mut out);
    let sym_off = out.len() as u32;
    out.extend_from_slice(&[0; 16]);
    for (name, value) in [(1u32, 0x1000u32), (6, 0x1004)] {
        push_u32(&mut out, name);
        push_u32(&mut out, value);
        push_u32(&mut out, 0);
        out.push(0x12);
        out.push(0);
        push_u16(&mut out, 1);
    }
    pad4(&mut out);
    let shoff = out.len() as u32;
    out[shoff_at..shoff_at + 4].copy_from_slice(&shoff.to_le_bytes());
    section_header(&mut out, 0, 0, 0, 0, 0, 0, 0, 0, 0);
    section_header(&mut out, 1, 1, 6, 0x1000, text_off, text.len() as u32, 0, 0, 0);
    section_header(&mut out, 7, 3, 0, 0, shstr_off, shstrtab.len() as u32, 0, 0, 0);
    section_header(&mut out, 17, 3, 0, 0, str_off, strtab.len() as u32, 0, 0, 0);
    section_header(&mut out, 25, 2, 0, 0, sym_off, 48, 3, 1, 16);
    out
}

const TEXT: [u8; 8] = [0x93, 0x00, 0x50, 0x00, 0xff, 0xff, 0xff, 0xff];

#[test]
fn load_program_places_allocated_sections() {
    let program = load_program(&tiny_elf(243, &TEXT)).unwrap();
    assert_eq!(program.entry, 0x1000);
    assert_eq!(program.placed.len(), 1);
    assert_eq!(program.placed[0].0, 0x1000);
    assert_eq!(program.placed[0].1, TEXT.to_vec());
}

#[test]
fn load_program_refuses_other_files() {
    assert_eq!(load_program(b"not an object file").err(), Some(LoadError::NotAnObjectFile));
    assert_eq!(load_program(&tiny_elf(3, &TEXT)).err(), Some(LoadError::NotRiscv32));
}

#[test]
fn text_section_is_found() {
    let text = text_section(&tiny_elf(243, &TEXT)).unwrap();
    assert_eq!(text.index, 1);
    assert_eq!(text.address, 0x1000);
    assert_eq!(text.data, TEXT.to_vec());
}

#[test]
fn listing_of_a_program() {
    let lines = program_listing(&tiny_elf(243, &TEXT)).unwrap();
    assert_eq!(
        lines,
        vec![
            "".to_string(),
            "00001000 <main>:".to_string(),
            "00001000:\t00500093\t\taddi       ra,zero,5".to_string(),
            "".to_string(),
            "00001004 <loop>:".to_string(),
            "00001004:\tffffffff\t\t<???>".to_string(),
        ]
    );
}

#[test]
fn listing_needs_whole_words() {
    let text = [0x93, 0x00, 0x50, 0x00, 0x13, 0x00];
    assert_eq!(program_listing(&tiny_elf(243, &text)).err(), Some(ListingError::PartialWord));
}

#[test]
fn listing_skips_symbols_off_the_word_grid() {
    let symbols = vec![("odd".to_string(), 2u64), ("later".to_string(), 4u64)];
    let lines = dump_listing(0x20, &TEXT, &symbols);
    assert_eq!(lines.len(), 2);
    assert_eq!(lines[1], "00000024:\tffffffff\t\t<???>");
}
