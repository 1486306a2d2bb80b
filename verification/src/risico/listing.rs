//! The listing of a program's `.text` section: one line per instruction word with its address,
//! its hexadecimal value and its assembly text, and a label line before the word at which a
//! symbol starts.
use vstd::prelude::*;
use vstd::string::StringExecFns;

use crate::digits::{digits, push_padded_digits, zero_padded};
use crate::encoding::assembly::{AsmDisplayContext, AsmInstruction, FregDisplayVariant, XregDisplayVariant};
use crate::encoding::bitfields::{le_word, read_le_word};
use crate::encoding::instruction::Instruction;
use crate::kiwi::raw::is_stable_sort;
use crate::risico::elf::{
    are_sections_of, are_symbols_of, elf_header_of, elf_symbols, entries_view, first_text,
    listing_header_check, offset_keys, symbol_offsets, text_section, text_symbols, ElfSection, ElfSymbol,
    LoadError,
};

verus! {

/// The way registers are shown in the listing: by their ABI names.
pub open spec fn listing_ctx() -> AsmDisplayContext {
    AsmDisplayContext { xreg: XregDisplayVariant::Labeled, freg: FregDisplayVariant::Labeled }
}

/// A number as at least eight lower case hexadecimal digits.
pub open spec fn hex8(n: nat) -> Seq<char> {
    zero_padded(digits(n, 16), 8)
}

/// The assembly text of an instruction word, or `<???>` where it is no instruction.
pub open spec fn instruction_text(word: u32) -> Seq<char> {
    match Instruction::spec_decode_word(word) {
        Some(ins) => ins.asm_text(listing_ctx()),
        None => "<???>"@,
    }
}

/// The line of the word at `address`.
pub open spec fn instruction_line(address: nat, word: u32) -> Seq<char> {
    hex8(address) + ":\t"@ + hex8(word as nat) + "\t\t"@ + instruction_text(word)
}

/// The label line of the symbol `name` at `address`.
pub open spec fn symbol_line(address: nat, name: Seq<char>) -> Seq<char> {
    hex8(address) + " <"@ + name + ">:"@
}

/// The `i`-th little endian word of `text`.
pub open spec fn word_at(text: Seq<u8>, i: int) -> u32 {
    le_word(text.subrange(4 * i, 4 * i + 4))
}

/// The listing from the `i`-th word of `text` on, for a section placed at `start`, the symbols
/// from the `si`-th on still to come. Before a word whose offset is that of the next symbol stand
/// an empty line and the symbol's label line, and the symbol after it becomes the next.
pub open spec fn listing_from(
    start: nat,
    text: Seq<u8>,
    symbols: Seq<(Seq<char>, u64)>,
    i: nat,
    si: nat,
) -> Seq<Seq<char>>
    decreases text.len() / 4 - i,
{
    if i >= text.len() / 4 {
        Seq::empty()
    } else {
        let line = instruction_line(start + 4 * i, word_at(text, i as int));
        if si < symbols.len() && symbols[si as int].1 == 4 * i {
            seq![""@, symbol_line((start + symbols[si as int].1) as nat, symbols[si as int].0), line]
                + listing_from(start, text, symbols, i + 1, si + 1)
        } else {
            seq![line] + listing_from(start, text, symbols, i + 1, si)
        }
    }
}

/// Lines as plain sequences.
pub open spec fn lines_view(lines: Seq<String>) -> Seq<Seq<char>> {
    lines.map_values(|l: String| l@)
}

/// Every instruction can be shown with register names.
proof fn lemma_shown(ins: Instruction)
    ensures
        ins.shown_in(listing_ctx()),
{
}

/// The line of the word at `address`.
fn instruction_line_of(address: u64, word: u32, bytes: &[u8]) -> (r: String)
    requires
        bytes@.len() == 4,
        le_word(bytes@) == word,
    ensures
        r@ == instruction_line(address as nat, word),
{
    let mut line = String::new();
    push_padded_digits(&mut line, address, 16, 8);
    line.append(":\t");
    push_padded_digits(&mut line, word as u64, 16, 8);
    line.append("\t\t");
    let ctx = AsmDisplayContext { xreg: XregDisplayVariant::Labeled, freg: FregDisplayVariant::Labeled };
    match Instruction::decode(bytes) {
        Some(ins) => {
            proof {
                lemma_shown(ins);
            }
            ins.write_asm(&mut line, &ctx);
        },
        None => {
            line.append("<???>");
        },
    }
    proof {
        reveal_strlit(":\t");
        reveal_strlit("\t\t");
        reveal_strlit("<???>");
        assert(line@ =~= instruction_line(address as nat, word));
    }
    line
}

/// The listing of the `.text` section `text` placed at `start`, with `symbols` (name and offset
/// into the section, sorted by offset) as labels. The section is a whole number of words.
pub fn dump_listing(start: u64, text: &[u8], symbols: &[(String, u64)]) -> (r: Vec<String>)
    requires
        text@.len() % 4 == 0,
        start + text@.len() <= u64::MAX,
    ensures
        lines_view(r@) == listing_from(start as nat, text@, entries_view(symbols@), 0, 0),
{
    let ghost syms = entries_view(symbols@);
    let len = text.len();
    let n = len / 4;
    let mut lines: Vec<String> = Vec::new();
    let mut i: usize = 0;
    let mut si: usize = 0;
    proof {
        assert(lines_view(lines@) + listing_from(start as nat, text@, syms, 0, 0) =~= listing_from(
            start as nat,
            text@,
            syms,
            0,
            0,
        ));
    }
    while i < n
        invariant
            n == text@.len() / 4,
            len == text@.len(),
            text@.len() % 4 == 0,
            start + text@.len() <= u64::MAX,
            i <= n,
            syms == entries_view(symbols@),
            lines_view(lines@) + listing_from(start as nat, text@, syms, i as nat, si as nat)
                == listing_from(start as nat, text@, syms, 0, 0),
        decreases n - i,
    {
        assert(4 * i + 4 <= text@.len()) by (nonlinear_arith)
            requires
                i < n,
                n == text@.len() / 4,
        ;
        let j = 4 * i;
        let mut chunk: Vec<u8> = Vec::new();
        chunk.push(text[j]);
        chunk.push(text[j + 1]);
        chunk.push(text[j + 2]);
        chunk.push(text[j + 3]);
        proof {
            assert(chunk@ =~= text@.subrange(4 * i, 4 * i + 4));
        }
        let word = read_le_word(chunk.as_slice());
        let address: u64 = start + j as u64;
        let line = instruction_line_of(address, word, chunk.as_slice());
        let ghost before = lines_view(lines@);
        let labelled = si < symbols.len() && symbols[si].1 == j as u64;
        if labelled {
            let mut label = String::new();
            push_padded_digits(&mut label, start + symbols[si].1, 16, 8);
            label.append(" <");
            label.append(symbols[si].0.as_str());
            label.append(">:");
            proof {
                reveal_strlit(" <");
                reveal_strlit(">:");
                assert(label@ =~= symbol_line((start + syms[si as int].1) as nat, syms[si as int].0));
            }
            let empty = String::new();
            proof {
                reveal_strlit("");
                assert(empty@ =~= ""@);
            }
            lines.push(empty);
            lines.push(label);
            lines.push(line);
            si = si + 1;
            proof {
                assert(lines_view(lines@) =~= before + seq![""@, label@, line@]);
            }
        } else {
            lines.push(line);
            proof {
                assert(lines_view(lines@) =~= before + seq![line@]);
            }
        }
        i = i + 1;
    }
    proof {
        assert(lines_view(lines@) + Seq::<Seq<char>>::empty() =~= lines_view(lines@));
    }
    lines
}

/// Why the listing of a file's `.text` section cannot be shown.
#[derive(Debug, Clone, Copy, PartialEq, Eq, Structural)]
pub enum ListingError {
    /// The file or its `.text` section cannot be read.
    Load(LoadError),
    /// The `.text` section is not a whole number of words.
    PartialWord,
    /// The `.text` section reaches beyond the largest address.
    AddressOverflow,
}

/// The listing of the `.text` section of a little endian 32-bit RISC-V ELF file, labelled with
/// the symbols of that section.
pub fn program_listing(bytes: &[u8]) -> (r: Result<Vec<String>, ListingError>)
    ensures
        match listing_header_check(elf_header_of(bytes@)) {
            Err(e) => r == Err::<Vec<String>, ListingError>(ListingError::Load(e)),
            Ok(_) => exists|sections: Seq<ElfSection>, symbols: Seq<ElfSymbol>|
                #![trigger are_sections_of(bytes@, sections), are_symbols_of(bytes@, symbols)]
                are_sections_of(bytes@, sections) && are_symbols_of(bytes@, symbols) && match first_text(
                    sections,
                ) {
                    None => r == Err::<Vec<String>, ListingError>(ListingError::Load(LoadError::NoTextSection)),
                    Some(k) => match sections[k].data {
                        None => r == Err::<Vec<String>, ListingError>(
                            ListingError::Load(LoadError::SectionWithoutData),
                        ),
                        Some(data) => match symbol_offsets(symbols, (k + 1) as usize, sections[k].address) {
                            Err(e) => r == Err::<Vec<String>, ListingError>(ListingError::Load(e)),
                            Ok(entries) => if data@.len() % 4 != 0 {
                                r == Err::<Vec<String>, ListingError>(ListingError::PartialWord)
                            } else if sections[k].address + data@.len() > u64::MAX {
                                r == Err::<Vec<String>, ListingError>(ListingError::AddressOverflow)
                            } else {
                                r is Ok && exists|sorted: Seq<(Seq<char>, u64)>, idx: Seq<int>|
                                    is_stable_sort(entries, offset_keys(entries), sorted, idx)
                                        && lines_view(r->Ok_0@) == listing_from(
                                        sections[k].address as nat,
                                        data@,
                                        sorted,
                                        0,
                                        0,
                                    )
                            },
                        },
                    },
                },
        },
{
    let symbols = elf_symbols(bytes);
    let text = match text_section(bytes) {
        Ok(t) => t,
        Err(e) => {
            return Err(ListingError::Load(e));
        },
    };
    let sorted = match text_symbols(symbols.as_slice(), text.index, text.address) {
        Ok(s) => s,
        Err(e) => {
            return Err(ListingError::Load(e));
        },
    };
    if text.data.len() % 4 != 0 {
        return Err(ListingError::PartialWord);
    }
    if text.address > u64::MAX - text.data.len() as u64 {
        return Err(ListingError::AddressOverflow);
    }
    let lines = dump_listing(text.address, text.data.as_slice(), sorted.as_slice());
    let r: Result<Vec<String>, ListingError> = Ok(lines);
    assert(r->Ok_0@ == lines@);
    r
}

} // verus!
