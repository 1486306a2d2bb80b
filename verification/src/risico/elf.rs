//! Loading a RISC-V program from an ELF file: the checks that the file is a 32-bit RISC-V ELF
//! file, the sections it places in memory, and its entry point. The file is read by the `object`
//! crate; what the emulator does with what it reads is decided here.
use vstd::prelude::*;

use object::{Object, ObjectSection, ObjectSymbol};

use crate::kiwi::raw::{is_stable_sort, stable_sort};
use crate::kiwi::to_result::str_eq;

verus! {

/// What an object file says of itself.
#[derive(Debug, Clone, Copy, PartialEq, Eq, Structural)]
pub struct ElfHeader {
    /// The file is an ELF file.
    pub is_elf: bool,
    /// The file is for 32-bit RISC-V.
    pub is_riscv32: bool,
    /// The file is little endian.
    pub little_endian: bool,
    /// The address of the first instruction.
    pub entry: u64,
}

/// A section of an object file.
#[derive(Debug, Clone)]
pub struct ElfSection {
    /// Its name, where it is valid UTF-8.
    pub name: Option<String>,
    /// The address at which it is placed.
    pub address: u64,
    /// Its ELF flags (`sh_flags`), where the file is an ELF file.
    pub elf_flags: Option<u64>,
    /// Its bytes in the file, where they can be read.
    pub data: Option<Vec<u8>>,
}

/// A symbol of an object file.
#[derive(Debug, Clone)]
pub struct ElfSymbol {
    /// Its name, where it can be read.
    pub name: Option<String>,
    /// Its address.
    pub address: u64,
    /// The index of the section it belongs to, if any.
    pub section_index: Option<usize>,
}

/// What `object` reads of the header of the object file `bytes`; `None` where it cannot parse
/// the file.
pub uninterp spec fn elf_header_of(bytes: Seq<u8>) -> Option<ElfHeader>;

/// The section at `index` of the object file `bytes`; `None` where the file cannot be parsed or
/// has no section at that index.
pub uninterp spec fn elf_section_of(bytes: Seq<u8>, index: usize) -> Option<ElfSection>;

/// The symbol at `index` of the object file `bytes`; `None` where the file cannot be parsed or
/// has no symbol at that index.
pub uninterp spec fn elf_symbol_of(bytes: Seq<u8>, index: usize) -> Option<ElfSymbol>;

/// Parses `bytes` with `object::File::parse` and reads its `format`, `architecture`,
/// `is_little_endian` and `entry`. The contract claims only that the result is a function of the
/// bytes, and `None` exactly where parsing fails.
#[verifier::external_body]
fn elf_header(bytes: &[u8]) -> (r: Option<ElfHeader>)
    ensures
        r == elf_header_of(bytes@),
{
    let file = object::File::parse(bytes).ok()?;
    Some(ElfHeader {
        is_elf: matches!(file.format(), object::BinaryFormat::Elf),
        is_riscv32: matches!(file.architecture(), object::Architecture::Riscv32),
        little_endian: file.is_little_endian(),
        entry: file.entry(),
    })
}

/// Parses `bytes` with `object::File::parse` and reads the section that `section_by_index` gives
/// for `index`: its `name`, `address`, `flags` (where they are ELF flags) and `data`. The contract
/// claims only that the result is a function of the bytes and the index.
#[verifier::external_body]
fn elf_section(bytes: &[u8], index: usize) -> (r: Option<ElfSection>)
    ensures
        r == elf_section_of(bytes@, index),
{
    let file = object::File::parse(bytes).ok()?;
    let s = file.section_by_index(object::SectionIndex(index)).ok()?;
    let elf_flags = match s.flags() {
        object::SectionFlags::Elf { sh_flags } => Some(sh_flags),
        _ => None,
    };
    let name = s.name().ok().map(|n| n.to_string());
    Some(ElfSection { name, address: s.address(), elf_flags, data: s.data().ok().map(|d| d.to_vec()) })
}

/// Parses `bytes` with `object::File::parse` and reads the symbol that `symbol_by_index` gives
/// for `index`: its `name`, `address` and `section_index`. The contract claims only that the
/// result is a function of the bytes and the index.
#[verifier::external_body]
fn elf_symbol(bytes: &[u8], index: usize) -> (r: Option<ElfSymbol>)
    ensures
        r == elf_symbol_of(bytes@, index),
{
    let file = object::File::parse(bytes).ok()?;
    let s = file.symbol_by_index(object::SymbolIndex(index)).ok()?;
    let name = s.name().ok().map(|n| n.to_string());
    Some(ElfSymbol { name, address: s.address(), section_index: s.section_index().map(|i| i.0) })
}

/// The sections of an object file are those at the indices from 1 (index 0 is the null section of
/// ELF) up to the first index at which there is none.
pub open spec fn sections_end(bytes: Seq<u8>, n: usize) -> bool {
    &&& 1 <= n
    &&& forall|k: usize| 1 <= k < n ==> (#[trigger] elf_section_of(bytes, k)) is Some
    &&& n == usize::MAX || elf_section_of(bytes, n) is None
}

/// `sections` are the sections of the object file `bytes`, in the order of their indices.
pub open spec fn are_sections_of(bytes: Seq<u8>, sections: Seq<ElfSection>) -> bool {
    &&& sections_end(bytes, (sections.len() + 1) as usize)
    &&& sections.len() + 1 <= usize::MAX
    &&& forall|k: int| 0 <= k < sections.len() ==> elf_section_of(bytes, (k + 1) as usize) == Some(
        #[trigger] sections[k],
    )
}

/// The sections of the object file `bytes`, in the order of their indices.
pub fn elf_sections(bytes: &[u8]) -> (r: Vec<ElfSection>)
    ensures
        are_sections_of(bytes@, r@),
{
    let mut sections: Vec<ElfSection> = Vec::new();
    let mut i: usize = 1;
    while i < usize::MAX
        invariant
            1 <= i,
            sections@.len() == i - 1,
            forall|k: usize| 1 <= k < i ==> (#[trigger] elf_section_of(bytes@, k)) is Some,
            forall|k: int| 0 <= k < sections@.len() ==> elf_section_of(bytes@, (k + 1) as usize) == Some(
                #[trigger] sections@[k],
            ),
        decreases usize::MAX - i,
    {
        match elf_section(bytes, i) {
            Some(section) => {
                sections.push(section);
                i = i + 1;
            },
            None => {
                return sections;
            },
        }
    }
    sections
}

/// Why a program cannot be loaded from a file.
#[derive(Debug, Clone, Copy, PartialEq, Eq, Structural)]
pub enum LoadError {
    /// The file cannot be parsed as an object file.
    NotAnObjectFile,
    /// The file is not an ELF file.
    NotElf,
    /// The file is not for 32-bit RISC-V.
    NotRiscv32,
    /// A section has no ELF flags.
    SectionNotElf,
    /// A section to be placed in memory has no data that can be read.
    SectionWithoutData,
    /// The file has no `.text` section.
    NoTextSection,
    /// The file is big endian.
    BigEndian,
    /// A symbol of the `.text` section has no name that can be read.
    SymbolWithoutName,
    /// A symbol of the `.text` section lies before the section's start.
    SymbolBeforeSection,
}

/// The header of a file that can be loaded, or why it cannot.
pub open spec fn header_check(header: Option<ElfHeader>) -> Result<ElfHeader, LoadError> {
    match header {
        None => Err(LoadError::NotAnObjectFile),
        Some(h) => if !h.is_elf {
            Err(LoadError::NotElf)
        } else if !h.is_riscv32 {
            Err(LoadError::NotRiscv32)
        } else {
            Ok(h)
        },
    }
}

/// The ELF flag of a section that is placed in memory (`SHF_ALLOC`).
pub open spec fn allocated(flags: u64) -> bool {
    flags & 2 != 0
}

/// What the sections place in memory, in their order: each allocated section's data at its
/// address (cut to 32 bits); or the first section that has no ELF flags, or that is allocated and
/// has no data.
pub open spec fn placements(sections: Seq<ElfSection>) -> Result<Seq<(u32, Seq<u8>)>, LoadError>
    decreases sections.len(),
{
    if sections.len() == 0 {
        Ok(Seq::empty())
    } else {
        let s = sections[0];
        match s.elf_flags {
            None => Err(LoadError::SectionNotElf),
            Some(flags) => if !allocated(flags) {
                placements(sections.drop_first())
            } else {
                match s.data {
                    None => Err(LoadError::SectionWithoutData),
                    Some(data) => match placements(sections.drop_first()) {
                        Ok(rest) => Ok(seq![(s.address as u32, data@)] + rest),
                        Err(e) => Err(e),
                    },
                }
            },
        }
    }
}

/// A program ready to run: where it starts, and the bytes to place in memory.
pub struct LoadedProgram {
    /// The address of the first instruction.
    pub entry: u32,
    /// Each allocated section's address and data, in the order of the sections.
    pub placed: Vec<(u32, Vec<u8>)>,
}

/// The outcome of placing `placed` and then what `rest` gives.
pub open spec fn after_placed(
    placed: Seq<(u32, Seq<u8>)>,
    rest: Result<Seq<(u32, Seq<u8>)>, LoadError>,
) -> Result<Seq<(u32, Seq<u8>)>, LoadError> {
    match rest {
        Ok(r) => Ok(placed + r),
        Err(e) => Err(e),
    }
}

/// The placed bytes as plain sequences.
pub open spec fn placed_view(placed: Seq<(u32, Vec<u8>)>) -> Seq<(u32, Seq<u8>)> {
    placed.map_values(|p: (u32, Vec<u8>)| (p.0, p.1@))
}

/// The placements of the sections from the `i`-th on, in terms of those from the next on.
proof fn lemma_placements_step(sections: Seq<ElfSection>, i: int)
    requires
        0 <= i < sections.len(),
    ensures
        placements(sections.subrange(i, sections.len() as int)) == ({
            let s = sections[i];
            let rest = placements(sections.subrange(i + 1, sections.len() as int));
            match s.elf_flags {
                None => Err(LoadError::SectionNotElf),
                Some(flags) => if !allocated(flags) {
                    rest
                } else {
                    match s.data {
                        None => Err(LoadError::SectionWithoutData),
                        Some(data) => match rest {
                            Ok(r) => Ok(seq![(s.address as u32, data@)] + r),
                            Err(e) => Err(e),
                        },
                    }
                },
            }
        }),
{
    assert(sections.subrange(i, sections.len() as int).drop_first() =~= sections.subrange(
        i + 1,
        sections.len() as int,
    ));
}

/// Load a program from an ELF file: the file must be a 32-bit RISC-V ELF file; every section must
/// have ELF flags; the data of each allocated section is placed at its address; the program
/// starts at the file's entry point (cut to 32 bits).
pub fn load_program(bytes: &[u8]) -> (r: Result<LoadedProgram, LoadError>)
    ensures
        match header_check(elf_header_of(bytes@)) {
            Err(e) => r == Err::<LoadedProgram, LoadError>(e),
            Ok(h) => exists|sections: Seq<ElfSection>|
                #![trigger are_sections_of(bytes@, sections)]
                are_sections_of(bytes@, sections) && match placements(sections) {
                    Err(e) => r matches Err(e2) && e2 == e,
                    Ok(placed) => r matches Ok(p) && p.entry == h.entry as u32 && placed_view(p.placed@)
                        == placed,
                },
        },
{
    let header = match elf_header(bytes) {
        None => return Err(LoadError::NotAnObjectFile),
        Some(h) => h,
    };
    if !header.is_elf {
        return Err(LoadError::NotElf);
    }
    if !header.is_riscv32 {
        return Err(LoadError::NotRiscv32);
    }
    let sections = elf_sections(bytes);
    let n = sections.len();
    let mut placed: Vec<(u32, Vec<u8>)> = Vec::new();
    let mut i: usize = 0;
    proof {
        assert(sections@.subrange(0, n as int) =~= sections@);
        if let Ok(r) = placements(sections@) {
            assert(placed_view(placed@) + r =~= r);
        }
    }
    while i < n
        invariant
            i <= n,
            n == sections@.len(),
            are_sections_of(bytes@, sections@),
            header_check(elf_header_of(bytes@)) == Ok::<ElfHeader, LoadError>(header),
            placements(sections@) == after_placed(
                placed_view(placed@),
                placements(sections@.subrange(i as int, n as int)),
            ),
        decreases n - i,
    {
        let s = &sections[i];
        proof {
            lemma_placements_step(sections@, i as int);
        }
        match s.elf_flags {
            None => {
                return Err(LoadError::SectionNotElf);
            },
            Some(flags) => {
                if flags & 2 != 0 {
                    match &s.data {
                        None => {
                            return Err(LoadError::SectionWithoutData);
                        },
                        Some(data) => {
                            let ghost before = placed_view(placed@);
                            let ghost rest = placements(sections@.subrange(i + 1, n as int));
                            let address: u32 = #[verifier::truncate] (s.address as u32);
                            placed.push((address, data.clone()));
                            proof {
                                assert(placed_view(placed@) =~= before + seq![(s.address as u32, data@)]);
                                if let Ok(r) = rest {
                                    assert(before + (seq![(s.address as u32, data@)] + r)
                                        =~= placed_view(placed@) + r);
                                }
                            }
                        },
                    }
                }
            },
        }
        i = i + 1;
    }
    proof {
        assert(sections@.subrange(n as int, n as int) =~= Seq::<ElfSection>::empty());
        assert(placed_view(placed@) + Seq::<(u32, Seq<u8>)>::empty() =~= placed_view(placed@));
    }
    let entry: u32 = #[verifier::truncate] (header.entry as u32);
    Ok(LoadedProgram { entry, placed })
}

/// The symbols of an object file are those at the indices from 1 (index 0 is the null symbol of
/// ELF) up to the first index at which there is none.
pub open spec fn symbols_end(bytes: Seq<u8>, n: usize) -> bool {
    &&& 1 <= n
    &&& forall|k: usize| 1 <= k < n ==> (#[trigger] elf_symbol_of(bytes, k)) is Some
    &&& n == usize::MAX || elf_symbol_of(bytes, n) is None
}

/// `symbols` are the symbols of the object file `bytes`, in the order of their indices.
pub open spec fn are_symbols_of(bytes: Seq<u8>, symbols: Seq<ElfSymbol>) -> bool {
    &&& symbols_end(bytes, (symbols.len() + 1) as usize)
    &&& symbols.len() + 1 <= usize::MAX
    &&& forall|k: int| 0 <= k < symbols.len() ==> elf_symbol_of(bytes, (k + 1) as usize) == Some(
        #[trigger] symbols[k],
    )
}

/// The symbols of the object file `bytes`, in the order of their indices.
pub fn elf_symbols(bytes: &[u8]) -> (r: Vec<ElfSymbol>)
    ensures
        are_symbols_of(bytes@, r@),
{
    let mut symbols: Vec<ElfSymbol> = Vec::new();
    let mut i: usize = 1;
    while i < usize::MAX
        invariant
            1 <= i,
            symbols@.len() == i - 1,
            forall|k: usize| 1 <= k < i ==> (#[trigger] elf_symbol_of(bytes@, k)) is Some,
            forall|k: int| 0 <= k < symbols@.len() ==> elf_symbol_of(bytes@, (k + 1) as usize) == Some(
                #[trigger] symbols@[k],
            ),
        decreases usize::MAX - i,
    {
        match elf_symbol(bytes, i) {
            Some(symbol) => {
                symbols.push(symbol);
                i = i + 1;
            },
            None => {
                return symbols;
            },
        }
    }
    symbols
}

/// The `.text` section of a file: its index, address and bytes.
pub struct TextSection {
    /// The section's index.
    pub index: usize,
    /// The address at which it is placed.
    pub address: u64,
    /// Its bytes.
    pub data: Vec<u8>,
}

/// Whether a section is named `.text`.
pub open spec fn is_text(section: ElfSection) -> bool {
    section.name matches Some(n) && n@ == ".text"@
}

/// The position of the first section named `.text`, if any.
pub open spec fn first_text(sections: Seq<ElfSection>) -> Option<int> {
    if exists|k: int| 0 <= k < sections.len() && is_text(#[trigger] sections[k]) {
        Some(choose|k: int|
            0 <= k < sections.len() && is_text(#[trigger] sections[k]) && forall|j: int|
                0 <= j < k ==> !is_text(#[trigger] sections[j]))
    } else {
        None
    }
}

/// The header of a file whose listing can be shown, or why it cannot.
pub open spec fn listing_header_check(header: Option<ElfHeader>) -> Result<ElfHeader, LoadError> {
    match header_check(header) {
        Ok(h) => if h.little_endian {
            Ok(h)
        } else {
            Err(LoadError::BigEndian)
        },
        Err(e) => Err(e),
    }
}

/// The `.text` section of a little endian 32-bit RISC-V ELF file: the first section of that name.
pub fn text_section(bytes: &[u8]) -> (r: Result<TextSection, LoadError>)
    ensures
        match listing_header_check(elf_header_of(bytes@)) {
            Err(e) => r == Err::<TextSection, LoadError>(e),
            Ok(_) => exists|sections: Seq<ElfSection>|
                #![trigger are_sections_of(bytes@, sections)]
                are_sections_of(bytes@, sections) && match first_text(sections) {
                    None => r matches Err(e) && e == LoadError::NoTextSection,
                    Some(k) => match sections[k].data {
                        None => r matches Err(e) && e == LoadError::SectionWithoutData,
                        Some(data) => r matches Ok(t) && t.index == k + 1 && t.address
                            == sections[k].address && t.data@ == data@,
                    },
                },
        },
{
    let header = match elf_header(bytes) {
        None => return Err(LoadError::NotAnObjectFile),
        Some(h) => h,
    };
    if !header.is_elf {
        return Err(LoadError::NotElf);
    }
    if !header.is_riscv32 {
        return Err(LoadError::NotRiscv32);
    }
    if !header.little_endian {
        return Err(LoadError::BigEndian);
    }
    let sections = elf_sections(bytes);
    let mut k: usize = 0;
    while k < sections.len()
        invariant
            k <= sections@.len(),
            are_sections_of(bytes@, sections@),
            listing_header_check(elf_header_of(bytes@)) == Ok::<ElfHeader, LoadError>(header),
            forall|j: int| 0 <= j < k ==> !is_text(#[trigger] sections@[j]),
        decreases sections@.len() - k,
    {
        let section = &sections[k];
        let named_text = match &section.name {
            Some(name) => {
                proof {
                    reveal_strlit(".text");
                }
                str_eq(name.as_str(), ".text")
            },
            None => false,
        };
        if named_text {
            proof {
                assert(is_text(sections@[k as int]));
                assert(first_text(sections@) == Some(k as int));
            }
            return match &section.data {
                None => Err(LoadError::SectionWithoutData),
                Some(data) => Ok(TextSection { index: k + 1, address: section.address, data: data.clone() }),
            };
        }
        k = k + 1;
    }
    Err(LoadError::NoTextSection)
}

/// The name and offset into the section of each symbol that belongs to the section at
/// `text_index` starting at `start`, in the order of the symbols; or the first such symbol
/// without a name or before the start.
pub open spec fn symbol_offsets(symbols: Seq<ElfSymbol>, text_index: usize, start: u64) -> Result<
    Seq<(Seq<char>, u64)>,
    LoadError,
>
    decreases symbols.len(),
{
    if symbols.len() == 0 {
        Ok(Seq::empty())
    } else {
        let s = symbols[0];
        let rest = symbol_offsets(symbols.drop_first(), text_index, start);
        if s.section_index == Some(text_index) {
            match s.name {
                None => Err(LoadError::SymbolWithoutName),
                Some(name) => if s.address < start {
                    Err(LoadError::SymbolBeforeSection)
                } else {
                    match rest {
                        Ok(r) => Ok(seq![(name@, (s.address - start) as u64)] + r),
                        Err(e) => Err(e),
                    }
                },
            }
        } else {
            rest
        }
    }
}

/// The sort key of an offset: its high and its low half, which order as the offset does.
pub open spec fn offset_key(offset: u64) -> (u32, u32) {
    ((offset >> 32) as u32, offset as u32)
}

/// The sort keys of named offsets.
pub open spec fn offset_keys(entries: Seq<(Seq<char>, u64)>) -> Seq<(u32, u32)> {
    entries.map_values(|e: (Seq<char>, u64)| offset_key(e.1))
}

/// Named offsets as plain sequences.
pub open spec fn entries_view(entries: Seq<(String, u64)>) -> Seq<(Seq<char>, u64)> {
    entries.map_values(|e: (String, u64)| (e.0@, e.1))
}

/// The result of `symbol_offsets` from the `i`-th symbol on, in terms of that from the next on.
proof fn lemma_symbol_offsets_step(symbols: Seq<ElfSymbol>, text_index: usize, start: u64, i: int)
    requires
        0 <= i < symbols.len(),
    ensures
        symbol_offsets(symbols.subrange(i, symbols.len() as int), text_index, start) == ({
            let s = symbols[i];
            let rest = symbol_offsets(symbols.subrange(i + 1, symbols.len() as int), text_index, start);
            if s.section_index == Some(text_index) {
                match s.name {
                    None => Err(LoadError::SymbolWithoutName),
                    Some(name) => if s.address < start {
                        Err(LoadError::SymbolBeforeSection)
                    } else {
                        match rest {
                            Ok(r) => Ok(seq![(name@, (s.address - start) as u64)] + r),
                            Err(e) => Err(e),
                        }
                    },
                }
            } else {
                rest
            }
        }),
{
    assert(symbols.subrange(i, symbols.len() as int).drop_first() =~= symbols.subrange(
        i + 1,
        symbols.len() as int,
    ));
}

/// The outcome of listing `done` and then what `rest` gives.
pub open spec fn after_entries(
    done: Seq<(Seq<char>, u64)>,
    rest: Result<Seq<(Seq<char>, u64)>, LoadError>,
) -> Result<Seq<(Seq<char>, u64)>, LoadError> {
    match rest {
        Ok(r) => Ok(done + r),
        Err(e) => Err(e),
    }
}

/// The symbols of the section at `text_index`, which starts at `start`: each with its name and
/// its offset into the section, sorted by offset, symbols at the same offset in the order of the
/// symbol table.
pub fn text_symbols(symbols: &[ElfSymbol], text_index: usize, start: u64) -> (r: Result<
    Vec<(String, u64)>,
    LoadError,
>)
    ensures
        match symbol_offsets(symbols@, text_index, start) {
            Err(e) => r == Err::<Vec<(String, u64)>, LoadError>(e),
            Ok(entries) => r is Ok && exists|idx: Seq<int>|
                is_stable_sort(entries, offset_keys(entries), entries_view(r->Ok_0@), idx),
        },
{
    let n = symbols.len();
    let mut entries: Vec<(String, u64)> = Vec::new();
    let mut keys: Vec<(u32, u32)> = Vec::new();
    let mut i: usize = 0;
    proof {
        assert(symbols@.subrange(0, n as int) =~= symbols@);
        if let Ok(r) = symbol_offsets(symbols@, text_index, start) {
            assert(entries_view(entries@) + r =~= r);
        }
    }
    while i < n
        invariant
            i <= n,
            n == symbols@.len(),
            keys@ == offset_keys(entries_view(entries@)),
            symbol_offsets(symbols@, text_index, start) == after_entries(
                entries_view(entries@),
                symbol_offsets(symbols@.subrange(i as int, n as int), text_index, start),
            ),
        decreases n - i,
    {
        let s = &symbols[i];
        proof {
            lemma_symbol_offsets_step(symbols@, text_index, start, i as int);
        }
        let belongs = match s.section_index {
            Some(index) => index == text_index,
            None => false,
        };
        if belongs {
            match &s.name {
                None => {
                    return Err(LoadError::SymbolWithoutName);
                },
                Some(name) => {
                    if s.address < start {
                        return Err(LoadError::SymbolBeforeSection);
                    }
                    let offset: u64 = s.address - start;
                    let ghost before = entries_view(entries@);
                    let ghost rest = symbol_offsets(symbols@.subrange(i + 1, n as int), text_index, start);
                    entries.push((name.clone(), offset));
                    keys.push((#[verifier::truncate] ((offset >> 32) as u32), #[verifier::truncate] (offset as u32)));
                    proof {
                        assert(entries_view(entries@) =~= before + seq![(name@, offset)]);
                        assert(keys@ =~= offset_keys(entries_view(entries@)));
                        if let Ok(r) = rest {
                            assert(before + (seq![(name@, offset)] + r) =~= entries_view(entries@) + r);
                        }
                    }
                },
            }
        }
        i = i + 1;
    }
    proof {
        assert(symbols@.subrange(n as int, n as int) =~= Seq::<ElfSymbol>::empty());
        assert(entries_view(entries@) + Seq::<(Seq<char>, u64)>::empty() =~= entries_view(entries@));
    }
    let ghost input = entries@;
    assert(symbol_offsets(symbols@, text_index, start) == Ok::<Seq<(Seq<char>, u64)>, LoadError>(
        entries_view(input),
    ));
    let sorted = stable_sort(entries, keys);
    proof {
        let idx = choose|idx: Seq<int>| is_stable_sort(input, offset_keys(entries_view(input)), sorted@, idx);
        assert(is_stable_sort(entries_view(input), offset_keys(entries_view(input)), entries_view(sorted@), idx)) by {
            assert forall|j: int| 0 <= j < idx.len() implies entries_view(sorted@)[j] == entries_view(input)[#[trigger] idx[j]] by {
                assert(sorted@[j] == input[idx[j]]);
            }
        }
        assert(exists|idx2: Seq<int>|
            is_stable_sort(entries_view(input), offset_keys(entries_view(input)), entries_view(sorted@), idx2));
        let entries = symbol_offsets(symbols@, text_index, start)->Ok_0;
        assert(entries == entries_view(input));
        assert(exists|idx2: Seq<int>|
            is_stable_sort(entries, offset_keys(entries), entries_view(sorted@), idx2));
    }
    let r: Result<Vec<(String, u64)>, LoadError> = Ok(sorted);
    assert(r->Ok_0@ == sorted@);
    r
}

} // verus!
