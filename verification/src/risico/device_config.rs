//! The description of a device: its memory sections, with their address ranges, access rights,
//! the drivers that back them and their caches; and its check from the configuration as read.
use vstd::prelude::*;
use vstd::string::StringExecFns;

verus! {

/// The error of the TOML reader, `toml::de::Error`, carried through unread.
#[verifier::external_type_specification]
#[verifier::external_body]
pub struct ExTomlError(toml::de::Error);

/// The message that the `Display` impl of `toml::de::Error` gives the error, by `to_string`.
/// Nothing is stated of the text.
#[verifier::external_body]
fn toml_error_message(e: &toml::de::Error) -> String {
    e.to_string()
}

/// A checked device description.
#[derive(Debug)]
pub struct Document {
    pub project_name: String,
    pub instruction_set: Isa,
    pub sections: Vec<Section>,
}

/// The instruction set of the device.
#[derive(Debug, Clone, Copy, PartialEq, Eq, Structural)]
pub enum Isa {
    Rv32I,
}

impl Default for Isa {
    fn default() -> (r: Self)
        ensures
            r == Isa::Rv32I,
    {
        Isa::Rv32I
    }
}

/// A memory section of the device.
#[derive(Debug)]
pub struct Section {
    pub name: String,
    pub start: u32,
    pub end: u32,
    pub access: SectionAccessPolicy,
    pub driver: Driver,
    pub caching: Option<SectionCaching>,
}

/// Whether a section may be read, written and executed.
#[derive(Debug, Clone, Copy, PartialEq, Eq, Structural)]
pub struct SectionAccessPolicy {
    pub read: bool,
    pub write: bool,
    pub execute: bool,
}

impl Default for SectionAccessPolicy {
    fn default() -> (r: Self)
        ensures
            r.read && r.write && r.execute,
    {
        Self { read: true, write: true, execute: true }
    }
}

/// What backs a section: a store of bytes, a file or a process.
#[derive(Debug)]
pub enum Driver {
    Store(StoreDriver),
    File(FileDriver),
    Process(ProcessDriver),
}

/// A store of bytes.
#[derive(Debug)]
pub struct StoreDriver {
    pub initialization: StoreInitialization,
    pub allocate: StoreAllocationKind,
    pub format: BackingFileFormat,
}

impl StoreDriver {
    /// How the store is filled at first.
    pub fn initialization(&self) -> (r: &StoreInitialization)
        ensures
            *r == self.initialization,
    {
        &self.initialization
    }

    /// When the store allocates its memory.
    pub fn allocate(&self) -> (r: &StoreAllocationKind)
        ensures
            *r == self.allocate,
    {
        &self.allocate
    }

    /// The format of the file the store is filled from.
    pub fn format(&self) -> (r: &BackingFileFormat)
        ensures
            *r == self.format,
    {
        &self.format
    }
}

/// A section backed by a file.
#[derive(Debug)]
pub struct FileDriver {
    pub path: String,
    pub format: BackingFileFormat,
}

/// A section backed by a process.
#[derive(Debug)]
pub struct ProcessDriver {
    pub path: String,
    pub args: Option<String>,
}

/// How a store is filled at first.
#[derive(Debug)]
pub enum StoreInitialization {
    Zeroed,
    Random,
    File(String),
}

impl Default for StoreInitialization {
    fn default() -> (r: Self)
        ensures
            r is Zeroed,
    {
        StoreInitialization::Zeroed
    }
}

/// When a store allocates its memory.
#[derive(Debug, Clone, Copy, PartialEq, Eq, Structural)]
pub enum StoreAllocationKind {
    OnDemand,
    Preallocate,
}

impl Default for StoreAllocationKind {
    fn default() -> (r: Self)
        ensures
            r == StoreAllocationKind::OnDemand,
    {
        StoreAllocationKind::OnDemand
    }
}

/// The format of a file that backs a section.
#[derive(Debug, Clone, Copy, PartialEq, Eq, Structural)]
pub enum BackingFileFormat {
    Automatic,
    Elf,
    Hex,
    Binary,
    BinaryASCII,
}

impl Default for BackingFileFormat {
    fn default() -> (r: Self)
        ensures
            r == BackingFileFormat::Automatic,
    {
        BackingFileFormat::Automatic
    }
}

/// The cache of a section.
#[derive(Debug, Clone, Copy, PartialEq, Eq, Structural)]
pub struct SectionCaching {
    pub replacement: CacheReplacementPolicy,
    pub associativity: usize,
    pub sets: u32,
    pub cache_line_words: u32,
}

/// Where a cache places a line.
#[derive(Debug, Clone, Copy, PartialEq, Eq, Structural)]
pub enum CachePlacementPolicy {
    SetAssociative,
}

/// Which line a cache gives up for a new one.
#[derive(Debug, Clone, Copy, PartialEq, Eq, Structural)]
pub enum CacheReplacementPolicy {
    FirstInFirstOut,
    Random,
}

/// Why a device description is refused.
#[derive(Debug)]
pub enum DocumentParseError {
    TomlError(toml::de::Error),
    MissingKey(String, &'static str),
    AmbigousEnd(String),
    UnknownEnd(String),
    InvalidMemoryRange(String),
    AmbigousInitialize(String),
}

/// The message of a refusal other than one of the TOML reader.
pub open spec fn error_text(e: DocumentParseError) -> Seq<char> {
    match e {
        DocumentParseError::TomlError(_) => Seq::empty(),
        DocumentParseError::MissingKey(section, key) => "Section '"@ + section@ + "' is missing key '"@ + key@ + "'"@,
        DocumentParseError::AmbigousEnd(section) => "Section '"@ + section@
            + "' has both an 'end' address and a 'size'. Please only give one."@,
        DocumentParseError::UnknownEnd(section) => "End address for section '"@ + section@
            + "' could not be calculated. Give either an 'end' address or a 'size'."@,
        DocumentParseError::InvalidMemoryRange(section) => "Memory range for section '"@ + section@
            + "' is invalid. Check that the start address is smaller than the end address."@,
        DocumentParseError::AmbigousInitialize(section) => "Driver for section '"@ + section@
            + "' has both a 'initialize_with' and 'initialize_with_file' key. Please only give one."@,
    }
}

impl DocumentParseError {
    /// The message of the refusal; one of the TOML reader keeps the reader's message.
    pub fn to_string(&self) -> (r: String)
        ensures
            !(self is TomlError) ==> r@ == error_text(*self),
    {
        match self {
            DocumentParseError::TomlError(e) => toml_error_message(e),
            DocumentParseError::MissingKey(section, key) => {
                let mut r = String::from_str("Section '");
                r.append(section.as_str());
                r.append("' is missing key '");
                r.append(key);
                r.append("'");
                r
            },
            DocumentParseError::AmbigousEnd(section) => {
                let mut r = String::from_str("Section '");
                r.append(section.as_str());
                r.append("' has both an 'end' address and a 'size'. Please only give one.");
                r
            },
            DocumentParseError::UnknownEnd(section) => {
                let mut r = String::from_str("End address for section '");
                r.append(section.as_str());
                r.append("' could not be calculated. Give either an 'end' address or a 'size'.");
                r
            },
            DocumentParseError::InvalidMemoryRange(section) => {
                let mut r = String::from_str("Memory range for section '");
                r.append(section.as_str());
                r.append("' is invalid. Check that the start address is smaller than the end address.");
                r
            },
            DocumentParseError::AmbigousInitialize(section) => {
                let mut r = String::from_str("Driver for section '");
                r.append(section.as_str());
                r.append("' has both a 'initialize_with' and 'initialize_with_file' key. Please only give one.");
                r
            },
        }
    }
}

/// A device description as read.
pub struct ConfigDocument {
    pub project_name: Option<String>,
    pub instruction_set: Isa,
    pub section: Vec<(String, ConfigSection)>,
}

/// A memory section as read: its end is given by an end address or by a size.
pub struct ConfigSection {
    pub name: Option<String>,
    pub start: u32,
    pub end: Option<u32>,
    pub size: Option<u32>,
    pub access: SectionAccessPolicy,
    pub driver: Option<ConfigDriver>,
    pub caching: Option<SectionCaching>,
}

/// A driver as read.
pub struct ConfigDriver {
    pub kind: ConfigDriverKind,
    pub path: Option<String>,
    pub allocate: StoreAllocationKind,
    pub initialize_with: Option<ConfigInitializeWith>,
    pub initialize_with_file: Option<String>,
    pub args: Option<String>,
    pub format: BackingFileFormat,
}

/// The kind of a driver as read.
#[derive(Debug, Clone, Copy, PartialEq, Eq, Structural)]
pub enum ConfigDriverKind {
    Store,
    File,
    Process,
}

impl Default for ConfigDriverKind {
    fn default() -> (r: Self)
        ensures
            r == ConfigDriverKind::Store,
    {
        ConfigDriverKind::Store
    }
}

/// How a store is filled at first, as read.
#[derive(Debug, Clone, Copy, PartialEq, Eq, Structural)]
pub enum ConfigInitializeWith {
    Zeroed,
    Random,
}

impl Default for ConfigInitializeWith {
    fn default() -> (r: Self)
        ensures
            r == ConfigInitializeWith::Zeroed,
    {
        ConfigInitializeWith::Zeroed
    }
}

impl Default for Driver {
    fn default() -> (r: Self)
        ensures
            r matches Driver::Store(s) && s.initialization is Zeroed && s.allocate == StoreAllocationKind::OnDemand
                && s.format == BackingFileFormat::Automatic,
    {
        Driver::Store(
            StoreDriver {
                initialization: StoreInitialization::Zeroed,
                allocate: StoreAllocationKind::OnDemand,
                format: BackingFileFormat::Automatic,
            },
        )
    }
}

/// The initialization named as read.
fn initialization_of(i: ConfigInitializeWith) -> (r: StoreInitialization)
    ensures
        i == ConfigInitializeWith::Zeroed ==> r is Zeroed,
        i == ConfigInitializeWith::Random ==> r is Random,
{
    match i {
        ConfigInitializeWith::Zeroed => StoreInitialization::Zeroed,
        ConfigInitializeWith::Random => StoreInitialization::Random,
    }
}

/// A copy of `s`.
fn copy_str(s: &str) -> (r: String)
    ensures
        r@ == s@,
{
    String::from_str(s)
}

/// Whether the driver as read is refused, and with what.
pub open spec fn driver_error(config: ConfigDriver, name: Seq<char>) -> Option<DocumentParseError> {
    match config.kind {
        ConfigDriverKind::Store => if config.initialize_with is Some && config.initialize_with_file is Some {
            Some(DocumentParseError::AmbigousInitialize(name_string(name)))
        } else {
            None
        },
        _ => if config.path is None {
            Some(DocumentParseError::MissingKey(name_string(name), "path"))
        } else {
            None
        },
    }
}

/// Some string holding `s`.
pub open spec fn name_string(s: Seq<char>) -> String {
    choose|t: String| t@ == s
}

/// Whether `d` is the driver checked from `config`.
pub open spec fn driver_matches(d: Driver, config: ConfigDriver) -> bool {
    match config.kind {
        ConfigDriverKind::Store => d matches Driver::Store(s) && s.allocate == config.allocate && s.format
            == config.format && match (config.initialize_with, config.initialize_with_file) {
            (Some(ConfigInitializeWith::Zeroed), _) => s.initialization is Zeroed,
            (Some(ConfigInitializeWith::Random), _) => s.initialization is Random,
            (None, Some(f)) => s.initialization matches StoreInitialization::File(g) && g@ == f@,
            (None, None) => s.initialization is Zeroed,
        },
        ConfigDriverKind::File => d matches Driver::File(f) && f.path@ == config.path->0@ && f.format == config.format,
        ConfigDriverKind::Process => d matches Driver::Process(p) && p.path@ == config.path->0@ && p.args
            == config.args,
    }
}

/// Whether two refusals are the same, their names compared by text.
pub open spec fn same_error(a: DocumentParseError, b: DocumentParseError) -> bool {
    match (a, b) {
        (DocumentParseError::MissingKey(s, k), DocumentParseError::MissingKey(t, l)) => s@ == t@ && k@ == l@,
        (DocumentParseError::AmbigousEnd(s), DocumentParseError::AmbigousEnd(t)) => s@ == t@,
        (DocumentParseError::UnknownEnd(s), DocumentParseError::UnknownEnd(t)) => s@ == t@,
        (DocumentParseError::InvalidMemoryRange(s), DocumentParseError::InvalidMemoryRange(t)) => s@ == t@,
        (DocumentParseError::AmbigousInitialize(s), DocumentParseError::AmbigousInitialize(t)) => s@ == t@,
        _ => false,
    }
}

impl Driver {
    /// The driver checked from the one read: a store may be filled from a mode or from a file,
    /// not both; a file or a process needs a path.
    pub fn try_from_with_name(config: ConfigDriver, name: &str) -> (r: Result<Driver, DocumentParseError>)
        ensures
            match driver_error(config, name@) {
                Some(e) => r matches Err(f) && same_error(e, f),
                None => r matches Ok(d) && driver_matches(d, config),
            },
    {
        match config.kind {
            ConfigDriverKind::Store => {
                let initialization = match (config.initialize_with, config.initialize_with_file) {
                    (Some(_), Some(_)) => {
                        return Err(DocumentParseError::AmbigousInitialize(copy_str(name)));
                    },
                    (None, None) => StoreInitialization::default(),
                    (Some(i), _) => initialization_of(i),
                    (_, Some(i)) => StoreInitialization::File(i),
                };
                Ok(
                    Driver::Store(
                        StoreDriver { initialization, allocate: config.allocate, format: config.format },
                    ),
                )
            },
            ConfigDriverKind::File => match config.path {
                Some(path) => Ok(Driver::File(FileDriver { path, format: config.format })),
                None => Err(DocumentParseError::MissingKey(copy_str(name), "path")),
            },
            ConfigDriverKind::Process => match config.path {
                Some(path) => Ok(Driver::Process(ProcessDriver { path, args: config.args })),
                None => Err(DocumentParseError::MissingKey(copy_str(name), "path")),
            },
        }
    }
}

/// The end address of the section as read, or why there is none.
pub open spec fn section_end(config: ConfigSection) -> Result<u32, u8> {
    match (config.end, config.size) {
        (Some(_), Some(_)) => Err(0),
        (Some(end), _) => Ok(end),
        (_, Some(size)) => Ok((config.start + size) as u32),
        (None, None) => Err(1),
    }
}

/// Whether the section as read is refused, and with what.
pub open spec fn section_error(config: ConfigSection, name: Seq<char>) -> Option<DocumentParseError> {
    match section_end(config) {
        Err(0) => Some(DocumentParseError::AmbigousEnd(name_string(name))),
        Err(_) => Some(DocumentParseError::UnknownEnd(name_string(name))),
        Ok(end) => if config.start >= end {
            Some(DocumentParseError::InvalidMemoryRange(name_string(name)))
        } else {
            let shown = match config.name {
                Some(n) => n@,
                None => name,
            };
            match config.driver {
                Some(d) => driver_error(d, shown),
                None => None,
            }
        },
    }
}

/// Whether `s` is the section checked from `config`, read under the name `name`.
pub open spec fn section_matches(s: Section, config: ConfigSection, name: Seq<char>) -> bool {
    &&& s.name@ == match config.name {
        Some(n) => n@,
        None => name,
    }
    &&& s.start == config.start
    &&& section_end(config) == Ok::<u32, u8>(s.end)
    &&& s.access == config.access
    &&& s.caching == config.caching
    &&& match config.driver {
        Some(d) => driver_matches(s.driver, d),
        None => s.driver matches Driver::Store(st) && st.initialization is Zeroed && st.allocate
            == StoreAllocationKind::OnDemand && st.format == BackingFileFormat::Automatic,
    }
}

impl Section {
    /// The section checked from the one read under the name `name`: its end is given by an end
    /// address or by a size, not both, and lies behind its start; a name in the section replaces
    /// `name`.
    pub fn from_config_with_name(config: ConfigSection, name: String) -> (r: Result<Section, DocumentParseError>)
        requires
            config.end is None && config.size is Some ==> config.start + config.size->0 <= u32::MAX,
        ensures
            match section_error(config, name@) {
                Some(e) => r matches Err(f) && same_error(e, f),
                None => r matches Ok(s) && section_matches(s, config, name@),
            },
    {
        let start = config.start;
        let end = match (config.end, config.size) {
            (Some(_), Some(_)) => {
                return Err(DocumentParseError::AmbigousEnd(name));
            },
            (Some(end), _) => end,
            (_, Some(size)) => start + size,
            (None, None) => {
                return Err(DocumentParseError::UnknownEnd(name));
            },
        };
        if start >= end {
            return Err(DocumentParseError::InvalidMemoryRange(name));
        }
        let name = match config.name {
            Some(n) => n,
            None => name,
        };
        let access = config.access;
        let driver = match config.driver {
            Some(driver) => Driver::try_from_with_name(driver, name.as_str())?,
            None => Driver::default(),
        };
        let caching = config.caching;
        Ok(Section { name, start, end, access, driver, caching })
    }

    /// The first address.
    pub fn start(&self) -> (r: u32)
        ensures
            r == self.start,
    {
        self.start
    }

    /// The address behind the last one.
    pub fn end(&self) -> (r: u32)
        ensures
            r == self.end,
    {
        self.end
    }

    /// The addresses of the section.
    pub fn range(&self) -> (r: std::ops::Range<u32>)
        ensures
            r.start == self.start,
            r.end == self.end,
    {
        self.start..self.end
    }

    /// Who may read, write and execute the section.
    pub fn access_policy(&self) -> (r: &SectionAccessPolicy)
        ensures
            *r == self.access,
    {
        &self.access
    }

    /// The number of addresses between start and end.
    pub fn size(&self) -> (r: u32)
        ensures
            r == if self.end >= self.start {
                self.end - self.start
            } else {
                self.start - self.end
            },
    {
        if self.end >= self.start {
            self.end - self.start
        } else {
            self.start - self.end
        }
    }

    /// What backs the section.
    pub fn driver(&self) -> (r: &Driver)
        ensures
            *r == self.driver,
    {
        &self.driver
    }

    /// The cache of the section, if it has one.
    pub fn cache(&self) -> (r: Option<&SectionCaching>)
        ensures
            r == match self.caching {
                Some(c) => Some(&c),
                None => None::<&SectionCaching>,
            },
    {
        self.caching.as_ref()
    }
}

/// The first refusal among the sections from `k` on, in order.
pub open spec fn first_section_error(sections: Seq<(String, ConfigSection)>, k: int) -> Option<DocumentParseError>
    decreases sections.len() - k,
{
    if k < 0 || k >= sections.len() {
        None
    } else {
        match section_error(sections[k].1, sections[k].0@) {
            Some(e) => Some(e),
            None => first_section_error(sections, k + 1),
        }
    }
}

impl Document {
    /// The device description checked from the one read: each section is checked in order, and
    /// the first refusal is the answer. Without a project name, the name is empty.
    pub fn try_from(config: ConfigDocument) -> (r: Result<Document, DocumentParseError>)
        requires
            forall|i: int|
                0 <= i < config.section@.len() ==> {
                    let c = #[trigger] config.section@[i].1;
                    c.end is None && c.size is Some ==> c.start + c.size->0 <= u32::MAX
                },
        ensures
            match first_section_error(config.section@, 0) {
                Some(e) => r matches Err(f) && same_error(e, f),
                None => r matches Ok(d) && d.instruction_set == config.instruction_set && d.project_name@
                    == match config.project_name {
                    Some(n) => n@,
                    None => Seq::<char>::empty(),
                } && d.sections@.len() == config.section@.len() && forall|i: int|
                    0 <= i < d.sections@.len() ==> section_matches(
                        #[trigger] d.sections@[i],
                        config.section@[i].1,
                        config.section@[i].0@,
                    ),
            },
    {
        let ghost all = config.section@;
        let mut sections: Vec<Section> = Vec::new();
        let mut remaining = config.section;
        let n = remaining.len();
        proof {
            assert(remaining@ =~= all.subrange(0, n as int));
        }
        while remaining.len() > 0
            invariant
                n == all.len(),
                all == config.section@,
                remaining@.len() + sections@.len() == n,
                remaining@ =~= all.subrange(sections@.len() as int, n as int),
                first_section_error(all, 0) == first_section_error(all, sections@.len() as int),
                forall|i: int|
                    0 <= i < all.len() ==> {
                        let c = #[trigger] all[i].1;
                        c.end is None && c.size is Some ==> c.start + c.size->0 <= u32::MAX
                    },
                forall|i: int|
                    0 <= i < sections@.len() ==> section_matches(#[trigger] sections@[i], all[i].1, all[i].0@),
            decreases remaining@.len(),
        {
            let ghost k = sections@.len() as int;
            let (name, section) = remaining.remove(0);
            proof {
                assert(all[k] == (name, section));
            }
            let checked = Section::from_config_with_name(section, name);
            match checked {
                Ok(s) => {
                    sections.push(s);
                },
                Err(e) => {
                    proof {
                        assert(section_error(all[k].1, all[k].0@) is Some);
                        assert(first_section_error(all, k) == section_error(all[k].1, all[k].0@));
                        assert(same_error(section_error(all[k].1, all[k].0@)->0, e));
                    }
                    return Err(e);
                },
            }
        }
        let project_name = match config.project_name {
            Some(n) => n,
            None => String::new(),
        };
        Ok(Document { project_name, instruction_set: config.instruction_set, sections })
    }

    /// The sections.
    pub fn take_sections(self) -> (r: Vec<Section>)
        ensures
            r == self.sections,
    {
        self.sections
    }
}

} // verus!
