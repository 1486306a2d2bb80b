//! The sections of a device ordered by their start address, none sharing an address with the
//! next; a section may start where the one before it ends.
use vstd::prelude::*;

use vstd::string::StrSliceExecFns;

use super::device_config::{
    CacheReplacementPolicy, Driver, Section, SectionCaching, StoreAllocationKind, StoreInitialization,
};
use super::memory::MemoryPermissions;
use crate::kiwi::to_result::str_eq;
use crate::kiwi::raw::{is_stable_sort, stable_sort};

verus! {

/// The sections of a device, by ascending start address.
pub struct OrderedSections(Vec<Section>);

/// The sort keys of the sections: their start addresses.
pub open spec fn start_keys(sections: Seq<Section>) -> Seq<(u32, u32)> {
    sections.map_values(|s: Section| (s.start, 0u32))
}

/// Whether two sections, each the addresses from its start up to but not including its end, share
/// an address.
pub open spec fn overlap(a: Section, b: Section) -> bool {
    (if a.start >= b.start { a.start } else { b.start }) < (if a.end <= b.end { a.end } else { b.end })
}

/// Whether the address `addr` lies in the section: from its start up to but not including its end.
pub open spec fn in_section(s: Section, addr: int) -> bool {
    s.start <= addr < s.end
}

/// Two sections overlap exactly when some address lies in both: sections that only touch, one
/// starting where the other ends, do not.
pub proof fn law_overlap_shares_address(a: Section, b: Section)
    ensures
        overlap(a, b) == exists|addr: int| #[trigger] in_section(a, addr) && in_section(b, addr),
{
    let low = if a.start >= b.start { a.start } else { b.start };
    if overlap(a, b) {
        assert(in_section(a, low as int) && in_section(b, low as int));
    }
}

/// Whether no section overlaps the next one.
pub open spec fn apart(sections: Seq<Section>) -> bool {
    forall|i: int| 0 <= i < sections.len() - 1 ==> !overlap(#[trigger] sections[i], sections[i + 1])
}

impl OrderedSections {
    /// The sections, in order.
    pub closed spec fn sections(&self) -> Seq<Section> {
        self.0@
    }

    /// The sections sorted by their start address, those with the same start keeping their order;
    /// refused where a section overlaps the next one.
    pub fn new(sections: Vec<Section>) -> (r: Result<Self, ()>)
        ensures
            exists|sorted: Seq<Section>, idx: Seq<int>|
                #![trigger is_stable_sort(sections@, start_keys(sections@), sorted, idx)]
                is_stable_sort(sections@, start_keys(sections@), sorted, idx) && match r {
                    Ok(o) => o.sections() == sorted && apart(sorted),
                    Err(_) => !apart(sorted),
                },
    {
        let ghost input = sections@;
        let mut keys: Vec<(u32, u32)> = Vec::new();
        let mut i: usize = 0;
        while i < sections.len()
            invariant
                i <= sections@.len(),
                keys@ == start_keys(sections@).take(i as int),
            decreases sections@.len() - i,
        {
            keys.push((sections[i].start, 0));
            proof {
                assert(keys@ =~= start_keys(sections@).take(i + 1));
            }
            i = i + 1;
        }
        proof {
            assert(keys@ =~= start_keys(sections@));
        }
        let sorted = stable_sort(sections, keys);
        let ghost idx = choose|idx: Seq<int>| is_stable_sort(input, start_keys(input), sorted@, idx);
        let n = sorted.len();
        let mut j: usize = 0;
        while n > 0 && j < n - 1
            invariant
                n == sorted@.len(),
                j < n || n == 0,
                input == sections@,
                is_stable_sort(input, start_keys(input), sorted@, idx),
                forall|k: int| 0 <= k < j ==> !overlap(#[trigger] sorted@[k], sorted@[k + 1]),
            decreases n - j,
        {
            let a = &sorted[j];
            let b = &sorted[j + 1];
            let low = if a.start >= b.start { a.start } else { b.start };
            let high = if a.end <= b.end { a.end } else { b.end };
            if low < high {
                proof {
                    assert(overlap(sorted@[j as int], sorted@[j + 1]));
                    assert(is_stable_sort(sections@, start_keys(sections@), sorted@, idx));
                }
                return Err(());
            }
            j = j + 1;
        }
        let r = OrderedSections(sorted);
        proof {
            assert(is_stable_sort(sections@, start_keys(sections@), r.sections(), idx));
        }
        Ok(r)
    }
}

/// The store that backs a section.
#[derive(Debug, Clone, Copy, PartialEq, Eq, Structural)]
pub enum StorePlan {
    /// Blocks allocated when first written.
    DynamicArray,
    /// All bytes allocated at once.
    StaticArray,
}

/// How a store is filled at first.
#[derive(Debug, Clone, PartialEq, Eq)]
pub enum InitPlan {
    /// With zeros.
    Zeroed,
    /// With random bytes, over the whole section.
    Random,
    /// With the contents of the file at `path`: where `elf_text` holds, the `.text` section of
    /// that ELF file, else all its bytes.
    FromFile { path: String, elf_text: bool },
}

/// What backs a section.
#[derive(Debug, Clone, PartialEq, Eq)]
pub enum DriverPlan {
    /// A store, filled at first as `init` says.
    Store { store: StorePlan, init: InitPlan },
    /// The process started from the program at `path`.
    Process { path: String },
}

/// How the memory of one section is set up.
#[derive(Debug, Clone, PartialEq, Eq)]
pub struct RegionPlan {
    /// The address up to which the memory is skipped before the region, if any.
    pub skip_to: Option<u32>,
    /// The number of bytes of the region.
    pub size: u32,
    /// Who may read, write and execute.
    pub permissions: MemoryPermissions,
    /// What backs the region.
    pub driver: DriverPlan,
    /// The associativity, the number of sets and the words per line of its FIFO cache, if any.
    pub cache: Option<(usize, usize, usize)>,
}

/// Whether the memory of a section can be set up: a random initialization needs a preallocated
/// store, a file driver is not supported, and a cache must replace first in, first out.
pub open spec fn plannable(section: Section) -> bool {
    &&& match section.driver {
        Driver::Store(store) => store.initialization is Random ==> store.allocate is Preallocate,
        Driver::File(_) => false,
        Driver::Process(_) => true,
    }
    &&& section.caching matches Some(c) ==> c.replacement is FirstInFirstOut
}

/// The size of a section: the distance between its start and its end.
pub open spec fn section_size(section: Section) -> u32 {
    if section.end >= section.start {
        (section.end - section.start) as u32
    } else {
        (section.start - section.end) as u32
    }
}

/// Whether `plan` sets up the memory of `section` (placed after a region that ends at 0, so that
/// the memory is skipped up to every section that does not start at 0).
pub open spec fn plans(plan: RegionPlan, section: Section) -> bool {
    &&& plan.skip_to == if section.start != 0 { Some(section.start) } else { None }
    &&& plan.size == section_size(section)
    &&& plan.permissions == MemoryPermissions {
        read: section.access.read,
        write: section.access.write,
        execute: section.access.execute,
    }
    &&& plan.cache == match section.caching {
        Some(c) => Some((c.associativity, c.sets as usize, c.cache_line_words as usize)),
        None => None,
    }
    &&& match section.driver {
        Driver::Store(store) => plan.driver matches DriverPlan::Store { store: p, init } && p == (
        match store.allocate {
            StoreAllocationKind::OnDemand => StorePlan::DynamicArray,
            StoreAllocationKind::Preallocate => StorePlan::StaticArray,
        }) && match store.initialization {
            StoreInitialization::Zeroed => init is Zeroed,
            StoreInitialization::Random => init is Random,
            StoreInitialization::File(path) => init matches InitPlan::FromFile { path: q, elf_text } && if path@.len()
                >= 4 && path@.subrange(0, 4) == "elf:"@ {
                elf_text && q@ == path@.subrange(4, path@.len() as int)
            } else {
                !elf_text && q@ == path@
            },
        },
        Driver::Process(p) => plan.driver matches DriverPlan::Process { path } && path@ == p.path@,
        Driver::File(_) => false,
    }
}

/// The file named by the path of a file initialization: after an `elf:` prefix, the `.text`
/// section of that ELF file.
fn file_init_plan(path: &String) -> (r: InitPlan)
    ensures
        r matches InitPlan::FromFile { path: q, elf_text } && if path@.len() >= 4 && path@.subrange(0, 4) == "elf:"@ {
            elf_text && q@ == path@.subrange(4, path@.len() as int)
        } else {
            !elf_text && q@ == path@
        },
{
    let s = path.as_str();
    let n = s.unicode_len();
    proof {
        reveal_strlit("elf:");
    }
    if n >= 4 && str_eq(s.substring_char(0, 4), "elf:") {
        InitPlan::FromFile { path: s.substring_char(4, n).to_string(), elf_text: true }
    } else {
        InitPlan::FromFile { path: path.clone(), elf_text: false }
    }
}

impl OrderedSections {
    /// How the memory of each section is set up, in the order of the sections.
    pub fn plan_memory(&self) -> (r: Vec<RegionPlan>)
        requires
            forall|i: int| 0 <= i < self.sections().len() ==> plannable(#[trigger] self.sections()[i]),
        ensures
            r@.len() == self.sections().len(),
            forall|i: int| 0 <= i < r@.len() ==> plans(#[trigger] r@[i], self.sections()[i]),
    {
        let mut plans_so_far: Vec<RegionPlan> = Vec::new();
        let mut i: usize = 0;
        while i < self.0.len()
            invariant
                i <= self.sections().len(),
                forall|k: int| 0 <= k < self.sections().len() ==> plannable(#[trigger] self.sections()[k]),
                plans_so_far@.len() == i,
                forall|k: int| 0 <= k < i ==> plans(#[trigger] plans_so_far@[k], self.sections()[k]),
            decreases self.sections().len() - i,
        {
            let section = &self.0[i];
            assert(plannable(self.sections()[i as int]));
            let driver = match &section.driver {
                Driver::Store(store) => {
                    let kind = match store.allocate {
                        StoreAllocationKind::OnDemand => StorePlan::DynamicArray,
                        StoreAllocationKind::Preallocate => StorePlan::StaticArray,
                    };
                    let init = match &store.initialization {
                        StoreInitialization::Zeroed => InitPlan::Zeroed,
                        StoreInitialization::Random => InitPlan::Random,
                        StoreInitialization::File(path) => file_init_plan(path),
                    };
                    DriverPlan::Store { store: kind, init }
                },
                Driver::Process(p) => DriverPlan::Process { path: p.path.clone() },
                Driver::File(_) => {
                    assert(false);
                    DriverPlan::Process { path: String::new() }
                },
            };
            let cache = match &section.caching {
                Some(c) => Some((c.associativity, c.sets as usize, c.cache_line_words as usize)),
                None => None,
            };
            let plan = RegionPlan {
                skip_to: if section.start != 0 { Some(section.start) } else { None },
                size: section.size(),
                permissions: MemoryPermissions {
                    read: section.access.read,
                    write: section.access.write,
                    execute: section.access.execute,
                },
                driver,
                cache,
            };
            plans_so_far.push(plan);
            i = i + 1;
        }
        plans_so_far
    }
}

/// Whether contents of `len` bytes fit a section of `size` bytes; the length is cut to 32 bits
/// before it is compared.
pub open spec fn contents_fit(len: usize, size: u32) -> bool {
    (len as u32) <= size
}

/// Whether contents of `len` bytes fit a section of `size` bytes, the length cut to 32 bits.
pub fn contents_fit_section(len: usize, size: u32) -> (r: bool)
    ensures
        r == contents_fit(len, size),
{
    let cut: u32 = #[verifier::truncate] (len as u32);
    cut <= size
}

} // verus!
