//! Program memory as sorted intervals of bytes, each tracking its initial content.
//!
//! There are never two intervals that cover the same address, and neighbouring intervals are
//! merged. The intervals are those of a segment tree; this module adds the ordering of an address
//! against an interval and the export of all intervals as memory ranges.
use vstd::prelude::*;

use crate::segment_tree::{Segment, SegmentTree, placed_bytes};

verus! {

/// An interval of memory with its current and initial content.
pub type IntervalTreeItem = Segment;

/// Ordering between an index and a [`IntervalTreeItem`] range
#[derive(Debug, Clone, Copy, PartialEq, Eq, Structural)]
pub enum IntervalIdxOrdering {
    /// Ordering given when `idx < range.start`
    Less,
    /// Ordering given when `idx >= range.start && idx < range.end`
    Contains,
    /// Ordering given when `idx >= range.end`
    Greater,
}

impl Segment {
    /// Compare the `idx` to the item range
    pub fn idx_cmp(&self, idx: u32) -> (r: IntervalIdxOrdering)
        requires
            self.wf(),
        ensures
            r == if idx < self.start_spec() {
                IntervalIdxOrdering::Less
            } else if idx >= self.end_spec() {
                IntervalIdxOrdering::Greater
            } else {
                IntervalIdxOrdering::Contains
            },
    {
        if idx < self.start() {
            IntervalIdxOrdering::Less
        } else if idx >= self.end() {
            IntervalIdxOrdering::Greater
        } else {
            IntervalIdxOrdering::Contains
        }
    }
}

/// Memory as sorted intervals of bytes.
pub struct IntervalTree {
    tree: SegmentTree,
}

/// Ranges of memory with their bytes, stored one after the other.
pub struct MemoryRanges {
    starts: Vec<u32>,
    data_starts: Vec<usize>,
    data: Vec<u8>,
}

/// The ranges of a [`MemoryRanges`], one after the other.
pub struct MemoryRangesIter<'a> {
    idx: usize,
    inner: &'a MemoryRanges,
}

impl MemoryRanges {
    /// Where the bytes of range `i` end.
    pub closed spec fn data_end(&self, i: int) -> int {
        if i + 1 < self.data_starts@.len() {
            self.data_starts@[i + 1] as int
        } else {
            self.data@.len() as int
        }
    }

    /// The ranges: their start addresses and their bytes.
    pub closed spec fn ranges(&self) -> Seq<(u32, Seq<u8>)> {
        Seq::new(
            self.starts@.len(),
            |i: int| (self.starts@[i], self.data@.subrange(self.data_starts@[i] as int, self.data_end(i))),
        )
    }

    /// There is a start of the bytes for each range; they are sorted, the first is zero (there are
    /// no bytes without a range), and each range ends at or before the end of the address space.
    pub closed spec fn wf(&self) -> bool {
        &&& self.starts@.len() == self.data_starts@.len()
        &&& self.starts@.len() > 0 ==> self.data_starts@[0] == 0
        &&& self.starts@.len() == 0 ==> self.data@.len() == 0
        &&& forall|i: int, j: int|
            0 <= i <= j < self.data_starts@.len() ==> self.data_starts@[i] <= self.data_starts@[j]
        &&& forall|i: int| 0 <= i < self.data_starts@.len() ==> self.data_starts@[i] <= self.data@.len()
        &&& forall|i: int|
            0 <= i < self.starts@.len() ==> self.starts@[i] + (self.data_end(i) - self.data_starts@[i])
                <= u32::MAX
    }

    /// The number of ranges.
    pub fn len(&self) -> (n: usize)
        requires
            self.wf(),
        ensures
            n == self.ranges().len(),
    {
        self.starts.len()
    }

    /// An iterator over the ranges, from the first.
    pub fn iter(&self) -> (it: MemoryRangesIter<'_>)
        ensures
            it.position() == 0,
            it.ranges() == self,
    {
        MemoryRangesIter { idx: 0, inner: self }
    }
}

impl<'a> MemoryRangesIter<'a> {
    /// The index of the range that comes next.
    pub closed spec fn position(&self) -> int {
        self.idx as int
    }

    /// The ranges iterated over.
    pub closed spec fn ranges(&self) -> &'a MemoryRanges {
        self.inner
    }

    /// The next range, as its addresses and its bytes, or `None` after the last.
    pub fn next(&mut self) -> (r: Option<(std::ops::Range<u32>, &'a [u8])>)
        requires
            old(self).ranges().wf(),
        ensures
            final(self).ranges() == old(self).ranges(),
            old(self).position() >= old(self).ranges().ranges().len() ==> r is None && final(self).position()
                == old(self).position(),
            old(self).position() < old(self).ranges().ranges().len() ==> ({
                let (start, bytes) = old(self).ranges().ranges()[old(self).position()];
                &&& r matches Some((range, slice)) && range.start == start && range.end == start
                    + bytes.len() && slice@ == bytes
                &&& final(self).position() == old(self).position() + 1
            }),
    {
        let idx = self.idx;
        if idx >= self.inner.starts.len() {
            return None;
        }
        let start = self.inner.starts[idx];
        let data_start = self.inner.data_starts[idx];
        let data_end = if idx + 1 < self.inner.data_starts.len() {
            self.inner.data_starts[idx + 1]
        } else {
            self.inner.data.len()
        };
        proof {
            assert(self.inner.wf());
            assert(self.inner.data_starts@[idx as int] <= self.inner.data@.len());
            if idx + 1 < self.inner.data_starts@.len() {
                assert(self.inner.data_starts@[idx as int] <= self.inner.data_starts@[idx + 1]);
            }
            assert(self.inner.data_end(idx as int) == data_end);
            assert(start + (data_end - data_start) <= u32::MAX);
        }
        let len = (data_end - data_start) as u32;
        self.idx = idx + 1;
        let bytes = vstd::slice::slice_subrange(self.inner.data.as_slice(), data_start, data_end);
        Some((start..start + len, bytes))
    }
}

impl IntervalTree {
    /// The intervals, by ascending address.
    pub closed spec fn intervals(&self) -> Seq<Segment> {
        self.tree.segments_spec()
    }

    /// The current value of every initialized address.
    pub closed spec fn memory(&self) -> Map<u32, u8> {
        self.tree.memory()
    }

    /// The value that every initialized address got when it was first assigned.
    pub closed spec fn initial_memory(&self) -> Map<u32, u8> {
        self.tree.initial_memory()
    }

    /// The intervals are sorted, non-empty and apart.
    pub closed spec fn wf(&self) -> bool {
        self.tree.wf()
    }

    /// The segment tree that holds the intervals.
    pub closed spec fn segment_tree(&self) -> SegmentTree {
        self.tree
    }

    /// The intervals, the memory and the well-formedness of an interval tree are the segments,
    /// the memory and the well-formedness of its segment tree: each interval is a segment, and the
    /// memory is what the segments hold.
    pub proof fn lemma_intervals_are_segments(&self)
        ensures
            self.intervals() == self.segment_tree().segments_spec(),
            self.memory() == self.segment_tree().memory(),
            self.initial_memory() == self.segment_tree().initial_memory(),
            self.wf() == self.segment_tree().wf(),
    {
    }

    /// The index of the interval that covers `addr`; or else the index at which an interval
    /// covering it would be inserted.
    fn internal_binary_search_interval(&self, addr: u32) -> (r: Result<usize, usize>)
        requires
            self.wf(),
        ensures
            r matches Ok(i) ==> self.tree.covers(i as int, addr as int),
            r matches Err(i) ==> self.tree.is_gap_at(i as int, addr as int),
    {
        self.tree.internal_segment_search(addr)
    }

    /// The interval that covers `addr`, with its index; or else the insertion index.
    fn binary_search_interval(&self, addr: u32) -> (r: Result<(&IntervalTreeItem, usize), usize>)
        requires
            self.wf(),
        ensures
            r matches Ok((item, i)) ==> self.tree.covers(i as int, addr as int) && *item == self.intervals()[i as int],
            r matches Err(i) ==> self.tree.is_gap_at(i as int, addr as int),
    {
        match self.internal_binary_search_interval(addr) {
            Ok(i) => Ok((self.tree.segment_at(i), i)),
            Err(i) => Err(i),
        }
    }

    /// An empty tree.
    pub fn new() -> (tree: Self)
        ensures
            tree.wf(),
            tree.memory() == Map::<u32, u8>::empty(),
            tree.initial_memory() == Map::<u32, u8>::empty(),
    {
        IntervalTree { tree: SegmentTree::new() }
    }

    /// The number of intervals.
    pub fn num_intervals(&self) -> (n: usize)
        ensures
            n == self.intervals().len(),
    {
        self.tree.num_segments()
    }

    /// The current value at `idx`, if it is initialized.
    pub fn get(&self, idx: u32) -> (value: Option<u8>)
        requires
            self.wf(),
        ensures
            value == if self.memory().contains_key(idx) {
                Some(self.memory()[idx])
            } else {
                None
            },
    {
        self.tree.get(idx)
    }

    /// A mutable reference to the current value at `idx`, if it is initialized.
    pub fn get_mut(&mut self, idx: u32) -> (value: Option<&mut u8>)
        requires
            old(self).wf(),
        ensures
            old(self).memory().contains_key(idx) ==> value is Some && *value->0 == old(self).memory()[idx]
                && final(self).wf() && final(self).memory() == old(self).memory().insert(idx, *final(value->0))
                && final(self).initial_memory() == old(self).initial_memory(),
            !old(self).memory().contains_key(idx) ==> value is None && *final(self) == *old(self),
    {
        self.tree.get_mut(idx)
    }

    /// Initialize or set the memory at `idx` to `value`. Returns the index of the interval that
    /// holds `idx`.
    pub fn insert(&mut self, idx: u32, value: u8) -> (r: usize)
        requires
            old(self).wf(),
            idx < u32::MAX,
        ensures
            final(self).wf(),
            r < final(self).intervals().len(),
            final(self).memory() == old(self).memory().insert(idx, value),
            final(self).initial_memory() == if old(self).memory().contains_key(idx) {
                old(self).initial_memory()
            } else {
                old(self).initial_memory().insert(idx, value)
            },
    {
        self.tree.insert(idx, value)
    }

    /// Fill `buffer` with memory from the interval tree starting at the `start` address. Fails,
    /// leaving `buffer` as it is, if it needs to copy memory that is not initialized.
    pub fn get_range(&self, start: u32, buffer: &mut [u8]) -> (r: Result<(), ()>)
        requires
            self.wf(),
            old(buffer)@.len() <= u32::MAX,
        ensures
            final(buffer)@.len() == old(buffer)@.len(),
            r is Ok <==> forall|a: u32|
                start <= a < start + old(buffer)@.len() ==> #[trigger] self.memory().contains_key(a),
            r is Ok ==> forall|i: int|
                0 <= i < old(buffer)@.len() ==> #[trigger] final(buffer)@[i] == self.memory()[(start + i) as u32],
            r is Err ==> final(buffer)@ == old(buffer)@,
    {
        let r = self.tree.get_range(start, buffer);
        proof {
            assert(self.memory() == self.tree.memory());
            if r is Ok {
                assert forall|a: u32| start <= a < start + old(buffer)@.len() implies #[trigger] self.memory().contains_key(a) by {
                    assert(self.tree.memory().contains_key(a));
                }
            } else {
                let a = choose|a: u32| start <= a < start + old(buffer)@.len() && !#[trigger] self.tree.memory().contains_key(a);
                assert(!self.memory().contains_key(a));
            }
        }
        r
    }

    /// Whether the memory at `idx` is initialized.
    pub fn contains(&self, idx: u32) -> (b: bool)
        requires
            self.wf(),
        ensures
            b == self.memory().contains_key(idx),
    {
        match self.binary_search_interval(idx) {
            Ok((_, i)) => {
                proof {
                    self.tree.lemma_memory_at(i as int, idx);
                }
                true
            },
            Err(i) => {
                proof {
                    self.tree.lemma_gap_not_covered(i as int, idx as int);
                }
                false
            },
        }
    }

    /// Whether the memory at every address of `range` is initialized.
    pub fn contains_range(&self, range: std::ops::Range<u32>) -> (b: bool)
        requires
            self.wf(),
        ensures
            b == forall|a: u32| range.start <= a < range.end ==> #[trigger] self.memory().contains_key(a),
    {
        let b = self.tree.contains_range(range);
        proof {
            assert(self.memory() == self.tree.memory());
            if b {
                assert forall|a: u32| range.start <= a < range.end implies #[trigger] self.memory().contains_key(a) by {
                    assert(self.tree.memory().contains_key(a));
                }
            } else {
                let a = choose|a: u32| range.start <= a < range.end && !#[trigger] self.tree.memory().contains_key(a);
                assert(!self.memory().contains_key(a));
            }
        }
        b
    }

    /// Write `buffer` to the memory from address `start` on, initializing the addresses that are
    /// not yet initialized with the byte written.
    pub fn fill_range(&mut self, start: u32, buffer: &[u8])
        requires
            old(self).wf(),
            buffer@.len() == 0 || start + buffer@.len() <= u32::MAX,
        ensures
            final(self).wf(),
            final(self).memory() == old(self).memory().union_prefer_right(placed_bytes(start, buffer@)),
            final(self).initial_memory() == placed_bytes(start, buffer@).union_prefer_right(
                old(self).initial_memory(),
            ),
    {
        self.tree.fill_range(start, buffer)
    }

    /// Ensure that the `range` is initialized, filling all uninitialized memory by calling `f`.
    ///
    /// Note: `f` is not necessarily called in the order of the memory addresses.
    pub fn initialize_fill<F: FnMut() -> u8>(&mut self, range: std::ops::Range<u32>, f: F)
        requires
            old(self).wf(),
            call_requires(f, ()),
        ensures
            final(self).wf(),
            final(self).memory().dom() == old(self).memory().dom().union(
                Set::new(|a: u32| range.start <= a < range.end),
            ),
            forall|a: u32| #[trigger]
                old(self).memory().contains_key(a) ==> final(self).memory()[a] == old(self).memory()[a]
                    && final(self).initial_memory()[a] == old(self).initial_memory()[a],
            forall|a: u32| #[trigger]
                final(self).memory().contains_key(a) && !old(self).memory().contains_key(a)
                    ==> final(self).memory()[a] == final(self).initial_memory()[a],
            forall|a: u32| #[trigger]
                final(self).memory().contains_key(a) && !old(self).memory().contains_key(a)
                    ==> call_ensures(f, (), final(self).memory()[a]),
    {
        self.tree.initialize_fill(range, f)
    }

    /// The ranges of the intervals with the values that their addresses got when they were first
    /// assigned.
    pub fn initial(&self) -> (r: MemoryRanges)
        requires
            self.wf(),
        ensures
            r.wf(),
            r.ranges() == self.intervals().map_values(|s: Segment| (s.start_spec(), s.initial_spec())),
    {
        self.collect(true)
    }

    /// The ranges of the intervals with their current values.
    pub fn content(&self) -> (r: MemoryRanges)
        requires
            self.wf(),
        ensures
            r.wf(),
            r.ranges() == self.intervals().map_values(|s: Segment| (s.start_spec(), s.content_spec())),
    {
        self.collect(false)
    }

    /// The ranges of the intervals, with their initial or their current values.
    fn collect(&self, initial: bool) -> (r: MemoryRanges)
        requires
            self.wf(),
        ensures
            r.wf(),
            r.ranges() == self.intervals().map_values(
                |s: Segment| (s.start_spec(), if initial { s.initial_spec() } else { s.content_spec() }),
            ),
    {
        let ghost want = self.intervals().map_values(
            |s: Segment| (s.start_spec(), if initial { s.initial_spec() } else { s.content_spec() }),
        );
        let n = self.tree.num_segments();
        let mut starts: Vec<u32> = Vec::new();
        let mut data_starts: Vec<usize> = Vec::new();
        let mut data: Vec<u8> = Vec::new();
        let mut i: usize = 0;
        while i < n
            invariant
                self.wf(),
                n == self.intervals().len(),
                i <= n,
                want == self.intervals().map_values(
                    |s: Segment| (s.start_spec(), if initial { s.initial_spec() } else { s.content_spec() }),
                ),
                (MemoryRanges { starts, data_starts, data }).wf(),
                (MemoryRanges { starts, data_starts, data }).ranges() == want.take(i as int),
            decreases n - i,
        {
            let segment = self.tree.segment_at(i);
            proof {
                self.tree.lemma_segment_wf(i as int);
            }
            let bytes = if initial { segment.initial_slice() } else { segment.content_slice() };
            let ghost before = MemoryRanges { starts, data_starts, data };
            starts.push(segment.start());
            data_starts.push(data.len());
            let ghost old_data = data@;
            let mut k: usize = 0;
            while k < bytes.len()
                invariant
                    k <= bytes@.len(),
                    data@ == old_data + bytes@.take(k as int),
                decreases bytes@.len() - k,
            {
                data.push(bytes[k]);
                k = k + 1;
                proof {
                    assert(data@ =~= old_data + bytes@.take(k as int));
                }
            }
            proof {
                assert(bytes@.take(bytes@.len() as int) =~= bytes@);
                let after = MemoryRanges { starts, data_starts, data };
                lemma_push_range(before, after, segment.start_spec(), bytes@);
                assert(want.take(i + 1) =~= want.take(i as int).push(want[i as int]));
            }
            i = i + 1;
        }
        proof {
            assert(want.take(n as int) =~= want);
        }
        MemoryRanges { starts, data_starts, data }
    }
}

/// Appending a range with its bytes to well-formed ranges keeps them well formed and adds the
/// range at the end.
proof fn lemma_push_range(before: MemoryRanges, after: MemoryRanges, start: u32, bytes: Seq<u8>)
    requires
        before.wf(),
        start + bytes.len() <= u32::MAX,
        after.starts@ == before.starts@.push(start),
        before.data@.len() <= usize::MAX,
        after.data_starts@ == before.data_starts@.push(before.data@.len() as usize),
        after.data@ == before.data@ + bytes,
    ensures
        after.wf(),
        after.ranges() == before.ranges().push((start, bytes)),
{
    let n = before.starts@.len();
    assert forall|i: int| 0 <= i < n implies #[trigger] after.data_end(i) == before.data_end(i) by {
        if i + 1 < n {
            assert(after.data_starts@[i + 1] == before.data_starts@[i + 1]);
        }
    }
    assert forall|i: int| 0 <= i < n implies #[trigger] after.ranges()[i] == before.ranges()[i] by {
        assert(after.data@.subrange(after.data_starts@[i] as int, after.data_end(i))
            =~= before.data@.subrange(before.data_starts@[i] as int, before.data_end(i)));
    }
    assert(after.data@.subrange(before.data@.len() as int, after.data@.len() as int) =~= bytes);
    assert(after.ranges() =~= before.ranges().push((start, bytes)));
    assert(after.data_end(n as int) == after.data@.len());
    assert forall|i: int| 0 <= i < after.starts@.len() implies after.starts@[i] + (after.data_end(i)
        - after.data_starts@[i]) <= u32::MAX by {
        if i < n {
            assert(after.starts@[i] == before.starts@[i]);
            assert(after.data_starts@[i] == before.data_starts@[i]);
        }
    }
}

} // verus!
