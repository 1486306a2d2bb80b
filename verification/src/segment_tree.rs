//! An initial-value tracking segment tree.
//!
//! The tree stores sorted, non-overlapping segments of bytes, each tagged with the address of its
//! first byte. Next to the current content it keeps, for every address, the value that the
//! address got when it was first assigned. It only ever grows: addresses are never forgotten.
use vstd::prelude::*;

verus! {

/// Copy the concatenation of the two slices into the front of `buffer`, as far as both reach.
fn copy_slices_to_slice(slices: (&[u8], &[u8]), buffer: &mut [u8])
    ensures
        final(buffer)@.len() == old(buffer)@.len(),
        forall|i: int|
            #![trigger final(buffer)@[i]]
            0 <= i < old(buffer)@.len() ==> final(buffer)@[i] == if i < slices.0@.len()
                + slices.1@.len() {
                (slices.0@ + slices.1@)[i]
            } else {
                old(buffer)@[i]
            },
{
    let (lhs, rhs) = slices;
    let n = buffer.len();
    let mut i: usize = 0;
    while i < n
        invariant
            n == buffer@.len(),
            buffer@.len() == old(buffer)@.len(),
            i <= n,
            forall|j: int|
                #![trigger buffer@[j]]
                0 <= j < n ==> buffer@[j] == if j < i && j < lhs@.len() + rhs@.len() {
                    (lhs@ + rhs@)[j]
                } else {
                    old(buffer)@[j]
                },
        decreases n - i,
    {
        if i < lhs.len() {
            buffer[i] = lhs[i];
        } else if i - lhs.len() < rhs.len() {
            buffer[i] = rhs[i - lhs.len()];
        }
        i = i + 1;
    }
}

/// Copy the concatenation of the two slices, from its `offset`-th element on, into the front of
/// `buffer`, as far as both reach.
fn copy_slices_to_slice_with_offset(slices: (&[u8], &[u8]), offset: usize, buffer: &mut [u8])
    ensures
        final(buffer)@.len() == old(buffer)@.len(),
        forall|i: int|
            #![trigger final(buffer)@[i]]
            0 <= i < old(buffer)@.len() ==> final(buffer)@[i] == if offset + i < slices.0@.len()
                + slices.1@.len() {
                (slices.0@ + slices.1@)[offset + i]
            } else {
                old(buffer)@[i]
            },
{
    let (lhs, rhs) = slices;
    let lhs_start = if offset < lhs.len() {
        offset
    } else {
        lhs.len()
    };
    let rhs_start = if offset >= lhs.len() {
        if offset - lhs.len() < rhs.len() {
            offset - lhs.len()
        } else {
            rhs.len()
        }
    } else {
        0
    };
    let n = buffer.len();
    let mut i: usize = 0;
    while i < n
        invariant
            n == buffer@.len(),
            buffer@.len() == old(buffer)@.len(),
            i <= n,
            lhs_start <= lhs@.len(),
            rhs_start <= rhs@.len(),
            offset <= lhs@.len() ==> lhs_start == offset && rhs_start == 0,
            offset > lhs@.len() ==> lhs_start == lhs@.len() && (rhs_start == offset - lhs@.len()
                || (rhs_start == rhs@.len() && offset - lhs@.len() >= rhs@.len())),
            forall|j: int|
                #![trigger buffer@[j]]
                0 <= j < n ==> buffer@[j] == if j < i && offset + j < lhs@.len() + rhs@.len() {
                    (lhs@ + rhs@)[offset + j]
                } else {
                    old(buffer)@[j]
                },
        decreases n - i,
    {
        if i < lhs.len() - lhs_start {
            buffer[i] = lhs[lhs_start + i];
        } else if i - (lhs.len() - lhs_start) < rhs.len() - rhs_start {
            buffer[i] = rhs[rhs_start + (i - (lhs.len() - lhs_start))];
        }
        i = i + 1;
    }
}

/// A run of consecutive bytes of memory, starting at a given address.
pub struct Segment {
    /// Address of the first byte.
    start: u32,
    /// The current content.
    content: Vec<u8>,
    /// The content as it was when each byte was first assigned.
    initial: Vec<u8>,
}

impl Segment {
    /// Address of the first byte.
    pub closed spec fn start_spec(&self) -> u32 {
        self.start
    }

    /// The current bytes, the first at the start address.
    pub closed spec fn content_spec(&self) -> Seq<u8> {
        self.content@
    }

    /// The bytes as they were first assigned.
    pub closed spec fn initial_spec(&self) -> Seq<u8> {
        self.initial@
    }

    /// One past the address of the last byte.
    pub open spec fn end_spec(&self) -> int {
        self.start_spec() + self.content_spec().len()
    }

    /// Whether the segment holds the byte at address `a`.
    pub open spec fn covers(&self, a: int) -> bool {
        self.start_spec() <= a < self.end_spec()
    }

    /// The content and the initial content have the same length and the segment ends at or before
    /// the last address.
    pub open spec fn wf(&self) -> bool {
        &&& self.content_spec().len() == self.initial_spec().len()
        &&& self.end_spec() <= u32::MAX
    }

    /// Address of the first byte.
    pub fn start(&self) -> (start: u32)
        ensures
            start == self.start_spec(),
    {
        self.start
    }

    /// One past the address of the last byte.
    pub fn end(&self) -> (end: u32)
        requires
            self.wf(),
        ensures
            end == self.end_spec(),
    {
        self.start + self.content.len() as u32
    }

    /// Number of bytes.
    pub fn len(&self) -> (len: u32)
        requires
            self.wf(),
        ensures
            len == self.content_spec().len(),
    {
        self.end() - self.start()
    }

    /// Whether the segment holds the byte at address `x`.
    pub fn contains(&self, x: u32) -> (b: bool)
        requires
            self.wf(),
        ensures
            b == self.covers(x as int),
    {
        x >= self.start() && x < self.end()
    }

    /// The address range of the segment.
    pub fn range(&self) -> (range: std::ops::Range<u32>)
        requires
            self.wf(),
        ensures
            range.start == self.start_spec(),
            range.end == self.end_spec(),
    {
        self.start()..self.end()
    }

    /// A segment holding the single byte `value` at address `at`.
    pub fn new(at: u32, value: u8) -> (segment: Self)
        requires
            at < u32::MAX,
        ensures
            segment.wf(),
            segment.start_spec() == at,
            segment.content_spec() == seq![value],
            segment.initial_spec() == seq![value],
    {
        let mut content = Vec::new();
        content.push(value);
        let mut initial = Vec::new();
        initial.push(value);
        Self { start: at, content, initial }
    }

    /// Merge `other`, which ends where `self` starts, in front of `self`.
    pub fn merge_front(&mut self, other: Self)
        requires
            old(self).wf(),
            other.wf(),
            other.end_spec() == old(self).start_spec(),
        ensures
            final(self).wf(),
            final(self).start_spec() == other.start_spec(),
            final(self).content_spec() == other.content_spec() + old(self).content_spec(),
            final(self).initial_spec() == other.initial_spec() + old(self).initial_spec(),
    {
        let mut other = other;
        other.content.append(&mut self.content);
        other.initial.append(&mut self.initial);
        self.start = other.start;
        self.content = other.content;
        self.initial = other.initial;
    }

    /// Merge `other`, which starts where `self` ends, behind `self`.
    pub fn merge_back(&mut self, other: Self)
        requires
            old(self).wf(),
            other.wf(),
            old(self).end_spec() == other.start_spec(),
        ensures
            final(self).wf(),
            final(self).start_spec() == old(self).start_spec(),
            final(self).content_spec() == old(self).content_spec() + other.content_spec(),
            final(self).initial_spec() == old(self).initial_spec() + other.initial_spec(),
    {
        let mut other = other;
        self.content.append(&mut other.content);
        self.initial.append(&mut other.initial);
    }

    /// Grow the segment by the byte `value` just before its first byte.
    pub fn push_front(&mut self, value: u8)
        requires
            old(self).wf(),
            old(self).start_spec() > 0,
        ensures
            final(self).wf(),
            final(self).start_spec() == old(self).start_spec() - 1,
            final(self).content_spec() == seq![value] + old(self).content_spec(),
            final(self).initial_spec() == seq![value] + old(self).initial_spec(),
    {
        self.content.insert(0, value);
        self.initial.insert(0, value);
        self.start = self.start - 1;
        assert(self.content@ =~= seq![value] + old(self).content@);
        assert(self.initial@ =~= seq![value] + old(self).initial@);
    }

    /// Grow the segment by the byte `value` just after its last byte.
    pub fn push_back(&mut self, value: u8)
        requires
            old(self).wf(),
            old(self).end_spec() < u32::MAX,
        ensures
            final(self).wf(),
            final(self).start_spec() == old(self).start_spec(),
            final(self).content_spec() == old(self).content_spec().push(value),
            final(self).initial_spec() == old(self).initial_spec().push(value),
    {
        self.content.push(value);
        self.initial.push(value);
    }

    /// Grow the segment by the bytes of `buffer` just before its first byte.
    pub fn extend_front(&mut self, buffer: &[u8])
        requires
            old(self).wf(),
            buffer@.len() <= old(self).start_spec(),
        ensures
            final(self).wf(),
            final(self).start_spec() == old(self).start_spec() - buffer@.len(),
            final(self).content_spec() == buffer@ + old(self).content_spec(),
            final(self).initial_spec() == buffer@ + old(self).initial_spec(),
    {
        let mut i = buffer.len();
        while i > 0
            invariant
                i <= buffer@.len(),
                self.wf(),
                self.start_spec() == old(self).start_spec() - (buffer@.len() - i),
                self.content_spec() == buffer@.subrange(i as int, buffer@.len() as int) + old(self).content_spec(),
                self.initial_spec() == buffer@.subrange(i as int, buffer@.len() as int) + old(self).initial_spec(),
                buffer@.len() <= old(self).start_spec(),
                old(self).wf(),
            decreases i,
        {
            i = i - 1;
            self.push_front(buffer[i]);
            assert(buffer@.subrange(i as int, buffer@.len() as int) =~= seq![buffer@[i as int]]
                + buffer@.subrange(i + 1, buffer@.len() as int));
        }
        assert(buffer@.subrange(0, buffer@.len() as int) =~= buffer@);
    }

    /// Grow the segment by the bytes of `buffer` just after its last byte.
    pub fn extend_back(&mut self, buffer: &[u8])
        requires
            old(self).wf(),
            old(self).end_spec() + buffer@.len() <= u32::MAX,
        ensures
            final(self).wf(),
            final(self).start_spec() == old(self).start_spec(),
            final(self).content_spec() == old(self).content_spec() + buffer@,
            final(self).initial_spec() == old(self).initial_spec() + buffer@,
    {
        self.content.extend_from_slice(buffer);
        self.initial.extend_from_slice(buffer);
        assert(self.content@ =~= old(self).content@ + buffer@);
        assert(self.initial@ =~= old(self).initial@ + buffer@);
    }

    /// Grow the segment by `num` bytes just before its first byte, each made by a call of `f`.
    pub fn extend_front_with<F: FnMut() -> u8>(&mut self, num: u32, f: F)
        requires
            old(self).wf(),
            num <= old(self).start_spec(),
            call_requires(f, ()),
        ensures
            final(self).wf(),
            final(self).start_spec() == old(self).start_spec() - num,
            forall|j: int| 0 <= j < num ==> call_ensures(f, (), #[trigger] final(self).content_spec()[j]),
            final(self).content_spec().len() == old(self).content_spec().len() + num,
            final(self).content_spec().subrange(num as int, final(self).content_spec().len() as int)
                == old(self).content_spec(),
            final(self).initial_spec() == final(self).content_spec().subrange(0, num as int) + old(self).initial_spec(),
    {
        let ghost f_in = f;
        let mut f = f;
        let mut i: u32 = 0;
        while i < num
            invariant
                f == f_in,
                i <= num,
                num <= old(self).start_spec(),
                old(self).wf(),
                self.wf(),
                self.start_spec() == old(self).start_spec() - i,
                self.content_spec().len() == old(self).content_spec().len() + i,
                self.content_spec().subrange(i as int, self.content_spec().len() as int)
                    == old(self).content_spec(),
                self.initial_spec() == self.content_spec().subrange(0, i as int) + old(self).initial_spec(),
                call_requires(f, ()),
                forall|j: int| 0 <= j < i ==> call_ensures(f, (), #[trigger] self.content_spec()[j]),
            decreases num - i,
        {
            let value = f();
            let ghost before = self.content_spec();
            self.push_front(value);
            assert(self.content_spec().subrange(i + 1, self.content_spec().len() as int)
                =~= before.subrange(i as int, before.len() as int));
            assert(self.content_spec().subrange(0, i + 1) =~= seq![value] + before.subrange(
                0,
                i as int,
            ));
            i = i + 1;
        }
    }

    /// Grow the segment by `num` bytes just after its last byte, each made by a call of `f`.
    pub fn extend_back_with<F: FnMut() -> u8>(&mut self, num: u32, f: F)
        requires
            old(self).wf(),
            old(self).end_spec() + num <= u32::MAX,
            call_requires(f, ()),
        ensures
            final(self).wf(),
            final(self).start_spec() == old(self).start_spec(),
            forall|j: int|
                old(self).content_spec().len() <= j < final(self).content_spec().len() ==> call_ensures(
                    f,
                    (),
                    #[trigger] final(self).content_spec()[j],
                ),
            final(self).content_spec().len() == old(self).content_spec().len() + num,
            final(self).content_spec().subrange(0, old(self).content_spec().len() as int) == old(self).content_spec(),
            final(self).initial_spec() == old(self).initial_spec() + final(self).content_spec().subrange(old(self).content_spec().len() as int, final(self).content_spec().len() as int),
    {
        let ghost f_in = f;
        let mut f = f;
        let mut i: u32 = 0;
        let ghost n0 = old(self).content_spec().len();
        while i < num
            invariant
                f == f_in,
                i <= num,
                n0 == old(self).content_spec().len(),
                old(self).end_spec() + num <= u32::MAX,
                old(self).wf(),
                self.wf(),
                self.start_spec() == old(self).start_spec(),
                self.content_spec().len() == n0 + i,
                self.content_spec().subrange(0, n0 as int) == old(self).content_spec(),
                self.initial_spec() == old(self).initial_spec() + self.content_spec().subrange(
                    n0 as int,
                    self.content_spec().len() as int,
                ),
                call_requires(f, ()),
                forall|j: int| n0 <= j < self.content_spec().len() ==> call_ensures(f, (), #[trigger] self.content_spec()[j]),
            decreases num - i,
        {
            let value = f();
            let ghost before = self.content_spec();
            self.push_back(value);
            assert(self.content_spec().subrange(0, n0 as int) =~= before.subrange(0, n0 as int));
            assert(self.content_spec().subrange(n0 as int, self.content_spec().len() as int)
                =~= before.subrange(n0 as int, before.len() as int).push(value));
            i = i + 1;
        }
    }

    /// Copy the initial content into the front of `buffer`, as far as both reach.
    pub fn copy_initial_to_slice(&self, buffer: &mut [u8])
        ensures
            final(buffer)@.len() == old(buffer)@.len(),
            forall|i: int|
                #![trigger final(buffer)@[i]]
                0 <= i < old(buffer)@.len() ==> final(buffer)@[i] == if i
                    < self.initial_spec().len() {
                    self.initial_spec()[i]
                } else {
                    old(buffer)@[i]
                },
    {
        let empty: &[u8] = &[];
        copy_slices_to_slice((self.initial.as_slice(), empty), buffer);
        assert(self.initial@ + empty@ =~= self.initial@);
    }

    /// Copy the content into the front of `buffer`, as far as both reach.
    pub fn copy_content_to_slice(&self, buffer: &mut [u8])
        ensures
            final(buffer)@.len() == old(buffer)@.len(),
            forall|i: int|
                #![trigger final(buffer)@[i]]
                0 <= i < old(buffer)@.len() ==> final(buffer)@[i] == if i
                    < self.content_spec().len() {
                    self.content_spec()[i]
                } else {
                    old(buffer)@[i]
                },
    {
        let empty: &[u8] = &[];
        copy_slices_to_slice((self.content.as_slice(), empty), buffer);
        assert(self.content@ + empty@ =~= self.content@);
    }

    /// Copy the initial content, from its `offset`-th byte on, into the front of `buffer`, as far
    /// as both reach.
    pub fn copy_initial_to_slice_with_offset(&self, offset: usize, buffer: &mut [u8])
        ensures
            final(buffer)@.len() == old(buffer)@.len(),
            forall|i: int|
                #![trigger final(buffer)@[i]]
                0 <= i < old(buffer)@.len() ==> final(buffer)@[i] == if offset + i
                    < self.initial_spec().len() {
                    self.initial_spec()[offset + i]
                } else {
                    old(buffer)@[i]
                },
    {
        let empty: &[u8] = &[];
        copy_slices_to_slice_with_offset((self.initial.as_slice(), empty), offset, buffer);
        assert(self.initial@ + empty@ =~= self.initial@);
    }

    /// Copy the content, from its `offset`-th byte on, into the front of `buffer`, as far as both
    /// reach.
    pub fn copy_content_to_slice_with_offset(&self, offset: usize, buffer: &mut [u8])
        ensures
            final(buffer)@.len() == old(buffer)@.len(),
            forall|i: int|
                #![trigger final(buffer)@[i]]
                0 <= i < old(buffer)@.len() ==> final(buffer)@[i] == if offset + i
                    < self.content_spec().len() {
                    self.content_spec()[offset + i]
                } else {
                    old(buffer)@[i]
                },
    {
        let empty: &[u8] = &[];
        copy_slices_to_slice_with_offset((self.content.as_slice(), empty), offset, buffer);
        assert(self.content@ + empty@ =~= self.content@);
    }
}

impl Segment {
    /// Overwrite the byte at `offset` of the current content.
    fn set_content(&mut self, offset: usize, value: u8)
        requires
            old(self).wf(),
            offset < old(self).content_spec().len(),
        ensures
            final(self).wf(),
            final(self).start_spec() == old(self).start_spec(),
            final(self).content_spec() == old(self).content_spec().update(offset as int, value),
            final(self).initial_spec() == old(self).initial_spec(),
    {
        self.content.set(offset, value);
    }

    /// A mutable reference to the byte at `offset` of the current content.
    fn content_mut_at(&mut self, offset: usize) -> (value: &mut u8)
        requires
            offset < old(self).content_spec().len(),
        ensures
            *value == old(self).content_spec()[offset as int],
            final(self).start_spec() == old(self).start_spec(),
            final(self).initial_spec() == old(self).initial_spec(),
            final(self).content_spec() == old(self).content_spec().update(offset as int, *final(value)),
    {
        &mut self.content[offset]
    }

    /// The byte at `offset` of the current content.
    fn content_at(&self, offset: usize) -> (value: u8)
        requires
            offset < self.content_spec().len(),
        ensures
            value == self.content_spec()[offset as int],
    {
        self.content[offset]
    }

    /// The current content.
    pub(crate) fn content_slice(&self) -> (r: &[u8])
        ensures
            r@ == self.content_spec(),
    {
        self.content.as_slice()
    }

    /// The initial content.
    pub(crate) fn initial_slice(&self) -> (r: &[u8])
        ensures
            r@ == self.initial_spec(),
    {
        self.initial.as_slice()
    }
}

/// Sorted, non-overlapping segments of initialized memory.
///
/// Between two segments lies at least one uninitialized address: neighbouring segments are
/// merged as soon as they touch.
pub struct SegmentTree {
    /// The segments, by ascending address.
    segments: Vec<Segment>,
}

/// The bytes of `buffer` placed from address `start` on.
pub open spec fn placed_bytes(start: u32, buffer: Seq<u8>) -> Map<u32, u8> {
    Map::new(|a: u32| start <= a < start + buffer.len(), |a: u32| buffer[a - start])
}

/// Writing the byte `i` of `buffer` after the bytes before it: the memory gets the byte, and the
/// initial memory gets it unless the address was already initialized.
proof fn lemma_fill_step(memory: Map<u32, u8>, initial: Map<u32, u8>, start: u32, buffer: Seq<u8>, i: int)
    requires
        0 <= i < buffer.len(),
        start + buffer.len() <= u32::MAX,
        memory.dom() == initial.dom(),
    ensures
        ({
            let before = memory.union_prefer_right(placed_bytes(start, buffer.take(i)));
            let addr = (start + i) as u32;
            &&& memory.union_prefer_right(placed_bytes(start, buffer.take(i + 1))) == before.insert(
                addr,
                buffer[i],
            )
            &&& before.contains_key(addr) <==> memory.contains_key(addr)
            &&& memory.contains_key(addr) ==> placed_bytes(start, buffer.take(i + 1)).union_prefer_right(initial)
                == placed_bytes(start, buffer.take(i)).union_prefer_right(initial)
            &&& !memory.contains_key(addr) ==> placed_bytes(start, buffer.take(i + 1)).union_prefer_right(initial)
                == placed_bytes(start, buffer.take(i)).union_prefer_right(initial).insert(addr, buffer[i])
        }),
{
    let before = memory.union_prefer_right(placed_bytes(start, buffer.take(i)));
    let addr = (start + i) as u32;
    assert(memory.union_prefer_right(placed_bytes(start, buffer.take(i + 1))) =~= before.insert(addr, buffer[i]));
    if memory.contains_key(addr) {
        assert(placed_bytes(start, buffer.take(i + 1)).union_prefer_right(initial)
            =~= placed_bytes(start, buffer.take(i)).union_prefer_right(initial));
    } else {
        assert(placed_bytes(start, buffer.take(i + 1)).union_prefer_right(initial)
            =~= placed_bytes(start, buffer.take(i)).union_prefer_right(initial).insert(addr, buffer[i]));
    }
}

impl SegmentTree {
    /// The segments, by ascending address.
    pub closed spec fn segments_spec(&self) -> Seq<Segment> {
        self.segments@
    }

    /// The `i`-th segment holds address `a`.
    pub open spec fn covers(&self, i: int, a: int) -> bool {
        0 <= i < self.segments_spec().len() && self.segments_spec()[i].covers(a)
    }

    /// Every segment is well formed and non-empty; the segments are sorted by address with at
    /// least one uninitialized address between any two of them.
    pub open spec fn wf(&self) -> bool {
        &&& forall|i: int|
            0 <= i < self.segments_spec().len() ==> #[trigger] self.segments_spec()[i].wf()
                && self.segments_spec()[i].content_spec().len() > 0
        &&& forall|i: int, j: int|
            0 <= i < j < self.segments_spec().len() ==> #[trigger] self.segments_spec()[i].end_spec()
                < #[trigger] self.segments_spec()[j].start_spec()
    }

    /// The current value of every initialized address.
    pub open spec fn memory(&self) -> Map<u32, u8> {
        Map::new(
            |a: u32| exists|i: int| self.covers(i, a as int),
            |a: u32|
                {
                    let i = choose|i: int| self.covers(i, a as int);
                    self.segments_spec()[i].content_spec()[a - self.segments_spec()[i].start_spec()]
                },
        )
    }

    /// The value that every initialized address got when it was first assigned.
    pub open spec fn initial_memory(&self) -> Map<u32, u8> {
        Map::new(
            |a: u32| exists|i: int| self.covers(i, a as int),
            |a: u32|
                {
                    let i = choose|i: int| self.covers(i, a as int);
                    self.segments_spec()[i].initial_spec()[a - self.segments_spec()[i].start_spec()]
                },
        )
    }

    /// At most one segment holds an address.
    pub proof fn lemma_covers_unique(&self, i: int, j: int, a: int)
        requires
            self.wf(),
            self.covers(i, a),
            self.covers(j, a),
        ensures
            i == j,
    {
        if i < j {
            assert(self.segments_spec()[i].end_spec() < self.segments_spec()[j].start_spec());
        } else if j < i {
            assert(self.segments_spec()[j].end_spec() < self.segments_spec()[i].start_spec());
        }
    }

    /// The memory at an address is read from the segment that holds it.
    pub proof fn lemma_memory_at(&self, i: int, a: u32)
        requires
            self.wf(),
            self.covers(i, a as int),
        ensures
            self.memory().contains_key(a),
            self.initial_memory().contains_key(a),
            self.memory()[a] == self.segments_spec()[i].content_spec()[a
                - self.segments_spec()[i].start_spec()],
            self.initial_memory()[a] == self.segments_spec()[i].initial_spec()[a
                - self.segments_spec()[i].start_spec()],
    {
        let j = choose|j: int| self.covers(j, a as int);
        self.lemma_covers_unique(i, j, a as int);
    }

    /// Where the segments before `idx` end at or before `a` and the others start after it, the
    /// gap at `idx` lies around `a`.
    pub open spec fn is_gap_at(&self, idx: int, a: int) -> bool {
        &&& 0 <= idx <= self.segments_spec().len()
        &&& forall|j: int|
            0 <= j < idx ==> #[trigger] self.segments_spec()[j].end_spec() <= a
        &&& forall|j: int|
            idx <= j < self.segments_spec().len() ==> #[trigger] self.segments_spec()[j].start_spec()
                > a
    }

    /// An empty tree.
    pub fn new() -> (tree: Self)
        ensures
            tree.wf(),
            tree.segments_spec().len() == 0,
            tree.memory() == Map::<u32, u8>::empty(),
            tree.initial_memory() == Map::<u32, u8>::empty(),
    {
        let tree = Self { segments: Vec::new() };
        assert(tree.memory() =~= Map::<u32, u8>::empty());
        assert(tree.initial_memory() =~= Map::<u32, u8>::empty());
        tree
    }

    /// The index of the segment that holds `addr`, or else the index at which a segment holding
    /// `addr` would have to be inserted.
    pub(crate) fn internal_segment_search(&self, addr: u32) -> (r: Result<usize, usize>)
        requires
            self.wf(),
        ensures
            r matches Ok(i) ==> self.covers(i as int, addr as int),
            r matches Err(i) ==> self.is_gap_at(i as int, addr as int),
    {
        let n = self.segments.len();
        let mut lo: usize = 0;
        let mut hi: usize = n;
        while lo < hi
            invariant
                self.wf(),
                n == self.segments_spec().len(),
                lo <= hi <= n,
                forall|j: int| 0 <= j < lo ==> #[trigger] self.segments_spec()[j].start_spec() < addr,
                forall|j: int|
                    hi <= j < n ==> #[trigger] self.segments_spec()[j].start_spec() > addr,
            decreases hi - lo,
        {
            let mid = lo + (hi - lo) / 2;
            let s = self.segments[mid].start();
            if s == addr {
                assert(self.segments_spec()[mid as int].wf());
                return Ok(mid);
            } else if s < addr {
                proof {
                    assert forall|j: int| 0 <= j < mid + 1 implies #[trigger] self.segments_spec()[j].start_spec() < addr by {
                        if j < mid {
                            assert(self.segments_spec()[j].end_spec() < self.segments_spec()[mid as int].start_spec());
                        }
                    }
                }
                lo = mid + 1;
            } else {
                proof {
                    assert forall|j: int| mid <= j < n implies #[trigger] self.segments_spec()[j].start_spec() > addr by {
                        if j > mid {
                            assert(self.segments_spec()[mid as int].end_spec() < self.segments_spec()[j].start_spec());
                        }
                    }
                }
                hi = mid;
            }
        }
        if lo > 0 && self.segments[lo - 1].end() > addr {
            Ok(lo - 1)
        } else {
            proof {
                assert forall|j: int| 0 <= j < lo implies #[trigger] self.segments_spec()[j].end_spec() <= addr by {
                    if j < lo - 1 {
                        assert(self.segments_spec()[j].end_spec() < self.segments_spec()[lo - 1].start_spec());
                    }
                }
            }
            Err(lo)
        }
    }

    /// An address in a gap is not initialized.
    pub(crate) proof fn lemma_gap_not_covered(&self, idx: int, a: int)
        requires
            self.wf(),
            self.is_gap_at(idx, a),
        ensures
            forall|j: int| !self.covers(j, a),
    {
        assert forall|j: int| !self.covers(j, a) by {
            if 0 <= j < idx {
                assert(self.segments_spec()[j].end_spec() <= a);
            } else if idx <= j < self.segments_spec().len() {
                assert(self.segments_spec()[j].start_spec() > a);
            }
        }
    }

    /// The segment that holds `addr`, with its index, or else the insertion index.
    fn segment_search(&self, addr: u32) -> (r: Result<(&Segment, usize), usize>)
        requires
            self.wf(),
        ensures
            r matches Ok((segment, i)) ==> self.covers(i as int, addr as int) && *segment
                == self.segments_spec()[i as int],
            r matches Err(i) ==> self.is_gap_at(i as int, addr as int),
    {
        match self.internal_segment_search(addr) {
            Ok(i) => Ok((&self.segments[i], i)),
            Err(i) => Err(i),
        }
    }

    /// The current value at `addr`, if it is initialized.
    pub fn get(&self, addr: u32) -> (value: Option<u8>)
        requires
            self.wf(),
        ensures
            value == if self.memory().contains_key(addr) {
                Some(self.memory()[addr])
            } else {
                None
            },
    {
        match self.segment_search(addr) {
            Ok((segment, i)) => {
                proof {
                    self.lemma_memory_at(i as int, addr);
                }
                let offset = (addr - segment.start()) as usize;
                Some(segment.content_at(offset))
            },
            Err(i) => {
                proof {
                    self.lemma_gap_not_covered(i as int, addr as int);
                }
                None
            },
        }
    }

    /// Whether `addr` is initialized.
    pub fn contains(&self, addr: u32) -> (b: bool)
        requires
            self.wf(),
        ensures
            b == self.memory().contains_key(addr),
    {
        match self.segment_search(addr) {
            Ok((_, i)) => {
                proof {
                    self.lemma_memory_at(i as int, addr);
                }
                true
            },
            Err(i) => {
                proof {
                    self.lemma_gap_not_covered(i as int, addr as int);
                }
                false
            },
        }
    }

    /// Both views of `new` are those of `old` with `addr` added, given index maps between the
    /// segments of the two trees: `f` takes every segment of `old` to the segment of `new` that
    /// holds its bytes, and `g` takes every segment of `new` that holds an address other than
    /// `addr` back to the segment of `old` that held it.
    proof fn lemma_grown_by_one(
        old_tree: &Self,
        new_tree: &Self,
        addr: u32,
        value: u8,
        r: int,
        f: spec_fn(int) -> int,
        g: spec_fn(int, int) -> int,
    )
        requires
            old_tree.wf(),
            new_tree.wf(),
            forall|j: int| !old_tree.covers(j, addr as int),
            new_tree.covers(r, addr as int),
            new_tree.segments_spec()[r].content_spec()[addr - new_tree.segments_spec()[r].start_spec()]
                == value,
            new_tree.segments_spec()[r].initial_spec()[addr - new_tree.segments_spec()[r].start_spec()]
                == value,
            forall|i: int, a: int|
                #![trigger old_tree.covers(i, a)]
                old_tree.covers(i, a) ==> new_tree.covers(f(i), a)
                    && new_tree.segments_spec()[f(i)].content_spec()[a - new_tree.segments_spec()[f(i)].start_spec()]
                    == old_tree.segments_spec()[i].content_spec()[a - old_tree.segments_spec()[i].start_spec()]
                    && new_tree.segments_spec()[f(i)].initial_spec()[a - new_tree.segments_spec()[f(i)].start_spec()]
                    == old_tree.segments_spec()[i].initial_spec()[a - old_tree.segments_spec()[i].start_spec()],
            forall|j: int, a: int|
                #![trigger new_tree.covers(j, a)]
                new_tree.covers(j, a) && a != addr ==> old_tree.covers(g(j, a), a),
        ensures
            new_tree.memory() == old_tree.memory().insert(addr, value),
            new_tree.initial_memory() == old_tree.initial_memory().insert(addr, value),
    {
        assert forall|a: u32| #[trigger] new_tree.memory().contains_key(a) == old_tree.memory().insert(addr, value).contains_key(a) by {
            if a == addr {
                assert(new_tree.covers(r, a as int));
            } else if new_tree.memory().contains_key(a) {
                let j = choose|j: int| new_tree.covers(j, a as int);
                assert(old_tree.covers(g(j, a as int), a as int));
            } else if old_tree.memory().contains_key(a) {
                let i = choose|i: int| old_tree.covers(i, a as int);
                assert(new_tree.covers(f(i), a as int));
            }
        }
        assert forall|a: u32| new_tree.memory().contains_key(a) implies #[trigger] new_tree.memory()[a] == old_tree.memory().insert(addr, value)[a]
            && new_tree.initial_memory()[a] == old_tree.initial_memory().insert(addr, value)[a] by {
            if a == addr {
                new_tree.lemma_memory_at(r, a);
            } else {
                let j = choose|j: int| new_tree.covers(j, a as int);
                let i = g(j, a as int);
                assert(old_tree.covers(i, a as int));
                old_tree.lemma_memory_at(i, a);
                new_tree.lemma_memory_at(f(i), a);
            }
        }
        assert(new_tree.memory() =~= old_tree.memory().insert(addr, value));
        assert(new_tree.initial_memory() =~= old_tree.initial_memory().insert(addr, value));
    }

    /// The tree after `addr`, just behind segment `k - 1`, joined that segment and the segment
    /// `k` that starts just after it.
    proof fn lemma_joined_both(old_tree: &Self, new_tree: &Self, addr: u32, value: u8, k: int, merged: Segment)
        requires
            old_tree.wf(),
            0 < k < old_tree.segments_spec().len(),
            old_tree.segments_spec()[k - 1].end_spec() == addr,
            old_tree.segments_spec()[k].start_spec() == addr + 1,
            merged.wf(),
            merged.start_spec() == old_tree.segments_spec()[k - 1].start_spec(),
            merged.content_spec() == old_tree.segments_spec()[k - 1].content_spec().push(value) + old_tree.segments_spec()[k].content_spec(),
            merged.initial_spec() == old_tree.segments_spec()[k - 1].initial_spec().push(value) + old_tree.segments_spec()[k].initial_spec(),
            new_tree.segments_spec() == old_tree.segments_spec().remove(k).update(k - 1, merged),
        ensures
            new_tree.wf(),
            new_tree.covers(k - 1, addr as int),
            new_tree.memory() == old_tree.memory().insert(addr, value),
            new_tree.initial_memory() == old_tree.initial_memory().insert(addr, value),
    {
        let n = new_tree.segments_spec().len();
        assert forall|i: int, j: int|
            0 <= i < j < n implies #[trigger] new_tree.segments_spec()[i].end_spec()
                < #[trigger] new_tree.segments_spec()[j].start_spec() by {
            if j == k - 1 {
                assert(old_tree.segments_spec()[i].end_spec() < old_tree.segments_spec()[k - 1].start_spec());
            } else if i == k - 1 {
                assert(new_tree.segments_spec()[j] == old_tree.segments_spec()[j + 1]);
                assert(old_tree.segments_spec()[k].end_spec() < old_tree.segments_spec()[j + 1].start_spec());
            } else if j < k - 1 {
                assert(old_tree.segments_spec()[i].end_spec() < old_tree.segments_spec()[j].start_spec());
            } else if i < k - 1 {
                assert(new_tree.segments_spec()[j] == old_tree.segments_spec()[j + 1]);
                assert(old_tree.segments_spec()[i].end_spec() < old_tree.segments_spec()[j + 1].start_spec());
            } else {
                assert(new_tree.segments_spec()[i] == old_tree.segments_spec()[i + 1]);
                assert(new_tree.segments_spec()[j] == old_tree.segments_spec()[j + 1]);
                assert(old_tree.segments_spec()[i + 1].end_spec() < old_tree.segments_spec()[j + 1].start_spec());
            }
        }
        assert forall|i: int| 0 <= i < n implies #[trigger] new_tree.segments_spec()[i].wf()
            && new_tree.segments_spec()[i].content_spec().len() > 0 by {
            if i < k - 1 {
                assert(old_tree.segments_spec()[i].wf());
            } else if i > k - 1 {
                assert(new_tree.segments_spec()[i] == old_tree.segments_spec()[i + 1]);
                assert(old_tree.segments_spec()[i + 1].wf());
            }
        }
        let f = |i: int| if i < k { i } else if i == k { k - 1 } else { i - 1 };
        let g = |j: int, a: int| if j < k - 1 { j } else if j == k - 1 { if a < addr { k - 1 } else { k } } else { j + 1 };
        assert forall|i: int, a: int|
            #![trigger old_tree.covers(i, a)]
                old_tree.covers(i, a) implies new_tree.covers(f(i), a)
                    && new_tree.segments_spec()[f(i)].content_spec()[a - new_tree.segments_spec()[f(i)].start_spec()]
                    == old_tree.segments_spec()[i].content_spec()[a - old_tree.segments_spec()[i].start_spec()]
                    && new_tree.segments_spec()[f(i)].initial_spec()[a - new_tree.segments_spec()[f(i)].start_spec()]
                    == old_tree.segments_spec()[i].initial_spec()[a - old_tree.segments_spec()[i].start_spec()] by {
            assert(old_tree.segments_spec()[i].wf());
            if i > k {
                assert(new_tree.segments_spec()[i - 1] == old_tree.segments_spec()[i]);
            } else if i == k {
                let p = old_tree.segments_spec()[k - 1];
                let q = old_tree.segments_spec()[k];
                assert(p.wf());
                assert(merged.content_spec()[a - merged.start_spec()] == q.content_spec()[a - q.start_spec()]);
                assert(merged.initial_spec()[a - merged.start_spec()] == q.initial_spec()[a - q.start_spec()]);
            } else if i == k - 1 {
                let p = old_tree.segments_spec()[k - 1];
                assert(merged.content_spec()[a - merged.start_spec()] == p.content_spec()[a - p.start_spec()]);
                assert(merged.initial_spec()[a - merged.start_spec()] == p.initial_spec()[a - p.start_spec()]);
            }
        }
        assert forall|j: int, a: int|
            #![trigger new_tree.covers(j, a)]
            new_tree.covers(j, a) && a != addr implies old_tree.covers(g(j, a), a) by {
            if j > k - 1 {
                assert(new_tree.segments_spec()[j] == old_tree.segments_spec()[j + 1]);
            }
        }
        assert forall|j: int| !old_tree.covers(j, addr as int) by {
            if 0 <= j < k - 1 {
                assert(old_tree.segments_spec()[j].end_spec() < old_tree.segments_spec()[k - 1].start_spec());
            } else if k < j < old_tree.segments_spec().len() {
                assert(old_tree.segments_spec()[k].end_spec() < old_tree.segments_spec()[j].start_spec());
            }
        }
        let p = old_tree.segments_spec()[k - 1];
        assert(p.wf());
        assert(merged.content_spec()[addr - merged.start_spec()] == value);
        assert(merged.initial_spec()[addr - merged.start_spec()] == value);
        Self::lemma_grown_by_one(old_tree, new_tree, addr, value, k - 1, f, g);
    }

    /// The tree after `addr` joined segment `k`: behind it when `behind`, else in front of it.
    proof fn lemma_joined_one(old_tree: &Self, new_tree: &Self, addr: u32, value: u8, k: int, behind: bool, grown: Segment)
        requires
            old_tree.wf(),
            0 <= k < old_tree.segments_spec().len(),
            forall|j: int| !old_tree.covers(j, addr as int),
            behind ==> (k + 1 < old_tree.segments_spec().len() ==> old_tree.segments_spec()[k + 1].start_spec() > addr + 1),
            !behind ==> (k > 0 ==> old_tree.segments_spec()[k - 1].end_spec() < addr),
            behind ==> old_tree.segments_spec()[k].end_spec() == addr,
            !behind ==> old_tree.segments_spec()[k].start_spec() == addr + 1,
            grown.wf(),
            behind ==> grown.start_spec() == old_tree.segments_spec()[k].start_spec()
                && grown.content_spec() == old_tree.segments_spec()[k].content_spec().push(value)
                && grown.initial_spec() == old_tree.segments_spec()[k].initial_spec().push(value),
            !behind ==> grown.start_spec() == addr
                && grown.content_spec() == seq![value] + old_tree.segments_spec()[k].content_spec()
                && grown.initial_spec() == seq![value] + old_tree.segments_spec()[k].initial_spec(),
            new_tree.segments_spec() == old_tree.segments_spec().update(k, grown),
        ensures
            new_tree.wf(),
            new_tree.covers(k, addr as int),
            new_tree.memory() == old_tree.memory().insert(addr, value),
            new_tree.initial_memory() == old_tree.initial_memory().insert(addr, value),
    {
        let n = new_tree.segments_spec().len();
        assert forall|i: int, j: int|
            0 <= i < j < n implies #[trigger] new_tree.segments_spec()[i].end_spec()
                < #[trigger] new_tree.segments_spec()[j].start_spec() by {
            if i == k {
                assert(old_tree.segments_spec()[k].end_spec() < old_tree.segments_spec()[j].start_spec());
                if j > k + 1 {
                    assert(old_tree.segments_spec()[k + 1].wf());
                    assert(old_tree.segments_spec()[k + 1].end_spec() < old_tree.segments_spec()[j].start_spec());
                }
            } else if j == k {
                assert(old_tree.segments_spec()[i].end_spec() < old_tree.segments_spec()[k].start_spec());
                if i < k - 1 {
                    assert(old_tree.segments_spec()[k - 1].wf());
                    assert(old_tree.segments_spec()[i].end_spec() < old_tree.segments_spec()[k - 1].start_spec());
                }
            } else {
                assert(old_tree.segments_spec()[i].end_spec() < old_tree.segments_spec()[j].start_spec());
            }
        }
        assert forall|i: int| 0 <= i < n implies #[trigger] new_tree.segments_spec()[i].wf()
            && new_tree.segments_spec()[i].content_spec().len() > 0 by {
            assert(old_tree.segments_spec()[i].wf());
        }
        let f = |i: int| i;
        let g = |j: int, a: int| j;
        assert forall|i: int, a: int|
            #![trigger old_tree.covers(i, a)]
                old_tree.covers(i, a) implies new_tree.covers(f(i), a)
                    && new_tree.segments_spec()[f(i)].content_spec()[a - new_tree.segments_spec()[f(i)].start_spec()]
                    == old_tree.segments_spec()[i].content_spec()[a - old_tree.segments_spec()[i].start_spec()]
                    && new_tree.segments_spec()[f(i)].initial_spec()[a - new_tree.segments_spec()[f(i)].start_spec()]
                    == old_tree.segments_spec()[i].initial_spec()[a - old_tree.segments_spec()[i].start_spec()] by {
        }
        assert forall|j: int, a: int|
            #![trigger new_tree.covers(j, a)]
            new_tree.covers(j, a) && a != addr implies old_tree.covers(g(j, a), a) by {
        }
        Self::lemma_grown_by_one(old_tree, new_tree, addr, value, k, f, g);
    }

    /// The tree after a new segment holding just `addr` went in at the gap `k`.
    proof fn lemma_new_segment(old_tree: &Self, new_tree: &Self, addr: u32, value: u8, k: int, segment: Segment)
        requires
            old_tree.wf(),
            old_tree.is_gap_at(k, addr as int),
            k > 0 ==> old_tree.segments_spec()[k - 1].end_spec() < addr,
            k < old_tree.segments_spec().len() ==> old_tree.segments_spec()[k].start_spec() > addr + 1,
            segment.wf(),
            segment.start_spec() == addr,
            segment.content_spec() == seq![value],
            segment.initial_spec() == seq![value],
            new_tree.segments_spec() == old_tree.segments_spec().insert(k, segment),
        ensures
            new_tree.wf(),
            new_tree.covers(k, addr as int),
            new_tree.memory() == old_tree.memory().insert(addr, value),
            new_tree.initial_memory() == old_tree.initial_memory().insert(addr, value),
    {
        let n = new_tree.segments_spec().len();
        old_tree.lemma_gap_not_covered(k, addr as int);
        assert forall|i: int, j: int|
            0 <= i < j < n implies #[trigger] new_tree.segments_spec()[i].end_spec()
                < #[trigger] new_tree.segments_spec()[j].start_spec() by {
            if j < k {
                assert(old_tree.segments_spec()[i].end_spec() < old_tree.segments_spec()[j].start_spec());
            } else if i > k {
                assert(old_tree.segments_spec()[i - 1].end_spec() < old_tree.segments_spec()[j - 1].start_spec());
            } else if i < k && j > k {
                assert(old_tree.segments_spec()[i].end_spec() < old_tree.segments_spec()[j - 1].start_spec());
            } else if i < k && j == k {
                if i < k - 1 {
                    assert(old_tree.segments_spec()[i].end_spec() < old_tree.segments_spec()[k - 1].start_spec());
                }
            } else if i == k && j > k + 1 {
                assert(old_tree.segments_spec()[k].end_spec() < old_tree.segments_spec()[j - 1].start_spec());
            }
        }
        assert forall|i: int| 0 <= i < n implies #[trigger] new_tree.segments_spec()[i].wf()
            && new_tree.segments_spec()[i].content_spec().len() > 0 by {
            if i < k {
                assert(old_tree.segments_spec()[i].wf());
            } else if i > k {
                assert(old_tree.segments_spec()[i - 1].wf());
            }
        }
        let f = |i: int| if i < k { i } else { i + 1 };
        let g = |j: int, a: int| if j < k { j } else { j - 1 };
        assert forall|i: int, a: int|
            #![trigger old_tree.covers(i, a)]
                old_tree.covers(i, a) implies new_tree.covers(f(i), a)
                    && new_tree.segments_spec()[f(i)].content_spec()[a - new_tree.segments_spec()[f(i)].start_spec()]
                    == old_tree.segments_spec()[i].content_spec()[a - old_tree.segments_spec()[i].start_spec()]
                    && new_tree.segments_spec()[f(i)].initial_spec()[a - new_tree.segments_spec()[f(i)].start_spec()]
                    == old_tree.segments_spec()[i].initial_spec()[a - old_tree.segments_spec()[i].start_spec()] by {
        }
        assert forall|j: int, a: int|
            #![trigger new_tree.covers(j, a)]
            new_tree.covers(j, a) && a != addr implies old_tree.covers(g(j, a), a) by {
        }
        Self::lemma_grown_by_one(old_tree, new_tree, addr, value, k, f, g);
    }

    /// Initialize the uninitialized address `addr` with `value`, where `insertion_idx` is the gap
    /// around `addr`: the byte joins the segment that ends at `addr` and the one that starts just
    /// after it, whichever exist. Returns the index of the segment that now holds `addr`.
    fn insert_at(&mut self, addr: u32, insertion_idx: usize, value: u8) -> (idx: usize)
        requires
            old(self).wf(),
            addr < u32::MAX,
            old(self).is_gap_at(insertion_idx as int, addr as int),
        ensures
            final(self).wf(),
            final(self).covers(idx as int, addr as int),
            final(self).memory() == old(self).memory().insert(addr, value),
            final(self).initial_memory() == old(self).initial_memory().insert(addr, value),
    {
        proof {
            old(self).lemma_gap_not_covered(insertion_idx as int, addr as int);
        }
        let can_merge_with_prev = insertion_idx != 0 && self.segments[insertion_idx - 1].end()
            == addr;
        let can_merge_with_next = insertion_idx != self.segments.len()
            && self.segments[insertion_idx].start() == addr + 1;
        let ghost old_tree = *old(self);
        let ghost k = insertion_idx as int;
        proof {
            if k > 0 {
                assert(old_tree.segments_spec()[k - 1].wf());
            }
            if k < old_tree.segments_spec().len() {
                assert(old_tree.segments_spec()[k].wf());
            }
        }
        if can_merge_with_prev && can_merge_with_next {
            let next_segment = self.segments.remove(insertion_idx);
            let mut prev = self.segments.remove(insertion_idx - 1);
            prev.push_back(value);
            prev.merge_back(next_segment);
            self.segments.insert(insertion_idx - 1, prev);
            proof {
                assert(self.segments_spec() =~= old_tree.segments_spec().remove(k).update(k - 1, prev));
                Self::lemma_joined_both(&old_tree, self, addr, value, k, prev);
            }
            insertion_idx - 1
        } else if can_merge_with_prev {
            let mut prev = self.segments.remove(insertion_idx - 1);
            prev.push_back(value);
            self.segments.insert(insertion_idx - 1, prev);
            proof {
                assert(self.segments_spec() =~= old_tree.segments_spec().update(k - 1, prev));
                if k > 1 {
                    assert(old_tree.segments_spec()[k - 2].end_spec() < old_tree.segments_spec()[k - 1].start_spec());
                }
                Self::lemma_joined_one(&old_tree, self, addr, value, k - 1, true, prev);
            }
            insertion_idx - 1
        } else if can_merge_with_next {
            let mut next = self.segments.remove(insertion_idx);
            next.push_front(value);
            self.segments.insert(insertion_idx, next);
            proof {
                assert(self.segments_spec() =~= old_tree.segments_spec().update(k, next));
                if k + 1 < old_tree.segments_spec().len() {
                    assert(old_tree.segments_spec()[k].end_spec() < old_tree.segments_spec()[k + 1].start_spec());
                }
                Self::lemma_joined_one(&old_tree, self, addr, value, k, false, next);
            }
            insertion_idx
        } else {
            let segment = Segment::new(addr, value);
            self.segments.insert(insertion_idx, segment);
            proof {
                assert(self.segments_spec() =~= old_tree.segments_spec().insert(k, segment));
                Self::lemma_new_segment(&old_tree, self, addr, value, k, segment);
            }
            insertion_idx
        }
    }

    /// The tree after the byte of segment `i` at address `addr` was overwritten with `value`.
    proof fn lemma_overwritten(old_tree: &Self, new_tree: &Self, i: int, addr: u32, value: u8)
        requires
            old_tree.wf(),
            old_tree.covers(i, addr as int),
            new_tree.segments_spec().len() == old_tree.segments_spec().len(),
            forall|j: int| 0 <= j < old_tree.segments_spec().len() && j != i ==> new_tree.segments_spec()[j] == old_tree.segments_spec()[j],
            new_tree.segments_spec()[i].start_spec() == old_tree.segments_spec()[i].start_spec(),
            new_tree.segments_spec()[i].initial_spec() == old_tree.segments_spec()[i].initial_spec(),
            new_tree.segments_spec()[i].content_spec() == old_tree.segments_spec()[i].content_spec().update(
                addr - old_tree.segments_spec()[i].start_spec(), value),
        ensures
            new_tree.wf(),
            forall|j: int, a: int| #[trigger] new_tree.covers(j, a) == old_tree.covers(j, a),
            new_tree.memory() == old_tree.memory().insert(addr, value),
            new_tree.initial_memory() == old_tree.initial_memory(),
    {
        let n = new_tree.segments_spec().len();
        let offset = addr - old_tree.segments_spec()[i].start_spec();
        assert forall|j: int| 0 <= j < n implies #[trigger] new_tree.segments_spec()[j].wf()
            && new_tree.segments_spec()[j].content_spec().len() > 0 by {
            assert(old_tree.segments_spec()[j].wf());
        }
        assert forall|j: int, k: int|
            0 <= j < k < n implies #[trigger] new_tree.segments_spec()[j].end_spec()
                < #[trigger] new_tree.segments_spec()[k].start_spec() by {
            assert(old_tree.segments_spec()[j].end_spec() < old_tree.segments_spec()[k].start_spec());
        }
        assert forall|j: int, a: int| #[trigger] new_tree.covers(j, a) == old_tree.covers(j, a) by {
            if 0 <= j < n && j != i {
                assert(new_tree.segments_spec()[j] == old_tree.segments_spec()[j]);
            }
        }
        assert forall|a: u32| #[trigger] new_tree.memory().contains_key(a) == old_tree.memory().insert(addr, value).contains_key(a) by {
            if new_tree.memory().contains_key(a) {
                let j = choose|j: int| new_tree.covers(j, a as int);
                assert(old_tree.covers(j, a as int));
            } else if old_tree.memory().contains_key(a) {
                let j = choose|j: int| old_tree.covers(j, a as int);
                assert(new_tree.covers(j, a as int));
            }
        }
        assert forall|a: u32| new_tree.memory().contains_key(a) implies #[trigger] new_tree.memory()[a]
            == old_tree.memory().insert(addr, value)[a] && new_tree.initial_memory()[a] == old_tree.initial_memory()[a] by {
            let j = choose|j: int| new_tree.covers(j, a as int);
            assert(old_tree.covers(j, a as int));
            new_tree.lemma_memory_at(j, a);
            old_tree.lemma_memory_at(j, a);
            if j != i {
                assert(new_tree.segments_spec()[j] == old_tree.segments_spec()[j]);
            }
            if a != addr && j == i {
                assert(a - new_tree.segments_spec()[j].start_spec() != offset);
            }
            if a == addr {
                old_tree.lemma_covers_unique(i, j, a as int);
            }
        }
        assert(new_tree.memory() =~= old_tree.memory().insert(addr, value));
        assert(new_tree.initial_memory() =~= old_tree.initial_memory());
    }

    /// `t` is `old_tree` but for the current value of segment `i` at address `addr`.
    spec fn differs_at_most_at(old_tree: Self, t: Self, i: int, addr: u32) -> bool {
        &&& t.segments_spec().len() == old_tree.segments_spec().len()
        &&& forall|j: int| 0 <= j < old_tree.segments_spec().len() && j != i ==> t.segments_spec()[j] == old_tree.segments_spec()[j]
        &&& t.segments_spec()[i].start_spec() == old_tree.segments_spec()[i].start_spec()
        &&& t.segments_spec()[i].initial_spec() == old_tree.segments_spec()[i].initial_spec()
        &&& t.segments_spec()[i].content_spec() == old_tree.segments_spec()[i].content_spec().update(
            addr - old_tree.segments_spec()[i].start_spec(),
            t.segments_spec()[i].content_spec()[addr - old_tree.segments_spec()[i].start_spec()])
    }

    /// `t` is well formed and its views are those of `old_tree` with the new value at `addr`.
    spec fn overwritten_by(old_tree: Self, t: Self, i: int, addr: u32) -> bool {
        &&& t.wf()
        &&& t.memory() == old_tree.memory().insert(addr, t.segments_spec()[i].content_spec()[addr - old_tree.segments_spec()[i].start_spec()])
        &&& t.initial_memory() == old_tree.initial_memory()
    }

    /// `lemma_overwritten` for every tree that differs from `old_tree` in the content of segment `i`
    /// at address `addr` at most.
    proof fn lemma_overwritten_any(old_tree: &Self, i: int, addr: u32)
        requires
            old_tree.wf(),
            old_tree.covers(i, addr as int),
        ensures
            forall|t: Self|
                #![trigger t.wf()]
                Self::differs_at_most_at(*old_tree, t, i, addr) ==> Self::overwritten_by(*old_tree, t, i, addr),
    {
        assert forall|t: Self|
            #![trigger t.wf()]
            Self::differs_at_most_at(*old_tree, t, i, addr) implies Self::overwritten_by(*old_tree, t, i, addr) by {
            Self::lemma_overwritten(old_tree, &t, i, addr, t.segments_spec()[i].content_spec()[addr - old_tree.segments_spec()[i].start_spec()]);
        }
    }

    /// Overwrite the current value of the initialized address `addr`, held by segment `i`.
    fn overwrite(&mut self, i: usize, addr: u32, value: u8)
        requires
            old(self).wf(),
            old(self).covers(i as int, addr as int),
        ensures
            final(self).wf(),
            final(self).segments_spec().len() == old(self).segments_spec().len(),
            forall|j: int, a: int| #[trigger] final(self).covers(j, a) == old(self).covers(j, a),
            final(self).memory() == old(self).memory().insert(addr, value),
            final(self).initial_memory() == old(self).initial_memory(),
    {
        let ghost old_tree = *old(self);
        proof {
            assert(old_tree.segments_spec()[i as int].wf());
        }
        let offset = (addr - self.segments[i].start()) as usize;
        self.segments[i].set_content(offset, value);
        proof {
            Self::lemma_overwritten(&old_tree, self, i as int, addr, value);
        }
    }

    /// Set the memory at `addr` to `value`, initializing it if needed. Returns the index of the
    /// segment that holds `addr`.
    pub fn insert(&mut self, addr: u32, value: u8) -> (idx: usize)
        requires
            old(self).wf(),
            addr < u32::MAX,
        ensures
            final(self).wf(),
            final(self).covers(idx as int, addr as int),
            final(self).memory() == old(self).memory().insert(addr, value),
            final(self).initial_memory() == if old(self).memory().contains_key(addr) {
                old(self).initial_memory()
            } else {
                old(self).initial_memory().insert(addr, value)
            },
    {
        match self.internal_segment_search(addr) {
            Ok(i) => {
                proof {
                    self.lemma_memory_at(i as int, addr);
                }
                self.overwrite(i, addr, value);
                i
            },
            Err(i) => {
                proof {
                    self.lemma_gap_not_covered(i as int, addr as int);
                }
                self.insert_at(addr, i, value)
            },
        }
    }

    /// Initialize `idx` with `value` unless it already is. Returns the index of the segment that
    /// holds `idx`.
    fn initialize(&mut self, idx: u32, value: u8) -> (segment_idx: usize)
        requires
            old(self).wf(),
            idx < u32::MAX,
        ensures
            final(self).wf(),
            final(self).covers(segment_idx as int, idx as int),
            old(self).memory().contains_key(idx) ==> *final(self) == *old(self),
            !old(self).memory().contains_key(idx) ==> final(self).memory() == old(self).memory().insert(idx, value)
                && final(self).initial_memory() == old(self).initial_memory().insert(idx, value),
    {
        match self.segment_search(idx) {
            Ok((_, segment_idx)) => {
                proof {
                    self.lemma_memory_at(segment_idx as int, idx);
                }
                segment_idx
            },
            Err(insertion_idx) => {
                proof {
                    self.lemma_gap_not_covered(insertion_idx as int, idx as int);
                }
                self.insert_at(idx, insertion_idx, value)
            },
        }
    }

    /// A mutable reference to the `i`-th segment.
    fn segment_mut_at(&mut self, i: usize) -> (segment: &mut Segment)
        requires
            i < old(self).segments_spec().len(),
        ensures
            *segment == old(self).segments_spec()[i as int],
            final(self).segments_spec() == old(self).segments_spec().update(i as int, *final(segment)),
    {
        &mut self.segments[i]
    }

    /// A mutable reference to the current value at `addr`, if it is initialized.
    pub fn get_mut(&mut self, addr: u32) -> (value: Option<&mut u8>)
        requires
            old(self).wf(),
        ensures
            old(self).memory().contains_key(addr) ==> value is Some && *value->0 == old(self).memory()[addr]
                && final(self).wf()
                && final(self).memory() == old(self).memory().insert(addr, *final(value->0))
                && final(self).initial_memory() == old(self).initial_memory(),
            !old(self).memory().contains_key(addr) ==> value is None && *final(self) == *old(self),
    {
        match self.internal_segment_search(addr) {
            Ok(i) => {
                proof {
                    self.lemma_memory_at(i as int, addr);
                }
                let ghost old_tree = *old(self);
                proof {
                    assert(old_tree.segments_spec()[i as int].wf());
                }
                let offset = (addr - self.segments[i].start()) as usize;
                proof {
                    Self::lemma_overwritten_any(&old_tree, i as int, addr);
                }
                let segment = self.segment_mut_at(i);
                Some(segment.content_mut_at(offset))
            },
            Err(i) => {
                proof {
                    self.lemma_gap_not_covered(i as int, addr as int);
                }
                None
            },
        }
    }

    /// Fill `buffer` with the memory from address `start` on. Fails, leaving `buffer` as it is, if
    /// any of these addresses is uninitialized.
    pub fn get_range(&self, start: u32, buffer: &mut [u8]) -> (r: Result<(), ()>)
        requires
            self.wf(),
            old(buffer)@.len() <= u32::MAX,
        ensures
            final(buffer)@.len() == old(buffer)@.len(),
            r is Ok <==> forall|a: u32|
                start <= a < start + old(buffer)@.len() ==> #[trigger] self.memory().contains_key(a),
            r is Ok ==> forall|i: int|
                0 <= i < old(buffer)@.len() ==> #[trigger] final(buffer)@[i] == self.memory()[(start + i) as u32],
            r is Err ==> final(buffer)@ == old(buffer)@,
    {
        if buffer.len() == 0 {
            return Ok(());
        }
        let (segment, i) = match self.segment_search(start) {
            Ok(found) => found,
            Err(i) => {
                proof {
                    self.lemma_gap_not_covered(i as int, start as int);
                    assert(!self.memory().contains_key(start));
                }
                return Err(());
            },
        };
        proof {
            assert(self.segments_spec()[i as int].wf());
        }
        if (segment.end() as u64) < start as u64 + buffer.len() as u64 {
            proof {
                let e = segment.end_spec() as u32;
                assert forall|j: int| !self.covers(j, e as int) by {
                    if 0 <= j < self.segments_spec().len() && j != i {
                        if j < i {
                            assert(self.segments_spec()[j].end_spec() < self.segments_spec()[i as int].start_spec());
                        } else {
                            assert(self.segments_spec()[i as int].end_spec() < self.segments_spec()[j].start_spec());
                        }
                    }
                }
                assert(!self.memory().contains_key(e));
            }
            return Err(());
        }
        let offset = (start - segment.start()) as usize;
        segment.copy_content_to_slice_with_offset(offset, buffer);
        proof {
            assert forall|a: u32| start <= a < start + old(buffer)@.len() implies #[trigger] self.memory().contains_key(a) by {
                self.lemma_memory_at(i as int, a);
            }
            assert forall|k: int| 0 <= k < old(buffer)@.len() implies #[trigger] buffer@[k] == self.memory()[(start + k) as u32] by {
                self.lemma_memory_at(i as int, (start + k) as u32);
            }
        }
        Ok(())
    }

    /// Whether every address of `range` is initialized.
    pub fn contains_range(&self, range: std::ops::Range<u32>) -> (b: bool)
        requires
            self.wf(),
        ensures
            b == forall|a: u32| range.start <= a < range.end ==> #[trigger] self.memory().contains_key(a),
    {
        if range.start >= range.end {
            return true;
        }
        let (segment, i) = match self.segment_search(range.start) {
            Ok(found) => found,
            Err(i) => {
                proof {
                    self.lemma_gap_not_covered(i as int, range.start as int);
                    assert(!self.memory().contains_key(range.start));
                }
                return false;
            },
        };
        proof {
            assert(self.segments_spec()[i as int].wf());
            if segment.end_spec() >= range.end {
                assert forall|a: u32| range.start <= a < range.end implies #[trigger] self.memory().contains_key(a) by {
                    self.lemma_memory_at(i as int, a);
                }
            } else {
                let e = segment.end_spec() as u32;
                assert forall|j: int| !self.covers(j, e as int) by {
                    if 0 <= j < self.segments_spec().len() && j != i {
                        if j < i {
                            assert(self.segments_spec()[j].end_spec() < self.segments_spec()[i as int].start_spec());
                        } else {
                            assert(self.segments_spec()[i as int].end_spec() < self.segments_spec()[j].start_spec());
                        }
                    }
                }
                assert(!self.memory().contains_key(e));
            }
        }
        segment.end() >= range.end
    }

    /// The memory and the initial memory have the same addresses.
    pub proof fn lemma_same_domain(&self)
        ensures
            self.memory().dom() == self.initial_memory().dom(),
    {
        assert(self.memory().dom() =~= self.initial_memory().dom());
    }

    /// The addresses held by segment `i` other than `addr` were initialized before `addr` was set.
    proof fn lemma_covered_after_insert(old_tree: &Self, new_tree: &Self, i: int, addr: u32, a: u32)
        requires
            new_tree.wf(),
            new_tree.covers(i, a as int),
            a != addr,
            new_tree.memory() == old_tree.memory().insert(addr, new_tree.memory()[addr]),
        ensures
            old_tree.memory().contains_key(a),
    {
        new_tree.lemma_memory_at(i, a);
        assert(old_tree.memory().insert(addr, new_tree.memory()[addr]).contains_key(a));
    }

    /// Write `buffer` to the memory from address `start` on, initializing the addresses that are
    /// not yet initialized. Their initial value is the one written.
    pub fn fill_range(&mut self, start: u32, buffer: &[u8])
        requires
            old(self).wf(),
            buffer@.len() == 0 || start + buffer@.len() <= u32::MAX,
        ensures
            final(self).wf(),
            final(self).memory() == old(self).memory().union_prefer_right(placed_bytes(start, buffer@)),
            final(self).initial_memory() == placed_bytes(start, buffer@).union_prefer_right(
                old(self).initial_memory(),
            ),
    {
        let ghost old_tree = *old(self);
        proof {
            old_tree.lemma_same_domain();
        }
        if buffer.len() == 0 {
            proof {
                assert(placed_bytes(start, buffer@) =~= Map::<u32, u8>::empty());
                assert(old_tree.memory().union_prefer_right(placed_bytes(start, buffer@)) =~= old_tree.memory());
                assert(placed_bytes(start, buffer@).union_prefer_right(old_tree.initial_memory()) =~= old_tree.initial_memory());
            }
            return;
        }
        let start_segment = self.insert(start, buffer[0]);
        let len = buffer.len() as u32;
        let ghost after_first = *self;
        proof {
            lemma_fill_step(old_tree.memory(), old_tree.initial_memory(), start, buffer@, 0);
            assert(buffer@.take(0) =~= Seq::<u8>::empty());
            assert(placed_bytes(start, buffer@.take(0)) =~= Map::<u32, u8>::empty());
            assert(old_tree.memory().union_prefer_right(placed_bytes(start, buffer@.take(0))) =~= old_tree.memory());
            assert(placed_bytes(start, buffer@.take(0)).union_prefer_right(old_tree.initial_memory()) =~= old_tree.initial_memory());
            assert(self.segments_spec()[start_segment as int].wf());
        }
        let segment_end = self.segments[start_segment].end();
        // The bytes up to `split` lie in the segment that now holds `start`: they are overwritten in
        // place; the others are inserted one by one, which grows and merges the segments.
        let split: u32 = if segment_end - start >= len { len } else { segment_end - start };
        let mut i: u32 = 1;
        while i < split
            invariant
                old_tree.wf(),
                old_tree.memory().dom() == old_tree.initial_memory().dom(),
                buffer@.len() == len,
                start + len <= u32::MAX,
                1 <= i <= split <= len,
                start + split <= after_first.segments_spec()[start_segment as int].end_spec(),
                after_first.wf(),
                after_first.covers(start_segment as int, start as int),
                after_first.memory() == old_tree.memory().insert(start, buffer@[0]),
                self.wf(),
                forall|j: int, a: int| #[trigger] self.covers(j, a) == after_first.covers(j, a),
                self.memory() == old_tree.memory().union_prefer_right(placed_bytes(start, buffer@.take(i as int))),
                self.initial_memory() == placed_bytes(start, buffer@.take(i as int)).union_prefer_right(
                    old_tree.initial_memory(),
                ),
            decreases split - i,
        {
            let addr = start + i;
            proof {
                assert(after_first.covers(start_segment as int, addr as int));
                assert(self.covers(start_segment as int, addr as int));
                Self::lemma_covered_after_insert(&old_tree, &after_first, start_segment as int, start, addr);
                lemma_fill_step(old_tree.memory(), old_tree.initial_memory(), start, buffer@, i as int);
                assert(old_tree.initial_memory().contains_key(addr));
            }
            self.overwrite(start_segment, addr, buffer[i as usize]);
            i = i + 1;
        }
        while i < len
            invariant
                old_tree.wf(),
                old_tree.memory().dom() == old_tree.initial_memory().dom(),
                buffer@.len() == len,
                start + len <= u32::MAX,
                1 <= i <= len,
                self.wf(),
                self.memory() == old_tree.memory().union_prefer_right(placed_bytes(start, buffer@.take(i as int))),
                self.initial_memory() == placed_bytes(start, buffer@.take(i as int)).union_prefer_right(
                    old_tree.initial_memory(),
                ),
            decreases len - i,
        {
            let addr = start + i;
            proof {
                lemma_fill_step(old_tree.memory(), old_tree.initial_memory(), start, buffer@, i as int);
            }
            self.insert(addr, buffer[i as usize]);
            i = i + 1;
        }
        proof {
            assert(buffer@.take(len as int) =~= buffer@);
        }
    }

    /// `t` extends `old_tree` by the addresses from `range_start` to before `upto`, each
    /// initialized with the same current and initial value.
    pub open spec fn initialized_from(old_tree: Self, t: Self, range_start: u32, upto: int) -> bool {
        &&& t.memory().dom() == old_tree.memory().dom().union(
            Set::new(|a: u32| range_start <= a < upto),
        )
        &&& forall|a: u32| #[trigger]
            old_tree.memory().contains_key(a) ==> t.memory()[a] == old_tree.memory()[a]
                && t.initial_memory()[a] == old_tree.initial_memory()[a]
        &&& forall|a: u32| #[trigger]
            t.memory().contains_key(a) && !old_tree.memory().contains_key(a) ==> t.memory()[a]
                == t.initial_memory()[a]
    }

    /// Every address that `t` holds and `old_tree` does not holds a value that a call of `f` may
    /// return.
    pub open spec fn filled_by<F: FnMut() -> u8>(old_tree: Self, t: Self, f: F) -> bool {
        forall|a: u32| #[trigger]
            t.memory().contains_key(a) && !old_tree.memory().contains_key(a) ==> call_ensures(
                f,
                (),
                t.memory()[a],
            )
    }

    /// Initializing one more address with a value that `f` returned keeps `filled_by`.
    proof fn lemma_filled_step<F: FnMut() -> u8>(old_tree: Self, t: Self, t2: Self, f: F, i: u32, value: u8)
        requires
            Self::filled_by(old_tree, t, f),
            call_ensures(f, (), value),
            t.memory().contains_key(i) ==> t2 == t,
            !t.memory().contains_key(i) ==> t2.memory() == t.memory().insert(i, value),
        ensures
            Self::filled_by(old_tree, t2, f),
    {
    }

    /// Initializing one more address keeps `initialized_from`.
    proof fn lemma_initialized_step(old_tree: Self, t: Self, t2: Self, range_start: u32, i: u32, value: u8)
        requires
            Self::initialized_from(old_tree, t, range_start, i as int),
            t.wf(),
            t2.wf(),
            old_tree.wf(),
            t.memory().contains_key(i) ==> t2 == t,
            !t.memory().contains_key(i) ==> t2.memory() == t.memory().insert(i, value)
                && t2.initial_memory() == t.initial_memory().insert(i, value),
            range_start <= i,
        ensures
            Self::initialized_from(old_tree, t2, range_start, i + 1),
    {
        t.lemma_same_domain();
        t2.lemma_same_domain();
        old_tree.lemma_same_domain();
        assert(t2.memory().dom() =~= old_tree.memory().dom().union(
            Set::new(|a: u32| range_start <= a < i + 1),
        ));
    }

    /// Make sure that every address of `range` is initialized. The addresses that were not get a
    /// value from `f`, which is both their current and their initial value; the others keep theirs.
    ///
    /// `f` is not necessarily called in the order of the addresses.
    pub fn initialize_fill<F: FnMut() -> u8>(&mut self, range: std::ops::Range<u32>, f: F)
        requires
            old(self).wf(),
            call_requires(f, ()),
        ensures
            final(self).wf(),
            Self::initialized_from(*old(self), *final(self), range.start, range.end as int),
            Self::filled_by(*old(self), *final(self), f),
    {
        let ghost old_tree = *old(self);
        let ghost f_in = f;
        let mut f = f;
        if range.start >= range.end {
            proof {
                assert(self.memory().dom() =~= old_tree.memory().dom().union(
                    Set::new(|a: u32| range.start <= a < range.end),
                ));
            }
            return;
        }
        let value = f();
        let start_segment = self.initialize(range.start, value);
        proof {
            assert(Self::initialized_from(old_tree, old_tree, range.start, range.start as int)) by {
                assert(old_tree.memory().dom() =~= old_tree.memory().dom().union(
                    Set::new(|a: u32| range.start <= a < range.start),
                ));
            }
            Self::lemma_initialized_step(old_tree, old_tree, *self, range.start, range.start, value);
            Self::lemma_filled_step(old_tree, old_tree, *self, f_in, range.start, value);
            assert(self.segments_spec()[start_segment as int].wf());
        }
        if range.end - range.start == 1 {
            return;
        }
        let segment_end = self.segments[start_segment].end();
        let ghost after_first = *self;
        // Where the end of the range lies in the gap right behind the segment that holds its
        // start, only the addresses behind that segment are new; otherwise each address is visited.
        let loop_start: u32 = if segment_end >= range.end {
            range.end
        } else {
            match self.segment_search(range.end - 1) {
                Err(end_segment) => if end_segment == start_segment + 1 {
                    segment_end
                } else {
                    range.start + 1
                },
                Ok(_) => range.start + 1,
            }
        };
        proof {
            let covered_to = if segment_end <= range.end { segment_end as int } else { range.end as int };
            assert forall|a: u32| range.start <= a < loop_start implies #[trigger] self.memory().contains_key(a) by {
                if a < covered_to {
                    self.lemma_memory_at(start_segment as int, a);
                } else {
                    assert(a < range.start + 1);
                }
            }
            assert(Self::initialized_from(old_tree, *self, range.start, loop_start as int)) by {
                assert(self.memory().dom() =~= old_tree.memory().dom().union(
                    Set::new(|a: u32| range.start <= a < loop_start),
                ));
            }
        }
        let mut i: u32 = loop_start;
        while i < range.end
            invariant
                old_tree.wf(),
                self.wf(),
                range.start < i || i == loop_start,
                range.start < loop_start,
                loop_start <= i <= range.end || i == loop_start,
                Self::initialized_from(old_tree, *self, range.start, i as int),
                Self::filled_by(old_tree, *self, f_in),
                f == f_in,
                call_requires(f, ()),
            decreases range.end - i,
        {
            let value = f();
            let ghost before = *self;
            self.initialize(i, value);
            proof {
                Self::lemma_initialized_step(old_tree, before, *self, range.start, i, value);
                Self::lemma_filled_step(old_tree, before, *self, f_in, i, value);
            }
            i = i + 1;
        }
        proof {
            if loop_start > range.end {
                assert(false);
            }
        }
    }

    /// The segments, by ascending address.
    pub fn segments_iter(&self) -> (segments: std::slice::Iter<'_, Segment>)
        ensures
            vstd::std_specs::iter::IteratorSpec::remaining(&segments) == self.segments_spec().as_ref(),
    {
        let segments = self.segments.as_slice();
        proof {
            vstd::std_specs::slice::axiom_spec_slice_iter(segments);
        }
        segments.iter()
    }

    /// Each segment of a well-formed tree is well formed.
    pub proof fn lemma_segment_wf(&self, i: int)
        requires
            self.wf(),
            0 <= i < self.segments_spec().len(),
        ensures
            self.segments_spec()[i].wf(),
            self.segments_spec()[i].content_spec().len() > 0,
    {
        assert(self.segments_spec()[i].wf());
    }

    /// The `i`-th segment.
    pub(crate) fn segment_at(&self, i: usize) -> (segment: &Segment)
        requires
            i < self.segments_spec().len(),
        ensures
            *segment == self.segments_spec()[i as int],
    {
        &self.segments[i]
    }

    /// The number of segments.
    pub fn num_segments(&self) -> (n: usize)
        ensures
            n == self.segments_spec().len(),
    {
        self.segments.len()
    }
}

} // verus!

verus! {

/// What is written is read back: after `insert(addr, value)` the memory at `addr` is `value`, and
/// every other address keeps both whether it is initialized and its value.
pub proof fn law_read_after_insert(before: SegmentTree, after: SegmentTree, addr: u32, value: u8)
    requires
        after.memory() == before.memory().insert(addr, value),
    ensures
        after.memory().contains_key(addr),
        after.memory()[addr] == value,
        forall|a: u32|
            a != addr ==> (#[trigger] after.memory().contains_key(a) == before.memory().contains_key(a)
                && (before.memory().contains_key(a) ==> after.memory()[a] == before.memory()[a])),
{
}

/// The initial value of an address is the first value assigned to it: an insert sets it only
/// where the address was not yet initialized, and leaves it unchanged everywhere else.
pub proof fn law_initial_is_first_assignment(before: SegmentTree, after: SegmentTree, addr: u32, value: u8)
    requires
        before.wf(),
        after.initial_memory() == if before.memory().contains_key(addr) {
            before.initial_memory()
        } else {
            before.initial_memory().insert(addr, value)
        },
    ensures
        !before.memory().contains_key(addr) ==> after.initial_memory()[addr] == value,
        forall|a: u32| #[trigger]
            before.initial_memory().contains_key(a) ==> after.initial_memory().contains_key(a)
                && after.initial_memory()[a] == before.initial_memory()[a],
{
    before.lemma_same_domain();
}

/// After `fill_range(start, buffer)` every address of the range is initialized and holds the byte
/// of `buffer` written to it; the addresses outside the range are untouched.
pub proof fn law_read_after_fill(before: SegmentTree, after: SegmentTree, start: u32, buffer: Seq<u8>)
    requires
        after.memory() == before.memory().union_prefer_right(placed_bytes(start, buffer)),
        buffer.len() == 0 || start + buffer.len() <= u32::MAX,
    ensures
        forall|i: int|
            0 <= i < buffer.len() ==> #[trigger] after.memory().contains_key((start + i) as u32)
                && after.memory()[(start + i) as u32] == buffer[i],
        forall|a: u32|
            !(start <= a < start + buffer.len()) ==> (#[trigger] after.memory().contains_key(a)
                == before.memory().contains_key(a) && (before.memory().contains_key(a)
                ==> after.memory()[a] == before.memory()[a])),
{
    assert forall|i: int| 0 <= i < buffer.len() implies #[trigger] after.memory().contains_key((start + i) as u32)
        && after.memory()[(start + i) as u32] == buffer[i] by {
        assert(placed_bytes(start, buffer).contains_key((start + i) as u32));
    }
}

/// The memory only grows: whatever `initialize_fill` does, every address that was initialized
/// stays so with its current and initial value, and every address of the range is initialized.
pub proof fn law_initialize_fill_keeps(before: SegmentTree, after: SegmentTree, range_start: u32, range_end: u32)
    requires
        SegmentTree::initialized_from(before, after, range_start, range_end as int),
    ensures
        forall|a: u32| range_start <= a < range_end ==> #[trigger] after.memory().contains_key(a),
        forall|a: u32| #[trigger]
            before.memory().contains_key(a) ==> after.memory().contains_key(a) && after.memory()[a]
                == before.memory()[a] && after.initial_memory()[a] == before.initial_memory()[a],
{
    assert forall|a: u32| range_start <= a < range_end implies #[trigger] after.memory().contains_key(a) by {
        assert(after.memory().dom().contains(a));
    }
    assert forall|a: u32| #[trigger] before.memory().contains_key(a) implies after.memory().contains_key(a) by {
        assert(after.memory().dom().contains(a));
    }
}

} // verus!
