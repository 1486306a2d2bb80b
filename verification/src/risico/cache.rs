//! A set-associative cache model that tells hits from misses.
use vstd::prelude::*;

use super::repr::Addr;
use vstd::arithmetic::power2::{
    lemma2_to64, lemma2_to64_rest, lemma_pow2_adds, lemma_pow2_pos, lemma_pow2_strictly_increases,
    lemma_pow2_unfold, pow2,
};

verus! {

/// How a line is chosen for replacement.
#[derive(Debug, Clone, Copy, PartialEq, Eq, Structural)]
pub enum CachePolicy {
    FIFO,
}

/// The replacement state of a set: the next line to replace.
#[derive(Debug, Clone, Copy)]
enum CachePolicyInstance {
    FIFO(usize),
}

/// Whether an access found its line.
#[derive(Debug, Clone, Copy, PartialEq, Eq, Structural)]
pub enum CacheResult {
    Hit,
    Miss,
}

/// A kind of access.
enum AccessType {
    Read,
    Write,
}

/// A set of the cache: its lines, each empty or holding a tag, and its replacement state.
struct CacheSet {
    lines: Vec<Option<u32>>,
    policy: CachePolicyInstance,
}

/// A set-associative cache.
pub struct Cache {
    associativity: usize,
    sets: Vec<CacheSet>,
    words_per_cache_line: usize,
    policy: CachePolicy,
    /// The base two logarithm of the number of sets.
    set_bits: u32,
    /// The base two logarithm of the number of words per line.
    line_bits: u32,
}

/// The base two logarithm of a power of two.
fn ilog2(x: usize) -> (r: u32)
    requires
        exists|n: nat| pow2(n) == x,
    ensures
        pow2(r as nat) == x,
        r < 64,
{
    let mut r: u32 = 0;
    let mut rest: usize = x;
    proof {
        let n = choose|n: nat| pow2(n) == x;
        lemma_pow2_positive(n);
        lemma2_to64();
    }
    while rest > 1
        invariant
            rest >= 1,
            rest * pow2(r as nat) == x,
            exists|n: nat| pow2(n) == rest,
            r < 64,
            x <= usize::MAX,
        decreases rest,
    {
        proof {
            let n = choose|n: nat| pow2(n) == rest;
            if n == 0 {
                lemma2_to64();
                assert(false);
            }
            lemma_pow2_unfold(n);
            lemma_pow2_unfold((r + 1) as nat);
            assert(pow2(n) == 2 * pow2((n - 1) as nat));
            assert(pow2((r + 1) as nat) == 2 * pow2(r as nat));
            lemma_pow2_positive((r + 1) as nat);
            assert((rest / 2) * pow2((r + 1) as nat) == x && pow2((r + 1) as nat) <= x) by (nonlinear_arith)
                requires
                    rest == 2 * pow2((n - 1) as nat),
                    pow2((r + 1) as nat) == 2 * pow2(r as nat),
                    rest * pow2(r as nat) == x,
                    pow2((r + 1) as nat) >= 1,
                    rest >= 2,
            ;
            lemma_pow2_small((r + 1) as nat);
        }
        rest = rest / 2;
        r = r + 1;
    }
    r
}

/// A power of two is positive.
proof fn lemma_pow2_positive(n: nat)
    ensures
        pow2(n) >= 1,
{
    lemma_pow2_pos(n);
}

/// A power of two that fits a machine word has an exponent below 64.
proof fn lemma_pow2_small(n: nat)
    requires
        pow2(n) <= usize::MAX,
    ensures
        n < 64,
{
    if n >= 64 {
        lemma_pow2_monotone(64, n);
        lemma2_to64_rest();
    }
}

impl CachePolicyInstance {
    /// The line to replace next, moving on to the one after it.
    fn replace(&mut self) -> (r: usize)
        requires
            *old(self) matches CachePolicyInstance::FIFO(next) && next < usize::MAX,
        ensures
            *old(self) matches CachePolicyInstance::FIFO(next) && r == next,
            *final(self) == CachePolicyInstance::FIFO((r + 1) as usize),
    {
        match self {
            CachePolicyInstance::FIFO(offset) => {
                let replacement_offset = *offset;
                *offset = *offset + 1;
                replacement_offset
            },
        }
    }
}

impl CachePolicy {
    /// A fresh replacement state.
    fn instance(self) -> (r: CachePolicyInstance)
        ensures
            r matches CachePolicyInstance::FIFO(next) && next == 0,
    {
        match self {
            CachePolicy::FIFO => CachePolicyInstance::FIFO(0),
        }
    }
}

impl Cache {
    /// The tags held by the lines of each set.
    pub closed spec fn lines(&self) -> Seq<Seq<Option<u32>>> {
        self.sets@.map_values(|s: CacheSet| s.lines@)
    }

    /// The next line to replace in each set.
    pub closed spec fn next_replaced(&self) -> Seq<int> {
        self.sets@.map_values(|s: CacheSet| match s.policy {
            CachePolicyInstance::FIFO(next) => next as int,
        })
    }

    /// The number of address bits that select the set, and that select the word in a line.
    pub closed spec fn index_bits(&self) -> (u32, u32) {
        (self.set_bits, self.line_bits)
    }

    /// The sets are a power of two in number, each with `associativity` lines; the index and
    /// offset bits leave at least one tag bit; no tag is held twice in a set.
    pub closed spec fn wf(&self) -> bool {
        &&& pow2(self.set_bits as nat) == self.sets@.len()
        &&& pow2(self.line_bits as nat) == self.words_per_cache_line
        &&& self.set_bits + self.line_bits < 32
        &&& forall|i: int| 0 <= i < self.sets@.len() ==> (#[trigger] self.sets@[i]).lines@.len() == self.associativity
        &&& forall|i: int, a: int, b: int|
            0 <= i < self.sets@.len() && 0 <= a < b < self.sets@[i].lines@.len() && self.sets@[i].lines@[a] is Some
                ==> #[trigger] self.sets@[i].lines@[a] != #[trigger] self.sets@[i].lines@[b]
    }

    /// A cold cache of `sets` sets of `associativity` lines of `words_per_cache_line` words, each
    /// a power of two.
    pub fn new(associativity: usize, sets: usize, words_per_cache_line: usize, policy: CachePolicy) -> (r: Self)
        requires
            exists|n: nat| pow2(n) == associativity,
            exists|n: nat| pow2(n) == sets,
            exists|n: nat| pow2(n) == words_per_cache_line,
            sets * words_per_cache_line < 0x1_0000_0000,
        ensures
            r.wf(),
            r.lines().len() == sets,
            forall|i: int| 0 <= i < sets ==> #[trigger] r.lines()[i] == Seq::new(associativity as nat, |j: int| None::<u32>),
            forall|i: int| 0 <= i < sets ==> #[trigger] r.next_replaced()[i] == 0,
    {
        let set_bits = ilog2(sets);
        let line_bits = ilog2(words_per_cache_line);
        proof {
            lemma_pow2_product(set_bits as nat, line_bits as nat, sets as nat, words_per_cache_line as nat);
        }
        let mut all: Vec<CacheSet> = Vec::new();
        let mut i: usize = 0;
        while i < sets
            invariant
                i <= sets,
                all@.len() == i,
                forall|k: int|
                    0 <= k < i ==> (#[trigger] all@[k]).lines@ == Seq::new(associativity as nat, |j: int| None::<u32>)
                        && (all@[k].policy matches CachePolicyInstance::FIFO(next) && next == 0),
            decreases sets - i,
        {
            let mut lines: Vec<Option<u32>> = Vec::new();
            while lines.len() < associativity
                invariant
                    lines@.len() <= associativity,
                    forall|j: int| 0 <= j < lines@.len() ==> #[trigger] lines@[j] is None,
                decreases associativity - lines@.len(),
            {
                lines.push(None);
            }
            proof {
                assert(lines@ =~= Seq::new(associativity as nat, |j: int| None::<u32>));
            }
            all.push(CacheSet { lines, policy: policy.instance() });
            i = i + 1;
        }
        let r = Self { associativity, sets: all, words_per_cache_line, policy, set_bits, line_bits };
        proof {
            assert(r.lines().len() == sets);
        }
        r
    }

    /// The tag of an address: the bits above the set index and the word offset.
    fn get_tag(&self, addr: Addr) -> (r: u32)
        requires
            self.wf(),
        ensures
            r == addr@ >> (self.set_bits + self.line_bits),
    {
        addr.as_u32() >> (self.set_bits + self.line_bits)
    }

    /// The index of the set of an address.
    fn get_index(&self, addr: Addr) -> (r: u32)
        requires
            self.wf(),
        ensures
            r == (addr@ >> self.line_bits) & ((self.sets@.len() - 1) as u32),
            r < self.sets@.len(),
    {
        proof {
            lemma_pow2_positive(self.set_bits as nat);
            lemma_pow2_monotone(self.set_bits as nat, 32);
            lemma2_to64();
        }
        let mask = (self.sets.len() - 1) as u32;
        let shifted = addr.as_u32() >> self.line_bits;
        proof {
            lemma_pow2_mask(shifted, mask, self.set_bits);
        }
        shifted & mask
    }

    /// A read of `addr`.
    pub fn read(&mut self, addr: Addr) -> (r: CacheResult)
        requires
            old(self).wf(),
            old(self).can_access(addr),
        ensures
            final(self).wf(),
            old(self).accessed(*final(self), addr, r),
    {
        self.access(addr, AccessType::Read)
    }

    /// A write of `addr`.
    pub fn write(&mut self, addr: Addr) -> (r: CacheResult)
        requires
            old(self).wf(),
            old(self).can_access(addr),
        ensures
            final(self).wf(),
            old(self).accessed(*final(self), addr, r),
    {
        self.access(addr, AccessType::Write)
    }

    /// The set of `addr`.
    pub closed spec fn set_of(&self, addr: Addr) -> int {
        ((addr@ >> self.line_bits) & ((self.sets@.len() - 1) as u32)) as int
    }

    /// The tag of `addr`.
    pub closed spec fn tag_of(&self, addr: Addr) -> u32 {
        addr@ >> (self.set_bits + self.line_bits)
    }

    /// An access to `addr` hits, or its set still has a line that was never replaced: the
    /// replacement does not wrap around.
    pub open spec fn can_access(&self, addr: Addr) -> bool {
        self.lines()[self.set_of(addr)].contains(Some(self.tag_of(addr)))
            || self.next_replaced()[self.set_of(addr)] < self.lines()[self.set_of(addr)].len()
    }

    /// `after` is this cache after an access to `addr` with result `r`: a hit where the set holds
    /// the tag, leaving the cache as it is; else a miss, after which the next line to replace
    /// holds the tag and the one after it is next.
    pub open spec fn accessed(&self, after: Self, addr: Addr, r: CacheResult) -> bool {
        let s = self.set_of(addr);
        let tag = self.tag_of(addr);
        &&& after.lines().len() == self.lines().len()
        &&& after.index_bits() == self.index_bits()
        &&& forall|i: int| 0 <= i < self.lines().len() && i != s ==> #[trigger] after.lines()[i] == self.lines()[i]
            && after.next_replaced()[i] == self.next_replaced()[i]
        &&& (r == CacheResult::Hit) == self.lines()[s].contains(Some(tag))
        &&& r == CacheResult::Hit ==> after.lines()[s] == self.lines()[s] && after.next_replaced()[s] == self.next_replaced()[s]
        &&& r == CacheResult::Miss ==> after.lines()[s] == self.lines()[s].update(self.next_replaced()[s], Some(tag))
            && after.next_replaced()[s] == self.next_replaced()[s] + 1
    }

    /// An access of either kind: both look the line up, and a miss fills the next line.
    fn access(&mut self, addr: Addr, access_type: AccessType) -> (r: CacheResult)
        requires
            old(self).wf(),
            old(self).can_access(addr),
        ensures
            final(self).wf(),
            old(self).accessed(*final(self), addr, r),
    {
        let index = self.get_index(addr) as usize;
        let tag = self.get_tag(addr);
        let ghost old_cache = *self;
        let mut k: usize = 0;
        let n = self.sets[index].lines.len();
        while k < n
            invariant
                index < self.sets@.len(),
                *self == old_cache,
                index as int == old_cache.set_of(addr),
                tag == old_cache.tag_of(addr),
                old_cache.wf(),
                n == self.sets@[index as int].lines@.len(),
                k <= n,
                forall|j: int| 0 <= j < k ==> self.sets@[index as int].lines@[j] != Some(tag),
            decreases n - k,
        {
            if self.sets[index].lines[k] == Some(tag) {
                proof {
                    assert(self.lines()[index as int] == self.sets@[index as int].lines@);
                    assert(self.lines()[index as int][k as int] == Some(tag));
                    assert(self.lines()[index as int].contains(Some(tag)));
                    assert(index as int == old_cache.set_of(addr));
                    assert(tag == old_cache.tag_of(addr));
                }
                return CacheResult::Hit;
            }
            k = k + 1;
        }
        proof {
            assert(self.lines()[index as int] == self.sets@[index as int].lines@);
            assert(!self.lines()[index as int].contains(Some(tag)));
        }
        let mut set = self.sets.remove(index);
        let replaced = set.policy.replace();
        set.lines.set(replaced, Some(tag));
        self.sets.insert(index, set);
        proof {
            assert(self.lines() =~= old_cache.lines().update(index as int, old_cache.lines()[index as int].update(replaced as int, Some(tag))));
            assert(self.next_replaced() =~= old_cache.next_replaced().update(index as int, replaced + 1));
        }
        CacheResult::Miss
    }
}

/// The product of two powers of two below `2^32` has exponents that sum below 32.
proof fn lemma_pow2_product(a: nat, b: nat, x: nat, y: nat)
    requires
        pow2(a) == x,
        pow2(b) == y,
        x * y < 0x1_0000_0000,
    ensures
        a + b < 32,
{
    lemma_pow2_adds(a, b);
    if a + b >= 32 {
        lemma_pow2_monotone(32, a + b);
        lemma2_to64();
    }
}

/// Powers of two grow with the exponent.
proof fn lemma_pow2_monotone(m: nat, n: nat)
    requires
        m <= n,
    ensures
        pow2(m) <= pow2(n),
{
    if m < n {
        lemma_pow2_strictly_increases(m, n);
    }
}

/// Masking keeps the value at most the mask.
proof fn lemma_pow2_mask(x: u32, mask: u32, bits: u32)
    ensures
        x & mask <= mask,
{
    assert(x & mask <= mask) by (bit_vector);
}

/// An address accessed twice in a row hits the second time: the first access leaves its tag in
/// its set.
pub proof fn law_reaccess_hits(c0: Cache, c1: Cache, c2: Cache, addr: Addr, r1: CacheResult, r2: CacheResult)
    requires
        c0.wf(),
        c0.can_access(addr),
        c0.accessed(c1, addr, r1),
        c1.accessed(c2, addr, r2),
    ensures
        r2 == CacheResult::Hit,
{
    lemma_pow2_positive(c0.set_bits as nat);
    lemma_pow2_monotone(c0.set_bits as nat, 32);
    lemma2_to64();
    lemma_pow2_mask(addr@ >> c0.line_bits, (c0.sets@.len() - 1) as u32, c0.set_bits);
    assert(c1.sets@.len() == c1.lines().len());
    assert(c0.sets@.len() == c0.lines().len());
    assert(c1.set_of(addr) == c0.set_of(addr));
    assert(c1.tag_of(addr) == c0.tag_of(addr));
    let s = c0.set_of(addr);
    let tag = c0.tag_of(addr);
    assert(0 <= s < c0.lines().len());
    if r1 == CacheResult::Miss {
        let next = c0.next_replaced()[s];
        assert(c1.lines()[s][next] == Some(tag));
    }
    assert(c1.lines()[s].contains(Some(tag)));
}

/// The set index and the tag of two addresses together decide whether they are the same line:
/// the bits above the line offset are the set index (low) and the tag (high).
proof fn lemma_line_bits(x: u32, y: u32, s: u32, l: u32)
    by (bit_vector)
    requires
        s + l < 32,
    ensures
        ((x >> l) & (((1u32 << s) - 1) as u32) == (y >> l) & (((1u32 << s) - 1) as u32) && x >> (s + l) == y
            >> (s + l)) == (x >> l == y >> l),
{
}

/// The mask of the set index is one less than the number of sets.
proof fn lemma_set_mask(c: Cache)
    requires
        c.wf(),
    ensures
        (c.sets@.len() - 1) as u32 == (((1u32 << c.set_bits) - 1) as u32),
        c.sets@.len() >= 1,
{
    lemma_pow2_positive(c.set_bits as nat);
    vstd::bits::lemma_u32_pow2_no_overflow(c.set_bits as nat);
    vstd::bits::lemma_u32_shl_is_mul(1, c.set_bits);
}

/// Two addresses fall into the same set with the same tag exactly when they lie in the same
/// memory line: they agree on every address bit above the offset within a line.
pub proof fn law_same_line(c: Cache, a: Addr, b: Addr)
    requires
        c.wf(),
    ensures
        (c.set_of(a) == c.set_of(b) && c.tag_of(a) == c.tag_of(b)) == (a@ >> c.index_bits().1 == b@ >> c.index_bits().1),
{
    lemma_set_mask(c);
    lemma_line_bits(a@, b@, c.set_bits, c.line_bits);
    let m = (c.sets@.len() - 1) as u32;
    assert(c.set_of(a) == ((a@ >> c.line_bits) & m) as int);
    assert(c.set_of(b) == ((b@ >> c.line_bits) & m) as int);
}

/// After an access to `a`, an access to `b` whose set held no tag before both accesses hits
/// exactly when `a` and `b` lie in the same memory line.
pub proof fn law_hit_only_on_same_line(c0: Cache, c1: Cache, c2: Cache, a: Addr, b: Addr, r1: CacheResult, r2: CacheResult)
    requires
        c0.wf(),
        c0.can_access(a),
        c0.accessed(c1, a, r1),
        c1.accessed(c2, b, r2),
        forall|j: int| 0 <= j < c0.lines()[c0.set_of(b)].len() ==> (#[trigger] c0.lines()[c0.set_of(b)][j]) is None,
    ensures
        (r2 == CacheResult::Hit) == (a@ >> c0.index_bits().1 == b@ >> c0.index_bits().1),
{
    lemma_set_mask(c0);
    lemma_pow2_mask(a@ >> c0.line_bits, (c0.sets@.len() - 1) as u32, c0.set_bits);
    lemma_pow2_mask(b@ >> c0.line_bits, (c0.sets@.len() - 1) as u32, c0.set_bits);
    law_same_line(c0, a, b);
    assert(c1.sets@.len() == c1.lines().len());
    assert(c0.sets@.len() == c0.lines().len());
    assert(c1.set_of(b) == c0.set_of(b));
    assert(c1.tag_of(b) == c0.tag_of(b));
    let sa = c0.set_of(a);
    let sb = c0.set_of(b);
    let ta = c0.tag_of(a);
    let tb = c0.tag_of(b);
    assert(0 <= sa < c0.lines().len());
    assert(0 <= sb < c0.lines().len());
    if sa != sb {
        assert(c1.lines()[sb] == c0.lines()[sb]);
        assert(!c1.lines()[sb].contains(Some(tb)));
    } else {
        assert(!c0.lines()[sa].contains(Some(ta)));
        assert(r1 == CacheResult::Miss);
        let next = c0.next_replaced()[sa];
        assert(c1.lines()[sa] == c0.lines()[sa].update(next, Some(ta)));
        if ta == tb {
            assert(c1.lines()[sb][next] == Some(tb));
            assert(c1.lines()[sb].contains(Some(tb)));
        } else {
            assert forall|j: int| 0 <= j < c1.lines()[sb].len() implies c1.lines()[sb][j] != Some(tb) by {
                if j != next {
                    assert(c1.lines()[sb][j] == c0.lines()[sb][j]);
                }
            }
            assert(!c1.lines()[sb].contains(Some(tb)));
        }
    }
}

} // verus!
