//! Bit patterns of arbitrary length, written as strings of `0`, `1` and `_`.
use vstd::prelude::*;
use vstd::string::StringExecFns;

verus! {

/// A bit pattern with a number of bits.
#[derive(Debug)]
pub struct Bits {
    inner: BitsInner,
}

/// Up to 63 bits in one word, or more in several.
#[derive(Debug)]
enum BitsInner {
    Short(u32, u64),
    Long(Box<LongBits>),
}

/// A pattern of 64 bits or more.
#[derive(Debug)]
struct LongBits {
    content: Vec<u64>,
    num_bits: u32,
}

/// Why a string is not a bit pattern.
#[derive(Debug, Clone, Copy, PartialEq, Eq, Structural)]
pub enum BitsParseError {
    /// The string starts or ends with the character, where a bit was expected.
    ExpectedBit(char),
    /// The character is neither a bit nor an underscore.
    ExpectedUnderscoreBit(char),
    /// The string is empty.
    Empty,
}

/// Whether `c` may stand in a bit pattern.
pub open spec fn is_pattern_char(c: char) -> bool {
    c == '0' || c == '1' || c == '_'
}

/// The first character of `s` that may not stand in a bit pattern.
pub open spec fn first_invalid(s: Seq<char>) -> Option<char>
    decreases s.len(),
{
    if s.len() == 0 {
        None
    } else {
        match first_invalid(s.drop_last()) {
            Some(c) => Some(c),
            None => if is_pattern_char(s.last()) {
                None
            } else {
                Some(s.last())
            },
        }
    }
}

/// The characters of `s` but the underscores.
pub open spec fn digits(s: Seq<char>) -> Seq<char>
    decreases s.len(),
{
    if s.len() == 0 {
        Seq::empty()
    } else if s.last() == '_' {
        digits(s.drop_last())
    } else {
        digits(s.drop_last()).push(s.last())
    }
}

/// The value of the binary digits `d`, the most significant first.
pub open spec fn binary_value(d: Seq<char>) -> int
    decreases d.len(),
{
    if d.len() == 0 {
        0
    } else {
        2 * binary_value(d.drop_last()) + if d.last() == '1' {
            1int
        } else {
            0
        }
    }
}

/// What parsing `s` gives, where it fails or gives a pattern of at most 63 bits: the error, or
/// the number of bits and their value.
pub open spec fn parse_result(s: Seq<char>) -> Result<(nat, int), BitsParseError> {
    if s.len() == 0 {
        Err(BitsParseError::Empty)
    } else if s[0] == '_' || s.last() == '_' {
        Err(BitsParseError::ExpectedBit('_'))
    } else if first_invalid(s) is Some {
        Err(BitsParseError::ExpectedUnderscoreBit(first_invalid(s)->0))
    } else {
        Ok((digits(s).len(), binary_value(digits(s))))
    }
}

/// Appending a bit to a word that has fewer than 63 bits in use doubles it and adds the bit.
proof fn lemma_push_bit(bits: u64, n: u64, b: u64)
    by (bit_vector)
    requires
        n < 63,
        b <= 1,
    ensures
        bits < (1u64 << n) ==> (bits << 1u64) | b == 2 * bits + b,
        bits < (1u64 << n) ==> (bits << 1u64) | b < (1u64 << (n + 1)),
        (1u64 << 0u64) == 1,
{
}

/// The number of set bits of `x` below bit `n`.
pub open spec fn ones_below(x: u64, n: nat) -> nat
    decreases n,
{
    if n == 0 {
        0
    } else {
        ones_below(x, (n - 1) as nat) + if (x >> (n - 1) as u64) & 1 == 1 {
            1nat
        } else {
            0
        }
    }
}

/// The number of set bits of the words.
pub open spec fn ones_in(cells: Seq<u64>) -> nat
    decreases cells.len(),
{
    if cells.len() == 0 {
        0
    } else {
        ones_in(cells.drop_last()) + ones_below(cells.last(), 64)
    }
}

/// Words that are all clear have no set bit.
pub proof fn lemma_ones_in_zeros(cells: Seq<u64>)
    requires
        forall|i: int| 0 <= i < cells.len() ==> #[trigger] cells[i] == 0,
    ensures
        ones_in(cells) == 0,
    decreases cells.len(),
{
    if cells.len() > 0 {
        lemma_ones_in_zeros(cells.drop_last());
        lemma_ones_below_zero(64);
    }
}

/// Zero has no set bit.
proof fn lemma_ones_below_zero(n: nat)
    ensures
        ones_below(0, n) == 0,
    decreases n,
{
    if n > 0 {
        lemma_ones_below_zero((n - 1) as nat);
        let k = (n - 1) as u64;
        assert((0u64 >> k) & 1 == 0) by (bit_vector);
    }
}

/// A prefix of the words has no more set bits than all of them.
proof fn lemma_ones_in_prefix(cells: Seq<u64>, n: int)
    requires
        0 <= n <= cells.len(),
    ensures
        ones_in(cells.take(n)) <= ones_in(cells),
    decreases cells.len(),
{
    if n < cells.len() {
        assert(cells.drop_last().take(n) =~= cells.take(n));
        lemma_ones_in_prefix(cells.drop_last(), n);
    } else {
        assert(cells.take(n) =~= cells);
    }
}

/// The number of set bits of a word.
fn word_count_ones(x: u64) -> (r: u32)
    ensures
        r == ones_below(x, 64),
        r <= 64,
{
    let mut count: u32 = 0;
    let mut i: u64 = 0;
    while i < 64
        invariant
            i <= 64,
            count == ones_below(x, i as nat),
            count <= i,
        decreases 64 - i,
    {
        if (x >> i) & 1 == 1 {
            count = count + 1;
        }
        i = i + 1;
    }
    count
}

/// One shifted left by less than 64 is at least one.
proof fn lemma_shift_one(n: u64)
    by (bit_vector)
    requires
        n < 64,
    ensures
        1u64 << n >= 1,
{
}

impl Bits {
    /// A pattern held in one word has fewer than 64 bits.
    pub closed spec fn wf(&self) -> bool {
        match self.inner {
            BitsInner::Short(n, _) => n < 64,
            BitsInner::Long(_) => true,
        }
    }

    /// The number of bits.
    pub closed spec fn num_bits_spec(&self) -> nat {
        match self.inner {
            BitsInner::Short(n, _) => n as nat,
            BitsInner::Long(long) => long.num_bits as nat,
        }
    }

    /// The bits, where the pattern has at most 63 bits and is held in one word.
    pub closed spec fn short_value(&self) -> Option<u64> {
        match self.inner {
            BitsInner::Short(_, bits) => Some(bits),
            BitsInner::Long(_) => None,
        }
    }

    /// The words of a pattern of 64 bits or more.
    pub closed spec fn cells(&self) -> Seq<u64> {
        match self.inner {
            BitsInner::Short(_, _) => Seq::empty(),
            BitsInner::Long(long) => long.content@,
        }
    }

    /// The number of words of a pattern of 64 bits or more.
    pub closed spec fn num_cells(&self) -> nat {
        match self.inner {
            BitsInner::Short(_, _) => 0,
            BitsInner::Long(long) => long.content@.len(),
        }
    }

    /// Parse a bit pattern: binary digits, the most significant first, that may be separated by
    /// underscores, but neither start nor end with one. A pattern of up to 63 bits is held in one
    /// word; a longer one is kept in words of 64 bits.
    pub fn try_from(value: String) -> (r: Result<Bits, BitsParseError>)
        requires
            value@.len() <= u32::MAX,
        ensures
            digits(value@).len() <= 63 || parse_result(value@) is Err ==> match parse_result(value@) {
                Ok((n, v)) => (r matches Ok(bits) && bits.wf() && bits.num_bits_spec() == n && bits.short_value() == Some(v as u64)),
                Err(e) => r == Err::<Bits, BitsParseError>(e),
            },
            digits(value@).len() > 63 && parse_result(value@) is Ok ==> (r matches Ok(bits)
                && bits.wf() && bits.num_bits_spec() == digits(value@).len() && bits.short_value() is None),
    {
        match BitsInner::try_from(value) {
            Ok(inner) => Ok(Bits { inner }),
            Err(e) => Err(e),
        }
    }

    /// A pattern of `num_bits` zeros.
    pub fn zeros(num_bits: u32) -> (r: Self)
        ensures
            r.wf(),
            r.num_bits_spec() == num_bits,
            num_bits < 64 ==> r.short_value() == Some(0u64),
            num_bits >= 64 ==> r.short_value() is None && r.num_cells() == (num_bits + 63) / 64,
            forall|i: int| 0 <= i < r.cells().len() ==> #[trigger] r.cells()[i] == 0,
    {
        if num_bits < 64 {
            return Bits { inner: BitsInner::Short(num_bits, 0) };
        }
        let num_cells = ((num_bits as u64 + 63) / 64) as usize;
        let mut content: Vec<u64> = Vec::new();
        while content.len() < num_cells
            invariant
                content@.len() <= num_cells,
                forall|i: int| 0 <= i < content@.len() ==> #[trigger] content@[i] == 0,
            decreases num_cells - content@.len(),
        {
            content.push(0);
        }
        Bits { inner: BitsInner::Long(Box::new(LongBits { content, num_bits })) }
    }

    /// The number of set bits.
    pub fn count_ones(&self) -> (r: u32)
        requires
            ones_in(self.cells()) <= u32::MAX,
        ensures
            r == match self.short_value() {
                Some(bits) => ones_below(bits, 64),
                None => ones_in(self.cells()),
            },
    {
        match &self.inner {
            BitsInner::Short(_, bits) => word_count_ones(*bits),
            BitsInner::Long(long) => {
                let mut total: u32 = 0;
                let mut i: usize = 0;
                while i < long.content.len()
                    invariant
                        i <= long.content@.len(),
                        ones_in(long.content@) <= u32::MAX,
                        total == ones_in(long.content@.take(i as int)),
                    decreases long.content@.len() - i,
                {
                    let ones = word_count_ones(long.content[i]);
                    proof {
                        assert(long.content@.take(i + 1).drop_last() =~= long.content@.take(i as int));
                        lemma_ones_in_prefix(long.content@, i + 1);
                    }
                    total = total + ones;
                    i = i + 1;
                }
                proof {
                    assert(long.content@.take(i as int) =~= long.content@);
                }
                total
            },
        }
    }

    /// The number of bits.
    pub fn num_bits(&self) -> (r: u32)
        ensures
            r == self.num_bits_spec(),
    {
        match &self.inner {
            BitsInner::Short(num_bits, _) => *num_bits,
            BitsInner::Long(long) => long.num_bits,
        }
    }

    /// The bits as a word, where there are at most 32 of them.
    pub fn as_u32(&self) -> (r: Option<u32>)
        ensures
            r == match self.short_value() {
                Some(bits) => if self.num_bits_spec() <= 32 {
                    Some((bits % 0x1_0000_0000) as u32)
                } else {
                    None::<u32>
                },
                None => None,
            },
    {
        match &self.inner {
            BitsInner::Short(num_bits, bits) => {
                if *num_bits <= 32 {
                    let b = *bits;
                    assert(b & 0xFFFF_FFFF == b % 0x1_0000_0000) by (bit_vector);
                    Some((b & 0xFFFF_FFFF) as u32)
                } else {
                    None
                }
            },
            BitsInner::Long(_) => None,
        }
    }

    /// Byte `idx` of the bits, the least significant byte first.
    pub fn le_byte(&self, idx: usize) -> (r: u8)
        requires
            self.short_value() is Some,
            idx < 8,
        ensures
            r == (self.short_value()->0 >> (8 * idx) as u64) as u8,
    {
        match &self.inner {
            BitsInner::Short(_, bits) => (*bits >> (8 * idx as u64)) as u8,
            BitsInner::Long(_) => 0,
        }
    }

    /// Set the `num_ones` bits from bit `offset` on, as far as the pattern reaches. An offset
    /// beyond the pattern leaves it alone.
    pub fn bitor_ones(&mut self, offset: u32, num_ones: u32)
        requires
            old(self).wf(),
            num_ones < 64,
            offset <= old(self).num_bits_spec() ==> old(self).short_value() is Some,
        ensures
            final(self).wf(),
            final(self).num_bits_spec() == old(self).num_bits_spec(),
            offset > old(self).num_bits_spec() ==> *final(self) == *old(self),
            offset <= old(self).num_bits_spec() ==> final(self).short_value() == Some(
                old(self).short_value()->0 | ((((1u64 << num_ones as u64) - 1) as u64) << offset as u64
                    & ((1u64 << old(self).num_bits_spec() as u64) - 1) as u64),
            ),
    {
        if offset > self.num_bits() {
            return;
        }
        match &mut self.inner {
            BitsInner::Short(num_bits, bits) => {
                proof {
                    lemma_shift_one(num_ones as u64);
                    lemma_shift_one(*num_bits as u64);
                }
                let mask = (1u64 << num_ones) - 1;
                let mask = mask << offset;
                let mask = mask & (1u64 << *num_bits).wrapping_sub(1);
                *bits = *bits | mask;
            },
            BitsInner::Long(_) => {},
        }
    }

    /// Or the bits of `rhs` into the pattern from bit `offset` on, as far as the pattern reaches.
    /// An offset beyond the pattern leaves it alone.
    pub fn bitor_at(&mut self, offset: u32, rhs: &Self)
        requires
            old(self).wf(),
            offset <= old(self).num_bits_spec() ==> old(self).short_value() is Some
                && rhs.short_value() is Some,
        ensures
            final(self).wf(),
            final(self).num_bits_spec() == old(self).num_bits_spec(),
            offset > old(self).num_bits_spec() ==> *final(self) == *old(self),
            offset <= old(self).num_bits_spec() ==> final(self).short_value() == Some(
                old(self).short_value()->0 | (rhs.short_value()->0 << offset as u64 & ((1u64
                    << old(self).num_bits_spec() as u64) - 1) as u64),
            ),
    {
        if offset > self.num_bits() {
            return;
        }
        match (&mut self.inner, &rhs.inner) {
            (BitsInner::Short(num_bits, bits), BitsInner::Short(_, rhs_bits)) => {
                proof {
                    lemma_shift_one(*num_bits as u64);
                }
                let mask = *rhs_bits;
                let mask = mask << offset;
                let mask = mask & (1u64 << *num_bits).wrapping_sub(1);
                *bits = *bits | mask;
            },
            _ => {},
        }
    }
}

impl Bits {
    /// Whether two patterns have the same bits.
    pub open spec fn same_bits(&self, other: &Bits) -> bool {
        &&& self.num_bits_spec() == other.num_bits_spec()
        &&& self.short_value() == other.short_value()
        &&& self.cells() == other.cells()
        &&& self.wf() == other.wf()
    }
}

impl Bits {
    /// A pattern held in one word has no words of a longer pattern.
    pub proof fn lemma_short_has_no_cells(&self)
        ensures
            self.short_value() is Some ==> self.cells().len() == 0,
    {
    }
}

impl Clone for Bits {
    fn clone(&self) -> (r: Self)
        ensures
            r.same_bits(self),
    {
        match &self.inner {
            BitsInner::Short(n, bits) => Bits { inner: BitsInner::Short(*n, *bits) },
            BitsInner::Long(long) => {
                let mut content: Vec<u64> = Vec::new();
                let mut i: usize = 0;
                while i < long.content.len()
                    invariant
                        i <= long.content@.len(),
                        content@ == long.content@.take(i as int),
                    decreases long.content@.len() - i,
                {
                    content.push(long.content[i]);
                    i = i + 1;
                    proof {
                        assert(content@ =~= long.content@.take(i as int));
                    }
                }
                proof {
                    assert(long.content@.take(i as int) =~= long.content@);
                }
                Bits { inner: BitsInner::Long(Box::new(LongBits { content, num_bits: long.num_bits })) }
            },
        }
    }
}

impl BitsInner {
    /// Parse a bit pattern; see `Bits::try_from`.
    fn try_from(value: String) -> (r: Result<BitsInner, BitsParseError>)
        requires
            value@.len() <= u32::MAX,
        ensures
            digits(value@).len() <= 63 || parse_result(value@) is Err ==> match parse_result(value@) {
                Ok((n, v)) => (r matches Ok(BitsInner::Short(num_bits, bits)) && num_bits == n && bits == v && num_bits < 64),
                Err(e) => r == Err::<BitsInner, BitsParseError>(e),
            },
            digits(value@).len() > 63 && parse_result(value@) is Ok ==> (r matches Ok(BitsInner::Long(long))
                && long.num_bits == digits(value@).len()),
    {
        let s = value.as_str();
        let len = s.unicode_len();
        if len == 0 {
            return Err(BitsParseError::Empty);
        }
        if s.get_char(0) == '_' {
            return Err(BitsParseError::ExpectedBit('_'));
        }
        if s.get_char(len - 1) == '_' {
            return Err(BitsParseError::ExpectedBit('_'));
        }
        let ghost chars = s@;
        let mut num_bits: u32 = 0;
        let mut bits: u64 = 0;
        let mut i: usize = 0;
        proof {
            assert(chars.take(0) =~= Seq::<char>::empty());
            lemma_push_bit(0, 0, 0);
        }
        // The first 63 bits go into one word.
        let mut last: u64 = 0;
        loop
            invariant_except_break
                chars == s@,
                s@ == value@,
                chars.len() == len,
                len <= u32::MAX,
                len > 0,
                chars[0] != '_',
                chars.last() != '_',
                i <= len,
                num_bits < 64,
                num_bits as int == digits(chars.take(i as int)).len(),
                bits as int == binary_value(digits(chars.take(i as int))),
                bits < (1u64 << num_bits as u64),
                first_invalid(chars.take(i as int)) is None,
            ensures
                i <= len,
                num_bits == 63,
                first_invalid(chars.take(i as int)) is None,
                digits(chars.take(i as int)).len() == 64,
            decreases len - i,
        {
            if i == len {
                proof {
                    assert(chars.take(i as int) =~= chars);
                    assert(first_invalid(chars) is None);
                    assert(parse_result(chars) == Ok::<(nat, int), BitsParseError>((num_bits as nat, bits as int)));
                }
                return Ok(BitsInner::Short(num_bits, bits));
            }
            let c = s.get_char(i);
            proof {
                assert(chars.take(i + 1).drop_last() =~= chars.take(i as int));
                assert(chars.take(i + 1).last() == c);
            }
            i = i + 1;
            if c == '_' {
                continue;
            }
            if !(c == '0' || c == '1') {
                proof {
                    lemma_first_invalid_prefix(chars, i as int);
                }
                return Err(BitsParseError::ExpectedUnderscoreBit(c));
            }
            let bit: u64 = if c == '1' { 1 } else { 0 };
            if num_bits == 63 {
                last = bit;
                break;
            }
            proof {
                lemma_push_bit(bits, num_bits as u64, bit);
                let before = digits(chars.take(i - 1));
                assert(chars.take(i as int).drop_last() =~= chars.take(i - 1));
                assert(digits(chars.take(i as int)) == before.push(c));
                assert(before.push(c).drop_last() =~= before);
            }
            num_bits = num_bits + 1;
            bits = (bits << 1) | bit;
        }
        // A longer pattern is kept in words of 64 bits.
        let mut num_bits: u32 = 64;
        let mut content: Vec<u64> = Vec::new();
        content.push(bits);
        let mut bits: u64 = last;
        loop
            invariant
                chars == s@,
                s@ == value@,
                chars.len() == len,
                len <= u32::MAX,
                len > 0,
                chars[0] != '_',
                chars.last() != '_',
                i <= len,
                num_bits >= 64,
                num_bits as int == digits(chars.take(i as int)).len(),
                first_invalid(chars.take(i as int)) is None,
            decreases len - i,
        {
            if i == len {
                proof {
                    assert(chars.take(i as int) =~= chars);
                }
                content.push(bits);
                return Ok(BitsInner::Long(Box::new(LongBits { num_bits, content })));
            }
            let c = s.get_char(i);
            proof {
                assert(chars.take(i + 1).drop_last() =~= chars.take(i as int));
                assert(chars.take(i + 1).last() == c);
                lemma_digits_len(chars.take(i + 1));
            }
            i = i + 1;
            if c == '_' {
                continue;
            }
            if !(c == '0' || c == '1') {
                proof {
                    lemma_first_invalid_prefix(chars, i as int);
                }
                return Err(BitsParseError::ExpectedUnderscoreBit(c));
            }
            let bit: u64 = if c == '1' { 1 } else { 0 };
            num_bits = num_bits + 1;
            if num_bits % 64 == 0 {
                content.push(bits);
                bits = 0;
            }
            bits = (bits << 1) | bit;
        }
    }
}

/// There are no more digits than characters.
proof fn lemma_digits_len(s: Seq<char>)
    ensures
        digits(s).len() <= s.len(),
    decreases s.len(),
{
    if s.len() > 0 {
        lemma_digits_len(s.drop_last());
    }
}

/// Where the prefix of length `i` ends with the first character that may not stand in a pattern,
/// that character is the first such of the whole string.
proof fn lemma_first_invalid_prefix(s: Seq<char>, i: int)
    requires
        0 < i <= s.len(),
        first_invalid(s.take(i - 1)) is None,
        !is_pattern_char(s[i - 1]),
    ensures
        first_invalid(s) == Some(s[i - 1]),
    decreases s.len() - i,
{
    assert(s.take(i).drop_last() =~= s.take(i - 1));
    if i == s.len() {
        assert(s.take(i) =~= s);
    } else {
        lemma_first_invalid_extends(s, i);
    }
}

/// Once the prefix of length `i` holds an invalid character, every longer prefix reports the same.
proof fn lemma_first_invalid_extends(s: Seq<char>, i: int)
    requires
        0 < i <= s.len(),
        first_invalid(s.take(i)) is Some,
    ensures
        first_invalid(s) == first_invalid(s.take(i)),
    decreases s.len() - i,
{
    if i == s.len() {
        assert(s.take(i) =~= s);
    } else {
        assert(s.take(i + 1).drop_last() =~= s.take(i));
        lemma_first_invalid_extends(s, i + 1);
    }
}

/// The message of a parse error.
pub open spec fn parse_error_text(e: BitsParseError) -> Seq<char> {
    match e {
        BitsParseError::Empty => "Got an empty string"@,
        BitsParseError::ExpectedBit(c) => "Expected '0' or '1'. Got '"@ + seq![c] + "'"@,
        BitsParseError::ExpectedUnderscoreBit(c) => "Expected '0', '1' or '_'. Got '"@ + seq![c] + "'"@,
    }
}

impl BitsParseError {
    /// The message of the error.
    pub fn to_string(&self) -> (r: String)
        ensures
            r@ == parse_error_text(*self),
    {
        match self {
            BitsParseError::Empty => String::from_str("Got an empty string"),
            BitsParseError::ExpectedBit(c) => {
                let mut r = String::from_str("Expected '0' or '1'. Got '");
                crate::digits::push_char(&mut r, *c);
                r.append("'");
                r
            },
            BitsParseError::ExpectedUnderscoreBit(c) => {
                let mut r = String::from_str("Expected '0', '1' or '_'. Got '");
                crate::digits::push_char(&mut r, *c);
                r.append("'");
                r
            },
        }
    }
}

/// The debugging text of a pattern of `n` bits held in one word: `bits<n>(...)` with the bits
/// in upper case hexadecimal where they fill more than two whole hexadecimal digits, in binary
/// otherwise, padded with zeros to the length of the pattern.
pub open spec fn debug_text(n: nat, value: u64) -> Seq<char> {
    "bits<"@ + crate::digits::digits(n, 10) + ">("@ + if n % 4 == 0 && n > 8 {
        crate::digits::zero_padded(crate::digits::upper_hex_digits(value as nat), n / 4)
    } else {
        crate::digits::zero_padded(crate::digits::digits(value as nat, 2), n)
    } + ")"@
}

impl Bits {
    /// The debugging text of a pattern held in one word.
    pub fn debug_string(&self) -> (r: String)
        requires
            self.short_value() is Some,
        ensures
            r@ == debug_text(self.num_bits_spec(), self.short_value()->0),
    {
        match &self.inner {
            BitsInner::Short(n, bits) => {
                let n = *n;
                let mut r = String::from_str("bits<");
                crate::digits::push_digits(&mut r, n as u64, 10);
                r.append(">(");
                let mut text = String::new();
                if n % 4 == 0 && n > 8 {
                    crate::digits::push_upper_hex_digits(&mut text, *bits);
                    crate::digits::push_zero_padded(&mut r, text.as_str(), (n / 4) as usize);
                } else {
                    crate::digits::push_digits(&mut text, *bits, 2);
                    crate::digits::push_zero_padded(&mut r, text.as_str(), n as usize);
                }
                r.append(")");
                proof {
                    assert(r@ =~= debug_text(self.num_bits_spec(), self.short_value()->0));
                }
                r
            },
            BitsInner::Long(_) => {
                proof {
                    assert(false);
                }
                String::new()
            },
        }
    }
}

} // verus!
