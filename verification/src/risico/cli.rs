//! Values given on the emulator's command line: numbers, trap causes to abort on, the handling
//! of environment calls and the logging topics.
use vstd::prelude::*;
use vstd::string::StringExecFns;

use super::trap::TrapBehavior;
use crate::digits::push_char;
use crate::kiwi::to_result::str_eq;

verus! {

/// How environment calls are handled.
#[derive(Debug, Clone, Copy, PartialEq, Eq, Structural)]
pub enum ECallBehavior {
    TrapVector,
    Linux,
    Testing,
}

/// Which logging to perform.
#[derive(Debug, Clone, Copy, PartialEq, Eq, Structural)]
pub struct LoggingConfiguration {
    pub show_instructions: bool,
    pub show_cycles: bool,
}

impl Default for LoggingConfiguration {
    fn default() -> (r: Self)
        ensures
            !r.show_instructions,
            !r.show_cycles,
    {
        Self { show_instructions: false, show_cycles: false }
    }
}

/// The flags of a run of a raw image.
#[derive(Debug)]
pub struct RawImageFlags {
    pub entry: u32,
}

impl Default for RawImageFlags {
    fn default() -> (r: Self)
        ensures
            r.entry == 0,
    {
        Self { entry: 0 }
    }
}

impl RawImageFlags {
    /// The entry address.
    pub fn entry(&self) -> (r: u32)
        ensures
            r == self.entry,
    {
        self.entry
    }
}

/// The value of the digit `c` in base `radix` (10 or 16, letters in either case), if it is one.
pub open spec fn digit_value(c: char, radix: nat) -> Option<nat> {
    if '0' <= c <= '9' {
        Some((c as nat - 48) as nat)
    } else if radix == 16 && 'a' <= c <= 'f' {
        Some((c as nat - 87) as nat)
    } else if radix == 16 && 'A' <= c <= 'F' {
        Some((c as nat - 55) as nat)
    } else {
        None
    }
}

/// Whether every character of `d` is a digit in base `radix`.
pub open spec fn all_digits(d: Seq<char>, radix: nat) -> bool {
    forall|i: int| 0 <= i < d.len() ==> #[trigger] digit_value(d[i], radix) is Some
}

/// The number that the digits `d` stand for in base `radix`, the most significant first.
pub open spec fn digits_value(d: Seq<char>, radix: nat) -> nat
    decreases d.len(),
{
    if d.len() == 0 {
        0
    } else {
        digits_value(d.drop_last(), radix) * radix + digit_value(d.last(), radix).unwrap()
    }
}

/// `s` without the `+` in front, if there is one.
pub open spec fn unsigned_digits(s: Seq<char>) -> Seq<char> {
    if s.len() > 0 && s[0] == '+' {
        s.drop_first()
    } else {
        s
    }
}

/// The number that `s` stands for in base `radix`, as the standard library reads an unsigned
/// integer: an optional `+`, then at least one digit, and a value that fits in a `u32`.
pub open spec fn parsed_u32(s: Seq<char>, radix: nat) -> Option<u32> {
    let d = unsigned_digits(s);
    if d.len() > 0 && all_digits(d, radix) && digits_value(d, radix) <= u32::MAX {
        Some(digits_value(d, radix) as u32)
    } else {
        None
    }
}

/// A number given on the command line: hexadecimal after `0x`, decimal otherwise.
pub open spec fn parse_u32_spec(s: Seq<char>) -> Option<u32> {
    if s.len() >= 2 && s[0] == '0' && s[1] == 'x' {
        parsed_u32(s.skip(2), 16)
    } else {
        parsed_u32(s, 10)
    }
}

/// The digits that a number is written with read back as that number, each a digit of the base.
proof fn lemma_digits_read_back(n: nat, base: nat)
    requires
        base == 10 || base == 16,
    ensures
        all_digits(crate::digits::digits(n, base), base),
        digits_value(crate::digits::digits(n, base), base) == n,
        crate::digits::digits(n, base).len() > 0,
    decreases n,
{
    let s = crate::digits::digits(n, base);
    if n < base {
        assert(s == seq![crate::digits::digit_char(n)]);
        assert(s.drop_last() =~= Seq::<char>::empty());
        assert(digit_value(s[0], base) == Some(n));
        assert(digits_value(Seq::<char>::empty(), base) == 0);
        assert(0 * base == 0);
    } else {
        crate::digits::lemma_quotient_smaller(n, base);
        lemma_digits_read_back(n / base, base);
        let d = n % base;
        let front = crate::digits::digits(n / base, base);
        assert(s == front.push(crate::digits::digit_char(d)));
        assert(s.drop_last() =~= front);
        assert(digit_value(crate::digits::digit_char(d), base) == Some(d));
        assert forall|i: int| 0 <= i < s.len() implies #[trigger] digit_value(s[i], base) is Some by {
            if i < s.len() - 1 {
                assert(s[i] == front[i]);
            }
        }
        assert(n == (n / base) * base + d) by (nonlinear_arith)
            requires
                base >= 2,
                d == n % base,
        ;
    }
}

/// A number written in decimal, or in hexadecimal after `0x`, is read back as that number.
pub proof fn law_parse_printed(n: u32)
    ensures
        parse_u32_spec(crate::digits::digits(n as nat, 10)) == Some(n),
        parse_u32_spec(seq!['0', 'x'] + crate::digits::digits(n as nat, 16)) == Some(n),
{
    lemma_digits_read_back(n as nat, 10);
    lemma_digits_read_back(n as nat, 16);
    let dec = crate::digits::digits(n as nat, 10);
    let hex = crate::digits::digits(n as nat, 16);
    let s = seq!['0', 'x'] + hex;
    assert(s.skip(2) =~= hex);
    assert(digit_value(dec[0], 10) is Some);
    assert(dec[0] != '+');
    assert(hex[0] != '+') by {
        assert(digit_value(hex[0], 16) is Some);
    }
    if dec.len() >= 2 {
        assert(digit_value(dec[1], 10) is Some);
        assert(dec[1] != 'x');
    }
}

/// The digits of a longer run stand for at least the number of its first part.
proof fn lemma_digits_value_grows(d: Seq<char>, radix: nat, n: int)
    requires
        radix >= 1,
        0 <= n <= d.len(),
        all_digits(d, radix),
    ensures
        digits_value(d.take(n), radix) <= digits_value(d, radix),
    decreases d.len() - n,
{
    if n < d.len() {
        lemma_digits_value_grows(d, radix, n + 1);
        assert(d.take(n + 1).drop_last() =~= d.take(n));
        let v = digits_value(d.take(n), radix);
        assert(v <= v * radix) by (nonlinear_arith)
            requires
                radix >= 1,
        ;
    } else {
        assert(d.take(n) =~= d);
    }
}

/// The value of the digit `c` in base `radix`.
fn digit_of(c: char, radix: u32) -> (r: Option<u32>)
    requires
        radix == 10 || radix == 16,
    ensures
        match digit_value(c, radix as nat) {
            Some(v) => r == Some(v as u32),
            None => r is None,
        },
{
    if '0' <= c && c <= '9' {
        Some((c as u32) - 48)
    } else if radix == 16 && 'a' <= c && c <= 'f' {
        Some((c as u32) - 87)
    } else if radix == 16 && 'A' <= c && c <= 'F' {
        Some((c as u32) - 55)
    } else {
        None
    }
}

/// The number that `s` stands for in base `radix`.
fn parse_radix(s: &str, radix: u32) -> (r: Option<u32>)
    requires
        radix == 10 || radix == 16,
    ensures
        r == parsed_u32(s@, radix as nat),
{
    let n = s.unicode_len();
    let mut i: usize = 0;
    if n > 0 && s.get_char(0) == '+' {
        i = 1;
    }
    let ghost d = unsigned_digits(s@);
    let start = i;
    if start == n {
        return None;
    }
    let mut value: u64 = 0;
    while i < n
        invariant
            n == s@.len(),
            start <= i <= n,
            start < n,
            radix == 10 || radix == 16,
            d == s@.skip(start as int),
            d == unsigned_digits(s@),
            all_digits(s@.subrange(start as int, i as int), radix as nat),
            value == digits_value(s@.subrange(start as int, i as int), radix as nat),
            value <= u32::MAX,
        decreases n - i,
    {
        let c = s.get_char(i);
        let digit = match digit_of(c, radix) {
            Some(v) => v,
            None => {
                proof {
                    assert(d[i - start] == c);
                    assert(digit_value(d[i - start], radix as nat) is None);
                    assert(!all_digits(d, radix as nat));
                }
                return None;
            },
        };
        let ghost prefix = s@.subrange(start as int, i + 1);
        proof {
            assert(prefix.drop_last() =~= s@.subrange(start as int, i as int));
            assert(all_digits(prefix, radix as nat));
        }
        proof {
            assert(digit < 16);
            assert(value * (radix as u64) <= 16 * 0xFFFF_FFFF) by (nonlinear_arith)
                requires
                    value <= 0xFFFF_FFFF,
                    radix <= 16,
            ;
        }
        let next = value * (radix as u64) + (digit as u64);
        proof {
            assert(prefix.last() == c);
            assert(digits_value(prefix, radix as nat) == next);
        }
        if next > 0xFFFF_FFFF {
            proof {
                assert(prefix =~= d.take(i + 1 - start));
                if all_digits(d, radix as nat) {
                    lemma_digits_value_grows(d, radix as nat, i + 1 - start);
                }
            }
            return None;
        }
        value = next;
        i = i + 1;
    }
    proof {
        assert(s@.subrange(start as int, n as int) =~= d);
    }
    Some(value as u32)
}

/// A number given on the command line: hexadecimal after `0x`, decimal otherwise. `None` where
/// it is no number or does not fit in a `u32`.
pub fn parse_u32(s: &str) -> (r: Option<u32>)
    ensures
        r == parse_u32_spec(s@),
{
    let n = s.unicode_len();
    if n >= 2 && s.get_char(0) == '0' && s.get_char(1) == 'x' {
        let rest = s.substring_char(2, n);
        proof {
            assert(rest@ =~= s@.skip(2));
        }
        parse_radix(rest, 16)
    } else {
        parse_radix(s, 10)
    }
}

/// The trap cause names, in the order in which an error lists them.
pub open spec fn trap_cause_names() -> Seq<Seq<char>> {
    seq![
        "all"@,
        "ecall"@,
        "instr_misaligned"@,
        "instr_access_fault"@,
        "illegal_instr"@,
        "breakpoint"@,
        "load_misaligned"@,
        "load_access_fault"@,
        "store_amo_misaligned"@,
        "store_amo_access_fault"@,
        "smode_ecall"@,
        "umode_ecall"@,
        "mmode_ecall"@,
        "instr_page_fault"@,
        "load_page_fault"@,
        "store_amo_page_fault"@,
        "missing_csr"@,
    ]
}

/// The traps to abort on for each trap cause name, in the order of `trap_cause_names`.
pub open spec fn trap_cause_values() -> Seq<u32> {
    seq![
        0xFFFFu32,
        0xB00u32,
        0x1u32,
        0x2u32,
        0x4u32,
        0x8u32,
        0x10u32,
        0x20u32,
        0x40u32,
        0x80u32,
        0x200u32,
        0x100u32,
        0x800u32,
        0x1000u32,
        0x2000u32,
        0x8000u32,
        0x10000u32,
    ]
}

/// The error for a trap cause name that is not known.
pub open spec fn trap_cause_error(s: Seq<char>) -> Seq<char> {
    "Invalid trap cause specifier '"@ + s + "'. Allowed values: "@
        + "all, ecall, instr_misaligned, instr_access_fault, illegal_instr, breakpoint, load_misaligned, load_access_fault, store_amo_misaligned, store_amo_access_fault, smode_ecall, umode_ecall, mmode_ecall, instr_page_fault, load_page_fault, store_amo_page_fault, missing_csr"@
}

/// The traps to abort on for a trap cause name, or the error that lists the names.
pub fn parse_trap_cause(s: &str) -> (r: Result<TrapBehavior, String>)
    ensures
        match r {
            Ok(t) => exists|i: int|
                0 <= i < trap_cause_names().len() && #[trigger] trap_cause_names()[i] == s@ && t@
                    == trap_cause_values()[i],
            Err(e) => (forall|i: int| 0 <= i < trap_cause_names().len() ==> #[trigger] trap_cause_names()[i] != s@)
                && e@ == trap_cause_error(s@),
        },
{
    let names: [&str; 17] = [
        "all",
        "ecall",
        "instr_misaligned",
        "instr_access_fault",
        "illegal_instr",
        "breakpoint",
        "load_misaligned",
        "load_access_fault",
        "store_amo_misaligned",
        "store_amo_access_fault",
        "smode_ecall",
        "umode_ecall",
        "mmode_ecall",
        "instr_page_fault",
        "load_page_fault",
        "store_amo_page_fault",
        "missing_csr",
    ];
    let values: [u32; 17] = [
        0xFFFF,
        0xB00,
        0x1,
        0x2,
        0x4,
        0x8,
        0x10,
        0x20,
        0x40,
        0x80,
        0x200,
        0x100,
        0x800,
        0x1000,
        0x2000,
        0x8000,
        0x10000,
    ];
    proof {
        assert(names@.map_values(|n: &str| n@) =~= trap_cause_names());
        assert(values@ =~= trap_cause_values());
    }
    let mut i: usize = 0;
    while i < 17
        invariant
            i <= 17,
            names@.map_values(|n: &str| n@) == trap_cause_names(),
            values@ == trap_cause_values(),
            forall|j: int| 0 <= j < i ==> #[trigger] trap_cause_names()[j] != s@,
        decreases 17 - i,
    {
        proof {
            assert(names@.map_values(|n: &str| n@)[i as int] == names@[i as int]@);
        }
        if str_eq(names[i], s) {
            return Ok(TrapBehavior::from_bits(values[i]));
        }
        i = i + 1;
    }
    let mut e = String::from_str("Invalid trap cause specifier '");
    e.append(s);
    e.append("'. Allowed values: ");
    e.append(
        "all, ecall, instr_misaligned, instr_access_fault, illegal_instr, breakpoint, load_misaligned, load_access_fault, store_amo_misaligned, store_amo_access_fault, smode_ecall, umode_ecall, mmode_ecall, instr_page_fault, load_page_fault, store_amo_page_fault, missing_csr",
    );
    Err(e)
}

/// Whether `c` is white space in the sense of Unicode, as the standard library's `trim` reads it.
pub open spec fn is_white_space(c: char) -> bool {
    let v = c as u32;
    ||| 0x9 <= v <= 0xD
    ||| v == 0x20
    ||| v == 0x85
    ||| v == 0xA0
    ||| v == 0x1680
    ||| 0x2000 <= v <= 0x200A
    ||| v == 0x2028
    ||| v == 0x2029
    ||| v == 0x202F
    ||| v == 0x205F
    ||| v == 0x3000
}

/// `s` without the white space in front.
pub open spec fn trim_start(s: Seq<char>) -> Seq<char>
    decreases s.len(),
{
    if s.len() > 0 && is_white_space(s[0]) {
        trim_start(s.drop_first())
    } else {
        s
    }
}

/// `s` without the white space at its end.
pub open spec fn trim_end(s: Seq<char>) -> Seq<char>
    decreases s.len(),
{
    if s.len() > 0 && is_white_space(s.last()) {
        trim_end(s.drop_last())
    } else {
        s
    }
}

/// `s` without white space in front or at its end.
pub open spec fn trimmed(s: Seq<char>) -> Seq<char> {
    trim_end(trim_start(s))
}

/// Whether `c` is white space.
fn white_space(c: char) -> (b: bool)
    ensures
        b == is_white_space(c),
{
    let v = c as u32;
    (0x9 <= v && v <= 0xD) || v == 0x20 || v == 0x85 || v == 0xA0 || v == 0x1680 || (0x2000 <= v && v <= 0x200A)
        || v == 0x2028 || v == 0x2029 || v == 0x202F || v == 0x205F || v == 0x3000
}

/// `s` without white space in front or at its end.
pub fn trim(s: &str) -> (r: String)
    ensures
        r@ == trimmed(s@),
{
    let n = s.unicode_len();
    let mut a: usize = 0;
    proof {
        assert(s@.skip(0) =~= s@);
    }
    while a < n && white_space(s.get_char(a))
        invariant
            n == s@.len(),
            a <= n,
            trim_start(s@) == trim_start(s@.skip(a as int)),
        decreases n - a,
    {
        proof {
            assert(s@.skip(a as int).drop_first() =~= s@.skip(a + 1));
        }
        a = a + 1;
    }
    let ghost t = s@.skip(a as int);
    proof {
        assert(trim_start(s@) == t);
    }
    let mut b: usize = n;
    proof {
        assert(t.take((b - a) as int) =~= t);
    }
    while b > a && white_space(s.get_char(b - 1))
        invariant
            n == s@.len(),
            a <= b <= n,
            t == s@.skip(a as int),
            trim_end(t) == trim_end(t.take((b - a) as int)),
        decreases b,
    {
        proof {
            assert(t.take((b - a) as int).drop_last() =~= t.take((b - 1 - a) as int));
            assert(t.take((b - a) as int).last() == s@[b - 1]);
        }
        b = b - 1;
    }
    let r = s.substring_char(a, b);
    let mut out = String::new();
    out.append(r);
    proof {
        assert(t.take((b - a) as int) =~= s@.subrange(a as int, b as int));
        assert(out@ =~= trimmed(s@));
    }
    out
}

/// The handling of environment calls named by `s`, white space around it ignored.
pub open spec fn ecall_behavior_spec(s: Seq<char>) -> Option<ECallBehavior> {
    let t = trimmed(s);
    if t == "testing"@ {
        Some(ECallBehavior::Testing)
    } else if t == "linux"@ {
        Some(ECallBehavior::Linux)
    } else if t == "trapvec"@ {
        Some(ECallBehavior::TrapVector)
    } else {
        None
    }
}

/// The handling of environment calls named on the command line.
pub fn parse_ecall_behavior(s: &str) -> (r: Option<ECallBehavior>)
    ensures
        r == ecall_behavior_spec(s@),
{
    let t = trim(s);
    if str_eq(t.as_str(), "testing") {
        Some(ECallBehavior::Testing)
    } else if str_eq(t.as_str(), "linux") {
        Some(ECallBehavior::Linux)
    } else if str_eq(t.as_str(), "trapvec") {
        Some(ECallBehavior::TrapVector)
    } else {
        None
    }
}

/// The pieces of `s` between its commas, in order; without commas, `s` itself.
pub open spec fn split_commas(s: Seq<char>) -> Seq<Seq<char>>
    decreases s.len(),
{
    if s.len() == 0 {
        seq![Seq::empty()]
    } else {
        let parts = split_commas(s.drop_last());
        if s.last() == ',' {
            parts.push(Seq::empty())
        } else {
            parts.update(parts.len() - 1, parts.last().push(s.last()))
        }
    }
}

/// There is always at least one piece.
proof fn lemma_split_commas_len(s: Seq<char>)
    ensures
        split_commas(s).len() >= 1,
    decreases s.len(),
{
    if s.len() > 0 {
        lemma_split_commas_len(s.drop_last());
    }
}

/// The logging topics set by the items, the first that names no topic making it `None`.
pub open spec fn logging_items(items: Seq<Seq<char>>) -> Option<(bool, bool)>
    decreases items.len(),
{
    if items.len() == 0 {
        Some((false, false))
    } else {
        match logging_items(items.drop_last()) {
            None => None,
            Some((instructions, cycles)) => {
                let t = trimmed(items.last());
                if t == "i"@ || t == "instruction"@ {
                    Some((true, cycles))
                } else if t == "c"@ || t == "cycles"@ {
                    Some((instructions, true))
                } else {
                    None
                }
            },
        }
    }
}

/// Where the items up to `k` name an unknown topic, all of them do.
proof fn lemma_logging_items_none(items: Seq<Seq<char>>, k: int)
    requires
        0 <= k <= items.len(),
        logging_items(items.take(k)) is None,
    ensures
        logging_items(items) is None,
    decreases items.len() - k,
{
    if k < items.len() {
        assert(items.take(k + 1).drop_last() =~= items.take(k));
        lemma_logging_items_none(items, k + 1);
    } else {
        assert(items.take(k) =~= items);
    }
}

/// The pieces of `s` between its commas.
fn split_on_commas(s: &str) -> (r: Vec<String>)
    ensures
        r@.map_values(|x: String| x@) == split_commas(s@),
{
    let n = s.unicode_len();
    let mut items: Vec<String> = Vec::new();
    let mut cur = String::new();
    let mut k: usize = 0;
    proof {
        assert(s@.take(0) =~= Seq::<char>::empty());
        assert(items@.map_values(|x: String| x@).push(cur@) =~= split_commas(s@.take(0)));
    }
    while k < n
        invariant
            n == s@.len(),
            k <= n,
            items@.map_values(|x: String| x@).push(cur@) == split_commas(s@.take(k as int)),
        decreases n - k,
    {
        let c = s.get_char(k);
        let ghost before = items@.map_values(|x: String| x@).push(cur@);
        proof {
            assert(s@.take(k + 1).drop_last() =~= s@.take(k as int));
            assert(s@.take(k + 1).last() == c);
        }
        if c == ',' {
            items.push(cur);
            cur = String::new();
            proof {
                assert(items@.map_values(|x: String| x@).push(cur@) =~= before.push(Seq::empty()));
            }
        } else {
            push_char(&mut cur, c);
            proof {
                assert(items@.map_values(|x: String| x@).push(cur@) =~= before.update(
                    before.len() - 1,
                    before.last().push(c),
                ));
            }
        }
        k = k + 1;
    }
    proof {
        assert(s@.take(n as int) =~= s@);
    }
    items.push(cur);
    proof {
        assert(items@.map_values(|x: String| x@) =~= split_commas(s@));
    }
    items
}

/// The logging topics named on the command line, separated by commas: `i` or `instruction`,
/// `c` or `cycles`. `None` where an item names no topic.
pub fn parse_logging_config(s: &str) -> (r: Option<LoggingConfiguration>)
    ensures
        match logging_items(split_commas(s@)) {
            Some((instructions, cycles)) => r == Some(
                LoggingConfiguration { show_instructions: instructions, show_cycles: cycles },
            ),
            None => r is None,
        },
{
    let items = split_on_commas(s);
    let ghost all = items@.map_values(|x: String| x@);
    let mut config = LoggingConfiguration::default();
    let mut j: usize = 0;
    proof {
        assert(all.take(0) =~= Seq::<Seq<char>>::empty());
    }
    while j < items.len()
        invariant
            j <= items@.len(),
            all == items@.map_values(|x: String| x@),
            all == split_commas(s@),
            logging_items(all.take(j as int)) == Some((config.show_instructions, config.show_cycles)),
        decreases items@.len() - j,
    {
        let t = trim(items[j].as_str());
        proof {
            assert(all.take(j + 1).drop_last() =~= all.take(j as int));
            assert(all.take(j + 1).last() == items@[j as int]@);
        }
        if str_eq(t.as_str(), "i") || str_eq(t.as_str(), "instruction") {
            config.show_instructions = true;
        } else if str_eq(t.as_str(), "c") || str_eq(t.as_str(), "cycles") {
            config.show_cycles = true;
        } else {
            proof {
                lemma_logging_items_none(all, j + 1);
            }
            return None;
        }
        j = j + 1;
    }
    proof {
        assert(all.take(j as int) =~= all);
    }
    Some(config)
}

} // verus!
