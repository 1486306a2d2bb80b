//! Numbers written out as text: digits in a base, signed decimals and zero padding.
use vstd::prelude::*;

verus! {

/// The character of the digit `d`: `0` to `9`, then `a` to `f`.
pub open spec fn digit_char(d: nat) -> char {
    if d < 10 {
        (48 + d) as char
    } else {
        (87 + d) as char
    }
}

/// The digits of `n` in base `base`, the most significant first, without leading zeros (zero is
/// the one digit `0`).
pub open spec fn digits(n: nat, base: nat) -> Seq<char>
    decreases n,
{
    if base < 2 || n < base {
        seq![digit_char(n)]
    } else {
        proof {
            lemma_quotient_smaller(n, base);
        }
        digits(n / base, base).push(digit_char(n % base))
    }
}

/// Dividing by a base of at least two makes a number of at least the base smaller.
pub proof fn lemma_quotient_smaller(n: nat, base: nat)
    requires
        base >= 2,
        n >= base,
    ensures
        n / base < n,
{
    assert(n / base < n) by (nonlinear_arith)
        requires
            base >= 2,
            n >= base,
    ;
}

/// The value of a digit character: `0` to `9` stand for 0 to 9, `a` to `z` and `A` to `Z` for 10
/// on.
pub open spec fn char_value(c: char) -> int {
    if '0' <= c && c <= '9' {
        c as int - '0' as int
    } else if 'A' <= c && c <= 'Z' {
        c as int - 'A' as int + 10
    } else {
        c as int - 'a' as int + 10
    }
}

/// The number that the digit characters `s` stand for in base `base`, the most significant
/// first.
pub open spec fn value_in_base(s: Seq<char>, base: nat) -> int
    decreases s.len(),
{
    if s.len() == 0 {
        0
    } else {
        value_in_base(s.drop_last(), base) * base + char_value(s.last())
    }
}

/// The digits of a number in a base from 2 to 16 stand for the number in that base: read back,
/// they give the number; each is a digit below the base; the first is not zero unless the number
/// is.
pub proof fn law_digits_value(n: nat, base: nat)
    requires
        2 <= base <= 16,
    ensures
        value_in_base(digits(n, base), base) == n,
        forall|i: int| 0 <= i < digits(n, base).len() ==> 0 <= #[trigger] char_value(digits(n, base)[i]) < base,
        digits(n, base).len() >= 1,
        n > 0 ==> char_value(digits(n, base)[0]) > 0,
    decreases n,
{
    if n < base {
        assert(digits(n, base) == seq![digit_char(n)]);
        assert(seq![digit_char(n)].drop_last() =~= Seq::<char>::empty());
        assert(char_value(digit_char(n)) == n);
        assert(value_in_base(seq![digit_char(n)], base) == value_in_base(Seq::<char>::empty(), base) * base + char_value(digit_char(n)));
        assert(value_in_base(Seq::<char>::empty(), base) == 0);
        assert(0 * base == 0);
        assert(value_in_base(digits(n, base), base) == n);
    } else {
        lemma_quotient_smaller(n, base);
        law_digits_value(n / base, base);
        let d = n % base;
        let front = digits(n / base, base);
        assert(digits(n, base) == front.push(digit_char(d)));
        assert(front.push(digit_char(d)).drop_last() =~= front);
        assert(n == (n / base) * base + d) by (nonlinear_arith)
            requires
                base >= 2,
                d == n % base,
        ;
        assert(n / base > 0) by (nonlinear_arith)
            requires
                base >= 2,
                n >= base,
        ;
        assert(front.push(digit_char(d))[0] == front[0]);
        assert(char_value(digit_char(d)) == d);
        assert(value_in_base(front.push(digit_char(d)), base) == value_in_base(front, base) * base + d);
        assert(value_in_base(front, base) * base == (n / base) * base);
        assert(value_in_base(digits(n, base), base) == n);
    }
}

/// `n` in decimal, with a minus sign in front where it is negative.
pub open spec fn signed_decimal(n: int) -> Seq<char> {
    if n < 0 {
        seq!['-'] + digits((-n) as nat, 10)
    } else {
        digits(n as nat, 10)
    }
}

/// `s` with zeros in front up to `width` characters.
pub open spec fn zero_padded(s: Seq<char>, width: nat) -> Seq<char> {
    if s.len() < width {
        Seq::new((width - s.len()) as nat, |i: int| '0') + s
    } else {
        s
    }
}

/// A signed decimal is a minus sign exactly for a negative number, followed by the decimal
/// digits of the number's magnitude.
pub proof fn law_signed_decimal(n: int)
    ensures
        (signed_decimal(n)[0] == '-') == (n < 0),
        value_in_base(if n < 0 { signed_decimal(n).drop_first() } else { signed_decimal(n) }, 10) == if n < 0 { -n } else { n },
{
    if n < 0 {
        law_digits_value((-n) as nat, 10);
        assert((seq!['-'] + digits((-n) as nat, 10)).drop_first() =~= digits((-n) as nat, 10));
    } else {
        law_digits_value(n as nat, 10);
        assert(char_value(digits(n as nat, 10)[0]) >= 0);
        assert(digits(n as nat, 10)[0] != '-');
    }
}

/// Zero padding keeps the number that digits stand for and gives at least `width` characters.
pub proof fn law_zero_padded(s: Seq<char>, width: nat, base: nat)
    ensures
        value_in_base(zero_padded(s, width), base) == value_in_base(s, base),
        zero_padded(s, width).len() >= width,
        zero_padded(s, width).len() >= s.len(),
{
    if s.len() < width {
        lemma_leading_zeros(s, (width - s.len()) as nat, base);
    }
}

/// Zeros in front of digits do not change the number they stand for.
proof fn lemma_leading_zeros(s: Seq<char>, k: nat, base: nat)
    ensures
        value_in_base(Seq::new(k, |i: int| '0') + s, base) == value_in_base(s, base),
    decreases s.len(),
{
    let z = Seq::new(k, |i: int| '0');
    if s.len() == 0 {
        lemma_zeros_value(k, base);
        assert(z + s =~= z);
    } else {
        lemma_leading_zeros(s.drop_last(), k, base);
        assert((z + s).drop_last() =~= z + s.drop_last());
        assert((z + s).last() == s.last());
    }
}

/// Zeros alone stand for zero.
proof fn lemma_zeros_value(k: nat, base: nat)
    ensures
        value_in_base(Seq::new(k, |i: int| '0'), base) == 0,
    decreases k,
{
    if k > 0 {
        lemma_zeros_value((k - 1) as nat, base);
        assert(Seq::new(k, |i: int| '0').drop_last() =~= Seq::new((k - 1) as nat, |i: int| '0'));
        assert(0 * base == 0);
    }
}

/// `n` copies of `c`.
pub open spec fn repeated(c: char, n: nat) -> Seq<char> {
    Seq::new(n, |i: int| c)
}

/// Append `c` to `s` with the standard library's `String::push`, which is taken to give the
/// text before with `c` at its end.
#[verifier::external_body]
pub(crate) fn push_char(s: &mut String, c: char)
    ensures
        final(s)@ == old(s)@.push(c),
{
    s.push(c);
}

/// The character of the digit `d`.
fn digit_of(d: u64) -> (c: char)
    requires
        d < 16,
    ensures
        c == digit_char(d as nat),
{
    if d < 10 {
        ((48 + d) as u8) as char
    } else {
        ((87 + d) as u8) as char
    }
}

/// Append the digits of `n` in base `base` to `out`.
pub fn push_digits(out: &mut String, n: u64, base: u64)
    requires
        2 <= base <= 16,
    ensures
        final(out)@ == old(out)@ + digits(n as nat, base as nat),
    decreases n,
{
    let ghost before = old(out)@;
    if n >= base {
        proof {
            lemma_quotient_smaller(n as nat, base as nat);
        }
        push_digits(out, n / base, base);
    }
    let ghost middle = out@;
    let c = digit_of(n % base);
    push_char(out, c);
    proof {
        if n >= base {
            assert(middle == before + digits((n / base) as nat, base as nat));
            assert(digits(n as nat, base as nat) == digits((n / base) as nat, base as nat).push(c));
        } else {
            assert(middle == before);
            vstd::arithmetic::div_mod::lemma_small_mod(n as nat, base as nat);
            assert(digits(n as nat, base as nat) == seq![c]);
        }
        assert(out@ =~= before + digits(n as nat, base as nat));
    }
}

/// Append `n` in decimal to `out`, with a minus sign in front where it is negative.
pub fn push_signed_decimal(out: &mut String, n: i64)
    ensures
        final(out)@ == old(out)@ + signed_decimal(n as int),
{
    let ghost before = old(out)@;
    if n < 0 {
        push_char(out, '-');
        let magnitude: u64 = if n == i64::MIN { 0x8000_0000_0000_0000u64 } else { (-n) as u64 };
        push_digits(out, magnitude, 10);
        proof {
            assert(out@ =~= before + signed_decimal(n as int));
        }
    } else {
        push_digits(out, n as u64, 10);
    }
}

/// Append the digits of `n` in base `base` to `out`, with zeros in front up to `width` digits.
pub fn push_padded_digits(out: &mut String, n: u64, base: u64, width: usize)
    requires
        2 <= base <= 16,
    ensures
        final(out)@ == old(out)@ + zero_padded(digits(n as nat, base as nat), width as nat),
{
    let mut text = String::new();
    push_digits(&mut text, n, base);
    proof {
        assert(text@ =~= digits(n as nat, base as nat));
    }
    push_zero_padded(out, text.as_str(), width);
}

/// Append `n` copies of `c` to `out`.
pub fn push_repeated(out: &mut String, c: char, n: usize)
    ensures
        final(out)@ == old(out)@ + repeated(c, n as nat),
{
    let ghost before = old(out)@;
    let mut i: usize = 0;
    while i < n
        invariant
            i <= n,
            out@ == before + repeated(c, i as nat),
        decreases n - i,
    {
        push_char(out, c);
        proof {
            assert(repeated(c, i as nat).push(c) =~= repeated(c, (i + 1) as nat));
        }
        i = i + 1;
    }
}

/// The character of the digit `d`: `0` to `9`, then `A` to `F`.
pub open spec fn upper_digit_char(d: nat) -> char {
    if d < 10 {
        (48 + d) as char
    } else {
        (55 + d) as char
    }
}

/// The hexadecimal digits of `n` in upper case, the most significant first, without leading
/// zeros.
pub open spec fn upper_hex_digits(n: nat) -> Seq<char>
    decreases n,
{
    if n < 16 {
        seq![upper_digit_char(n)]
    } else {
        upper_hex_digits(n / 16).push(upper_digit_char(n % 16))
    }
}

/// The upper case hexadecimal digits of a number stand for the number in base 16, each a digit
/// below 16, written with `0` to `9` and `A` to `F`.
pub proof fn law_upper_hex_value(n: nat)
    ensures
        value_in_base(upper_hex_digits(n), 16) == n,
        forall|i: int| 0 <= i < upper_hex_digits(n).len() ==> 0 <= #[trigger] char_value(upper_hex_digits(n)[i]) < 16
            && (upper_hex_digits(n)[i] <= '9' || 'A' <= upper_hex_digits(n)[i] <= 'F'),
    decreases n,
{
    if n < 16 {
        assert(seq![upper_digit_char(n)].drop_last() =~= Seq::<char>::empty());
        assert(char_value(upper_digit_char(n)) == n);
        assert(value_in_base(Seq::<char>::empty(), 16) == 0);
        assert(value_in_base(upper_hex_digits(n), 16) == n);
    } else {
        law_upper_hex_value(n / 16);
        let d = n % 16;
        let front = upper_hex_digits(n / 16);
        assert(front.push(upper_digit_char(d)).drop_last() =~= front);
        assert(char_value(upper_digit_char(d)) == d);
        assert(value_in_base(front.push(upper_digit_char(d)), 16) == value_in_base(front, 16) * 16 + d);
        assert(value_in_base(upper_hex_digits(n), 16) == n);
    }
}

/// The character of the digit `d`, in upper case.
fn upper_digit_of(d: u64) -> (c: char)
    requires
        d < 16,
    ensures
        c == upper_digit_char(d as nat),
{
    if d < 10 {
        ((48 + d) as u8) as char
    } else {
        ((55 + d) as u8) as char
    }
}

/// Append the hexadecimal digits of `n`, in upper case, to `out`.
pub fn push_upper_hex_digits(out: &mut String, n: u64)
    ensures
        final(out)@ == old(out)@ + upper_hex_digits(n as nat),
    decreases n,
{
    let ghost before = old(out)@;
    if n >= 16 {
        push_upper_hex_digits(out, n / 16);
    }
    let ghost middle = out@;
    let c = upper_digit_of(n % 16);
    push_char(out, c);
    proof {
        if n >= 16 {
            assert(middle == before + upper_hex_digits((n / 16) as nat));
            assert(upper_hex_digits(n as nat) == upper_hex_digits((n / 16) as nat).push(c));
        } else {
            assert(middle == before);
            assert(upper_hex_digits(n as nat) == seq![c]);
        }
        assert(out@ =~= before + upper_hex_digits(n as nat));
    }
}

/// Append `text` to `out`, with zeros in front up to `width` characters.
pub fn push_zero_padded(out: &mut String, text: &str, width: usize)
    ensures
        final(out)@ == old(out)@ + zero_padded(text@, width as nat),
{
    let ghost before = old(out)@;
    let len = text.unicode_len();
    let mut i = len;
    while i < width
        invariant
            len == text@.len(),
            len <= i <= width || (i == len && len >= width),
            out@ == before + repeated('0', (i - len) as nat),
        decreases width - i,
    {
        push_char(out, '0');
        proof {
            assert(repeated('0', (i - len) as nat).push('0') =~= repeated('0', (i + 1 - len) as nat));
        }
        i = i + 1;
    }
    out.append(text);
    proof {
        if len < width {
            assert(out@ =~= before + zero_padded(text@, width as nat));
        } else {
            assert(repeated('0', 0) =~= Seq::<char>::empty());
            assert(out@ =~= before + zero_padded(text@, width as nat));
        }
    }
}

} // verus!
