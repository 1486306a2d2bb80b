//! Single precision numbers, handled through their bit patterns.
use vstd::prelude::*;
use vstd::std_specs::bits::u64_leading_zeros;

use super::{Flags, RoundingMode};

verus! {

/// The sign bit.
pub const SIGN_MASK: u32 = 0x8000_0000;
/// The biased exponent field.
pub const EXPONENT_MASK: u32 = 0x7F80_0000;
/// The stored significand field.
pub const SIGNIFICANT_MASK: u32 = 0x007F_FFFF;

/// The sign bit of the pattern `x`.
pub open spec fn sign_of(x: u32) -> bool {
    x & SIGN_MASK != 0
}

/// The biased exponent of the pattern `x`.
pub open spec fn exponent_of(x: u32) -> u32 {
    (x & EXPONENT_MASK) >> 23u32
}

/// The stored significand of the pattern `x`.
pub open spec fn significant_of(x: u32) -> u32 {
    x & SIGNIFICANT_MASK
}

/// The magnitude of the pattern `x`: exponent and significand, without the sign.
pub open spec fn magnitude_of(x: u32) -> u32 {
    x & 0x7FFF_FFFF
}

/// Whether the pattern `x` is a NaN: all exponent bits set and a non-zero significand.
pub open spec fn is_nan_bits(x: u32) -> bool {
    exponent_of(x) == 0xFF && significant_of(x) != 0
}

/// Whether the pattern `x` is a signaling NaN: a NaN whose top significand bit is clear.
pub open spec fn is_signaling_nan_bits(x: u32) -> bool {
    x & 0x7FC0_0000 == 0x7F80_0000 && significant_of(x) != 0
}

/// Whether the finite patterns `a` and `b` are ordered by value, `-0` below `+0`.
pub open spec fn finite_lt(a: u32, b: u32) -> bool {
    if sign_of(a) != sign_of(b) {
        sign_of(a)
    } else if sign_of(a) {
        magnitude_of(b) < magnitude_of(a)
    } else {
        magnitude_of(a) < magnitude_of(b)
    }
}

/// The fields of a pattern, read with the masks and shifts that the operations use.
pub proof fn lemma_fields(x: u32)
    by (bit_vector)
    ensures
        x >> 31u32 != 0 <==> x & SIGN_MASK != 0,
        (x >> 23u32) & 0xFF == (x & EXPONENT_MASK) >> 23u32,
        (x & EXPONENT_MASK) >> 23u32 <= 0xFF,
        x & EXPONENT_MASK != 0 <==> (x & EXPONENT_MASK) >> 23u32 != 0,
        x & 0x7FFF_FFFF == ((x & EXPONENT_MASK) >> 23u32) * 0x80_0000 + (x & SIGNIFICANT_MASK),
        x & SIGNIFICANT_MASK < 0x80_0000,
        x & SIGNIFICANT_MASK != SIGNIFICANT_MASK ==> x != 0xFFFF_FFFF,
        (x & SIGNIFICANT_MASK) | 0x80_0000 == (x & SIGNIFICANT_MASK) + 0x80_0000,
{
}

/// A single precision number, as its bit pattern.
#[derive(Debug, Clone, Copy)]
pub struct F32(u32);

impl View for F32 {
    type V = u32;

    closed spec fn view(&self) -> u32 {
        self.0
    }
}

/// The significand plus one, carried into the exponent when the stored significand overflows.
pub open spec fn plus_one(mantissa: u32) -> (i16, u32) {
    if mantissa & SIGNIFICANT_MASK == SIGNIFICANT_MASK {
        (1, 0x8000_0000)
    } else {
        (0, (mantissa + 1) as u32)
    }
}

/// Whether shifting `mantissa` right by `shift_distance` rounds up, given the bits shifted out.
pub open spec fn rounds_up(sign: bool, truncated: u64, tie_point: u64, kept: u32, rm: RoundingMode) -> bool {
    match rm {
        RoundingMode::TiesToEven => truncated > tie_point || (truncated == tie_point && kept & 1 != 0),
        RoundingMode::Up => !sign,
        RoundingMode::Down => sign,
        RoundingMode::ToZero => false,
        RoundingMode::TiesToMaxMagnitude => truncated >= tie_point,
    }
}

impl F32 {
    /// The canonical quiet NaN.
    pub fn cannonical_nan() -> (r: Self)
        ensures
            r@ == 0x7FC0_0000,
    {
        Self(0x7FC0_0000)
    }

    /// A signaling NaN.
    pub fn signaling_nan() -> (r: Self)
        ensures
            r@ == 0x7F80_0001,
    {
        Self(0x7F80_0001)
    }

    /// A quiet NaN.
    pub fn quiet_nan() -> (r: Self)
        ensures
            r@ == 0x7FC0_0000,
    {
        Self(0x7FC0_0000)
    }

    /// The number with the bit pattern `bits`.
    pub fn from_bits(bits: u32) -> (r: Self)
        ensures
            r@ == bits,
    {
        Self(bits)
    }

    /// The bit pattern.
    pub fn to_bits(self) -> (r: u32)
        ensures
            r == self@,
    {
        self.0
    }

    /// The sign bit.
    pub fn sign(self) -> (b: bool)
        ensures
            b == sign_of(self@),
    {
        proof {
            lemma_fields(self.0);
        }
        self.0 >> 31 != 0
    }

    /// The biased exponent.
    pub fn exponent(self) -> (r: u8)
        ensures
            r == exponent_of(self@),
    {
        proof {
            lemma_fields(self.0);
        }
        ((self.0 >> 23) & 0xFF) as u8
    }

    /// The stored significand.
    pub fn significant(self) -> (r: u32)
        ensures
            r == significant_of(self@),
    {
        self.0 & SIGNIFICANT_MASK
    }

    /// The significand with the implied leading bit, which is set unless the exponent is zero.
    pub fn fraction(self) -> (r: u32)
        ensures
            r == significant_of(self@) | if exponent_of(self@) != 0 { 0x0080_0000u32 } else { 0 },
    {
        proof {
            lemma_fields(self.0);
        }
        self.significant() | if self.0 & EXPONENT_MASK != 0 {
            0x0080_0000
        } else {
            0x0000_0000
        }
    }

    /// Whether the number is subnormal: a zero exponent and a non-zero significand.
    pub fn is_subnormal(self) -> (b: bool)
        ensures
            b == (exponent_of(self@) == 0 && significant_of(self@) != 0),
    {
        self.exponent() == 0x00 && self.significant() != 0
    }

    /// Whether the number is a zero of either sign.
    pub fn is_zero(self) -> (b: bool)
        ensures
            b == (magnitude_of(self@) == 0),
    {
        self.to_bits() & 0x7FFF_FFFF == 0
    }

    /// Whether the number is normal: its exponent is neither zero nor all ones.
    pub fn is_normal(self) -> (b: bool)
        ensures
            b == (exponent_of(self@) != 0 && exponent_of(self@) != 0xFF),
    {
        let exponent = self.exponent();
        exponent != 0x00 && exponent != 0xFF
    }

    /// Whether the number is a NaN.
    pub fn is_nan(self) -> (b: bool)
        ensures
            b == is_nan_bits(self@),
    {
        self.exponent() == 0xFF && self.significant() != 0
    }

    /// Whether the number is an infinity of either sign.
    pub fn is_infinite(self) -> (b: bool)
        ensures
            b == (self@ & 0x7FFF_FFFF == self@ & EXPONENT_MASK),
    {
        self.0 & 0x7FFF_FFFF == self.0 & EXPONENT_MASK
    }

    /// Whether the number is a signaling NaN.
    pub fn is_signaling_nan(self) -> (b: bool)
        ensures
            b == is_signaling_nan_bits(self@),
    {
        self.0 & 0x7FC0_0000 == 0x7F80_0000 && (self.significant() != 0)
    }

    /// Whether the number is a quiet NaN.
    pub fn is_quiet_nan(self) -> (b: bool)
        ensures
            b == (self@ & 0x7FC0_0000 == 0x7FC0_0000),
    {
        self.0 & 0x7FC0_0000 == 0x7FC0_0000
    }

    /// The infinity with the sign `sign`.
    fn new_infinity(sign: bool) -> (r: Self)
        ensures
            r@ == if sign { 0xFF80_0000u32 } else { 0x7F80_0000u32 },
    {
        if sign { Self(0xFF80_0000) } else { Self(0x7F80_0000) }
    }

    /// The zero with the sign `sign`.
    fn new_zero(sign: bool) -> (r: Self)
        ensures
            r@ == if sign { 0x8000_0000u32 } else { 0u32 },
    {
        if sign { Self(0x8000_0000) } else { Self(0) }
    }

    /// Whether the exponent is all ones: a NaN or an infinity.
    fn is_nan_or_infinity(self) -> (b: bool)
        ensures
            b == (exponent_of(self@) == 0xFF),
    {
        self.exponent() == 0xFF
    }

    /// The unbiased exponent and the significand with its leading bit at bit 23, for a number
    /// that is zero, subnormal or normal. A subnormal significand is shifted up until its leading
    /// bit is at bit 23, and the exponent lowered by as many steps.
    pub fn normalized(self) -> (r: (i16, u32))
        requires
            exponent_of(self@) != 0xFF,
        ensures
            exponent_of(self@) != 0 || significant_of(self@) == 0 ==> r.0 == exponent_of(self@) - 127
                && r.1 == significant_of(self@) + 0x80_0000,
            exponent_of(self@) == 0 && significant_of(self@) != 0 ==> -149 <= r.0 <= -127
                && r.1 == (significant_of(self@) << ((-126 - r.0) as u32)) && 0x80_0000 <= r.1
                && r.1 < 0x100_0000,
    {
        proof {
            lemma_fields(self.0);
        }
        if self.is_subnormal() {
            let significant = self.significant();
            let zeros = significant.leading_zeros();
            proof {
                vstd::std_specs::bits::axiom_u32_leading_zeros(significant);
                lemma_normalize_shift(significant, zeros);
            }
            let extra_exp = zeros - 8;
            let mantissa = significant << extra_exp;
            (-126 - extra_exp as i16, mantissa)
        } else {
            let exp = self.exponent() as i16 - 127;
            let significant = self.significant();
            (exp, significant | 0x80_0000)
        }
    }

    /// The pattern with the given sign, biased exponent and significand bits.
    fn pack(sign: bool, exponent: u8, significant: u32) -> (r: Self)
        ensures
            r@ == (if sign { SIGN_MASK } else { 0 }) | ((exponent as u32) << 23u32) | significant,
    {
        let sign_bits: u32 = if sign { SIGN_MASK } else { 0 };
        Self(sign_bits | ((exponent as u32) << 23) | significant)
    }

    /// The sign, the unbiased exponent and the stored significand.
    fn unpack(self) -> (r: (bool, i16, u32))
        ensures
            r == (sign_of(self@), (exponent_of(self@) - 127) as i16, significant_of(self@)),
    {
        let sign = self.sign();
        let exponent = (self.exponent() as i16) - 127;
        let significant = self.significant();
        (sign, exponent, significant)
    }

    /// Add one to the significand; where the stored significand overflows, the exponent grows by
    /// one.
    fn add_one_to_mantissa(mantissa: u32) -> (r: (i16, u32))
        ensures
            r == plus_one(mantissa),
    {
        proof {
            lemma_fields(mantissa);
        }
        let has_overflow = mantissa & SIGNIFICANT_MASK == SIGNIFICANT_MASK;
        if has_overflow {
            (1, 0x8000_0000)
        } else {
            (0, mantissa + 1)
        }
    }

    /// Shift `mantissa` right by `shift_distance`, rounding by `rm` what is shifted out. Returns
    /// the change of the exponent and the shifted significand.
    fn shift_rounding(sign: bool, mantissa: u64, shift_distance: u32, rm: RoundingMode) -> (r: (
        i16,
        u32,
    ))
        requires
            mantissa != 0,
            shift_distance < 64,
        ensures
            r == shift_rounded(sign, mantissa, shift_distance, rm),
    {
        proof {
            lemma_shift_mask(mantissa, shift_distance);
        }
        let truncate_mask = (1u64 << shift_distance).wrapping_sub(1);
        let truncated = mantissa & truncate_mask;
        let kept = (mantissa >> shift_distance) as u32;
        if truncated == 0 {
            return (0, kept);
        }
        let round_up = match rm {
            RoundingMode::TiesToEven => {
                let tie_point = 1u64 << (shift_distance - 1);
                truncated > tie_point || (truncated == tie_point && kept & 1 != 0)
            },
            RoundingMode::Up => !sign,
            RoundingMode::Down => sign,
            RoundingMode::ToZero => false,
            RoundingMode::TiesToMaxMagnitude => {
                let tie_point = 1u64 << (shift_distance - 1);
                truncated >= tie_point
            },
        };
        if round_up {
            Self::add_one_to_mantissa(kept)
        } else {
            (0, kept)
        }
    }

    /// Round `mantissa`, whose leading bit lies between bit 23 and bit 47, to a significand whose
    /// leading bit is bit 23.
    fn rounding(sign: bool, mantissa: u64, rm: RoundingMode) -> (r: (i16, u32))
        requires
            mantissa != 0,
            16 <= u64_leading_zeros(mantissa) <= 40,
        ensures
            r == shift_rounded(sign, mantissa, (40 - u64_leading_zeros(mantissa)) as u32, rm),
    {
        let leading_zeros = mantissa.leading_zeros();
        let shift_distance = (32 + 8) - leading_zeros;
        Self::shift_rounding(sign, mantissa, shift_distance, rm)
    }

    /// Whether the numbers are equal, and the flags raised. A NaN compares unequal; a signaling NaN
    /// raises the invalid flag.
    ///
    /// The NaN test reads only `self`: where only `other` is a NaN, the bit patterns are compared.
    pub fn eq(self, other: Self) -> (r: (bool, Flags))
        ensures
            is_nan_bits(self@) ==> !r.0 && r.1@ == if is_signaling_nan_bits(self@)
                || is_signaling_nan_bits(other@) {
                0b10000u8
            } else {
                0u8
            },
            !is_nan_bits(self@) ==> r.0 == (self@ == other@) && r.1@ == 0,
    {
        let a = self;
        let b = other;
        if a.is_nan() || a.is_nan() {
            if a.is_signaling_nan() || b.is_signaling_nan() {
                return (false, Flags::invalid());
            }
            return (false, Flags::empty());
        }
        (a.to_bits() == b.to_bits(), Flags::empty())
    }

    /// The larger of two finite numbers, `+0` above `-0`; on equal numbers `self`.
    fn finite_max(self, other: Self) -> (r: Self)
        requires
            exponent_of(self@) != 0xFF,
            exponent_of(other@) != 0xFF,
        ensures
            r@ == if finite_lt(self@, other@) { other@ } else { self@ },
    {
        let a = self;
        let b = other;
        proof {
            lemma_fields(a.0);
            lemma_fields(b.0);
        }
        let (sign_a, exp_a, significant_a) = a.unpack();
        let (sign_b, exp_b, significant_b) = b.unpack();
        let sign_z = sign_a || sign_b;
        if sign_a != sign_b {
            if sign_a { b } else { a }
        } else if exp_a < exp_b {
            if sign_z { a } else { b }
        } else if exp_a > exp_b {
            if sign_z { b } else { a }
        } else if significant_a < significant_b {
            if sign_z { a } else { b }
        } else if significant_a > significant_b {
            if sign_z { b } else { a }
        } else {
            a
        }
    }

    /// The smaller of two finite numbers, `-0` below `+0`; on equal numbers `self`.
    fn finite_min(self, other: Self) -> (r: Self)
        requires
            exponent_of(self@) != 0xFF,
            exponent_of(other@) != 0xFF,
        ensures
            r@ == if finite_lt(other@, self@) { other@ } else { self@ },
    {
        let a = self;
        let b = other;
        proof {
            lemma_fields(a.0);
            lemma_fields(b.0);
        }
        let (sign_a, exp_a, significant_a) = a.unpack();
        let (sign_b, exp_b, significant_b) = b.unpack();
        let sign_z = sign_a || sign_b;
        if sign_a != sign_b {
            if sign_a { a } else { b }
        } else if exp_a < exp_b {
            if sign_z { b } else { a }
        } else if exp_a > exp_b {
            if sign_z { a } else { b }
        } else if significant_a < significant_b {
            if sign_z { b } else { a }
        } else if significant_a > significant_b {
            if sign_z { a } else { b }
        } else {
            a
        }
    }

    /// The maximum of two numbers and the flags raised. Finite numbers are compared by value; of
    /// two infinities the positive one wins; a signaling NaN raises the invalid flag; of a NaN and
    /// a number the number is taken, and of two NaNs the canonical NaN. Where one of the two is an
    /// infinity and the other a finite number, `self` is returned.
    pub fn max(self, other: Self) -> (r: (Self, Flags))
        ensures
            r.0@ == max_bits(self@, other@),
            r.1@ == if exponent_of(self@) != 0xFF && exponent_of(other@) != 0xFF {
                0u8
            } else {
                flags_of_pair(self@, other@)
            },
    {
        let a = self;
        let b = other;
        if !a.is_nan_or_infinity() && !b.is_nan_or_infinity() {
            return (a.finite_max(b), Flags::empty());
        }
        if a.is_infinite() && b.is_infinite() {
            let value = if !a.sign() && b.sign() { a } else { b };
            return (value, Flags::empty());
        }
        let flags = if a.is_signaling_nan() || b.is_signaling_nan() {
            Flags::invalid()
        } else {
            Flags::empty()
        };
        if a.is_nan() && b.is_nan() {
            return (Self::cannonical_nan(), flags);
        }
        if a.is_nan() {
            return (b, flags);
        }
        if b.is_nan() {
            return (a, flags);
        }
        (a, Flags::empty())
    }

    /// The minimum of two numbers and the flags raised, as `max` with the order reversed: of two
    /// infinities the negative one wins.
    pub fn min(self, other: Self) -> (r: (Self, Flags))
        ensures
            r.0@ == min_bits(self@, other@),
            r.1@ == if exponent_of(self@) != 0xFF && exponent_of(other@) != 0xFF {
                0u8
            } else {
                flags_of_pair(self@, other@)
            },
    {
        let a = self;
        let b = other;
        if !a.is_nan_or_infinity() && !b.is_nan_or_infinity() {
            return (a.finite_min(b), Flags::empty());
        }
        if a.is_infinite() && b.is_infinite() {
            let value = if a.sign() && !b.sign() { a } else { b };
            return (value, Flags::empty());
        }
        let flags = if a.is_signaling_nan() || b.is_signaling_nan() {
            Flags::invalid()
        } else {
            Flags::empty()
        };
        if a.is_nan() && b.is_nan() {
            return (Self::cannonical_nan(), flags);
        }
        if a.is_nan() {
            return (b, flags);
        }
        if b.is_nan() {
            return (a, flags);
        }
        (a, Flags::empty())
    }

    /// The product of two numbers, rounded by `rm`.
    ///
    /// A signaling NaN operand gives a signaling NaN, another NaN operand a quiet NaN, and so does
    /// an infinity times a zero; otherwise an infinity operand gives an infinity. A zero operand,
    /// or two subnormal operands, give a zero. Every result but a NaN has the sign of the product.
    pub fn mul(a: Self, b: Self, rm: RoundingMode) -> (r: Self)
        ensures
            r@ == special_product(a@, b@) || (!is_special_product(a@, b@) && sign_of(r@) == (sign_of(a@)
                != sign_of(b@))),
            is_special_product(a@, b@) ==> r@ == special_product(a@, b@),
            !is_special_product(a@, b@) ==> exists|ea: i16, ma: u32, eb: i16, mb: u32|
                normal_form(a@, ea, ma) && normal_form(b@, eb, mb) && r@ == rounded_product(
                    sign_of(a@) != sign_of(b@),
                    (ea + eb) as i16,
                    (ma as u64 * mb as u64) as u64,
                    rm,
                ),
    {
        let sign_z = a.sign() != b.sign();
        if a.is_nan_or_infinity() || b.is_nan_or_infinity() {
            if a.is_signaling_nan() || b.is_signaling_nan() {
                return Self::signaling_nan();
            }
            if a.is_nan() || b.is_nan() {
                return Self::quiet_nan();
            }
            if a.is_zero() || b.is_zero() {
                return Self::quiet_nan();
            }
            return Self::new_infinity(sign_z);
        }
        if a.is_zero() || b.is_zero() {
            return Self::new_zero(sign_z);
        }
        if a.is_subnormal() && b.is_subnormal() {
            return Self::new_zero(sign_z);
        }
        proof {
            lemma_fields(a.0);
            lemma_fields(b.0);
        }
        let (exp_a, mant_a) = a.normalized();
        let (exp_b, mant_b) = b.normalized();
        proof {
            lemma_product_range(mant_a as u64, mant_b as u64);
        }
        let exp_z = exp_a + exp_b;
        let mant_z = mant_a as u64 * mant_b as u64;
        // The significands have 24 bits with the implied one, so the product needs at most one
        // step of renormalization.
        let needs_renormalization = mant_z & 0x0000_8000_0000_0000 != 0;
        let renormalization: i16 = if needs_renormalization { 1 } else { 0 };
        let exp_z = exp_z + renormalization;
        if exp_z < -126 {
            if exp_z < -126 - 23 {
                proof {
                    assert(normal_form(a@, exp_a, mant_a) && normal_form(b@, exp_b, mant_b));
                    assert(rounded_product(sign_z, (exp_a + exp_b) as i16, mant_z, rm) == (if sign_z {
                        0x8000_0000u32
                    } else {
                        0u32
                    }));
                }
                return Self::new_zero(sign_z);
            }
            let subnormal_shift = -126 - exp_z;
            let (exp_z, frac_z) = Self::shift_rounding(
                sign_z,
                mant_z,
                23 + renormalization as u32 + subnormal_shift as u32,
                rm,
            );
            proof {
                lemma_fields(frac_z);
            }
            let frac_z = frac_z & 0x007F_FFFF;
            proof {
                lemma_pack_sign(sign_z, exp_z as u8, frac_z);
                assert(normal_form(a@, exp_a, mant_a) && normal_form(b@, exp_b, mant_b));
                assert(rounded_product(sign_z, (exp_a + exp_b) as i16, mant_z, rm) == packed(
                    sign_z,
                    exp_z as u8,
                    frac_z,
                ));
            }
            return Self::pack(sign_z, exp_z as u8, frac_z);
        }
        let (exp_diff_z, frac_z) = Self::shift_rounding(sign_z, mant_z, 23 + renormalization as u32, rm);
        proof {
            lemma_fields(frac_z);
        }
        let frac_z = frac_z & 0x007F_FFFF;
        let exp_z = exp_z + 127;
        let exp_z = exp_z + exp_diff_z;
        // A biased exponent of 255 or more does not fit: the product overflows to an infinity.
        if exp_z > 254 {
            proof {
                lemma_pack_sign(sign_z, 0, 0);
                assert(normal_form(a@, exp_a, mant_a) && normal_form(b@, exp_b, mant_b));
                assert(rounded_product(sign_z, (exp_a + exp_b) as i16, mant_z, rm) == (if sign_z {
                    0xFF80_0000u32
                } else {
                    0x7F80_0000u32
                }));
            }
            return Self::new_infinity(sign_z);
        }
        proof {
            lemma_pack_sign(sign_z, exp_z as u8, frac_z);
            assert(normal_form(a@, exp_a, mant_a) && normal_form(b@, exp_b, mant_b));
            assert(rounded_product(sign_z, (exp_a + exp_b) as i16, mant_z, rm) == packed(
                sign_z,
                exp_z as u8,
                frac_z,
            ));
        }
        Self::pack(sign_z, exp_z as u8, frac_z)
    }
}

/// `x` is a finite non-zero number with unbiased exponent `e` and significand `m`, its leading one
/// included: `x` is `m` times two to the power of `e - 23`, with `m` of 24 bits.
pub open spec fn normal_form(x: u32, e: i16, m: u32) -> bool {
    &&& 0x80_0000 <= m < 0x100_0000
    &&& if exponent_of(x) != 0 {
        e == exponent_of(x) - 127 && m == significant_of(x) + 0x80_0000
    } else {
        significant_of(x) != 0 && -149 <= e <= -127 && m == (significant_of(x) << ((-126 - e) as u32))
    }
}

/// The bits of a number with sign `sign`, biased exponent `exponent` and stored significand
/// `significant`.
pub open spec fn packed(sign: bool, exponent: u8, significant: u32) -> u32 {
    (if sign { SIGN_MASK } else { 0 }) | ((exponent as u32) << 23u32) | significant
}

/// The product `mant` times two to the power of `exp - 46` (the product of two significands of
/// 24 bits, `exp` the sum of their exponents), with sign `sign`, rounded by `rm` to a number: to
/// a subnormal number or zero below the smallest normal exponent, to an infinity above the
/// largest.
pub open spec fn rounded_product(sign: bool, exp: i16, mant: u64, rm: RoundingMode) -> u32 {
    let renormalization: i16 = if mant & 0x0000_8000_0000_0000 != 0 { 1 } else { 0 };
    let exp_z = (exp + renormalization) as i16;
    if exp_z < -126 {
        if exp_z < -126 - 23 {
            if sign { 0x8000_0000u32 } else { 0u32 }
        } else {
            let rounded = shift_rounded(
                sign,
                mant,
                (23 + renormalization as u32 + (-126 - exp_z) as u32) as u32,
                rm,
            );
            packed(sign, rounded.0 as u8, rounded.1 & 0x007F_FFFF)
        }
    } else {
        let rounded = shift_rounded(sign, mant, (23 + renormalization as u32) as u32, rm);
        let biased = (exp_z + 127 + rounded.0) as i16;
        if biased > 254 {
            if sign { 0xFF80_0000u32 } else { 0x7F80_0000u32 }
        } else {
            packed(sign, biased as u8, rounded.1 & 0x007F_FFFF)
        }
    }
}

/// Whether the product of `a` and `b` is decided without arithmetic: an operand is a NaN, an
/// infinity or a zero, or both are subnormal.
pub open spec fn is_special_product(a: u32, b: u32) -> bool {
    exponent_of(a) == 0xFF || exponent_of(b) == 0xFF || magnitude_of(a) == 0 || magnitude_of(b) == 0
        || (exponent_of(a) == 0 && significant_of(a) != 0 && exponent_of(b) == 0 && significant_of(b)
        != 0)
}

/// The product of `a` and `b` where it is decided without arithmetic.
pub open spec fn special_product(a: u32, b: u32) -> u32 {
    let negative = sign_of(a) != sign_of(b);
    if exponent_of(a) == 0xFF || exponent_of(b) == 0xFF {
        if is_signaling_nan_bits(a) || is_signaling_nan_bits(b) {
            0x7F80_0001
        } else if is_nan_bits(a) || is_nan_bits(b) {
            0x7FC0_0000
        } else if magnitude_of(a) == 0 || magnitude_of(b) == 0 {
            0x7FC0_0000
        } else if negative {
            0xFF80_0000
        } else {
            0x7F80_0000
        }
    } else if negative {
        0x8000_0000
    } else {
        0
    }
}

/// The product of two significands with their leading bit at bit 23 has its leading bit at bit 46
/// or 47.
proof fn lemma_product_range(x: u64, y: u64)
    by (nonlinear_arith)
    requires
        0x80_0000 <= x < 0x100_0000,
        0x80_0000 <= y < 0x100_0000,
    ensures
        0x4000_0000_0000 <= x * y < 0x1_0000_0000_0000,
{
}

/// A packed pattern has the sign bit it was packed with.
proof fn lemma_pack_sign(sign: bool, exponent: u8, significant: u32)
    requires
        significant < 0x80_0000,
    ensures
        sign_of((if sign { SIGN_MASK } else { 0 }) | ((exponent as u32) << 23u32) | significant) == sign,
        sign_of(0xFF80_0000),
        !sign_of(0x7F80_0000),
{
    let e = exponent as u32;
    let s: u32 = if sign { SIGN_MASK } else { 0 };
    assert(((s | (e << 23u32) | significant) & SIGN_MASK != 0) == (s != 0) && 0xFF80_0000u32
        & SIGN_MASK != 0 && 0x7F80_0000u32 & SIGN_MASK == 0) by (bit_vector)
        requires
            e < 256,
            significant < 0x80_0000,
            s == 0 || s == SIGN_MASK,
    ;
}

/// The bits of `mantissa` below bit `shift`.
pub open spec fn low_bits(mantissa: u64, shift: u32) -> u64 {
    mantissa & ((1u64 << shift as u64) - 1) as u64
}

/// The value of the highest bit below bit `shift`: the half of the unit that remains.
pub open spec fn tie_point(shift: u32) -> u64 {
    if shift > 0 {
        1u64 << (shift - 1) as u64
    } else {
        0
    }
}

/// What `shift_rounding` returns.
pub open spec fn shift_rounded(sign: bool, mantissa: u64, shift: u32, rm: RoundingMode) -> (i16, u32) {
    let truncated = low_bits(mantissa, shift);
    let kept = (mantissa >> shift as u64) as u32;
    if truncated != 0 && rounds_up(sign, truncated, tie_point(shift), kept, rm) {
        plus_one(kept)
    } else {
        (0i16, kept)
    }
}

/// The flags that `max` and `min` raise where a NaN or an infinity is involved.
pub open spec fn flags_of_pair(a: u32, b: u32) -> u8 {
    let both_infinite = a & 0x7FFF_FFFF == a & EXPONENT_MASK && b & 0x7FFF_FFFF == b & EXPONENT_MASK;
    if both_infinite {
        0
    } else if is_nan_bits(a) || is_nan_bits(b) {
        if is_signaling_nan_bits(a) || is_signaling_nan_bits(b) { 0b10000 } else { 0 }
    } else {
        0
    }
}

/// What `max` returns.
pub open spec fn max_bits(a: u32, b: u32) -> u32 {
    let both_infinite = a & 0x7FFF_FFFF == a & EXPONENT_MASK && b & 0x7FFF_FFFF == b & EXPONENT_MASK;
    if exponent_of(a) != 0xFF && exponent_of(b) != 0xFF {
        if finite_lt(a, b) { b } else { a }
    } else if both_infinite {
        if !sign_of(a) && sign_of(b) { a } else { b }
    } else if is_nan_bits(a) && is_nan_bits(b) {
        0x7FC0_0000
    } else if is_nan_bits(a) {
        b
    } else {
        a
    }
}

/// What `min` returns.
pub open spec fn min_bits(a: u32, b: u32) -> u32 {
    let both_infinite = a & 0x7FFF_FFFF == a & EXPONENT_MASK && b & 0x7FFF_FFFF == b & EXPONENT_MASK;
    if exponent_of(a) != 0xFF && exponent_of(b) != 0xFF {
        if finite_lt(b, a) { b } else { a }
    } else if both_infinite {
        if sign_of(a) && !sign_of(b) { a } else { b }
    } else if is_nan_bits(a) && is_nan_bits(b) {
        0x7FC0_0000
    } else if is_nan_bits(a) {
        b
    } else {
        a
    }
}

/// Shifting a subnormal significand up by its leading zeros less eight puts its leading bit at bit
/// 23.
proof fn lemma_normalize_shift(significant: u32, zeros: u32)
    by (bit_vector)
    requires
        0 < significant,
        significant < 0x80_0000,
        zeros < 32,
        (significant >> ((31 - zeros) as u32)) & 1 != 0,
        significant >> ((32 - zeros) as u32) == 0,
    ensures
        9 <= zeros,
        zeros <= 31,
        0x80_0000 <= (significant << ((zeros - 8) as u32)),
        (significant << ((zeros - 8) as u32)) < 0x100_0000,
{
}

/// The mask of the low `shift` bits does not wrap, and is empty for a shift of zero.
proof fn lemma_shift_mask(mantissa: u64, shift: u32)
    requires
        shift < 64,
    ensures
        1u64 << shift as u64 >= 1,
        shift == 0 ==> mantissa & ((1u64 << shift as u64) - 1) as u64 == 0,
{
    let s = shift as u64;
    assert(1u64 << s >= 1 && (s == 0 ==> mantissa & ((1u64 << s) - 1) as u64 == 0)) by (bit_vector)
        requires
            s < 64,
    ;
}

} // verus!
