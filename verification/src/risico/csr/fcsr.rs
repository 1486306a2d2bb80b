//! The floating-point control and status register.
use vstd::prelude::*;

use super::CsrInitContext;

verus! {

/// The floating-point control and status register: the accrued exception flags in bits 0 to 4 and
/// the rounding mode in bits 5 to 7.
#[derive(Clone, Debug)]
pub struct Fcsr {
    inner: u32,
}

/// A set of floating-point exception flags, one bit each.
#[derive(Debug, Clone, Copy, PartialEq, Eq, Structural)]
pub struct ExceptionFlags(u8);

impl View for ExceptionFlags {
    type V = u8;

    closed spec fn view(&self) -> u8 {
        self.0
    }
}

impl ExceptionFlags {
    /// Invalid operation.
    pub fn invalid() -> (r: Self)
        ensures
            r@ == 0b10000,
    {
        Self(0b10000)
    }

    /// Divide by zero.
    pub fn divide_by_zero() -> (r: Self)
        ensures
            r@ == 0b01000,
    {
        Self(0b01000)
    }

    /// Overflow.
    pub fn overflow() -> (r: Self)
        ensures
            r@ == 0b00100,
    {
        Self(0b00100)
    }

    /// Underflow.
    pub fn underflow() -> (r: Self)
        ensures
            r@ == 0b00010,
    {
        Self(0b00010)
    }

    /// Inexact.
    pub fn inexact() -> (r: Self)
        ensures
            r@ == 0b00001,
    {
        Self(0b00001)
    }

    /// No flag.
    pub fn empty() -> (r: Self)
        ensures
            r@ == 0,
    {
        Self(0)
    }

    /// Whether no flag is set.
    pub fn is_empty(self) -> (b: bool)
        ensures
            b == (self@ == 0),
    {
        self.0 == 0
    }

    /// Whether every flag of `x` is set.
    pub fn contains(self, x: Self) -> (b: bool)
        ensures
            b == (self@ & x@ == x@),
    {
        self.0 & x.0 == x.0
    }

    /// The flags as bits.
    pub fn to_bits(self) -> (r: u8)
        ensures
            r == self@,
    {
        self.0
    }

    /// The flags of the five lowest bits of `flags`; the upper bits must be clear.
    pub fn from_bits(flags: u8) -> (r: Self)
        requires
            flags < 32,
        ensures
            r@ == flags,
    {
        Self(flags)
    }
}

impl vstd::std_specs::ops::BitOrSpecImpl for ExceptionFlags {
    open spec fn obeys_bitor_spec() -> bool {
        true
    }

    open spec fn bitor_req(self, rhs: Self) -> bool {
        true
    }

    closed spec fn bitor_spec(self, rhs: Self) -> Self {
        ExceptionFlags(self.0 | rhs.0)
    }
}

impl std::ops::BitOr for ExceptionFlags {
    type Output = Self;

    fn bitor(self, rhs: Self) -> (r: Self)
        ensures
            r@ == self@ | rhs@,
    {
        Self(self.0 | rhs.0)
    }
}

/// The accrued exception flags field.
pub const FFLAGS_MASK: u32 = 0x1F;
/// The rounding mode field.
pub const FRM_MASK: u32 = 0xE0;

impl View for Fcsr {
    type V = u32;

    closed spec fn view(&self) -> u32 {
        self.inner
    }
}

/// Writing one field of the register and reading it back gives what was written, as far as the
/// field holds it; the other field keeps its value.
pub proof fn law_fcsr_fields(x: u32, value: u32)
    by (bit_vector)
    ensures
        ((x & !FFLAGS_MASK) | (value & FFLAGS_MASK)) & FFLAGS_MASK == value & 0x1F,
        (((x & !FFLAGS_MASK) | (value & FFLAGS_MASK)) & FRM_MASK) >> 5u32 == (x & FRM_MASK) >> 5u32,
        (((x & !FRM_MASK) | ((value << 5u32) & FRM_MASK)) & FRM_MASK) >> 5u32 == value & 0x7,
        ((x & !FRM_MASK) | ((value << 5u32) & FRM_MASK)) & FFLAGS_MASK == x & FFLAGS_MASK,
        (x & FFLAGS_MASK) < 32,
{
}

impl Fcsr {
    /// The accrued exception flags.
    pub fn get_fflags(&self) -> (r: ExceptionFlags)
        ensures
            r@ == self@ & FFLAGS_MASK,
    {
        proof {
            law_fcsr_fields(self.inner, 0);
        }
        ExceptionFlags::from_bits(self.fflags_read() as u8)
    }

    /// Replace the accrued exception flags.
    pub fn set_fflags(&mut self, flags: ExceptionFlags)
        ensures
            final(self)@ == (old(self)@ & !FFLAGS_MASK) | ((flags@ as u32) & FFLAGS_MASK),
    {
        self.fflags_write(flags.to_bits() as u32)
    }

    /// The accrued exception flags field.
    pub fn fflags_read(&self) -> (r: u32)
        ensures
            r == self@ & FFLAGS_MASK,
    {
        self.inner & FFLAGS_MASK
    }

    /// Replace the accrued exception flags field with the low five bits of `value`.
    pub fn fflags_write(&mut self, value: u32)
        ensures
            final(self)@ == (old(self)@ & !FFLAGS_MASK) | (value & FFLAGS_MASK),
    {
        self.inner = (self.inner & !FFLAGS_MASK) | (value & FFLAGS_MASK);
    }

    /// The rounding mode field.
    pub fn frm_read(&self) -> (r: u32)
        ensures
            r == (self@ & FRM_MASK) >> 5u32,
    {
        (self.inner & FRM_MASK) >> 5
    }

    /// Replace the rounding mode field with the low three bits of `value`.
    pub fn frm_write(&mut self, value: u32)
        ensures
            final(self)@ == (old(self)@ & !FRM_MASK) | ((value << 5u32) & FRM_MASK),
    {
        self.inner = (self.inner & !FRM_MASK) | ((value << 5) & FRM_MASK);
    }

    /// The register at reset: round to nearest, ties to even, and no flag.
    pub fn new(_ctx: &CsrInitContext) -> (r: Self)
        ensures
            r@ == 0,
    {
        Self { inner: 0 }
    }

    /// The whole register.
    pub fn read(&self) -> (r: u32)
        ensures
            r == self@,
    {
        self.inner
    }

    /// Replace the whole register with the low eight bits of `value`: the rounding mode and the
    /// flags.
    pub fn write(&mut self, value: u32)
        ensures
            final(self)@ == value & 0xFF,
    {
        self.inner = value & 0xFF;
    }
}

} // verus!
