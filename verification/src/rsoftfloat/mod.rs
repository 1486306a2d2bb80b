//! Software floating point on the bit patterns of IEEE 754 numbers.
use vstd::prelude::*;

pub mod f32;

verus! {

/// A set of floating-point exception flags, one bit each.
#[derive(Debug, Clone, Copy, PartialEq, Eq, Structural)]
pub struct Flags(u8);

/// How a result that is not representable is rounded.
#[derive(Debug, Clone, Copy, PartialEq, Eq, Structural)]
pub enum RoundingMode {
    /// Round to Nearest, Ties to Even,
    TiesToEven,
    /// Round to Zero
    ToZero,
    /// Round Down (towards -Infinity)
    Down,
    /// Round Up (towards Infinity)
    Up,
    /// Round to Nearest, Ties to Max Magnitude
    TiesToMaxMagnitude,
}

impl Default for RoundingMode {
    fn default() -> (r: Self)
        ensures
            r == RoundingMode::TiesToEven,
    {
        RoundingMode::TiesToEven
    }
}

impl View for Flags {
    type V = u8;

    closed spec fn view(&self) -> u8 {
        self.0
    }
}

impl Flags {
    /// Inexact.
    pub fn inexact() -> (r: Self)
        ensures
            r@ == 0b00001,
    {
        Self(0b00001)
    }

    /// Underflow.
    pub fn underflow() -> (r: Self)
        ensures
            r@ == 0b00010,
    {
        Self(0b00010)
    }

    /// Overflow.
    pub fn overflow() -> (r: Self)
        ensures
            r@ == 0b00100,
    {
        Self(0b00100)
    }

    /// Divide by zero.
    pub fn divide_by_zero() -> (r: Self)
        ensures
            r@ == 0b01000,
    {
        Self(0b01000)
    }

    /// Invalid operation.
    pub fn invalid() -> (r: Self)
        ensures
            r@ == 0b10000,
    {
        Self(0b10000)
    }

    /// No flag.
    pub fn empty() -> (r: Self)
        ensures
            r@ == 0,
    {
        Self(0)
    }

    /// Whether every flag of `x` is set.
    pub fn contains(self, x: Flags) -> (b: bool)
        ensures
            b == (self@ & x@ == x@),
    {
        self.0 & x.0 == x.0
    }

    /// The flags as a byte.
    pub fn as_u8(self) -> (r: u8)
        ensures
            r == self@,
    {
        self.0
    }

    /// The flags as a halfword.
    pub fn as_u16(self) -> (r: u16)
        ensures
            r == self@,
    {
        self.0 as u16
    }

    /// The flags as a word.
    pub fn as_u32(self) -> (r: u32)
        ensures
            r == self@,
    {
        self.0 as u32
    }
}

impl vstd::std_specs::ops::BitOrSpecImpl for Flags {
    open spec fn obeys_bitor_spec() -> bool {
        true
    }

    open spec fn bitor_req(self, rhs: Self) -> bool {
        true
    }

    closed spec fn bitor_spec(self, rhs: Self) -> Self {
        Flags(self.0 | rhs.0)
    }
}

impl std::ops::BitOr for Flags {
    type Output = Self;

    fn bitor(self, rhs: Self) -> (r: Self)
        ensures
            r@ == self@ | rhs@,
    {
        Self(self.0 | rhs.0)
    }
}

} // verus!
