//! Control and status registers.
use vstd::prelude::*;

pub mod counter;
pub mod fcsr;
pub mod mcause;
pub mod mdeleg;
pub mod mstatus;
pub mod mtvec;
pub mod registers;

verus! {

/// Why an access to a control and status register failed.
#[derive(Debug, Clone, Copy, PartialEq, Eq, Structural)]
pub enum CsrError {
    UnknownRegister,
    ReadonlyRegister,
}

/// What the registers are created from.
pub struct CsrInitContext {}

/// A register that reads as zero and ignores writes.
#[derive(Clone, Debug)]
pub struct Empty;

impl Empty {
    /// The register.
    pub fn new(_ctx: &CsrInitContext) -> (r: Self)
        ensures
            r == Empty,
    {
        Self
    }

    /// The register is always implemented.
    pub fn is_available() -> (b: bool)
        ensures
            b,
    {
        true
    }

    /// Reads as zero.
    pub fn read(&self) -> (value: u32)
        ensures
            value == 0,
    {
        0
    }

    /// Ignores the write.
    pub fn write(&mut self, _value: u32)
        ensures
            *final(self) == *old(self),
    {
    }
}

/// A register that reads back what was written.
#[derive(Clone, Debug)]
pub struct Simple(u32);

impl View for Simple {
    type V = u32;

    closed spec fn view(&self) -> u32 {
        self.0
    }
}

impl Simple {
    /// The register, holding zero.
    pub fn new(_ctx: &CsrInitContext) -> (r: Self)
        ensures
            r@ == 0,
    {
        Self(0)
    }

    /// The register is always implemented.
    pub fn is_available() -> (b: bool)
        ensures
            b,
    {
        true
    }

    /// The value held.
    pub fn read(&self) -> (value: u32)
        ensures
            value == self@,
    {
        self.0
    }

    /// Hold `value`.
    pub fn write(&mut self, value: u32)
        ensures
            final(self)@ == value,
    {
        self.0 = value;
    }
}

/// A privilege mode.
#[derive(Debug, Clone, Copy, PartialEq, Eq, Structural)]
pub enum Mode {
    User,
    Supervisor,
    Reserved10,
    Machine,
}

impl Mode {
    /// The two-bit encoding of the mode.
    pub open spec fn bits(self) -> u32 {
        match self {
            Mode::User => 0b00,
            Mode::Supervisor => 0b01,
            Mode::Reserved10 => 0b10,
            Mode::Machine => 0b11,
        }
    }

    /// The two-bit encoding of the mode.
    pub fn to_bits(self) -> (r: u32)
        ensures
            r == self.bits(),
    {
        match self {
            Mode::User => 0b00,
            Mode::Supervisor => 0b01,
            Mode::Reserved10 => 0b10,
            Mode::Machine => 0b11,
        }
    }

    /// The mode whose encoding is the lowest two bits of `x`.
    pub fn take_masked(x: u32) -> (r: Self)
        ensures
            r.bits() == x % 4,
    {
        proof {
            crate::risico::util::lemma_u32_masks(x);
        }
        let bits = x & 0b11;
        if bits == 0b00 {
            Self::User
        } else if bits == 0b01 {
            Self::Supervisor
        } else if bits == 0b10 {
            Self::Reserved10
        } else {
            Self::Machine
        }
    }
}

} // verus!
