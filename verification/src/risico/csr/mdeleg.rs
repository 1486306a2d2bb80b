//! The machine exception and interrupt delegation registers.
use vstd::prelude::*;

use super::CsrInitContext;
use super::mtvec::TrapCause;

verus! {

/// Machine Exception Delegation Register
///
/// This specifies which exceptions from U- or S-mode to directly transfer to S-mode.
#[derive(Debug, Clone, Copy, PartialEq, Eq, Structural)]
pub struct MEDeleg {
    value: u32,
    readonly_mask: u32,
}

/// Machine Interrupt Delegation Register
///
/// This specifies which interrupts from U- or S-mode to directly transfer to S-mode.
#[derive(Debug, Clone, Copy, PartialEq, Eq, Structural)]
pub struct MIDeleg(u32);

impl MEDeleg {
    /// The delegated exceptions, one bit per exception code.
    pub closed spec fn value_spec(&self) -> u32 {
        self.value
    }

    /// The bits that read as zero whatever is written.
    pub closed spec fn readonly_mask_spec(&self) -> u32 {
        self.readonly_mask
    }

    /// No exception is delegated. Bits 31 to 16 are disabled because they are not custom,
    /// reserved or not defined; bit 14 is reserved; bit 11 is only for M-mode: for exceptions that
    /// cannot occur in less privileged modes, the corresponding bits are read-only zero.
    pub fn new(_ctx: &CsrInitContext) -> (r: Self)
        ensures
            r.value_spec() == 0,
            r.readonly_mask_spec() == 0xFFFF_4800,
    {
        Self { value: 0, readonly_mask: 0xFFFF_4800 }
    }

    /// The register is always implemented.
    pub fn is_available(&self) -> (b: bool)
        ensures
            b,
    {
        true
    }

    /// The delegated exceptions.
    pub fn read(&self) -> (r: u32)
        ensures
            r == self.value_spec(),
    {
        self.value
    }

    /// Delegate the exceptions of `value` but those whose bits are read-only zero; returns the
    /// value held before.
    pub fn write(&mut self, value: u32) -> (previous: u32)
        ensures
            previous == old(self).value_spec(),
            final(self).value_spec() == value & !old(self).readonly_mask_spec(),
            final(self).readonly_mask_spec() == old(self).readonly_mask_spec(),
    {
        let old = self.value;
        self.value = value & !self.readonly_mask;
        old
    }

    /// Whether exceptions with `cause` are delegated.
    pub fn is_delegated(self, cause: TrapCause) -> (b: bool)
        ensures
            b == (self.value_spec() & (1u32 << cause.code_spec()) != 0),
    {
        self.value & (1 << cause.code()) != 0
    }
}

impl View for MIDeleg {
    type V = u32;

    closed spec fn view(&self) -> u32 {
        self.0
    }
}

impl MIDeleg {
    /// No interrupt is delegated.
    pub fn new(_ctx: &CsrInitContext) -> (r: Self)
        ensures
            r@ == 0,
    {
        Self(0)
    }

    /// The delegated interrupts.
    pub fn read(&self) -> (r: u32)
        ensures
            r == self@,
    {
        self.0
    }

    /// Delegate the interrupts of `value`; returns the value held before.
    pub fn write(&mut self, value: u32) -> (previous: u32)
        ensures
            previous == old(self)@,
            final(self)@ == value,
    {
        let old = self.0;
        self.0 = value;
        old
    }
}

} // verus!
