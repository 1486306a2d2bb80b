//! The machine trap cause register.
use vstd::prelude::*;

use super::CsrInitContext;

verus! {

/// The machine trap cause register: bit 31 tells an interrupt, the other bits the code.
#[derive(Debug, Clone, Copy)]
pub struct MCause(u32);

impl View for MCause {
    type V = u32;

    closed spec fn view(&self) -> u32 {
        self.0
    }
}

impl MCause {
    /// The register, holding zero.
    pub fn new(_ctx: &CsrInitContext) -> (r: Self)
        ensures
            r@ == 0,
    {
        Self(0)
    }

    /// The value held.
    pub fn read(&self) -> (value: u32)
        ensures
            value == self@,
    {
        self.0
    }

    /// Hold `value`.
    pub fn write(&mut self, value: u32)
        ensures
            final(self)@ == value,
    {
        self.0 = value;
    }

    /// Whether the trap was an interrupt (bit 31).
    pub fn interrupt(self) -> (b: bool)
        ensures
            b == (self@ >= 0x8000_0000),
    {
        let v = self.0;
        proof {
            crate::risico::util::lemma_u32_masks(v);
        }
        v >> 31 != 0
    }

    /// The exception code (bits 0 to 30).
    pub fn exception(self) -> (r: u32)
        ensures
            r == self@ % 0x8000_0000,
    {
        let v = self.0;
        proof {
            crate::risico::util::lemma_u32_masks(v);
        }
        v & 0x7FFF_FFFF
    }
}

} // verus!
