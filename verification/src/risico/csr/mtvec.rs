//! The machine trap vector register.
use vstd::prelude::*;

use super::CsrInitContext;

verus! {

/// The machine trap vector register: the base address of the trap handlers, and in its lowest two
/// bits the mode.
#[derive(Debug, Clone, Copy)]
pub struct Mtvec(u32);

/// How traps find their handler.
#[derive(Debug, Clone, Copy, PartialEq, Eq, Structural)]
pub enum MtvecMode {
    Direct,
    Vectored,
    Reserved10,
    Reserved11,
}

/// The cause of an exception.
#[derive(Debug, Clone, Copy, PartialEq, Eq, Structural)]
pub enum TrapCause {
    InstructionAddressMisaligned,
    InstructionAccessFault,
    IllegalInstruction,
    Breakpoint,
    LoadAddressMisaligned,
    LoadAccessFault,
    AtomicStoreAddressMisaligned,
    AtomicStoreAccessFault,
    EcallUmode,
    EcallHSmode,
    EcallVSmode,
    EcallMmode,
    InstructionPageFault,
    LoadPageFault,
    AtomicStorePageFault,
}

impl TrapCause {
    /// The exception code of the cause.
    pub open spec fn code_spec(self) -> u32 {
        match self {
            TrapCause::InstructionAddressMisaligned => 0,
            TrapCause::InstructionAccessFault => 1,
            TrapCause::IllegalInstruction => 2,
            TrapCause::Breakpoint => 3,
            TrapCause::LoadAddressMisaligned => 4,
            TrapCause::LoadAccessFault => 5,
            TrapCause::AtomicStoreAddressMisaligned => 6,
            TrapCause::AtomicStoreAccessFault => 7,
            TrapCause::EcallUmode => 8,
            TrapCause::EcallHSmode => 9,
            TrapCause::EcallVSmode => 10,
            TrapCause::EcallMmode => 11,
            TrapCause::InstructionPageFault => 12,
            TrapCause::LoadPageFault => 13,
            TrapCause::AtomicStorePageFault => 15,
        }
    }

    /// The exception code of the cause.
    pub fn code(self) -> (r: u32)
        ensures
            r == self.code_spec(),
    {
        match self {
            TrapCause::InstructionAddressMisaligned => 0,
            TrapCause::InstructionAccessFault => 1,
            TrapCause::IllegalInstruction => 2,
            TrapCause::Breakpoint => 3,
            TrapCause::LoadAddressMisaligned => 4,
            TrapCause::LoadAccessFault => 5,
            TrapCause::AtomicStoreAddressMisaligned => 6,
            TrapCause::AtomicStoreAccessFault => 7,
            TrapCause::EcallUmode => 8,
            TrapCause::EcallHSmode => 9,
            TrapCause::EcallVSmode => 10,
            TrapCause::EcallMmode => 11,
            TrapCause::InstructionPageFault => 12,
            TrapCause::LoadPageFault => 13,
            TrapCause::AtomicStorePageFault => 15,
        }
    }
}

impl MtvecMode {
    /// The two-bit encoding of the mode.
    pub open spec fn bits(self) -> u32 {
        match self {
            MtvecMode::Direct => 0b00,
            MtvecMode::Vectored => 0b01,
            MtvecMode::Reserved10 => 0b10,
            MtvecMode::Reserved11 => 0b11,
        }
    }
}

impl View for Mtvec {
    type V = u32;

    closed spec fn view(&self) -> u32 {
        self.0
    }
}

impl Mtvec {
    /// The register, holding zero.
    pub fn new(_ctx: &CsrInitContext) -> (r: Self)
        ensures
            r@ == 0,
    {
        Self(0)
    }

    /// The value held.
    pub fn read(&self) -> (value: u32)
        ensures
            value == self@,
    {
        self.0
    }

    /// Hold `value`.
    pub fn write(&mut self, value: u32)
        ensures
            final(self)@ == value,
    {
        self.0 = value;
    }

    /// The mode, from the lowest two bits.
    pub fn mode(self) -> (r: MtvecMode)
        ensures
            r.bits() == self@ % 4,
    {
        let v = self.0;
        proof {
            crate::risico::util::lemma_u32_masks(v);
        }
        let bits = v & 0b11;
        if bits == 0b00 {
            MtvecMode::Direct
        } else if bits == 0b01 {
            MtvecMode::Vectored
        } else if bits == 0b10 {
            MtvecMode::Reserved10
        } else {
            MtvecMode::Reserved11
        }
    }

    /// The base address: the value without the mode bits.
    pub fn base(self) -> (r: u32)
        ensures
            r == self@ - self@ % 4,
    {
        let v = self.0;
        proof {
            crate::risico::util::lemma_u32_masks(v);
        }
        v & 0xFFFF_FFFC
    }

    /// The address of the handler for `trap_cause`: the base in direct mode, the base plus four
    /// times the cause code in vectored mode, and none in the reserved modes.
    pub fn cause_addr(self, trap_cause: TrapCause) -> (r: Option<u32>)
        requires
            self@ % 4 == 1 ==> self@ - self@ % 4 + 4 * trap_cause.code_spec() <= u32::MAX,
        ensures
            self@ % 4 == 0 ==> r == Some((self@ - self@ % 4) as u32),
            self@ % 4 == 1 ==> r == Some((self@ - self@ % 4 + 4 * trap_cause.code_spec()) as u32),
            self@ % 4 >= 2 ==> r is None,
    {
        match self.mode() {
            MtvecMode::Direct => Some(self.base()),
            MtvecMode::Vectored => Some(self.base() + trap_cause.code() * 4),
            MtvecMode::Reserved10 => None,
            MtvecMode::Reserved11 => None,
        }
    }
}

} // verus!
