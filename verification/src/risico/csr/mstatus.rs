//! The machine status register.
use vstd::prelude::*;

use super::{CsrInitContext, Mode};
use crate::risico::memory::Endianness;

verus! {

/// The state of an extension's context.
#[derive(Debug, Clone, Copy, PartialEq, Eq, Structural)]
pub enum ExtStatus {
    /// The extension(s) state is disabled or not implemented and any interaction with said state
    /// results in an illegal instruction exception.
    Off,
    /// The extension(s) state is enabled (for XS, at least 1 is enabled). The state is set as the
    /// initial state.
    Initial,
    /// The extension(s) state is enabled (for XS, at least 1 is enabled). The state is the same as
    /// the last context switch and is potentially different from the `Initial` state.
    Clean,
    /// The extension(s) state is enabled (for XS, at least 1 is enabled). The state is potentially
    /// changed since the last context switch.
    Dirty,
}

impl ExtStatus {
    /// The two-bit encoding of the status.
    pub open spec fn bits(self) -> u64 {
        match self {
            ExtStatus::Off => 0b00,
            ExtStatus::Initial => 0b01,
            ExtStatus::Clean => 0b10,
            ExtStatus::Dirty => 0b11,
        }
    }

    /// The status whose encoding is the lowest two bits of `x`.
    pub fn take_masked(x: u8) -> (r: Self)
        ensures
            r.bits() == x % 4,
    {
        let bits = x % 4;
        if bits == 0b00 {
            Self::Off
        } else if bits == 0b01 {
            Self::Initial
        } else if bits == 0b10 {
            Self::Clean
        } else {
            Self::Dirty
        }
    }
}

/// Machine-mode Global Interrupt Enable.
pub const MIE_MASK: u64 = 0x8;
/// User Mode Data Memory Access Big-Endian.
pub const UBE_MASK: u64 = 0x40;
/// Machine-mode Previous Interrupt Enable.
pub const MPIE_MASK: u64 = 0x80;
/// Machine-mode Previous Privilege mode.
pub const MPP_MASK: u64 = 0x1800;
/// Modify Privilege: loads and stores execute at the privilege mode in MPP.
pub const MPRV_MASK: u64 = 0x2_0000;
/// Supervisor Mode Data Memory Access Big-Endian.
pub const SBE_MASK: u64 = 0x10_0000_0000;
/// Machine Mode Data Memory Access Big-Endian.
pub const MBE_MASK: u64 = 0x20_0000_0000;

/// `x` with the bits of `mask` set where `value` holds and cleared where it does not.
pub open spec fn with_bits(x: u64, mask: u64, value: bool) -> u64 {
    if value {
        x | mask
    } else {
        x & !mask
    }
}

/// `x` with the previous privilege mode field set to `mode`.
pub open spec fn with_mpp(x: u64, mode: u64) -> u64 {
    (x & !MPP_MASK) | (mode << 11u64)
}

/// The two bits of `x` from bit `offset` on.
pub open spec fn field2(x: u64, offset: u64) -> u64 {
    (x >> offset) % 4
}

/// Narrowing the fields of the register to the integer types that hold them keeps their value.
proof fn lemma_mstatus_casts(v: u64)
    by (bit_vector)
    ensures
        v >> 32u64 <= 0xFFFF_FFFFu64,
        v & 0xFFFF_FFFFu64 <= 0xFFFF_FFFFu64,
        (v >> 13u64) & 0xFFu64 <= 0xFFu64,
        ((v >> 13u64) & 0xFFu64) % 4u64 == (v >> 13u64) % 4u64,
        (v >> 9u64) & 0xFFu64 <= 0xFFu64,
        ((v >> 9u64) & 0xFFu64) % 4u64 == (v >> 9u64) % 4u64,
        (v >> 15u64) & 0xFFu64 <= 0xFFu64,
        ((v >> 15u64) & 0xFFu64) % 4u64 == (v >> 15u64) % 4u64,
        (v >> 11u64) & 0xFFFF_FFFFu64 <= 0xFFFF_FFFFu64,
        ((v >> 11u64) & 0xFFFF_FFFFu64) % 4u64 == (v >> 11u64) % 4u64,
{
}

/// Taking a trap and returning from it: while in the trap interrupts are disabled, the mode
/// returned to is the mode the trap was taken from, the interrupt enable is what it was before the
/// trap, and the previous privilege mode is user mode again. After the return the previous
/// interrupt enable is set, and Modify Privilege is cleared unless the trap was taken from machine
/// mode, where it is what it was before the trap.
pub proof fn law_trap_round_trip(x: u64, mode: u64)
    by (bit_vector)
    requires
        mode < 4,
    ensures
        ({
            let trapped = with_mpp(with_bits(with_bits(x, MPIE_MASK, x & MIE_MASK != 0), MIE_MASK, false), mode);
            let restored = with_mpp(
                with_bits(with_bits(trapped, MIE_MASK, trapped & MPIE_MASK != 0), MPIE_MASK, true),
                0,
            );
            let returned = if mode == 3 { restored } else { with_bits(restored, MPRV_MASK, false) };
            &&& field2(trapped, 11) == mode
            &&& trapped & MIE_MASK == 0u64
            &&& (returned & MIE_MASK != 0) == (x & MIE_MASK != 0)
            &&& field2(returned, 11) == 0
            &&& returned & MPIE_MASK != 0
            &&& mode != 3 ==> returned & MPRV_MASK == 0u64
            &&& mode == 3 ==> returned & MPRV_MASK == x & MPRV_MASK
        }),
{
}

/// The register `x` after its lower half is written with `value`: the global interrupt enable is
/// cleared, and a previous privilege mode other than machine or user mode is not taken.
pub open spec fn lower_written(x: u64, value: u32) -> u64 {
    let written = (x & 0xFFFF_FFFF_0000_0000) | ((value as u64) & !MIE_MASK);
    if field2(written, 11) == 0 || field2(written, 11) == 3 {
        written
    } else {
        with_mpp(written, field2(x, 11))
    }
}

/// The machine status register (both halves).
#[derive(Debug, Clone, Copy)]
pub struct MStatus(u64);

impl View for MStatus {
    type V = u64;

    closed spec fn view(&self) -> u64 {
        self.0
    }
}

impl MStatus {
    /// Machine-mode Global Interrupt Enable.
    pub fn mie(self) -> (b: bool)
        ensures
            b == (self@ & MIE_MASK != 0),
    {
        self.0 & MIE_MASK != 0
    }

    /// Set Machine-mode Global Interrupt Enable.
    pub fn set_mie(&mut self, value: bool)
        ensures
            final(self)@ == with_bits(old(self)@, MIE_MASK, value),
    {
        self.0 = if value { self.0 | MIE_MASK } else { self.0 & !MIE_MASK };
    }

    /// Machine-mode Previous Interrupt Enable.
    pub fn mpie(self) -> (b: bool)
        ensures
            b == (self@ & MPIE_MASK != 0),
    {
        self.0 & MPIE_MASK != 0
    }

    /// Set Machine-mode Previous Interrupt Enable.
    pub fn set_mpie(&mut self, value: bool)
        ensures
            final(self)@ == with_bits(old(self)@, MPIE_MASK, value),
    {
        self.0 = if value { self.0 | MPIE_MASK } else { self.0 & !MPIE_MASK };
    }

    /// Modify Privilege.
    pub fn mprv(self) -> (b: bool)
        ensures
            b == (self@ & MPRV_MASK != 0),
    {
        self.0 & MPRV_MASK != 0
    }

    /// Set Modify Privilege.
    pub fn set_mprv(&mut self, value: bool)
        ensures
            final(self)@ == with_bits(old(self)@, MPRV_MASK, value),
    {
        self.0 = if value { self.0 | MPRV_MASK } else { self.0 & !MPRV_MASK };
    }

    /// The upper half of the register.
    pub fn mstatush_read(&self) -> (r: u32)
        ensures
            r == self@ >> 32u64,
    {
        let v = self.0;
        proof {
            lemma_mstatus_casts(v);
        }
        (v >> 32) as u32
    }

    /// Replace the upper half of the register.
    pub fn mstatush_write(&mut self, value: u32)
        ensures
            final(self)@ == (old(self)@ & 0xFFFF_FFFF) | ((value as u64) << 32u64),
    {
        self.0 = (self.0 & 0x0000_0000_FFFF_FFFF) | ((value as u64) << 32);
    }

    /// The register at reset: every bit clear.
    pub fn new(_ctx: &CsrInitContext) -> (r: Self)
        ensures
            r@ == 0,
    {
        Self(0)
    }

    /// The register is always implemented.
    pub fn is_available() -> (b: bool)
        ensures
            b,
    {
        true
    }

    /// The lower half of the register.
    pub fn read(&self) -> (r: u32)
        ensures
            r == self@ & 0xFFFF_FFFF,
    {
        let v = self.0;
        proof {
            lemma_mstatus_casts(v);
        }
        (v & 0xFFFF_FFFF) as u32
    }

    /// Replace the lower half of the register. The global interrupt enable is cleared, and a
    /// previous privilege mode other than machine or user mode is not taken: the field keeps its
    /// value.
    pub fn write(&mut self, value: u32)
        ensures
            final(self)@ == lower_written(old(self)@, value),
    {
        let mpp = self.mpp();
        self.0 = (self.0 & 0xFFFF_FFFF_0000_0000) | ((value as u64) & !MIE_MASK);
        let new_mpp = self.mpp();
        if !(new_mpp == Mode::Machine || new_mpp == Mode::User) {
            self.set_mpp(mpp);
        }
    }

    /// F-extension status (bits 13 and 14).
    pub fn fs(self) -> (r: ExtStatus)
        ensures
            r.bits() == field2(self@, 13),
    {
        let v = self.0;
        proof {
            lemma_mstatus_casts(v);
        }
        ExtStatus::take_masked(((v >> 13) & 0xFF) as u8)
    }

    /// V-extension status (bits 9 and 10).
    pub fn vs(self) -> (r: ExtStatus)
        ensures
            r.bits() == field2(self@, 9),
    {
        let v = self.0;
        proof {
            lemma_mstatus_casts(v);
        }
        ExtStatus::take_masked(((v >> 9) & 0xFF) as u8)
    }

    /// User-defined extension status (bits 15 and 16).
    pub fn xs(self) -> (r: ExtStatus)
        ensures
            r.bits() == field2(self@, 15),
    {
        let v = self.0;
        proof {
            lemma_mstatus_casts(v);
        }
        ExtStatus::take_masked(((v >> 15) & 0xFF) as u8)
    }

    /// Summarize dirty: whether any extension status is dirty.
    pub fn sd(self) -> (b: bool)
        ensures
            b == (field2(self@, 13) == 3 || field2(self@, 9) == 3 || field2(self@, 15) == 3),
    {
        self.fs() == ExtStatus::Dirty || self.vs() == ExtStatus::Dirty || self.xs() == ExtStatus::Dirty
    }

    /// Mark the F-extension state dirty.
    pub fn mark_fs_dirty(&mut self)
        requires
            field2(old(self)@, 13) != 0,
        ensures
            final(self)@ == old(self)@ | (0b11u64 << 13u64),
    {
        self.0 = self.0 | (0b11 << 13);
    }

    /// Mark the V-extension state dirty.
    pub fn mark_vs_dirty(&mut self)
        requires
            field2(old(self)@, 9) != 0,
        ensures
            final(self)@ == old(self)@ | (0b11u64 << 9u64),
    {
        self.0 = self.0 | (0b11 << 9);
    }

    /// Mark the user-defined extension state dirty.
    pub fn mark_xs_dirty(&mut self)
        requires
            field2(old(self)@, 15) != 0,
        ensures
            final(self)@ == old(self)@ | (0b11u64 << 15u64),
    {
        self.0 = self.0 | (0b11 << 15);
    }

    /// Whether interrupts are taken in `mode`: only in machine mode, and only when enabled.
    pub fn has_interrupts(self, mode: Mode) -> (b: bool)
        ensures
            b == (self@ & MIE_MASK != 0 && mode == Mode::Machine),
    {
        self.mie() && mode == Mode::Machine
    }

    /// Take a trap from `current_mode` into machine mode: the previous interrupt enable gets the
    /// interrupt enable, interrupts are disabled and the previous privilege mode is
    /// `current_mode`.
    pub fn trap_to_machine(&mut self, current_mode: Mode)
        ensures
            final(self)@ == with_mpp(
                with_bits(with_bits(old(self)@, MPIE_MASK, old(self)@ & MIE_MASK != 0), MIE_MASK, false),
                current_mode.bits() as u64,
            ),
    {
        let mie = self.mie();
        self.set_mpie(mie);
        self.set_mie(false);
        self.set_mpp(current_mode);
    }

    /// Return from a machine-mode trap, giving the new privilege mode: the previous privilege
    /// mode. The interrupt enable gets the previous interrupt enable, which is set; the previous
    /// privilege mode becomes user mode, and unless the mode returned to is machine mode, Modify
    /// Privilege is cleared.
    pub fn return_from_machine_trap(&mut self) -> (mode: Mode)
        ensures
            mode.bits() == field2(old(self)@, 11),
            ({
                let restored = with_mpp(
                    with_bits(with_bits(old(self)@, MIE_MASK, old(self)@ & MPIE_MASK != 0), MPIE_MASK, true),
                    0,
                );
                final(self)@ == if mode == Mode::Machine {
                    restored
                } else {
                    with_bits(restored, MPRV_MASK, false)
                }
            }),
    {
        let previous_privilege = self.mpp();
        let mpie = self.mpie();
        self.set_mie(mpie);
        self.set_mpie(true);
        self.set_mpp(Mode::User);
        if previous_privilege != Mode::Machine {
            self.set_mprv(false);
        }
        previous_privilege
    }

    /// Machine Previous Privilege mode (bits 11 and 12).
    pub fn mpp(self) -> (r: Mode)
        ensures
            r.bits() == field2(self@, 11),
    {
        let v = self.0;
        proof {
            lemma_mstatus_casts(v);
        }
        Mode::take_masked(((v >> 11) & 0xFFFF_FFFF) as u32)
    }

    /// Set Machine Previous Privilege mode.
    pub fn set_mpp(&mut self, mode: Mode)
        ensures
            final(self)@ == with_mpp(old(self)@, mode.bits() as u64),
    {
        self.0 = (self.0 & !MPP_MASK) | ((mode.to_bits() as u64) << 11);
    }

    /// Machine Mode Data Memory Access Big-Endian.
    pub fn mbe(self) -> (r: Endianness)
        ensures
            r == if self@ & MBE_MASK != 0 { Endianness::Big } else { Endianness::Little },
    {
        if self.0 & MBE_MASK != 0 { Endianness::Big } else { Endianness::Little }
    }

    /// Supervisor Mode Data Memory Access Big-Endian.
    pub fn sbe(self) -> (r: Endianness)
        ensures
            r == if self@ & SBE_MASK != 0 { Endianness::Big } else { Endianness::Little },
    {
        if self.0 & SBE_MASK != 0 { Endianness::Big } else { Endianness::Little }
    }

    /// User Mode Data Memory Access Big-Endian.
    pub fn ube(self) -> (r: Endianness)
        ensures
            r == if self@ & UBE_MASK != 0 { Endianness::Big } else { Endianness::Little },
    {
        if self.0 & UBE_MASK != 0 { Endianness::Big } else { Endianness::Little }
    }
}

} // verus!
