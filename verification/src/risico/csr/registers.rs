//! All control and status registers of the hart, read and written by their numbers.
use vstd::prelude::*;

use super::counter::Counter;
use super::fcsr::{Fcsr, FFLAGS_MASK, FRM_MASK};
use super::mcause::MCause;
use super::mdeleg::{MEDeleg, MIDeleg};
use super::mstatus::{lower_written, MStatus};
use super::mtvec::Mtvec;
use super::{CsrError, CsrInitContext, Simple};

verus! {

/// The value that `misa` holds at first: a 32-bit machine (MXL 1) with the base integer
/// instruction set (extension bit 8).
pub const MISA_RV32I: u32 = 0x4000_0100;

/// The control and status registers of a hart.
#[derive(Clone, Debug)]
pub struct ControlStatusRegisters {
    pub fcsr: Fcsr,
    pub mstatus: MStatus,
    pub misa: Simple,
    pub medeleg: MEDeleg,
    pub mideleg: MIDeleg,
    pub mtvec: Mtvec,
    pub mscratch: Simple,
    pub mepc: Simple,
    pub mcause: MCause,
    pub cycle: Counter,
    pub time: Counter,
    pub instret: Counter,
}

/// The registers that are implemented as reading zero and ignoring writes: `satp`, `mie`, the
/// machine information registers, the non-maskable interrupt registers and the physical memory
/// protection registers.
pub open spec fn is_zero_csr(id: u16) -> bool {
    ||| id == 0x180
    ||| id == 0x304
    ||| 0xF11 <= id <= 0xF14
    ||| id == 0x740
    ||| id == 0x741
    ||| id == 0x742
    ||| id == 0x744
    ||| 0x3A0 <= id <= 0x3EF
}

/// The numbers of the registers that hold a value.
pub open spec fn is_stateful_csr(id: u16) -> bool {
    ||| 1 <= id <= 3
    ||| id == 0x300
    ||| id == 0x310
    ||| 0x301 <= id <= 0x303
    ||| id == 0x305
    ||| 0x340 <= id <= 0x342
    ||| 0xC00 <= id <= 0xC02
    ||| 0xC80 <= id <= 0xC82
}

/// Whether a register has the number `id`.
pub open spec fn is_known_csr(id: u16) -> bool {
    is_zero_csr(id) || is_stateful_csr(id)
}

/// Whether `id` is the number of a register that reads as zero and ignores writes.
fn zero_csr(id: u16) -> (b: bool)
    ensures
        b == is_zero_csr(id),
{
    id == 0x180 || id == 0x304 || (0xF11 <= id && id <= 0xF14) || id == 0x740 || id == 0x741 || id
        == 0x742 || id == 0x744 || (0x3A0 <= id && id <= 0x3EF)
}

/// The low half of a counter.
pub open spec fn low_half(v: u64) -> u32 {
    (v % 0x1_0000_0000) as u32
}

/// The high half of a counter.
pub open spec fn high_half(v: u64) -> u32 {
    (v / 0x1_0000_0000) as u32
}

impl ControlStatusRegisters {
    /// The value that reading the register `id` gives (zero for a number without a register).
    pub open spec fn value_of(&self, id: u16) -> u32 {
        if id == 1 {
            self.fcsr@ & FFLAGS_MASK
        } else if id == 2 {
            (self.fcsr@ & FRM_MASK) >> 5u32
        } else if id == 3 {
            self.fcsr@
        } else if id == 0x300 {
            (self.mstatus@ & 0xFFFF_FFFF) as u32
        } else if id == 0x310 {
            (self.mstatus@ >> 32u64) as u32
        } else if id == 0x301 {
            self.misa@
        } else if id == 0x302 {
            self.medeleg.value_spec()
        } else if id == 0x303 {
            self.mideleg@
        } else if id == 0x305 {
            self.mtvec@
        } else if id == 0x340 {
            self.mscratch@
        } else if id == 0x341 {
            self.mepc@
        } else if id == 0x342 {
            self.mcause@
        } else if id == 0xC00 {
            low_half(self.cycle@)
        } else if id == 0xC80 {
            high_half(self.cycle@)
        } else if id == 0xC01 {
            low_half(self.time@)
        } else if id == 0xC81 {
            high_half(self.time@)
        } else if id == 0xC02 {
            low_half(self.instret@)
        } else if id == 0xC82 {
            high_half(self.instret@)
        } else {
            0
        }
    }

    /// `new` is `old` after `value` is written to the register `id`: only the register that holds
    /// `id` changes, as its own write says.
    pub open spec fn written(old: Self, new: Self, id: u16, value: u32) -> bool {
        &&& if id == 1 {
            new.fcsr@ == (old.fcsr@ & !FFLAGS_MASK) | (value & FFLAGS_MASK)
        } else if id == 2 {
            new.fcsr@ == (old.fcsr@ & !FRM_MASK) | ((value << 5u32) & FRM_MASK)
        } else if id == 3 {
            new.fcsr@ == value & 0xFF
        } else {
            new.fcsr == old.fcsr
        }
        &&& if id == 0x300 {
            new.mstatus@ == lower_written(old.mstatus@, value)
        } else if id == 0x310 {
            new.mstatus@ == (old.mstatus@ & 0xFFFF_FFFF) | ((value as u64) << 32u64)
        } else {
            new.mstatus == old.mstatus
        }
        &&& if id == 0x301 { new.misa@ == value } else { new.misa == old.misa }
        &&& if id == 0x302 {
            new.medeleg.value_spec() == value & !old.medeleg.readonly_mask_spec()
                && new.medeleg.readonly_mask_spec() == old.medeleg.readonly_mask_spec()
        } else {
            new.medeleg == old.medeleg
        }
        &&& if id == 0x303 { new.mideleg@ == value } else { new.mideleg == old.mideleg }
        &&& if id == 0x305 { new.mtvec@ == value } else { new.mtvec == old.mtvec }
        &&& if id == 0x340 { new.mscratch@ == value } else { new.mscratch == old.mscratch }
        &&& if id == 0x341 { new.mepc@ == value } else { new.mepc == old.mepc }
        &&& if id == 0x342 { new.mcause@ == value } else { new.mcause == old.mcause }
        &&& counter_written(old.cycle, new.cycle, id, 0xC00, value)
        &&& counter_written(old.time, new.time, id, 0xC01, value)
        &&& counter_written(old.instret, new.instret, id, 0xC02, value)
    }

    /// All registers as they are after a reset: everything zero but `misa`.
    pub fn new(ctx: &CsrInitContext) -> (r: Self)
        ensures
            forall|id: u16| id != 0x301 ==> #[trigger] r.value_of(id) == 0,
            r.value_of(0x301) == MISA_RV32I,
    {
        let mut misa = Simple::new(ctx);
        misa.write(MISA_RV32I);
        let medeleg = MEDeleg::new(ctx);
        let mtvec = Mtvec::new(ctx);
        let r = ControlStatusRegisters {
            fcsr: Fcsr::new(ctx),
            mstatus: MStatus::new(ctx),
            misa,
            medeleg,
            mideleg: MIDeleg::new(ctx),
            mtvec,
            mscratch: Simple::new(ctx),
            mepc: Simple::new(ctx),
            mcause: MCause::new(ctx),
            cycle: Counter::new(ctx),
            time: Counter::new(ctx),
            instret: Counter::new(ctx),
        };
        proof {
            assert((0u32 & FFLAGS_MASK) == 0u32 && ((0u32 & FRM_MASK) >> 5u32) == 0u32) by (bit_vector);
            assert((0u64 & 0xFFFF_FFFF) == 0u64 && (0u64 >> 32u64) == 0u64) by (bit_vector);
        }
        r
    }

    /// The value of the register `id`, or the error that there is none.
    pub fn read(&self, id: u16) -> (r: Result<u32, CsrError>)
        ensures
            r == if is_known_csr(id) {
                Ok::<u32, CsrError>(self.value_of(id))
            } else {
                Err(CsrError::UnknownRegister)
            },
    {
        if id == 1 {
            Ok(self.fcsr.fflags_read())
        } else if id == 2 {
            Ok(self.fcsr.frm_read())
        } else if id == 3 {
            Ok(self.fcsr.read())
        } else if id == 0x300 {
            Ok(self.mstatus.read())
        } else if id == 0x310 {
            Ok(self.mstatus.mstatush_read())
        } else if id == 0x301 {
            Ok(self.misa.read())
        } else if id == 0x302 {
            Ok(self.medeleg.read())
        } else if id == 0x303 {
            Ok(self.mideleg.read())
        } else if id == 0x305 {
            Ok(self.mtvec.read())
        } else if id == 0x340 {
            Ok(self.mscratch.read())
        } else if id == 0x341 {
            Ok(self.mepc.read())
        } else if id == 0x342 {
            Ok(self.mcause.read())
        } else if id == 0xC00 {
            Ok(self.cycle.low_read())
        } else if id == 0xC80 {
            Ok(self.cycle.high_read())
        } else if id == 0xC01 {
            Ok(self.time.low_read())
        } else if id == 0xC81 {
            Ok(self.time.high_read())
        } else if id == 0xC02 {
            Ok(self.instret.low_read())
        } else if id == 0xC82 {
            Ok(self.instret.high_read())
        } else if zero_csr(id) {
            Ok(0)
        } else {
            Err(CsrError::UnknownRegister)
        }
    }

    /// Write `value` to the register `id` and give its value before; or the error that there is
    /// no such register, leaving all registers as they are.
    pub fn write(&mut self, id: u16, value: u32) -> (r: Result<u32, CsrError>)
        ensures
            is_known_csr(id) ==> r == Ok::<u32, CsrError>(old(self).value_of(id)) && Self::written(
                *old(self),
                *final(self),
                id,
                value,
            ),
            !is_known_csr(id) ==> r == Err::<u32, CsrError>(CsrError::UnknownRegister) && *final(self)
                == *old(self),
    {
        let previous = self.read(id);
        if previous.is_err() {
            return previous;
        }
        if id == 1 {
            self.fcsr.fflags_write(value);
        } else if id == 2 {
            self.fcsr.frm_write(value);
        } else if id == 3 {
            self.fcsr.write(value);
        } else if id == 0x300 {
            self.mstatus.write(value);
        } else if id == 0x310 {
            self.mstatus.mstatush_write(value);
        } else if id == 0x301 {
            self.misa.write(value);
        } else if id == 0x302 {
            self.medeleg.write(value);
        } else if id == 0x303 {
            self.mideleg.write(value);
        } else if id == 0x305 {
            self.mtvec.write(value);
        } else if id == 0x340 {
            self.mscratch.write(value);
        } else if id == 0x341 {
            self.mepc.write(value);
        } else if id == 0x342 {
            self.mcause.write(value);
        } else if id == 0xC00 {
            self.cycle.low_write(value);
        } else if id == 0xC80 {
            self.cycle.high_write(value);
        } else if id == 0xC01 {
            self.time.low_write(value);
        } else if id == 0xC81 {
            self.time.high_write(value);
        } else if id == 0xC02 {
            self.instret.low_write(value);
        } else if id == 0xC82 {
            self.instret.high_write(value);
        }
        previous
    }

    /// Replace the value `v` of the register `id` by `f(v)` and give `v`; or the error that there
    /// is no such register, leaving all registers as they are.
    pub fn update<F: FnOnce(u32) -> u32>(&mut self, id: u16, f: F) -> (r: Result<u32, CsrError>)
        requires
            is_known_csr(id) ==> call_requires(f, (old(self).value_of(id),)),
        ensures
            is_known_csr(id) ==> r == Ok::<u32, CsrError>(old(self).value_of(id)) && exists|v: u32|
                call_ensures(f, (old(self).value_of(id),), v) && Self::written(*old(self), *final(self), id, v),
            !is_known_csr(id) ==> r == Err::<u32, CsrError>(CsrError::UnknownRegister) && *final(self)
                == *old(self),
    {
        let value = match self.read(id) {
            Ok(v) => v,
            Err(e) => {
                return Err(e);
            },
        };
        let new_value = f(value);
        self.write(id, new_value)
    }
}

/// A counter after `value` is written to register `id`, its low half being register `low` and
/// its high half register `low + 0x80`.
pub open spec fn counter_written(old: Counter, new: Counter, id: u16, low: u16, value: u32) -> bool {
    if id == low {
        new@ == old@ - old@ % 0x1_0000_0000 + value
    } else if id == low + 0x80 {
        new@ == value * 0x1_0000_0000 + old@ % 0x1_0000_0000
    } else {
        new == old
    }
}

/// Reading a register that holds what is written to it (`misa`, `mideleg`, `mtvec`,
/// `mscratch`, `mepc`, `mcause`) gives the value last written, and a write to one register leaves
/// the value of every other register holding its own state as it was.
pub proof fn law_csr_read_after_write(old: ControlStatusRegisters, new: ControlStatusRegisters, id: u16, value: u32, other: u16)
    requires
        ControlStatusRegisters::written(old, new, id, value),
    ensures
        (id == 0x301 || id == 0x303 || id == 0x305 || id == 0x340 || id == 0x341 || id == 0x342) ==> new.value_of(id) == value,
        (other == 0x301 || other == 0x303 || other == 0x305 || other == 0x340 || other == 0x341 || other == 0x342
            || other == 0x302) && other != id ==> new.value_of(other) == old.value_of(other),
{
}

} // verus!
