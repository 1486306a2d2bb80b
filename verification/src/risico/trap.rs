//! Which traps end an emulation run.
use vstd::prelude::*;
use vstd::string::StringExecFns;

use super::csr::mtvec::TrapCause;

verus! {

/// A set of traps on which the emulation aborts: bit `i` stands for exception code `i`, and bit 16
/// for an access to a missing control and status register.
#[derive(Debug, Clone, Copy, PartialEq, Eq, Structural)]
pub struct TrapBehavior(u32);

impl View for TrapBehavior {
    type V = u32;

    closed spec fn view(&self) -> u32 {
        self.0
    }
}

impl TrapBehavior {
    /// Abort on instr address misaligned only.
    pub fn abort_on_instr_address_misaligned() -> (r: Self)
        ensures
            r@ == 0x1,
    {
        Self(0x1)
    }

    /// Abort on instr access fault only.
    pub fn abort_on_instr_access_fault() -> (r: Self)
        ensures
            r@ == 0x2,
    {
        Self(0x2)
    }

    /// Abort on illegal instruction only.
    pub fn abort_on_illegal_instruction() -> (r: Self)
        ensures
            r@ == 0x4,
    {
        Self(0x4)
    }

    /// Abort on breakpoint only.
    pub fn abort_on_breakpoint() -> (r: Self)
        ensures
            r@ == 0x8,
    {
        Self(0x8)
    }

    /// Abort on load addr misaligned only.
    pub fn abort_on_load_addr_misaligned() -> (r: Self)
        ensures
            r@ == 0x10,
    {
        Self(0x10)
    }

    /// Abort on load access fault only.
    pub fn abort_on_load_access_fault() -> (r: Self)
        ensures
            r@ == 0x20,
    {
        Self(0x20)
    }

    /// Abort on store amo address misaligned only.
    pub fn abort_on_store_amo_address_misaligned() -> (r: Self)
        ensures
            r@ == 0x40,
    {
        Self(0x40)
    }

    /// Abort on store amo access fault only.
    pub fn abort_on_store_amo_access_fault() -> (r: Self)
        ensures
            r@ == 0x80,
    {
        Self(0x80)
    }

    /// Abort on env call from u mode only.
    pub fn abort_on_env_call_from_u_mode() -> (r: Self)
        ensures
            r@ == 0x100,
    {
        Self(0x100)
    }

    /// Abort on env call from s mode only.
    pub fn abort_on_env_call_from_s_mode() -> (r: Self)
        ensures
            r@ == 0x200,
    {
        Self(0x200)
    }

    /// Abort on env call from m mode only.
    pub fn abort_on_env_call_from_m_mode() -> (r: Self)
        ensures
            r@ == 0x800,
    {
        Self(0x800)
    }

    /// Abort on instr page fault only.
    pub fn abort_on_instr_page_fault() -> (r: Self)
        ensures
            r@ == 0x1000,
    {
        Self(0x1000)
    }

    /// Abort on load page fault only.
    pub fn abort_on_load_page_fault() -> (r: Self)
        ensures
            r@ == 0x2000,
    {
        Self(0x2000)
    }

    /// Abort on store amo page fault only.
    pub fn abort_on_store_amo_page_fault() -> (r: Self)
        ensures
            r@ == 0x8000,
    {
        Self(0x8000)
    }

    /// Abort on missing csr only.
    pub fn abort_on_missing_csr() -> (r: Self)
        ensures
            r@ == 0x10000,
    {
        Self(0x10000)
    }


    /// The traps whose bits are set in `bits`.
    pub(crate) fn from_bits(bits: u32) -> (r: Self)
        ensures
            r@ == bits,
    {
        Self(bits)
    }

    /// Abort on nothing.
    pub fn empty() -> (r: Self)
        ensures
            r@ == 0,
    {
        Self(0)
    }

    /// Abort on every exception, but not on a missing register.
    pub fn abort_all() -> (r: Self)
        ensures
            r@ == 0xFFFF,
    {
        Self(0xFFFF)
    }

    /// Abort on `trap` only.
    pub fn abort_on_trap(trap: TrapCause) -> (r: Self)
        ensures
            r@ == 1u32 << trap.code_spec(),
    {
        Self(1 << trap.code())
    }

    /// Whether every trap of `other` is in the set.
    pub fn contains(self, other: Self) -> (b: bool)
        ensures
            b == (self@ & other@ == other@),
    {
        self.0 & other.0 == other.0
    }

    /// Whether the set aborts on `exception_code`, of which only the lowest four bits are read.
    pub fn does_abort_on(self, exception_code: u32) -> (b: bool)
        ensures
            b == (self@ & (exception_code & 0xF) == exception_code & 0xF),
    {
        let exception_code = exception_code & 0xF;
        self.0 & exception_code == exception_code
    }

    /// Whether the set aborts on an access to a missing register.
    pub fn does_abort_on_missing_csr(self) -> (b: bool)
        ensures
            b == (self@ & 0x1_0000 != 0),
    {
        self.0 & Self::abort_on_missing_csr().0 != 0
    }

    /// The traps of the set that are not in `other`.
    pub fn set_minus(self, other: Self) -> (r: Self)
        ensures
            r@ == self@ & !other@,
    {
        Self(self.0 & !other.0)
    }
}

impl vstd::std_specs::ops::BitOrSpecImpl for TrapBehavior {
    open spec fn obeys_bitor_spec() -> bool {
        true
    }

    open spec fn bitor_req(self, rhs: Self) -> bool {
        true
    }

    closed spec fn bitor_spec(self, rhs: Self) -> Self {
        TrapBehavior(self.0 | rhs.0)
    }
}

impl std::ops::BitOr for TrapBehavior {
    type Output = Self;

    fn bitor(self, rhs: Self) -> (r: Self)
        ensures
            r@ == self@ | rhs@,
    {
        Self(self.0 | rhs.0)
    }
}

/// The names of the traps in the debugging text, in order.
pub open spec fn trap_field_names() -> Seq<Seq<char>> {
    seq!["all"@, "instr_misaligned"@, "instr_access_fault"@, "illegal_instr"@, "breakpoint"@, "load_misaligned"@, "load_access_fault"@, "store_amo_misaligned"@, "store_amo_access_fault"@, "smode_ecall"@, "umode_ecall"@, "mmode_ecall"@, "instr_page_fault"@, "load_page_fault"@, "store_amo_page_fault"@, "missing_csr"@]
}

/// The traps of each name in the debugging text, in order.
pub open spec fn trap_field_masks() -> Seq<u32> {
    seq![0xFFFFu32, 0x1u32, 0x2u32, 0x4u32, 0x8u32, 0x10u32, 0x20u32, 0x40u32, 0x80u32, 0x200u32, 0x100u32, 0x800u32, 0x1000u32, 0x2000u32, 0x8000u32, 0x10000u32]
}

/// `true` or `false`.
pub open spec fn bool_text(b: bool) -> Seq<char> {
    if b {
        "true"@
    } else {
        "false"@
    }
}

/// The fields of the debugging text for the first `n` names: each name, `: ` and whether the set
/// holds all of its traps, separated by `, `.
pub open spec fn trap_fields_text(bits: u32, n: nat) -> Seq<char>
    decreases n,
{
    if n == 0 {
        Seq::empty()
    } else {
        trap_fields_text(bits, (n - 1) as nat) + (if n > 1 {
            ", "@
        } else {
            Seq::empty()
        }) + trap_field_names()[n - 1] + ": "@ + bool_text(bits & trap_field_masks()[n - 1] == trap_field_masks()[n - 1])
    }
}

impl TrapBehavior {
    /// The debugging text: `TrapBehavior { all: .., instr_misaligned: .., .. }`, whether the set
    /// holds all traps and then each trap by name.
    pub fn debug_string(&self) -> (r: String)
        ensures
            r@ == "TrapBehavior { "@ + trap_fields_text(self@, 16) + " }"@,
    {
        let names: [&str; 16] = ["all", "instr_misaligned", "instr_access_fault", "illegal_instr", "breakpoint", "load_misaligned", "load_access_fault", "store_amo_misaligned", "store_amo_access_fault", "smode_ecall", "umode_ecall", "mmode_ecall", "instr_page_fault", "load_page_fault", "store_amo_page_fault", "missing_csr"];
        let masks: [u32; 16] = [0xFFFF, 0x1, 0x2, 0x4, 0x8, 0x10, 0x20, 0x40, 0x80, 0x200, 0x100, 0x800, 0x1000, 0x2000, 0x8000, 0x10000];
        proof {
            assert(names@.map_values(|n: &str| n@) =~= trap_field_names());
            assert(masks@ =~= trap_field_masks());
        }
        let mut out = String::from_str("TrapBehavior { ");
        let ghost head = out@;
        let mut i: usize = 0;
        while i < 16
            invariant
                i <= 16,
                names@.map_values(|n: &str| n@) == trap_field_names(),
                masks@ == trap_field_masks(),
                out@ == head + trap_fields_text(self@, i as nat),
            decreases 16 - i,
        {
            if i > 0 {
                out.append(", ");
            }
            proof {
                assert(names@.map_values(|n: &str| n@)[i as int] == names@[i as int]@);
            }
            out.append(names[i]);
            out.append(": ");
            if self.contains(TrapBehavior(masks[i])) {
                out.append("true");
            } else {
                out.append("false");
            }
            proof {
                assert(out@ =~= head + trap_fields_text(self@, (i + 1) as nat));
            }
            i = i + 1;
        }
        out.append(" }");
        proof {
            assert(out@ =~= "TrapBehavior { "@ + trap_fields_text(self@, 16) + " }"@);
        }
        out
    }
}

} // verus!
