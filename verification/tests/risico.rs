use rvhwfuzzer::risico::cache::{Cache, CachePolicy, CacheResult};
use rvhwfuzzer::risico::csr::counter::Counter;
use rvhwfuzzer::risico::csr::fcsr::{ExceptionFlags, Fcsr};
use rvhwfuzzer::risico::csr::mcause::MCause;
use rvhwfuzzer::risico::csr::mdeleg::{MEDeleg, MIDeleg};
use rvhwfuzzer::risico::csr::mstatus::{ExtStatus, MStatus};
use rvhwfuzzer::risico::csr::mtvec::{Mtvec, MtvecMode, TrapCause};
use rvhwfuzzer::risico::csr::{CsrInitContext, Empty, Mode, Simple};
use rvhwfuzzer::risico::memory::Endianness;
use rvhwfuzzer::risico::repr::{Addr, Offset, Size, Word};
use rvhwfuzzer::risico::trap::TrapBehavior;
use rvhwfuzzer::risico::util::{sign_extend, u32_to_usize};

#[test]
fn util_conversions() {
    assert_eq!(u32_to_usize(7), 7usize);
    assert_eq!(sign_extend(0b1000, 3), -8);
    assert_eq!(sign_extend(0b0111, 3), 7);
    assert_eq!(sign_extend(0xFFF, 11), -1);
}

#[test]
fn word_sign_extension() {
    assert_eq!(Word::sign_extend_u8(0x80).as_u32(), 0xFFFF_FF80);
    assert_eq!(Word::sign_extend_u8(0x7F).as_u32(), 0x7F);
    assert_eq!(Word::sign_extend_u16(0x8000).as_u32(), 0xFFFF_8000);
    assert_eq!(Word::from(0xFFu32).sign_extend::<4>().as_u32(), 0xFFFF_FFFF);
    assert_eq!(Word::from(0x1234u32).sign_extend::<32>().as_u32(), 0x1234);
    assert_eq!(Word::from(0xFFFF_FFFFu32).as_i32(), -1);
    assert!(Word::from(0xFFFF_FFFFu32).is_all_1());
    assert_eq!(Word::from(0x25u32).as_shift().as_usize(), 5);
}

#[test]
fn addresses() {
    let a = Addr::from(0x1003u32);
    assert_eq!(a.word_align().as_u32(), 0x1000);
    assert_eq!(a.word_offset(), 3);
    assert_eq!(a.offset(Offset::from(-4)).as_u32(), 0x0FFF);
    assert_eq!(Addr::from(0xFFFF_FFFFu32).end(Size::from(2u32)).as_u32(), 1);
    assert_eq!(a.in_blocks(0x100), (0x10, 3));
    assert!(!a.is_word_aligned());
    let mut it = Addr::from(1u32).to(Addr::from(3u32));
    assert_eq!(it.next().map(|x| x.as_u32()), Some(1));
    assert_eq!(it.next().map(|x| x.as_u32()), Some(2));
    assert!(it.next().is_none());
}

#[test]
fn sizes() {
    assert_eq!(Size::from(3u32).checked_add(Size::from(4u32)).map(|s| s.as_usize()), Some(7));
    assert!(Size::from(u32::MAX).checked_add(Size::from(1u32)).is_none());
    assert_eq!(Size::from_usize(5).map(|s| s.as_usize()), Some(5));
    assert!(Size::from(8u32).is_word_aligned());
}

#[test]
fn trap_behavior() {
    let b = TrapBehavior::abort_on_breakpoint() | TrapBehavior::abort_on_missing_csr();
    assert!(b.contains(TrapBehavior::abort_on_breakpoint()));
    let low = TrapBehavior::abort_on_instr_address_misaligned() | TrapBehavior::abort_on_instr_access_fault();
    assert!(low.does_abort_on(3));
    assert!(!low.does_abort_on(4));
    assert!(low.does_abort_on(0x13));
    assert!(b.does_abort_on_missing_csr());
    assert!(!b.set_minus(TrapBehavior::abort_on_missing_csr()).does_abort_on_missing_csr());
    assert!(TrapBehavior::abort_on_trap(TrapCause::IllegalInstruction).contains(TrapBehavior::abort_on_illegal_instruction()));
    assert!(TrapBehavior::abort_all().contains(TrapBehavior::abort_on_store_amo_page_fault()));
    assert!(!TrapBehavior::abort_all().does_abort_on_missing_csr());
    assert!(TrapBehavior::empty().contains(TrapBehavior::empty()));
}

#[test]
fn counter_halves() {
    let ctx = CsrInitContext {};
    let mut c = Counter::new(&ctx);
    c.low_write(0xFFFF_FFFF);
    c.increment();
    assert_eq!(c.low_read(), 0);
    assert_eq!(c.high_read(), 1);
    c.high_write(7);
    assert_eq!(c.high_read(), 7);
    assert_eq!(c.low_read(), 0);
}

#[test]
fn simple_registers() {
    let ctx = CsrInitContext {};
    let mut s = Simple::new(&ctx);
    s.write(9);
    assert_eq!(s.read(), 9);
    let mut e = Empty::new(&ctx);
    e.write(9);
    assert_eq!(e.read(), 0);
    let mut m = MCause::new(&ctx);
    m.write(0x8000_0007);
    assert!(m.interrupt());
    assert_eq!(m.exception(), 7);
    assert_eq!(Mode::take_masked(7), Mode::Machine);
}

#[test]
fn delegation() {
    let ctx = CsrInitContext {};
    let mut d = MEDeleg::new(&ctx);
    assert_eq!(d.write(0xFFFF_FFFF), 0);
    assert_eq!(d.read(), 0x0000_B7FF);
    assert!(d.is_delegated(TrapCause::Breakpoint));
    assert!(!d.is_delegated(TrapCause::EcallMmode));
    let mut i = MIDeleg::new(&ctx);
    assert_eq!(i.write(5), 0);
    assert_eq!(i.read(), 5);
}

#[test]
fn trap_vector() {
    let ctx = CsrInitContext {};
    let mut v = Mtvec::new(&ctx);
    v.write(0x1001);
    assert_eq!(v.mode(), MtvecMode::Vectored);
    assert_eq!(v.base(), 0x1000);
    assert_eq!(v.cause_addr(TrapCause::Breakpoint), Some(0x100C));
    v.write(0x1000);
    assert_eq!(v.cause_addr(TrapCause::Breakpoint), Some(0x1000));
    v.write(0x1002);
    assert_eq!(v.cause_addr(TrapCause::Breakpoint), None);
}

#[test]
fn float_status() {
    let ctx = CsrInitContext {};
    let mut f = Fcsr::new(&ctx);
    f.frm_write(0b101);
    f.fflags_write(0b10001);
    assert_eq!(f.frm_read(), 0b101);
    assert_eq!(f.fflags_read(), 0b10001);
    assert_eq!(f.read(), 0b1011_0001);
    assert!(f.get_fflags().contains(ExceptionFlags::invalid()));
    f.set_fflags(ExceptionFlags::empty());
    assert!(f.get_fflags().is_empty());
    f.write(0x1FF);
    assert_eq!(f.read(), 0xFF);
    assert_eq!((ExceptionFlags::overflow() | ExceptionFlags::inexact()).to_bits(), 0b101);
}

#[test]
fn machine_status_traps() {
    let ctx = CsrInitContext {};
    let mut s = MStatus::new(&ctx);
    s.set_mie(true);
    s.trap_to_machine(Mode::Supervisor);
    assert!(!s.mie());
    assert!(s.mpie());
    assert_eq!(s.mpp(), Mode::Supervisor);
    assert!(!s.has_interrupts(Mode::Machine));
    let back = s.return_from_machine_trap();
    assert_eq!(back, Mode::Supervisor);
    assert!(s.mie());
    assert_eq!(s.mpp(), Mode::User);
    assert!(s.has_interrupts(Mode::Machine));
}

#[test]
fn machine_status_fields() {
    let ctx = CsrInitContext {};
    let mut s = MStatus::new(&ctx);
    s.write(0b01 << 13 | 0b01 << 11 | 0b1000);
    assert!(!s.mie());
    assert_eq!(s.fs(), ExtStatus::Initial);
    assert_eq!(s.mpp(), Mode::User);
    s.mark_fs_dirty();
    assert_eq!(s.fs(), ExtStatus::Dirty);
    assert!(s.sd());
    s.mstatush_write(0x30);
    assert_eq!(s.mstatush_read(), 0x30);
    assert_eq!(s.mbe(), Endianness::Big);
    assert_eq!(s.sbe(), Endianness::Big);
    assert_eq!(s.ube(), Endianness::Little);
    assert_eq!(ExtStatus::take_masked(6), ExtStatus::Clean);
}

#[test]
fn cache_hits_and_misses() {
    let mut cache = Cache::new(2, 4, 4, CachePolicy::FIFO);
    assert_eq!(cache.read(Addr::from(0x100u32)), CacheResult::Miss);
    assert_eq!(cache.read(Addr::from(0x100u32)), CacheResult::Hit);
    assert_eq!(cache.write(Addr::from(0x101u32)), CacheResult::Hit);
    assert_eq!(cache.write(Addr::from(0x200u32)), CacheResult::Miss);
    assert_eq!(cache.read(Addr::from(0x104u32)), CacheResult::Miss);
}

#[test]
fn trap_behavior_debug_text() {
    assert_eq!(
        TrapBehavior::abort_on_breakpoint().debug_string(),
        "TrapBehavior { all: false, instr_misaligned: false, instr_access_fault: false, illegal_instr: false, breakpoint: true, load_misaligned: false, load_access_fault: false, store_amo_misaligned: false, store_amo_access_fault: false, smode_ecall: false, umode_ecall: false, mmode_ecall: false, instr_page_fault: false, load_page_fault: false, store_amo_page_fault: false, missing_csr: false }"
    );
    let all = TrapBehavior::abort_all().debug_string();
    assert!(all.starts_with("TrapBehavior { all: true, instr_misaligned: true,"));
    assert!(all.ends_with("store_amo_page_fault: true, missing_csr: false }"));
}
