use rvhwfuzzer::encoding::Instruction;
use rvhwfuzzer::risico::csr::registers::{ControlStatusRegisters, MISA_RV32I};
use rvhwfuzzer::risico::csr::{CsrError, CsrInitContext};
use rvhwfuzzer::risico::execute::{execute_step, Registers, StepOutcome};
use rvhwfuzzer::risico::memory::{BackingStore, StaticDataArray};
use rvhwfuzzer::risico::repr::Addr;

fn decode(word: u32) -> Instruction {
    Instruction::decode(&word.to_le_bytes()).unwrap()
}

fn run(regs: &mut Registers, mem: &mut StaticDataArray, word: u32) -> StepOutcome {
    execute_step(regs, mem, &decode(word))
}

#[test]
fn registers_ignore_writes_to_x0() {
    let mut regs = Registers::new(0x100, &CsrInitContext {});
    assert_eq!(regs.get_pc(), 0x100);
    assert_eq!(regs.set(0, 7), 0);
    assert_eq!(regs.get(0), 0);
    assert_eq!(regs.set(5, 7), 0);
    assert_eq!(regs.set(5, 9), 7);
    assert_eq!(regs.get(5), 9);
    assert_eq!(regs.set_freg(3, 0x3F80_0000), 0);
    assert_eq!(regs.get_freg(3), 0x3F80_0000);
}

#[test]
fn addi_and_lui() {
    let mut regs = Registers::new(0, &CsrInitContext {});
    let mut mem = StaticDataArray::new(64);
    // addi ra, zero, 5
    assert_eq!(run(&mut regs, &mut mem, 0x0050_0093), StepOutcome::Continue);
    assert_eq!(regs.get(1), 5);
    assert_eq!(regs.get_pc(), 4);
    // addi sp, ra, -1
    run(&mut regs, &mut mem, 0xFFF0_8113);
    assert_eq!(regs.get(2), 4);
    // lui gp, 0x12345
    run(&mut regs, &mut mem, 0x1234_51B7);
    assert_eq!(regs.get(3), 0x1234_5000);
    // addi x0, ra, 1 changes nothing
    run(&mut regs, &mut mem, 0x0010_8013);
    assert_eq!(regs.get(0), 0);
    assert_eq!(regs.get_pc(), 16);
}

#[test]
fn store_then_load() {
    let mut regs = Registers::new(0, &CsrInitContext {});
    let mut mem = StaticDataArray::new(64);
    regs.set(1, 0x8000_00F0);
    regs.set(2, 16);
    // sw ra, 4(sp)
    run(&mut regs, &mut mem, 0x0011_2223);
    assert_eq!(mem.get_le_bytes(Addr::from(20)), 0x8000_00F0);
    // lw t0, 4(sp)
    run(&mut regs, &mut mem, 0x0041_2283);
    assert_eq!(regs.get(5), 0x8000_00F0);
    // lb t1, 4(sp) sign-extends 0xF0
    run(&mut regs, &mut mem, 0x0041_0303);
    assert_eq!(regs.get(6), 0xFFFF_FFF0);
    // lbu t2, 4(sp)
    run(&mut regs, &mut mem, 0x0041_4383);
    assert_eq!(regs.get(7), 0xF0);
}

#[test]
fn branches_and_jumps() {
    let mut regs = Registers::new(0x40, &CsrInitContext {});
    let mut mem = StaticDataArray::new(64);
    // beq zero, zero, 8
    run(&mut regs, &mut mem, 0x0000_0463);
    assert_eq!(regs.get_pc(), 0x48);
    regs.set(1, 1);
    // bne zero, zero, 8 is not taken
    run(&mut regs, &mut mem, 0x0000_1463);
    assert_eq!(regs.get_pc(), 0x4C);
    // blt zero, ra, -4
    run(&mut regs, &mut mem, 0xFE10_4EE3);
    assert_eq!(regs.get_pc(), 0x48);
    // jal ra, 16
    run(&mut regs, &mut mem, 0x0100_00EF);
    assert_eq!(regs.get(1), 0x4C);
    assert_eq!(regs.get_pc(), 0x58);
    // jalr zero, 0(ra)
    run(&mut regs, &mut mem, 0x0000_8067);
    assert_eq!(regs.get_pc(), 0x4C);
}

#[test]
fn control_and_status_registers() {
    let mut regs = Registers::new(0, &CsrInitContext {});
    let mut mem = StaticDataArray::new(64);
    regs.set(1, 0xAB);
    // csrrw t0, mscratch, ra
    assert_eq!(run(&mut regs, &mut mem, 0x3400_92F3), StepOutcome::Continue);
    assert_eq!(regs.get(5), 0);
    assert_eq!(regs.csr().read(0x340).ok(), Some(0xAB));
    // csrrs t1, mscratch, zero only reads
    run(&mut regs, &mut mem, 0x3400_2373);
    assert_eq!(regs.get(6), 0xAB);
    // csrrs t2, misa, zero
    run(&mut regs, &mut mem, 0x3010_23F3);
    assert_eq!(regs.get(7), MISA_RV32I);
    // csrrw t0, 0x7ff, ra: no such register
    let pc = regs.get_pc();
    assert_eq!(run(&mut regs, &mut mem, 0x7FF0_92F3), StepOutcome::MissingCsr(0x7FF));
    assert_eq!(regs.get_pc(), pc);
}

#[test]
fn csr_file_by_number() {
    let mut csrs = ControlStatusRegisters::new(&CsrInitContext {});
    assert_eq!(csrs.read(0x3A5).ok(), Some(0));
    assert_eq!(csrs.write(0x3A5, 7).ok(), Some(0));
    assert_eq!(csrs.read(0x3A5).ok(), Some(0));
    assert!(matches!(csrs.read(0x123), Err(CsrError::UnknownRegister)));
    assert_eq!(csrs.write(0x001, 0xFF).ok(), Some(0));
    assert_eq!(csrs.read(0x001).ok(), Some(0x1F));
    assert_eq!(csrs.read(0x003).ok(), Some(0x1F));
    assert_eq!(csrs.update(0xC80, |v| v | 2).ok(), Some(0));
    assert_eq!(csrs.read(0xC80).ok(), Some(2));
    assert_eq!(csrs.read(0xC00).ok(), Some(0));
}

#[test]
fn environment_and_float_instructions() {
    let mut regs = Registers::new(0x10, &CsrInitContext {});
    let mut mem = StaticDataArray::new(64);
    assert_eq!(run(&mut regs, &mut mem, 0x0000_0073), StepOutcome::EnvironmentCall);
    assert_eq!(regs.get_pc(), 0x14);
    assert_eq!(run(&mut regs, &mut mem, 0x0010_0073), StepOutcome::EnvironmentBreak);
    assert_eq!(regs.get_pc(), 0x14);
    // fadd.s ft0, ft0, ft0
    assert_eq!(run(&mut regs, &mut mem, 0x0000_7053), StepOutcome::FloatingPoint);
    assert_eq!(regs.get_pc(), 0x14);
}

#[test]
fn float_bit_transfers() {
    let mut regs = Registers::new(0, &CsrInitContext {});
    let mut mem = StaticDataArray::new(64);
    regs.set(5, 0x3F80_0000);
    // fmv.w.x f1, t0
    assert_eq!(run(&mut regs, &mut mem, 0xF002_80D3), StepOutcome::Continue);
    assert_eq!(regs.get_freg(1), 0x3F80_0000);
    // fsgnjn.s f2, f1, f1
    run(&mut regs, &mut mem, 0x2010_9153);
    assert_eq!(regs.get_freg(2), 0xBF80_0000);
    // fmv.x.w t1, f2
    run(&mut regs, &mut mem, 0xE001_0353);
    assert_eq!(regs.get(6), 0xBF80_0000);
    assert_eq!(regs.get_pc(), 12);
}
