use rvhwfuzzer::encoding::Instruction;
use rvhwfuzzer::generation::{
    addr_in_range_of_memory_region, appropriate_offset, ensure_memory_available, fill_potential_memory_registers,
    hop_branch, reachable_range, still_branch, take_memory_register, take_signed_immediate,
    take_static_rounding_mode, RandomBits, RegisterRecencyList,
};
use rvhwfuzzer::risico::csr::CsrInitContext;
use rvhwfuzzer::risico::execute::Registers;
use rvhwfuzzer::segment_tree::SegmentTree;

#[test]
fn destination_moves_to_front() {
    let mut list = RegisterRecencyList::new();
    assert_eq!(list.take_register_src(0, 0), 1);
    assert_eq!(list.take_register_dest(5), 5);
    assert_eq!(list.take_register_src(0, 0), 5);
    assert_eq!(list.take_register_src(1, 0), 1);
    assert_eq!(list.take_register_src(3, 0), 2);
    // x0 leaves the list as it is
    assert_eq!(list.take_register_dest(32), 0);
    assert_eq!(list.take_register_src(0, 0), 5);
    // a weight from 224 to 239 gives x0
    assert_eq!(list.take_register_src(0, 230), 0);
    // the tail of the list
    assert_eq!(list.take_register_src(0xF, 255), 31);
}

#[test]
fn compressed_and_fpu_registers() {
    let mut list = RegisterRecencyList::new();
    assert_eq!(list.take_compressed_register_dest(3), 3);
    assert_eq!(list.take_register_src(0, 0), 11);
    assert_eq!(list.take_compressed_register_src(0, 0), 3);
    assert_eq!(list.take_fpu_register_src(0, 0), 0);
    assert_eq!(list.take_fpu_register_dest(7), 7);
    assert_eq!(list.take_fpu_register_src(0, 0), 7);
    assert_eq!(list.take_fpu_register_src(1, 0), 0);
}

#[test]
fn rounding_modes_and_immediates() {
    assert_eq!(take_static_rounding_mode(0), 0);
    assert_eq!(take_static_rounding_mode(3), 3);
    assert_eq!(take_static_rounding_mode(7), 0);
    assert_eq!(take_signed_immediate(0xFFF, 12), -1);
    assert_eq!(take_signed_immediate(0x7FF, 12), 0x7FF);
}

#[test]
fn random_bits_pool() {
    let mut bits = RandomBits::new();
    assert!(bits.needs_fresh(4));
    // the first take draws a fresh word: nothing was in the pool, so the result is 0 & low bits
    assert_eq!(bits.take(4, 0xABCD), 0);
    assert!(!bits.needs_fresh(4));
    assert_eq!(bits.take(4, 0), 0xC);
    assert_eq!(bits.take(8, 0), 0xAB);
}

#[test]
fn branches_chosen_for_the_register_values() {
    let (hop, padding) = hop_branch(23, 1, 2, 5, 5);
    assert_eq!(padding, 20);
    assert!(matches!(hop, Instruction::Beq(_)));
    let (hop, _) = hop_branch(23, 1, 2, 5, 6);
    assert!(matches!(hop, Instruction::Bne(_)));
    assert!(matches!(still_branch(0, 0, 1, 2, 5, 5, 3), Instruction::Bne(_)));
    assert!(matches!(still_branch(1, 0, 1, 2, 0xFFFF_FFFF, 1, 3), Instruction::Bge(_)));
    assert!(matches!(still_branch(1, 1, 1, 2, 0xFFFF_FFFF, 1, 3), Instruction::Bltu(_)));
    match still_branch(0, 0, 1, 2, 5, 6, 3) {
        Instruction::Beq(a) => assert_eq!(a.imm(), 6),
        _ => panic!("expected beq"),
    }
}

#[test]
fn memory_registers_are_found_and_taken() {
    assert!(addr_in_range_of_memory_region(0x100, &(0x100..0x200)));
    assert!(!addr_in_range_of_memory_region(0x1F8, &(0x100..0x200)));
    assert!(!addr_in_range_of_memory_region(0xFF, &(0x100..0x200)));

    let mut regs = Registers::new(0, &CsrInitContext {});
    regs.set(1, 0x150);
    let regions = vec![0x100..0x200];
    let mut candidates = Vec::new();
    fill_potential_memory_registers(&mut candidates, &regions, &regs, &[0; 31]);
    assert_eq!(candidates, vec![(1u8, 0x100..0x200)]);

    let mut candidates = vec![(1u8, 0x100..0x200), (2u8, 0x100..0x200)];
    regs.set(1, 0);
    regs.set(2, 0x180);
    assert_eq!(take_memory_register(&mut candidates, &regs, 0), Some((2u8, 0x100..0x200)));
    assert_eq!(candidates, vec![(2u8, 0x100..0x200)]);
    regs.set(2, 0);
    assert_eq!(take_memory_register(&mut candidates, &regs, 0), None);
    assert!(candidates.is_empty());
}

#[test]
fn offsets_and_reach() {
    assert_eq!(appropriate_offset(0x1000, 0x0FF0), -16);
    assert_eq!(reachable_range(0x100, &(0..0x10000)), (0, 0x900));
    assert_eq!(reachable_range(0x5000, &(0x4000..0x5100)), (0x4800, 0x5100));
}

#[test]
fn memory_is_made_available() {
    let mut areas = SegmentTree::new();
    areas.fill_range(5, &[1]);
    ensure_memory_available(&mut areas, 6, || 9);
    assert_eq!(areas.get(4), Some(9));
    assert_eq!(areas.get(5), Some(1));
    assert_eq!(areas.get(13), Some(9));
    assert_eq!(areas.get(14), None);
    assert_eq!(areas.get(3), None);
}
