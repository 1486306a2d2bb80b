use rvhwfuzzer::risico::memory::{
    BackingStore, DynamicDataArray, Endianness, MemoryPermissions, PlacedBytes, StaticDataArray,
};
use rvhwfuzzer::risico::repr::{Addr, Size};
use rvhwfuzzer::interval_tree::IntervalTree;
use rvhwfuzzer::program_memory::{u32_to_usize, MemoryArea, ProgramMemory};
use rvhwfuzzer::segment_tree::SegmentTree;

#[test]
fn memory_permissions() {
    let p = MemoryPermissions::read_only();
    assert!(p.read && !p.write && !p.execute);
    let p = MemoryPermissions::read_write();
    assert!(p.read && p.write && !p.execute);
    let p = MemoryPermissions::read_execute();
    assert!(p.read && !p.write && p.execute);
    let p = MemoryPermissions::read_write_execute();
    assert!(p.read && p.write && p.execute);
}

#[test]
fn placed_bytes_words_and_bytes() {
    let mut placed = PlacedBytes::new(0x100, vec![0x11, 0x22, 0x33, 0x44, 0x55, 0x66, 0x77, 0x88]);
    assert_eq!(placed.end().as_u32(), 0x108);
    assert_eq!(placed.get_le_bytes(Addr::from(0x100)), 0x4433_2211);
    assert_eq!(placed.get_be_bytes(Addr::from(0x100)), 0x1122_3344);
    assert_eq!(placed.get_le_bytes(Addr::from(0x102)), 0x6655_4433);
    assert_eq!(placed.get(Addr::from(0x104), Endianness::Big), 0x5566_7788);
    assert_eq!(placed.get_byte(Addr::from(0x105)), 0x66);
    placed.set_le_bytes(Addr::from(0x104), 0xDEAD_BEEF);
    assert_eq!(placed.bytes(), &[0x11, 0x22, 0x33, 0x44, 0xEF, 0xBE, 0xAD, 0xDE]);
    placed.set(Addr::from(0x100), 0x0102_0304, Endianness::Big);
    assert_eq!(&placed.bytes()[..4], &[0x01, 0x02, 0x03, 0x04]);
    placed.set_byte(Addr::from(0x101), 0xAA);
    assert_eq!(placed.get_byte(Addr::from(0x101)), 0xAA);
    placed.bytes_mut().push(0x99);
    assert_eq!(placed.bytes().len(), 9);
    assert!(placed.is_executable(Addr::from(0x100)));
}

#[test]
fn placed_bytes_halfwords() {
    let mut placed = PlacedBytes::new(0, vec![0x11, 0x22, 0x33, 0x44, 0x55, 0x66, 0x77, 0x88]);
    assert_eq!(placed.get_le_halfword(Addr::from(0)), 0x2211);
    assert_eq!(placed.get_le_halfword(Addr::from(2)), 0x4433);
    assert_eq!(placed.get_le_halfword(Addr::from(1)), 0x3322);
    assert_eq!(placed.get_le_halfword(Addr::from(3)), 0x5544);
    assert_eq!(placed.get_be_halfword(Addr::from(0)), 0x1122);
    assert_eq!(placed.get_halfword(Addr::from(2), Endianness::Big), 0x3344);
    placed.set_le_halfword(Addr::from(0), 0xBBAA);
    placed.set_le_halfword(Addr::from(2), 0xDDCC);
    assert_eq!(&placed.bytes()[..4], &[0xAA, 0xBB, 0xCC, 0xDD]);
    placed.set_le_halfword(Addr::from(1), 0x0201);
    assert_eq!(&placed.bytes()[..4], &[0xAA, 0x01, 0x02, 0xDD]);
    placed.set_le_halfword(Addr::from(3), 0x0403);
    assert_eq!(&placed.bytes()[2..6], &[0x02, 0x03, 0x04, 0x66]);
    placed.set_halfword(Addr::from(4), 0x1234, Endianness::Big);
    assert_eq!(&placed.bytes()[4..6], &[0x12, 0x34]);
    assert_eq!(placed.get_halfword(Addr::from(4), Endianness::Big), 0x1234);
    placed.set_be_halfword(Addr::from(6), 0xABCD);
    assert_eq!(placed.get_le_halfword(Addr::from(6)), 0xCDAB);
}

#[test]
fn static_data_array_read_write() {
    let mut array = StaticDataArray::new(16);
    assert_eq!(array.get_le_bytes(Addr::from(0)), 0);
    assert_eq!(array.get_le_bytes(Addr::from(16)), 0);
    array.set_le_bytes(Addr::from(4), 0x4433_2211);
    assert_eq!(array.get_le_bytes(Addr::from(4)), 0x4433_2211);
    assert_eq!(array.get_byte(Addr::from(6)), 0x33);
    array.set_le_bytes(Addr::from(6), 0xDDCC_BBAA);
    assert_eq!(array.get_le_bytes(Addr::from(4)), 0xBBAA_2211);
    assert_eq!(array.get_le_bytes(Addr::from(8)), 0x0000_DDCC);
    assert_eq!(array.get_le_bytes(Addr::from(6)), 0xDDCC_BBAA);
    assert_eq!(array.get_be_bytes(Addr::from(4)), 0x1122_AABB);
}

#[test]
fn static_data_array_write_to_and_read_from() {
    let mut array = StaticDataArray::new(12);
    array.write_to(Addr::from(1), &[1, 2, 3, 4, 5]);
    assert_eq!(array.read_from(Addr::from(0), Size::from(8)), vec![0, 1, 2, 3, 4, 5, 0, 0]);
    assert_eq!(array.get_le_bytes(Addr::from(0)), 0x0302_0100);
}

#[test]
fn dynamic_data_array_blocks() {
    assert_eq!(DynamicDataArray::block_index(Addr::from(0)), 0);
    assert_eq!(DynamicDataArray::block_index(Addr::from(1023)), 0);
    assert_eq!(DynamicDataArray::block_index(Addr::from(1024)), 1);
    assert_eq!(DynamicDataArray::block_offset(Addr::from(1024)), 0);
    assert_eq!(DynamicDataArray::block_offset(Addr::from(1028)), 1);
    assert_eq!(DynamicDataArray::block_offset(Addr::from(1023)), 255);
    let mut array = DynamicDataArray::new(0x10000);
    assert_eq!(array.num_allocated_blocks(), 0);
    assert_eq!(array.get_le_bytes(Addr::from(0x2000)), 0);
    assert_eq!(array.num_allocated_blocks(), 0);
    array.set_le_bytes(Addr::from(0x2000), 0xCAFE_F00D);
    assert_eq!(array.num_allocated_blocks(), 1);
    assert_eq!(array.get_le_bytes(Addr::from(0x2000)), 0xCAFE_F00D);
    array.set_le_bytes(Addr::from(0x2004), 7);
    assert_eq!(array.num_allocated_blocks(), 1);
    array.set_le_bytes(Addr::from(0x23FE), 0x4433_2211);
    assert_eq!(array.num_allocated_blocks(), 2);
    assert_eq!(array.get_le_bytes(Addr::from(0x23FE)), 0x4433_2211);
    assert_eq!(array.get_le_bytes(Addr::from(0x2400)), 0x0000_4433);
    assert_eq!(array.get_byte(Addr::from(0x2001)), 0xF0);
}

#[test]
fn segment_tree_as_store() {
    let mut tree = SegmentTree::new();
    tree.set_le_bytes(Addr::from(0x40), 0x0403_0201);
    assert_eq!(tree.get_le_bytes(Addr::from(0x40)), 0x0403_0201);
    assert_eq!(BackingStore::get(&tree, Addr::from(0x40), Endianness::Big), 0x0102_0304);
    tree.set_byte(Addr::from(0x42), 0xFF);
    assert_eq!(tree.get_le_bytes(Addr::from(0x40)), 0x04FF_0201);
    tree.set_be_bytes(Addr::from(0x44), 0xA1B2_C3D4);
    assert_eq!(tree.read_from(Addr::from(0x44), Size::from(4)), vec![0xA1, 0xB2, 0xC3, 0xD4]);
}

#[test]
fn word_read_after_write_in_both_orders() {
    for endianness in [Endianness::Little, Endianness::Big] {
        let mut array = StaticDataArray::new(32);
        array.set(Addr::from(8), 0x1234_5678, endianness);
        assert_eq!(array.get(Addr::from(8), endianness), 0x1234_5678);
        array.set_halfword(Addr::from(3), 0xBEEF, endianness);
        assert_eq!(array.get_halfword(Addr::from(3), endianness), 0xBEEF);
    }
}

#[test]
fn segment_and_interval_tree_write_to() {
    let mut tree = SegmentTree::new();
    tree.write_to(Addr::from(0x10), &[1, 2, 3, 4, 5, 6]);
    assert_eq!(tree.get_le_bytes(Addr::from(0x10)), 0x0403_0201);
    assert_eq!(tree.get_le_bytes(Addr::from(0x12)), 0x0605_0403);
    let mut intervals = IntervalTree::new();
    intervals.set_le_bytes(Addr::from(0x20), 0xA0B0_C0D0);
    intervals.write_to(Addr::from(0x24), &[9, 8, 7, 6]);
    assert_eq!(intervals.get_le_bytes(Addr::from(0x20)), 0xA0B0_C0D0);
    assert_eq!(intervals.get_be_bytes(Addr::from(0x24)), 0x0908_0706);
    assert_eq!(intervals.num_intervals(), 1);
}

#[test]
fn placed_bytes_write_to() {
    let mut placed = PlacedBytes::new(0x1000, vec![0; 8]);
    placed.write_to(Addr::from(0x1002), &[1, 2, 3]);
    assert_eq!(placed.bytes(), &[0, 0, 1, 2, 3, 0, 0, 0]);
    assert_eq!(placed.read_from(Addr::from(0x1001), Size::from(4)), vec![0, 1, 2, 3]);
}

#[test]
fn program_memory_dispatch() {
    let bin = MemoryArea { start: Addr::from(0x100), bytes: vec![1, 2, 3, 4, 5, 6, 7, 8, 9, 10, 11, 12] };
    assert!(!bin.contains_addr(Addr::from(0x100)));
    assert!(bin.contains_addr(Addr::from(0x101)));
    assert!(!bin.contains_addr(Addr::from(0x10C)));
    assert_eq!(bin.end().as_u32(), 0x10C);
    assert_eq!(bin.len().as_usize(), 12);
    assert_eq!(bin.range(), 0x100..0x10C);
    assert_eq!(bin.get_le_bytes(Addr::from(0x100)), 0x0403_0201);
    let mut memory = ProgramMemory { bin, memory_areas: SegmentTree::new() };
    assert_eq!(memory.get_le_bytes(Addr::from(0x104)), 0x0807_0605);
    memory.set_le_bytes(Addr::from(0x200), 0xAABB_CCDD);
    assert_eq!(memory.get_le_bytes(Addr::from(0x200)), 0xAABB_CCDD);
    assert_eq!(memory.memory_areas.get(0x201), Some(0xCC));
    memory.set_byte(Addr::from(0x105), 0xEE);
    assert_eq!(memory.bin.bytes()[5], 0xEE);
    assert_eq!(memory.get_byte(Addr::from(0x202)), 0xBB);
    let mut area = MemoryArea { start: Addr::from(0x10), bytes: vec![0; 8] };
    area.write_to(Addr::from(0x12), &[7, 7]);
    assert_eq!(area.bytes(), &[0, 0, 7, 7, 0, 0, 0, 0]);
    assert_eq!(u32_to_usize(9), 9);
}
