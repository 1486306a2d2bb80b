use rvhwfuzzer::segment_tree::SegmentTree;

#[test]
fn lib_basic() {
    let mut tree = SegmentTree::new();

    let mut i = 0;
    tree.initialize_fill(0..16, || {
        let value = 42 + i;
        i += 1;
        value
    });

    assert_eq!(tree.num_segments(), 1);

    for i in 0..16 {
        assert!(tree.get(i).is_some());
    }

    tree.fill_range(4, &[5, 7, 9, 11]);

    assert_eq!(tree.num_segments(), 1);

    for i in 0..4 {
        assert_eq!(tree.get(i + 4), Some(i as u8 * 2 + 5));
    }
}

#[test]
fn sequential_initialize_fills() {
    let mut tree = SegmentTree::new();

    tree.initialize_fill(0..8, || 0);
    tree.initialize_fill(16..24, || 0);
    tree.initialize_fill(8..16, || 0);

    assert_eq!(tree.num_segments(), 1);
}

#[test]
fn insert_then_get_reads_back() {
    let mut tree = SegmentTree::new();
    assert_eq!(tree.get(10), None);
    tree.insert(10, 3);
    assert_eq!(tree.get(10), Some(3));
    tree.insert(10, 4);
    assert_eq!(tree.get(10), Some(4));
    assert_eq!(tree.get(9), None);
    assert_eq!(tree.get(11), None);
    assert!(tree.contains(10));
    assert!(!tree.contains(11));
}

#[test]
fn initial_value_is_first_assignment() {
    let mut tree = SegmentTree::new();
    tree.insert(5, 1);
    tree.insert(5, 2);
    let segment = tree.segments_iter().next().unwrap();
    let mut initial = [0u8; 1];
    let mut content = [0u8; 1];
    segment.copy_initial_to_slice(&mut initial);
    segment.copy_content_to_slice(&mut content);
    assert_eq!(initial, [1]);
    assert_eq!(content, [2]);
}

#[test]
fn neighbours_merge_into_one_segment() {
    let mut tree = SegmentTree::new();
    tree.insert(0, 1);
    tree.insert(2, 3);
    assert_eq!(tree.num_segments(), 2);
    tree.insert(1, 2);
    assert_eq!(tree.num_segments(), 1);
    let mut buffer = [0u8; 3];
    assert_eq!(tree.get_range(0, &mut buffer), Ok(()));
    assert_eq!(buffer, [1, 2, 3]);
}

#[test]
fn get_range_fails_on_a_gap() {
    let mut tree = SegmentTree::new();
    tree.fill_range(0, &[1, 2]);
    tree.fill_range(3, &[4]);
    let mut buffer = [9u8; 4];
    assert_eq!(tree.get_range(0, &mut buffer), Err(()));
    assert_eq!(buffer, [9, 9, 9, 9]);
    assert!(tree.contains_range(0..2));
    assert!(!tree.contains_range(0..4));
    assert!(tree.contains_range(5..5));
}

#[test]
fn fill_range_across_segments() {
    let mut tree = SegmentTree::new();
    tree.insert(2, 100);
    tree.insert(6, 200);
    tree.fill_range(0, &[1, 2, 3, 4, 5, 6, 7, 8]);
    assert_eq!(tree.num_segments(), 1);
    for a in 0..8u32 {
        assert_eq!(tree.get(a), Some(a as u8 + 1));
    }
}

#[test]
fn initialize_fill_keeps_initialized_values() {
    let mut tree = SegmentTree::new();
    tree.insert(3, 77);
    tree.initialize_fill(0..6, || 1);
    assert_eq!(tree.get(3), Some(77));
    assert_eq!(tree.get(0), Some(1));
    assert_eq!(tree.get(5), Some(1));
    assert_eq!(tree.get(6), None);
}

#[test]
fn get_mut_writes_through() {
    let mut tree = SegmentTree::new();
    tree.insert(8, 1);
    *tree.get_mut(8).unwrap() = 5;
    assert_eq!(tree.get(8), Some(5));
    assert!(tree.get_mut(9).is_none());
}

#[test]
fn get_range_up_to_the_last_address_fails() {
    let mut tree = SegmentTree::new();
    tree.fill_range(0xFFFF_FFF0, &[1, 2, 3, 4]);
    let mut buffer = [9u8; 32];
    assert_eq!(tree.get_range(0xFFFF_FFF0, &mut buffer), Err(()));
    assert_eq!(buffer, [9u8; 32]);
    let mut small = [0u8; 4];
    assert_eq!(tree.get_range(0xFFFF_FFF0, &mut small), Ok(()));
    assert_eq!(small, [1, 2, 3, 4]);
}

#[test]
fn initialize_fill_takes_values_from_the_closure() {
    let mut tree = SegmentTree::new();
    tree.fill_range(2, &[9]);
    tree.initialize_fill(0..4, || 7);
    assert_eq!(tree.get(0), Some(7));
    assert_eq!(tree.get(1), Some(7));
    assert_eq!(tree.get(2), Some(9));
    assert_eq!(tree.get(3), Some(7));
}
