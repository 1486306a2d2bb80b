use rvhwfuzzer::interval_tree::IntervalTree;

#[test]
fn interval_tree_basic() {
    let mut tree = IntervalTree::new();

    let mut i = 0;
    tree.initialize_fill(0..16, || {
        let value = 42 + i;
        i += 1;
        value
    });

    assert_eq!(tree.num_intervals(), 1);

    for i in 0..16 {
        assert!(tree.get(i).is_some());
    }

    tree.fill_range(4, &[5, 7, 9, 11]);

    assert_eq!(tree.num_intervals(), 1);

    for i in 0..4 {
        assert_eq!(tree.get(i + 4), Some(i as u8 * 2 + 5));
    }
}

#[test]
fn content_and_initial_ranges() {
    let mut tree = IntervalTree::new();
    tree.fill_range(10, &[1, 2, 3]);
    tree.fill_range(20, &[4]);
    tree.insert(11, 9);

    let content = tree.content();
    assert_eq!(content.len(), 2);
    let mut it = content.iter();
    let (range, bytes) = it.next().unwrap();
    assert_eq!(range, 10..13);
    assert_eq!(bytes, &[1, 9, 3]);
    let (range, bytes) = it.next().unwrap();
    assert_eq!(range, 20..21);
    assert_eq!(bytes, &[4]);
    assert!(it.next().is_none());

    let initial = tree.initial();
    let mut it = initial.iter();
    let (_, bytes) = it.next().unwrap();
    assert_eq!(bytes, &[1, 2, 3]);
}
