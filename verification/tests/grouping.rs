use sdui::grouping::group_by_key;

#[test]
fn groups_come_in_ascending_order_of_their_keys() {
    let items = vec![(5u64, 'a'), (1, 'b'), (9, 'c'), (1, 'd'), (5, 'e'), (0, 'f')];
    let groups = group_by_key(items);
    assert_eq!(
        groups,
        vec![(0, vec!['f']), (1, vec!['b', 'd']), (5, vec!['a', 'e']), (9, vec!['c'])]
    );
}

#[test]
fn a_group_keeps_the_order_of_its_items() {
    let items: Vec<(u64, usize)> = (0..100usize).map(|i| ((i * 37 % 3) as u64, i)).collect();
    let groups = group_by_key(items);
    assert_eq!(groups.len(), 3);
    for (key, values) in &groups {
        let expected: Vec<usize> =
            (0..100usize).filter(|i| (i * 37 % 3) as u64 == *key).collect();
        assert_eq!(values, &expected);
    }
}

#[test]
fn nothing_gives_no_group() {
    let groups = group_by_key(Vec::<(u64, String)>::new());
    assert!(groups.is_empty());
}

#[test]
fn equal_keys_far_apart_meet_in_one_group() {
    let items = vec![(7u64, "x"), (3, "y"), (7, "z"), (3, "w"), (7, "v")];
    let groups = group_by_key(items);
    assert_eq!(groups, vec![(3, vec!["y", "w"]), (7, vec!["x", "z", "v"])]);
}
