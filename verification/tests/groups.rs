use compute::grouping::{distinct_groups, positions_of_group};

#[test]
fn distinct_keeps_first_occurrence_order() {
    assert_eq!(distinct_groups(&vec![0, 1, 0, 1, 1]), vec![0, 1]);
    assert_eq!(distinct_groups(&vec![3, 3, 3]), vec![3]);
    assert_eq!(distinct_groups(&vec![2, 0, 1]), vec![2, 0, 1]);
    assert_eq!(distinct_groups(&vec![]), Vec::<u32>::new());
}

#[test]
fn positions_list_exactly_the_matching_slots() {
    let gs = vec![0, 1, 0, 1, 1];
    assert_eq!(positions_of_group(&gs, 0), vec![0, 2]);
    assert_eq!(positions_of_group(&gs, 1), vec![1, 3, 4]);
    assert_eq!(positions_of_group(&gs, 2), Vec::<usize>::new());
}

#[test]
fn two_groups_three_slots_each_never_mix() {
    // Bindings with groups {0,1} across slots {0,1,2} within each group:
    // each lands in its own group's position list and in no other.
    let gs = vec![0, 0, 0, 1, 1, 1];
    let in0 = positions_of_group(&gs, 0);
    let in1 = positions_of_group(&gs, 1);
    assert_eq!(in0, vec![0, 1, 2]);
    assert_eq!(in1, vec![3, 4, 5]);
    for p in &in0 {
        assert!(!in1.contains(p));
    }
    for i in 0..gs.len() {
        assert!(positions_of_group(&gs, gs[i]).contains(&i));
    }
}
