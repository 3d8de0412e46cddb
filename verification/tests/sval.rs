use bigram_metrics::key::{Finger, Hand, Key};
use bigram_metrics::sval::{
    center_keys, classify, direction_of, manhattan, nearest_anchor, SvalKeyDirection,
};

#[test]
fn center_keys_are_the_eight_fixed_anchors() {
    assert_eq!(
        center_keys(),
        vec![(2, 2), (5, 2), (8, 2), (11, 2), (14, 2), (17, 2), (20, 2), (23, 2)]
    );
}

#[test]
fn manhattan_adds_both_axes() {
    assert_eq!(manhattan((0, 0), (2, 2)), 4);
    assert_eq!(manhattan((5, 1), (2, 2)), 4);
    assert_eq!(manhattan((3, 3), (3, 3)), 0);
    assert_eq!(manhattan((i32::MIN, i32::MIN), (i32::MAX, i32::MAX)), 2 * (u32::MAX as u64));
}

#[test]
fn nearest_anchor_breaks_ties_by_the_earliest() {
    let anchors = center_keys();
    assert_eq!(nearest_anchor((2, 2), &anchors), 0);
    assert_eq!(nearest_anchor((6, 2), &anchors), 1);
    assert_eq!(nearest_anchor((7, 2), &anchors), 2);
    assert_eq!(nearest_anchor((100, 2), &anchors), 7);
    assert_eq!(nearest_anchor((-100, 50), &anchors), 0);
    let tied = vec![(0, 0), (4, 0), (0, 4)];
    assert_eq!(nearest_anchor((2, 0), &tied), 0);
    assert_eq!(nearest_anchor((2, 2), &tied), 0);
    assert_eq!(nearest_anchor((3, 2), &tied), 1);
    assert_eq!(nearest_anchor((1, 5), &vec![(9, 9)]), 0);
}

#[test]
fn each_satellite_of_a_cluster_has_its_direction() {
    for center in center_keys() {
        let (c, r) = center;
        assert_eq!(direction_of((c, r)), SvalKeyDirection::Center);
        assert_eq!(direction_of((c, r - 1)), SvalKeyDirection::North);
        assert_eq!(direction_of((c, r + 1)), SvalKeyDirection::South);
        assert_eq!(direction_of((c - 1, r)), SvalKeyDirection::West);
        assert_eq!(direction_of((c + 1, r)), SvalKeyDirection::East);
    }
}

#[test]
fn rows_decide_before_columns() {
    assert_eq!(SvalKeyDirection::from_position((0, 0), (2, 2)), SvalKeyDirection::North);
    assert_eq!(SvalKeyDirection::from_position((9, 5), (2, 2)), SvalKeyDirection::South);
    assert_eq!(SvalKeyDirection::from_position((-7, 2), (2, 2)), SvalKeyDirection::West);
    assert_eq!(SvalKeyDirection::from_position((40, 2), (2, 2)), SvalKeyDirection::East);
    let key = Key { hand: Hand::Right, finger: Finger::Ring, matrix_position: (21, 2) };
    assert_eq!(SvalKeyDirection::from_key(&key, &(20, 2)), SvalKeyDirection::East);
    assert_eq!(SvalKeyDirection::from_key(&key, &(23, 2)), SvalKeyDirection::West);
}

#[test]
fn classification_is_repeatable() {
    let anchors = center_keys();
    for column in -3..30 {
        for row in -2..7 {
            let first = classify((column, row), &anchors);
            assert_eq!(classify((column, row), &anchors), first);
            assert_eq!(direction_of((column, row)), first);
        }
    }
    assert_eq!(classify((4, 2), &anchors), SvalKeyDirection::West);
    assert_eq!(classify((3, 2), &anchors), SvalKeyDirection::East);
}
