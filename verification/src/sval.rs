//! Directions of the keys in a keywell cluster: one center key and four satellites.

use crate::key::Key;
use vstd::prelude::*;

verus! {

/// The role of a key within its cluster.
#[derive(Clone, Copy, Debug, PartialEq, Eq, Structural, Hash)]
pub enum SvalKeyDirection {
    North,
    South,
    East,
    West,
    Center,
}

/// The matrix positions of the cluster centers, in the order in which they are searched.
pub open spec fn spec_center_keys() -> Seq<(i32, i32)> {
    seq![
        (2i32, 2i32),
        (5i32, 2i32),
        (8i32, 2i32),
        (11i32, 2i32),
        (14i32, 2i32),
        (17i32, 2i32),
        (20i32, 2i32),
        (23i32, 2i32),
    ]
}

/// The matrix positions of the cluster centers, in the order in which they are searched.
pub fn center_keys() -> (r: Vec<(i32, i32)>)
    ensures
        r@ == spec_center_keys(),
{
    let r = vec![
        (2i32, 2i32),
        (5i32, 2i32),
        (8i32, 2i32),
        (11i32, 2i32),
        (14i32, 2i32),
        (17i32, 2i32),
        (20i32, 2i32),
        (23i32, 2i32),
    ];
    assert(r@ =~= spec_center_keys());
    r
}

/// The Manhattan distance between two matrix positions.
pub open spec fn spec_manhattan(a: (i32, i32), b: (i32, i32)) -> int {
    (if a.0 >= b.0 { a.0 - b.0 } else { b.0 - a.0 })
        + (if a.1 >= b.1 { a.1 - b.1 } else { b.1 - a.1 })
}

/// The Manhattan distance between two matrix positions.
pub fn manhattan(a: (i32, i32), b: (i32, i32)) -> (r: u64)
    ensures
        r as int == spec_manhattan(a, b),
{
    let ax: i64 = a.0 as i64;
    let bx: i64 = b.0 as i64;
    let ay: i64 = a.1 as i64;
    let by: i64 = b.1 as i64;
    let dx: i64 = if ax >= bx { ax - bx } else { bx - ax };
    let dy: i64 = if ay >= by { ay - by } else { by - ay };
    (dx + dy) as u64
}

/// Whether `anchors[i]` is the anchor nearest to `position`, the earliest of those
/// that are equally near.
pub open spec fn is_nearest(position: (i32, i32), anchors: Seq<(i32, i32)>, i: int) -> bool {
    &&& 0 <= i < anchors.len()
    &&& forall|j: int|
        0 <= j < anchors.len() ==> spec_manhattan(position, anchors[i]) <= spec_manhattan(
            position,
            #[trigger] anchors[j],
        )
    &&& forall|j: int|
        0 <= j < i ==> spec_manhattan(position, anchors[i]) < spec_manhattan(
            position,
            #[trigger] anchors[j],
        )
}

/// The index of the anchor nearest to `position`.
pub open spec fn spec_nearest_anchor(position: (i32, i32), anchors: Seq<(i32, i32)>) -> int {
    choose|i: int| is_nearest(position, anchors, i)
}

/// At most one anchor is the nearest: the choice does not depend on how it is searched.
pub proof fn lemma_nearest_is_unique(position: (i32, i32), anchors: Seq<(i32, i32)>, i: int, j: int)
    requires
        is_nearest(position, anchors, i),
        is_nearest(position, anchors, j),
    ensures
        i == j,
{
    if i < j {
        assert(spec_manhattan(position, anchors[j]) < spec_manhattan(position, anchors[i]));
        assert(spec_manhattan(position, anchors[i]) <= spec_manhattan(position, anchors[j]));
    } else if j < i {
        assert(spec_manhattan(position, anchors[i]) < spec_manhattan(position, anchors[j]));
        assert(spec_manhattan(position, anchors[j]) <= spec_manhattan(position, anchors[i]));
    }
}

/// The index of the anchor nearest to `position`, the earliest of those that are
/// equally near.
pub fn nearest_anchor(position: (i32, i32), anchors: &Vec<(i32, i32)>) -> (r: usize)
    requires
        anchors.len() > 0,
    ensures
        is_nearest(position, anchors@, r as int),
        r as int == spec_nearest_anchor(position, anchors@),
{
    let mut best: usize = 0;
    let mut best_distance: u64 = manhattan(position, anchors[0]);
    let mut i: usize = 1;
    while i < anchors.len()
        invariant
            1 <= i <= anchors.len(),
            best_distance as int == spec_manhattan(position, anchors@[best as int]),
            is_nearest(position, anchors@.take(i as int), best as int),
        decreases anchors.len() - i,
    {
        let distance: u64 = manhattan(position, anchors[i]);
        proof {
            assert forall|j: int| 0 <= j < i + 1 implies anchors@.take(i + 1)[j] == anchors@[j] by {}
            assert forall|j: int| 0 <= j < i implies anchors@.take(i as int)[j] == anchors@[j] by {}
        }
        if distance < best_distance {
            best = i;
            best_distance = distance;
        }
        i += 1;
    }
    proof {
        assert(anchors@.take(i as int) =~= anchors@);
        lemma_nearest_is_unique(
            position,
            anchors@,
            best as int,
            spec_nearest_anchor(position, anchors@),
        );
    }
    best
}

/// The role of `position` in the cluster around `center`: the center itself, else
/// north or south by its row, else west or east by its column.
pub open spec fn spec_direction(position: (i32, i32), center: (i32, i32)) -> SvalKeyDirection {
    if position.1 == center.1 && position.0 == center.0 {
        SvalKeyDirection::Center
    } else if position.1 < center.1 {
        SvalKeyDirection::North
    } else if position.1 > center.1 {
        SvalKeyDirection::South
    } else if position.0 < center.0 {
        SvalKeyDirection::West
    } else {
        SvalKeyDirection::East
    }
}

/// The role of `position` relative to the nearest of `anchors`.
pub open spec fn spec_classify(position: (i32, i32), anchors: Seq<(i32, i32)>) -> SvalKeyDirection {
    spec_direction(position, anchors[spec_nearest_anchor(position, anchors)])
}

/// The role of `position` relative to the nearest of `anchors`.
pub fn classify(position: (i32, i32), anchors: &Vec<(i32, i32)>) -> (r: SvalKeyDirection)
    requires
        anchors.len() > 0,
    ensures
        r == spec_classify(position, anchors@),
{
    let nearest: usize = nearest_anchor(position, anchors);
    SvalKeyDirection::from_position(position, anchors[nearest])
}

impl SvalKeyDirection {
    /// The role of `position` in the cluster around `center`.
    pub fn from_position(position: (i32, i32), center: (i32, i32)) -> (r: SvalKeyDirection)
        ensures
            r == spec_direction(position, center),
    {
        if position.1 == center.1 && position.0 == center.0 {
            SvalKeyDirection::Center
        } else if position.1 < center.1 {
            SvalKeyDirection::North
        } else if position.1 > center.1 {
            SvalKeyDirection::South
        } else if position.0 < center.0 {
            SvalKeyDirection::West
        } else {
            SvalKeyDirection::East
        }
    }

    /// The role of a key in the cluster around `center`.
    pub fn from_key(key: &Key, center: &(i32, i32)) -> (r: SvalKeyDirection)
        ensures
            r == spec_direction(key.matrix_position, *center),
    {
        SvalKeyDirection::from_position(key.matrix_position, *center)
    }

    /// Whether the key is pressed sideways.
    pub open spec fn is_lateral(self) -> bool {
        self == SvalKeyDirection::East || self == SvalKeyDirection::West
    }
}

/// The role of a position among the fixed clusters.
pub open spec fn spec_direction_of(position: (i32, i32)) -> SvalKeyDirection {
    spec_classify(position, spec_center_keys())
}

/// The role of a position among the fixed clusters.
pub fn direction_of(position: (i32, i32)) -> (r: SvalKeyDirection)
    ensures
        r == spec_direction_of(position),
{
    let anchors = center_keys();
    classify(position, &anchors)
}

/// The role of a position is its role relative to the one anchor that is nearest,
/// the earliest of those equally near: nothing else bears on it.
pub proof fn lemma_classification_is_determined(
    position: (i32, i32),
    anchors: Seq<(i32, i32)>,
    i: int,
)
    requires
        is_nearest(position, anchors, i),
    ensures
        spec_classify(position, anchors) == spec_direction(position, anchors[i]),
{
    lemma_nearest_is_unique(position, anchors, i, spec_nearest_anchor(position, anchors));
}

/// Every list of anchors that is not empty has a nearest anchor for every position,
/// so every position has exactly one role.
pub proof fn lemma_nearest_exists(position: (i32, i32), anchors: Seq<(i32, i32)>)
    requires
        anchors.len() > 0,
    ensures
        is_nearest(position, anchors, spec_nearest_anchor(position, anchors)),
    decreases anchors.len(),
{
    if anchors.len() == 1 {
        assert(is_nearest(position, anchors, 0));
    } else {
        let front = anchors.drop_last();
        lemma_nearest_exists(position, front);
        let b = spec_nearest_anchor(position, front);
        let last = anchors.len() - 1;
        assert forall|j: int| 0 <= j < front.len() implies front[j] == anchors[j] by {}
        if spec_manhattan(position, anchors[last]) < spec_manhattan(position, anchors[b]) {
            assert forall|j: int| 0 <= j < anchors.len() implies spec_manhattan(
                position,
                anchors[last],
            ) <= spec_manhattan(position, #[trigger] anchors[j]) by {
                if j < last {
                    assert(front[j] == anchors[j]);
                }
            }
            assert forall|j: int| 0 <= j < last implies spec_manhattan(position, anchors[last])
                < spec_manhattan(position, #[trigger] anchors[j]) by {
                assert(front[j] == anchors[j]);
            }
            assert(is_nearest(position, anchors, last));
        } else {
            assert forall|j: int| 0 <= j < anchors.len() implies spec_manhattan(
                position,
                anchors[b],
            ) <= spec_manhattan(position, #[trigger] anchors[j]) by {
                if j < last {
                    assert(front[j] == anchors[j]);
                }
            }
            assert forall|j: int| 0 <= j < b implies spec_manhattan(position, anchors[b])
                < spec_manhattan(position, #[trigger] anchors[j]) by {
                assert(front[j] == anchors[j]);
            }
            assert(is_nearest(position, anchors, b));
        }
    }
}

/// Each of the fixed clusters gives its five keys their roles: the center, and the
/// keys directly above, below, left and right of it.
pub proof fn lemma_cluster_directions(k: int)
    requires
        0 <= k < spec_center_keys().len(),
    ensures
        spec_center_keys()[k] == ((2 + 3 * k) as i32, 2i32),
        spec_direction_of(spec_center_keys()[k]) == SvalKeyDirection::Center,
        spec_direction_of(((2 + 3 * k) as i32, 1i32)) == SvalKeyDirection::North,
        spec_direction_of(((2 + 3 * k) as i32, 3i32)) == SvalKeyDirection::South,
        spec_direction_of(((1 + 3 * k) as i32, 2i32)) == SvalKeyDirection::West,
        spec_direction_of(((3 + 3 * k) as i32, 2i32)) == SvalKeyDirection::East,
{
    let a = spec_center_keys();
    assert(a.len() == 8);
    assert(a[0] == (2i32, 2i32));
    assert(a[1] == (5i32, 2i32));
    assert(a[2] == (8i32, 2i32));
    assert(a[3] == (11i32, 2i32));
    assert(a[4] == (14i32, 2i32));
    assert(a[5] == (17i32, 2i32));
    assert(a[6] == (20i32, 2i32));
    assert(a[7] == (23i32, 2i32));
    let c = (2 + 3 * k) as i32;
    assert(is_nearest((c, 2i32), a, k));
    assert(is_nearest((c, 1i32), a, k));
    assert(is_nearest((c, 3i32), a, k));
    assert(is_nearest(((c - 1) as i32, 2i32), a, k));
    assert(is_nearest(((c + 1) as i32, 2i32), a, k));
    lemma_classification_is_determined((c, 2i32), a, k);
    lemma_classification_is_determined((c, 1i32), a, k);
    lemma_classification_is_determined((c, 3i32), a, k);
    lemma_classification_is_determined(((c - 1) as i32, 2i32), a, k);
    lemma_classification_is_determined(((c + 1) as i32, 2i32), a, k);
}

} // verus!
