//! Cost of bigrams that one finger types within a keywell cluster, by the
//! directions of the two presses.

use crate::factor::{configured, hundredths, spec_configured, Factor, Hundredths};
use crate::key::{Finger, Hand, LayerKey};
use crate::sval::{
    center_keys, nearest_anchor, spec_center_keys, spec_direction, spec_nearest_anchor,
    SvalKeyDirection,
};
use crate::tables::{last_value, FingerMap};
use vstd::prelude::*;

verus! {

/// The same thumb key twice.
pub const THUMB_SAME: u32 = 100;

/// Two thumb keys.
pub const THUMB_OTHER: u32 = 200;

/// South and then inwards, on the index finger.
pub const SOUTH_INWARD_INDEX: u32 = 20;

/// The north key twice.
pub const DOUBLE_NORTH: u32 = 100;

/// The south key twice.
pub const DOUBLE_SOUTH: u32 = 50;

/// The east key twice.
pub const DOUBLE_EAST: u32 = 100;

/// The west key twice.
pub const DOUBLE_WEST: u32 = 100;

/// The center key twice.
pub const DOUBLE_CENTER: u32 = 70;

/// Center and south, in either order: as good as free, a zero with a negative sign.
pub const CENTER_SOUTH: u32 = 0;

/// Center and north, in either order.
pub const CENTER_NORTH: u32 = 30;

/// Center and the satellite towards the middle of the keyboard, in either order.
pub const INWARD_ROLL: u32 = 40;

/// Center and the satellite away from the middle of the keyboard, in either order.
pub const OUTWARD_ROLL: u32 = 300;

/// East and west, in either order.
pub const WALL_TO_WALL_LATERAL: u32 = 175;

/// North and south, in either order.
pub const WALL_TO_WALL_VERTICAL: u32 = 175;

/// Any other pair of satellites.
pub const WALL_TO_WALL_OTHER: u32 = 100;

/// The factor of a finger that the parameters do not configure.
pub const DEFAULT_FINGER_FACTOR: u32 = 100;

/// The configuration of [`SvalFingerRepeats`], over any numeric type `T`.
#[derive(Clone, Debug)]
pub struct Parameters<T> {
    /// The factor of each configured finger.
    pub finger_factors: Vec<(Finger, T)>,
}

/// The metric of finger repeats on keywell clusters.
#[derive(Clone, Copy, Debug)]
pub struct SvalFingerRepeats<T> {
    pub finger_factors: FingerMap<Factor<T>>,
}

/// What a bigram costs: nothing, its weight times a fixed factor, or its weight
/// times the factor of the finger times a fixed factor.
#[derive(Clone, Copy, Debug, PartialEq)]
pub enum SvalRepeatCost<T> {
    Zero,
    Thumb(Hundredths),
    Directional { finger_factor: Factor<T>, factor: Hundredths },
}

/// The direction that points to the middle of the keyboard.
pub open spec fn spec_inward_direction(hand: Hand) -> SvalKeyDirection {
    match hand {
        Hand::Left => SvalKeyDirection::East,
        Hand::Right => SvalKeyDirection::West,
    }
}

/// The fixed factor of a repeat between the center and another key of its cluster,
/// in either order. It is asked for a satellite; the center itself has the factor of
/// its double press.
pub open spec fn spec_center_factor(hand: Hand, other: SvalKeyDirection) -> Hundredths {
    match other {
        SvalKeyDirection::Center => hundredths(DOUBLE_CENTER),
        SvalKeyDirection::South => Hundredths { value: CENTER_SOUTH, negative: true },
        SvalKeyDirection::North => hundredths(CENTER_NORTH),
        _ => if other == spec_inward_direction(hand) {
            hundredths(INWARD_ROLL)
        } else {
            hundredths(OUTWARD_ROLL)
        },
    }
}

/// The fixed factor of a repeat between the center and another key of its cluster.
pub fn center_factor(hand: Hand, other: SvalKeyDirection) -> (r: Hundredths)
    ensures
        r == spec_center_factor(hand, other),
{
    let inward = match hand {
        Hand::Left => SvalKeyDirection::East,
        Hand::Right => SvalKeyDirection::West,
    };
    match other {
        SvalKeyDirection::Center => Hundredths::of(DOUBLE_CENTER),
        SvalKeyDirection::South => Hundredths { value: CENTER_SOUTH, negative: true },
        SvalKeyDirection::North => Hundredths::of(CENTER_NORTH),
        lateral => {
            if lateral == inward {
                Hundredths::of(INWARD_ROLL)
            } else {
                Hundredths::of(OUTWARD_ROLL)
            }
        },
    }
}

/// The fixed factor of a repeat of one finger that presses `first` and then `second`.
pub open spec fn spec_directional_factor(
    hand: Hand,
    finger: Finger,
    first: SvalKeyDirection,
    second: SvalKeyDirection,
) -> Hundredths {
    let inward = spec_inward_direction(hand);
    if first == SvalKeyDirection::South && second == inward && finger == Finger::Index {
        hundredths(SOUTH_INWARD_INDEX)
    } else if first == second {
        match first {
            SvalKeyDirection::North => hundredths(DOUBLE_NORTH),
            SvalKeyDirection::South => hundredths(DOUBLE_SOUTH),
            SvalKeyDirection::East => hundredths(DOUBLE_EAST),
            SvalKeyDirection::West => hundredths(DOUBLE_WEST),
            SvalKeyDirection::Center => hundredths(DOUBLE_CENTER),
        }
    } else if first == SvalKeyDirection::Center {
        spec_center_factor(hand, second)
    } else if second == SvalKeyDirection::Center {
        spec_center_factor(hand, first)
    } else if first.is_lateral() && second.is_lateral() {
        hundredths(WALL_TO_WALL_LATERAL)
    } else if !first.is_lateral() && !second.is_lateral() {
        hundredths(WALL_TO_WALL_VERTICAL)
    } else {
        hundredths(WALL_TO_WALL_OTHER)
    }
}

/// The fixed factor of a repeat of one finger that presses `first` and then `second`.
pub fn directional_factor(
    hand: Hand,
    finger: Finger,
    first: SvalKeyDirection,
    second: SvalKeyDirection,
) -> (r: Hundredths)
    ensures
        r == spec_directional_factor(hand, finger, first, second),
{
    let inward = match hand {
        Hand::Left => SvalKeyDirection::East,
        Hand::Right => SvalKeyDirection::West,
    };
    if first == SvalKeyDirection::South && second == inward && finger == Finger::Index {
        return Hundredths::of(SOUTH_INWARD_INDEX);
    }
    match (first, second) {
        (SvalKeyDirection::North, SvalKeyDirection::North) => Hundredths::of(DOUBLE_NORTH),
        (SvalKeyDirection::South, SvalKeyDirection::South) => Hundredths::of(DOUBLE_SOUTH),
        (SvalKeyDirection::East, SvalKeyDirection::East) => Hundredths::of(DOUBLE_EAST),
        (SvalKeyDirection::West, SvalKeyDirection::West) => Hundredths::of(DOUBLE_WEST),
        (SvalKeyDirection::Center, other) => center_factor(hand, other),
        (other, SvalKeyDirection::Center) => center_factor(hand, other),
        (SvalKeyDirection::West, SvalKeyDirection::East)
        | (SvalKeyDirection::East, SvalKeyDirection::West) => Hundredths::of(WALL_TO_WALL_LATERAL),
        (SvalKeyDirection::North, SvalKeyDirection::South)
        | (SvalKeyDirection::South, SvalKeyDirection::North) => Hundredths::of(
            WALL_TO_WALL_VERTICAL,
        ),
        (_, _) => Hundredths::of(WALL_TO_WALL_OTHER),
    }
}

/// The order of the two presses bears on the factor only where one of the two
/// orders is the roll from south inwards on the index finger.
pub proof fn lemma_factor_ignores_order(
    hand: Hand,
    finger: Finger,
    first: SvalKeyDirection,
    second: SvalKeyDirection,
)
    requires
        !(finger == Finger::Index && first == SvalKeyDirection::South && second
            == spec_inward_direction(hand)),
        !(finger == Finger::Index && second == SvalKeyDirection::South && first
            == spec_inward_direction(hand)),
    ensures
        spec_directional_factor(hand, finger, first, second) == spec_directional_factor(
            hand,
            finger,
            second,
            first,
        ),
{
}

/// Whether the metric leaves the bigram out: the keys are on two hands or two
/// fingers, or it is one key, pressed twice, that is no modifier.
pub open spec fn spec_excluded(k1: LayerKey, k2: LayerKey) -> bool {
    (k1 == k2 && k1.is_modifier is None) || k1.key.hand != k2.key.hand || k1.key.finger
        != k2.key.finger
}

/// Whether the metric leaves the bigram out.
pub fn excluded(k1: &LayerKey, k2: &LayerKey) -> (r: bool)
    ensures
        r == spec_excluded(*k1, *k2),
{
    (k1.same_layer_key(k2) && k1.is_modifier.is_none()) || k1.key.hand != k2.key.hand
        || k1.key.finger != k2.key.finger
}

impl<T: Copy> SvalFingerRepeats<T> {
    /// Whether the metric holds the finger factors of `params`: for each finger the
    /// last one configured, else the default.
    pub open spec fn built_from(self, params: Parameters<T>) -> bool {
        forall|f: Finger|
            self.finger_factors.value(f) == last_value(
                spec_configured(params.finger_factors@),
                Factor::Fixed(hundredths(DEFAULT_FINGER_FACTOR)),
                f,
            )
    }

    /// The metric that `params` configures.
    pub fn new(params: &Parameters<T>) -> (r: Self)
        ensures
            r.built_from(*params),
    {
        let entries = configured(&params.finger_factors);
        SvalFingerRepeats {
            finger_factors: FingerMap::with_entries(
                &entries,
                Factor::Fixed(Hundredths::of(DEFAULT_FINGER_FACTOR)),
            ),
        }
    }

    /// The name under which the metric is reported.
    pub fn name(&self) -> (r: &'static str)
        ensures
            r@ == "Finger Repeats (Svalboard)"@,
    {
        "Finger Repeats (Svalboard)"
    }

    /// What the bigram costs. Thumbs have fixed costs; for the other fingers both
    /// keys get their direction from the cluster center nearest to the first key.
    pub open spec fn spec_cost_terms(self, k1: LayerKey, k2: LayerKey) -> SvalRepeatCost<T> {
        if spec_excluded(k1, k2) {
            SvalRepeatCost::Zero
        } else if k1.key.finger == Finger::Thumb {
            if k1 == k2 {
                SvalRepeatCost::Thumb(hundredths(THUMB_SAME))
            } else {
                SvalRepeatCost::Thumb(hundredths(THUMB_OTHER))
            }
        } else {
            let centers = spec_center_keys();
            let center = centers[spec_nearest_anchor(k1.key.matrix_position, centers)];
            SvalRepeatCost::Directional {
                finger_factor: self.finger_factors.value(k1.key.finger),
                factor: spec_directional_factor(
                    k1.key.hand,
                    k1.key.finger,
                    spec_direction(k1.key.matrix_position, center),
                    spec_direction(k2.key.matrix_position, center),
                ),
            }
        }
    }

    /// What the bigram of `k1` and then `k2` costs.
    pub fn cost_terms(&self, k1: &LayerKey, k2: &LayerKey) -> (r: SvalRepeatCost<T>)
        ensures
            r == self.spec_cost_terms(*k1, *k2),
            k1.key.hand != k2.key.hand ==> r == SvalRepeatCost::<T>::Zero,
            !spec_excluded(*k1, *k2) && k1.key.finger == Finger::Thumb ==> r == (if k1
                == k2 {
                SvalRepeatCost::<T>::Thumb(hundredths(THUMB_SAME))
            } else {
                SvalRepeatCost::<T>::Thumb(hundredths(THUMB_OTHER))
            }),
    {
        if excluded(k1, k2) {
            return SvalRepeatCost::Zero;
        }
        if k1.key.finger == Finger::Thumb {
            if k1.same_layer_key(k2) {
                return SvalRepeatCost::Thumb(Hundredths::of(THUMB_SAME));
            }
            return SvalRepeatCost::Thumb(Hundredths::of(THUMB_OTHER));
        }
        let centers = center_keys();
        let nearest: usize = nearest_anchor(k1.key.matrix_position, &centers);
        let center = centers[nearest];
        let first = SvalKeyDirection::from_key(&k1.key, &center);
        let second = SvalKeyDirection::from_key(&k2.key, &center);
        SvalRepeatCost::Directional {
            finger_factor: self.finger_factors.get(&k1.key.finger),
            factor: directional_factor(k1.key.hand, k1.key.finger, first, second),
        }
    }
}

/// Two metrics that were built from the same parameters cost every bigram the same.
pub proof fn lemma_construction_is_deterministic<T: Copy>(
    a: SvalFingerRepeats<T>,
    b: SvalFingerRepeats<T>,
    params: Parameters<T>,
    k1: LayerKey,
    k2: LayerKey,
)
    requires
        a.built_from(params),
        b.built_from(params),
    ensures
        a.spec_cost_terms(k1, k2) == b.spec_cost_terms(k1, k2),
{
}

} // verus!
