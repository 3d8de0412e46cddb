//! Cost of bigrams that two fingers of one hand type on a traditional keyboard, by
//! the fingers, the rows and the columns of the two keys.

pub use crate::factor::FingerSwitchCost;
use crate::factor::{
    configured, hundredths, spec_configured, spec_switch_factor, Factor, FingerSwitchTable,
    Hundredths,
};
use crate::key::{Finger, Hand, LayerKey};
use crate::sval_movement_pattern::{no_movement, spec_no_movement};
use crate::tables::{last_value, HandFingerMap};
use vstd::prelude::*;

verus! {

/// The length of a finger that the parameters do not configure.
pub const DEFAULT_FINGER_LENGTH: u32 = 100;

/// The configuration of [`StdMovementPattern`], over any numeric type `T`.
#[derive(Clone, Debug)]
pub struct Parameters<T> {
    /// Cost associated with bigrams from a finger to another one.
    pub finger_switch_factor: Vec<FingerSwitchCost<T>>,
    /// The length of each configured finger.
    pub finger_lengths: Vec<((Hand, Finger), T)>,
    pub short_down_to_long_or_long_up_to_short_factor: T,
    pub same_row_offset: T,
    pub unbalancing_factor: T,
    pub lateral_stretch_factor: T,
}

/// The metric of movements between fingers on a traditional keyboard.
#[derive(Clone, Copy, Debug)]
pub struct StdMovementPattern<T> {
    pub finger_switch_factor: FingerSwitchTable<T>,
    pub finger_lengths: HandFingerMap<Factor<T>>,
    pub short_down_to_long_or_long_up_to_short_factor: T,
    pub same_row_offset: T,
    pub unbalancing_factor: T,
    pub lateral_stretch_factor: T,
}

/// Where the second key lies, by its row, as seen from the first.
#[derive(Clone, Copy, Debug, PartialEq, Eq, Structural, Hash)]
pub enum Vertical {
    Upwards,
    Downwards,
    SameRow,
}

/// How the finger of the first key compares in length with that of the second.
#[derive(Clone, Copy, Debug, PartialEq, Eq, Structural, Hash)]
pub enum LengthOrder {
    FirstLonger,
    FirstShorter,
    Neither,
}

/// The parts of a movement's cost. The cost is the weight times
/// `((finger_switch_factor × direction_factor) + same_row_offset)
///   × (1 + lateral_stretch_factor × lateral_mismatch)
///   × unbalancing_factor ^ u`,
/// where a part that is `None` is left out and `u` is the unbalancing of the first
/// key: the sum of the sizes of its two offsets, or one where both are zero.
#[derive(Clone, Copy, Debug, PartialEq)]
pub struct MovementTerms<T> {
    pub finger_switch_factor: Factor<T>,
    pub direction_factor: Option<T>,
    pub same_row_offset: Option<T>,
    pub lateral_mismatch: u32,
    pub lateral_stretch_factor: T,
    pub unbalancing_factor: T,
}

/// What a bigram costs: nothing, or what its terms give.
#[derive(Clone, Copy, Debug, PartialEq)]
pub enum MovementCost<T> {
    Zero,
    Terms(MovementTerms<T>),
}

/// Where the second key lies, by its row: rows count downwards.
pub open spec fn spec_vertical(k1: LayerKey, k2: LayerKey) -> Vertical {
    if k2.key.matrix_position.1 < k1.key.matrix_position.1 {
        Vertical::Upwards
    } else if k2.key.matrix_position.1 > k1.key.matrix_position.1 {
        Vertical::Downwards
    } else {
        Vertical::SameRow
    }
}

/// Where the second key lies, by its row.
pub fn vertical(k1: &LayerKey, k2: &LayerKey) -> (r: Vertical)
    ensures
        r == spec_vertical(*k1, *k2),
{
    if k2.key.matrix_position.1 < k1.key.matrix_position.1 {
        Vertical::Upwards
    } else if k2.key.matrix_position.1 > k1.key.matrix_position.1 {
        Vertical::Downwards
    } else {
        Vertical::SameRow
    }
}

/// Whether the movement goes up from the shorter finger or down from the longer one.
pub open spec fn spec_against_lengths(vertical: Vertical, order: LengthOrder) -> bool {
    (vertical == Vertical::Upwards && order == LengthOrder::FirstShorter) || (vertical
        == Vertical::Downwards && order == LengthOrder::FirstLonger)
}

/// Whether the movement goes up from the shorter finger or down from the longer one.
pub fn against_lengths(vertical: Vertical, order: LengthOrder) -> (r: bool)
    ensures
        r == spec_against_lengths(vertical, order),
{
    (vertical == Vertical::Upwards && order == LengthOrder::FirstShorter) || (vertical
        == Vertical::Downwards && order == LengthOrder::FirstLonger)
}

/// How far the number of columns between two keys is from the distance of their fingers.
pub open spec fn spec_lateral_mismatch(k1: LayerKey, k2: LayerKey) -> int {
    let fingers = k1.key.finger.spec_distance(k2.key.finger);
    let columns = k1.key.spec_column_distance(k2.key);
    if fingers >= columns {
        fingers - columns
    } else {
        columns - fingers
    }
}

/// How far the number of columns between two keys is from the distance of their fingers.
pub fn lateral_mismatch(k1: &LayerKey, k2: &LayerKey) -> (r: u32)
    ensures
        r as int == spec_lateral_mismatch(*k1, *k2),
{
    let fingers: u32 = k1.key.finger.distance(&k2.key.finger) as u32;
    let columns: u32 = k1.key.column_distance(&k2.key);
    if fingers >= columns {
        fingers - columns
    } else {
        columns - fingers
    }
}

impl<T: Copy> StdMovementPattern<T> {
    /// Whether the metric holds what `params` configures: switch costs and finger
    /// lengths with their defaults, and the four plain values.
    pub open spec fn built_from(self, params: Parameters<T>) -> bool {
        &&& forall|h: Hand, from: Finger, to: Finger|
            self.finger_switch_factor.value(h, from, to) == spec_switch_factor(
                params.finger_switch_factor@,
                from,
                to,
            )
        &&& forall|h: Hand, f: Finger|
            self.finger_lengths.value(h, f) == last_value(
                spec_configured(params.finger_lengths@),
                Factor::Fixed(hundredths(DEFAULT_FINGER_LENGTH)),
                (h, f),
            )
        &&& self.short_down_to_long_or_long_up_to_short_factor
            == params.short_down_to_long_or_long_up_to_short_factor
        &&& self.same_row_offset == params.same_row_offset
        &&& self.unbalancing_factor == params.unbalancing_factor
        &&& self.lateral_stretch_factor == params.lateral_stretch_factor
    }

    /// The metric that `params` configures.
    pub fn new(params: &Parameters<T>) -> (r: Self)
        ensures
            r.built_from(*params),
    {
        let lengths = configured(&params.finger_lengths);
        StdMovementPattern {
            finger_switch_factor: FingerSwitchTable::new(&params.finger_switch_factor),
            finger_lengths: HandFingerMap::with_entries(
                &lengths,
                Factor::Fixed(Hundredths::of(DEFAULT_FINGER_LENGTH)),
            ),
            short_down_to_long_or_long_up_to_short_factor: params.short_down_to_long_or_long_up_to_short_factor,
            same_row_offset: params.same_row_offset,
            unbalancing_factor: params.unbalancing_factor,
            lateral_stretch_factor: params.lateral_stretch_factor,
        }
    }

    /// The name under which the metric is reported.
    pub fn name(&self) -> (r: &'static str)
        ensures
            r@ == "Standard Movement Pattern"@,
    {
        "Standard Movement Pattern"
    }

    /// The lengths of the fingers of the two keys, the first key's first.
    pub fn finger_lengths_of(&self, k1: &LayerKey, k2: &LayerKey) -> (r: (Factor<T>, Factor<T>))
        ensures
            r.0 == self.finger_lengths.value(k1.key.hand, k1.key.finger),
            r.1 == self.finger_lengths.value(k2.key.hand, k2.key.finger),
    {
        (
            self.finger_lengths.get(&k1.key.hand, &k1.key.finger),
            self.finger_lengths.get(&k2.key.hand, &k2.key.finger),
        )
    }

    /// What the bigram costs, where `order` compares the lengths of the two fingers.
    pub open spec fn spec_cost_terms(self, k1: LayerKey, k2: LayerKey, order: LengthOrder)
        -> MovementCost<T> {
        if spec_no_movement(k1, k2) {
            MovementCost::Zero
        } else {
            MovementCost::Terms(
                MovementTerms {
                    finger_switch_factor: self.finger_switch_factor.value(
                        k1.key.hand,
                        k1.key.finger,
                        k2.key.finger,
                    ),
                    direction_factor: if spec_against_lengths(spec_vertical(k1, k2), order) {
                        Some(self.short_down_to_long_or_long_up_to_short_factor)
                    } else {
                        None
                    },
                    same_row_offset: if k1.key.matrix_position.1 == k2.key.matrix_position.1 {
                        Some(self.same_row_offset)
                    } else {
                        None
                    },
                    lateral_mismatch: spec_lateral_mismatch(k1, k2) as u32,
                    lateral_stretch_factor: self.lateral_stretch_factor,
                    unbalancing_factor: self.unbalancing_factor,
                },
            )
        }
    }

    /// What the bigram of `k1` and then `k2` costs, where `order` compares the
    /// lengths that `finger_lengths_of` gives for the two keys.
    pub fn cost_terms(&self, k1: &LayerKey, k2: &LayerKey, order: LengthOrder) -> (r: MovementCost<T>)
        ensures
            r == self.spec_cost_terms(*k1, *k2, order),
            k1.key.hand != k2.key.hand ==> r == MovementCost::<T>::Zero,
            k1.key.finger == Finger::Thumb || k2.key.finger == Finger::Thumb ==> r
                == MovementCost::<T>::Zero,
            k1.key.matrix_position.1 == k2.key.matrix_position.1 ==> (r matches MovementCost::Terms(
                t,
            ) ==> t.same_row_offset == Some(self.same_row_offset) && t.direction_factor.is_none()),
    {
        if no_movement(k1, k2) {
            return MovementCost::Zero;
        }
        let direction = vertical(k1, k2);
        let direction_factor = if against_lengths(direction, order) {
            Some(self.short_down_to_long_or_long_up_to_short_factor)
        } else {
            None
        };
        let same_row_offset = if k1.key.matrix_position.1 == k2.key.matrix_position.1 {
            Some(self.same_row_offset)
        } else {
            None
        };
        MovementCost::Terms(
            MovementTerms {
                finger_switch_factor: self.finger_switch_factor.get(
                    &k1.key.hand,
                    &k1.key.finger,
                    &k2.key.finger,
                ),
                direction_factor,
                same_row_offset,
                lateral_mismatch: lateral_mismatch(k1, k2),
                lateral_stretch_factor: self.lateral_stretch_factor,
                unbalancing_factor: self.unbalancing_factor,
            },
        )
    }
}

/// Two metrics that were built from the same parameters cost every bigram the same.
pub proof fn lemma_construction_is_deterministic<T: Copy>(
    a: StdMovementPattern<T>,
    b: StdMovementPattern<T>,
    params: Parameters<T>,
    k1: LayerKey,
    k2: LayerKey,
    order: LengthOrder,
)
    requires
        a.built_from(params),
        b.built_from(params),
    ensures
        a.spec_cost_terms(k1, k2, order) == b.spec_cost_terms(k1, k2, order),
{
}

} // verus!
