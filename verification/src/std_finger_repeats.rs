//! Cost of bigrams that one finger types on a traditional keyboard. Repeats of the
//! index finger and of the pinky are scaled by factors of their own.

use crate::key::{Finger, LayerKey};
use vstd::prelude::*;

verus! {

/// The configuration of [`StdFingerRepeats`], over any numeric type `T`.
#[derive(Clone, Copy, Debug)]
pub struct Parameters<T> {
    /// Multiplies the cost of a repeat of the index finger.
    pub index_finger_factor: T,
    /// Multiplies the cost of a repeat of the pinky.
    pub pinky_finger_factor: T,
    /// Weight of each axis of the unbalancing of the two keys.
    pub unbalancing_factor: T,
}

/// The metric of finger repeats on a traditional keyboard.
#[derive(Clone, Copy, Debug)]
pub struct StdFingerRepeats<T> {
    pub index_finger_factor: T,
    pub pinky_finger_factor: T,
    pub unbalancing_factor: T,
}

/// What a bigram costs: nothing, or its weight times the unbalancing multiplier
/// of the two keys and, where there is one, the factor of the finger. The
/// unbalancing multiplier is the product, over both axes of both keys, of one plus
/// `unbalancing_factor` times the size of the offset.
#[derive(Clone, Copy, Debug, PartialEq)]
pub enum StdRepeatCost<T> {
    Zero,
    Repeat { unbalancing_factor: T, finger_factor: Option<T> },
}

impl<T: Copy> StdFingerRepeats<T> {
    /// Whether the metric holds the values of `params`.
    pub open spec fn built_from(self, params: Parameters<T>) -> bool {
        &&& self.index_finger_factor == params.index_finger_factor
        &&& self.pinky_finger_factor == params.pinky_finger_factor
        &&& self.unbalancing_factor == params.unbalancing_factor
    }

    /// The metric that `params` configures.
    pub fn new(params: &Parameters<T>) -> (r: Self)
        ensures
            r.built_from(*params),
    {
        StdFingerRepeats {
            index_finger_factor: params.index_finger_factor,
            pinky_finger_factor: params.pinky_finger_factor,
            unbalancing_factor: params.unbalancing_factor,
        }
    }

    /// The name under which the metric is reported.
    pub fn name(&self) -> (r: &'static str)
        ensures
            r@ == "Finger Repeats (Standard)"@,
    {
        "Finger Repeats (Standard)"
    }

    /// The factor of the finger that repeats: one for the index finger, one for
    /// the pinky, none for the others.
    pub open spec fn spec_finger_factor(self, finger: Finger) -> Option<T> {
        match finger {
            Finger::Index => Some(self.index_finger_factor),
            Finger::Pinky => Some(self.pinky_finger_factor),
            _ => None,
        }
    }

    /// What the bigram costs: nothing unless one finger of one hand types both
    /// keys, which may be the same key.
    pub open spec fn spec_cost_terms(self, k1: LayerKey, k2: LayerKey) -> StdRepeatCost<T> {
        if k1.key.hand != k2.key.hand || k1.key.finger != k2.key.finger {
            StdRepeatCost::Zero
        } else {
            StdRepeatCost::Repeat {
                unbalancing_factor: self.unbalancing_factor,
                finger_factor: self.spec_finger_factor(k1.key.finger),
            }
        }
    }

    /// What the bigram of `k1` and then `k2` costs.
    pub fn cost_terms(&self, k1: &LayerKey, k2: &LayerKey) -> (r: StdRepeatCost<T>)
        ensures
            r == self.spec_cost_terms(*k1, *k2),
            k1.key.hand != k2.key.hand ==> r == StdRepeatCost::<T>::Zero,
    {
        if k1.key.hand != k2.key.hand || k1.key.finger != k2.key.finger {
            return StdRepeatCost::Zero;
        }
        let finger_factor = match k1.key.finger {
            Finger::Index => Some(self.index_finger_factor),
            Finger::Pinky => Some(self.pinky_finger_factor),
            _ => None,
        };
        StdRepeatCost::Repeat { unbalancing_factor: self.unbalancing_factor, finger_factor }
    }
}

/// Two metrics that were built from the same parameters cost every bigram the same.
pub proof fn lemma_construction_is_deterministic<T: Copy>(
    a: StdFingerRepeats<T>,
    b: StdFingerRepeats<T>,
    params: Parameters<T>,
    k1: LayerKey,
    k2: LayerKey,
)
    requires
        a.built_from(params),
        b.built_from(params),
    ensures
        a.spec_cost_terms(k1, k2) == b.spec_cost_terms(k1, k2),
{
}

} // verus!
