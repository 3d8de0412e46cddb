//! Cost of bigrams that two fingers of one hand type on keywell clusters. Only a
//! first key that is pressed sideways costs anything.

pub use crate::factor::FingerSwitchCost;
use crate::factor::{spec_switch_factor, Factor, FingerSwitchTable};
use crate::key::{Finger, Hand, LayerKey};
use crate::sval::{direction_of, spec_direction_of, SvalKeyDirection};
use vstd::prelude::*;

verus! {

/// The configuration of [`SvalMovementPattern`], over any numeric type `T`.
#[derive(Clone, Debug)]
pub struct Parameters<T> {
    /// Cost associated with bigrams from a finger to another one.
    pub finger_switch_factor: Vec<FingerSwitchCost<T>>,
}

/// The metric of movements between fingers on keywell clusters.
#[derive(Clone, Copy, Debug)]
pub struct SvalMovementPattern<T> {
    pub finger_switch_factor: FingerSwitchTable<T>,
}

/// What a bigram costs: nothing, or its weight times the cost of the switch of
/// fingers times the unbalancing of the first key. The unbalancing of a key is the
/// sum of the sizes of its two offsets, or one where both are zero.
#[derive(Clone, Copy, Debug, PartialEq)]
pub enum SwitchCost<T> {
    Zero,
    Switch(Factor<T>),
}

/// Whether a bigram is no movement between two fingers of one hand: a thumb takes
/// part, the keys are on two hands, or one finger types both.
pub open spec fn spec_no_movement(k1: LayerKey, k2: LayerKey) -> bool {
    k1.key.finger == Finger::Thumb || k2.key.finger == Finger::Thumb || k1.key.hand != k2.key.hand
        || k1.key.finger == k2.key.finger
}

/// Whether a bigram is no movement between two fingers of one hand.
pub fn no_movement(k1: &LayerKey, k2: &LayerKey) -> (r: bool)
    ensures
        r == spec_no_movement(*k1, *k2),
{
    k1.key.finger == Finger::Thumb || k2.key.finger == Finger::Thumb || k1.key.hand != k2.key.hand
        || k1.key.finger == k2.key.finger
}

/// What a bigram costs on keywell clusters, given the table of switch costs.
pub open spec fn spec_lateral_switch_cost<T: Copy>(
    table: FingerSwitchTable<T>,
    k1: LayerKey,
    k2: LayerKey,
) -> SwitchCost<T> {
    if spec_no_movement(k1, k2) || !spec_direction_of(k1.key.matrix_position).is_lateral() {
        SwitchCost::Zero
    } else {
        SwitchCost::Switch(table.value(k1.key.hand, k1.key.finger, k2.key.finger))
    }
}

/// What a bigram costs on keywell clusters, given the table of switch costs.
pub fn lateral_switch_cost<T: Copy>(table: &FingerSwitchTable<T>, k1: &LayerKey, k2: &LayerKey) -> (r:
    SwitchCost<T>)
    ensures
        r == spec_lateral_switch_cost(*table, *k1, *k2),
{
    if no_movement(k1, k2) {
        return SwitchCost::Zero;
    }
    let first = direction_of(k1.key.matrix_position);
    if !(first == SvalKeyDirection::East || first == SvalKeyDirection::West) {
        return SwitchCost::Zero;
    }
    SwitchCost::Switch(table.get(&k1.key.hand, &k1.key.finger, &k2.key.finger))
}

impl<T: Copy> SvalMovementPattern<T> {
    /// Whether the metric holds the switch costs of `params`: for each pair of
    /// fingers the last one configured, else zero, on both hands.
    pub open spec fn built_from(self, params: Parameters<T>) -> bool {
        forall|h: Hand, from: Finger, to: Finger|
            self.finger_switch_factor.value(h, from, to) == spec_switch_factor(
                params.finger_switch_factor@,
                from,
                to,
            )
    }

    /// The metric that `params` configures.
    pub fn new(params: &Parameters<T>) -> (r: Self)
        ensures
            r.built_from(*params),
    {
        SvalMovementPattern { finger_switch_factor: FingerSwitchTable::new(&params.finger_switch_factor) }
    }

    /// The name under which the metric is reported.
    pub fn name(&self) -> (r: &'static str)
        ensures
            r@ == "Svalboard Movement Pattern"@,
    {
        "Svalboard Movement Pattern"
    }

    /// What the bigram costs.
    pub open spec fn spec_cost_terms(self, k1: LayerKey, k2: LayerKey) -> SwitchCost<T> {
        spec_lateral_switch_cost(self.finger_switch_factor, k1, k2)
    }

    /// What the bigram of `k1` and then `k2` costs.
    pub fn cost_terms(&self, k1: &LayerKey, k2: &LayerKey) -> (r: SwitchCost<T>)
        ensures
            r == self.spec_cost_terms(*k1, *k2),
            k1.key.hand != k2.key.hand ==> r == SwitchCost::<T>::Zero,
            k1.key.finger == Finger::Thumb || k2.key.finger == Finger::Thumb ==> r == SwitchCost::<
                T,
            >::Zero,
            !spec_direction_of(k1.key.matrix_position).is_lateral() ==> r == SwitchCost::<T>::Zero,
    {
        lateral_switch_cost(&self.finger_switch_factor, k1, k2)
    }
}

/// Two metrics that were built from the same parameters cost every bigram the same.
pub proof fn lemma_construction_is_deterministic<T: Copy>(
    a: SvalMovementPattern<T>,
    b: SvalMovementPattern<T>,
    params: Parameters<T>,
    k1: LayerKey,
    k2: LayerKey,
)
    requires
        a.built_from(params),
        b.built_from(params),
    ensures
        a.spec_cost_terms(k1, k2) == b.spec_cost_terms(k1, k2),
{
}

} // verus!
