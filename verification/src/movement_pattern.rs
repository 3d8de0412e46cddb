//! Cost of bigrams that two fingers of one hand type on keywell clusters, with the
//! parameters of the traditional movement pattern. Of these only the switch costs
//! enter the cost.

pub use crate::factor::FingerSwitchCost;
use crate::factor::{
    configured, hundredths, spec_configured, spec_switch_factor, Factor, FingerSwitchTable,
    Hundredths,
};
use crate::key::{Finger, Hand, LayerKey};
use crate::sval::spec_direction_of;
use crate::sval_movement_pattern::{
    lateral_switch_cost, spec_lateral_switch_cost, SvalMovementPattern, SwitchCost,
};
use crate::tables::{last_value, HandFingerMap};
use vstd::prelude::*;

verus! {

/// The length of a finger that the parameters do not configure.
pub const DEFAULT_FINGER_LENGTH: u32 = 100;

/// The configuration of [`MovementPattern`], over any numeric type `T`.
#[derive(Clone, Debug)]
pub struct Parameters<T> {
    /// Cost associated with bigrams from a finger to another one.
    pub finger_switch_factor: Vec<FingerSwitchCost<T>>,
    /// The length of each configured finger.
    pub finger_lengths: Vec<((Hand, Finger), T)>,
    pub short_down_to_long_or_long_up_to_short_factor: T,
    pub same_row_offset: T,
    pub unbalancing_factor: T,
    pub lateral_stretch_factor: T,
}

/// The metric of movements between fingers on keywell clusters, configured as the
/// traditional one is.
#[derive(Clone, Copy, Debug)]
pub struct MovementPattern<T> {
    pub finger_switch_factor: FingerSwitchTable<T>,
    pub finger_lengths: HandFingerMap<Factor<T>>,
    pub short_down_to_long_or_long_up_to_short_factor: T,
    pub same_row_offset: T,
    pub unbalancing_factor: T,
    pub lateral_stretch_factor: T,
}

impl<T: Copy> MovementPattern<T> {
    /// Whether the metric holds what `params` configures: switch costs and finger
    /// lengths with their defaults, and the four plain values.
    pub open spec fn built_from(self, params: Parameters<T>) -> bool {
        &&& forall|h: Hand, from: Finger, to: Finger|
            self.finger_switch_factor.value(h, from, to) == spec_switch_factor(
                params.finger_switch_factor@,
                from,
                to,
            )
        &&& forall|h: Hand, f: Finger|
            self.finger_lengths.value(h, f) == last_value(
                spec_configured(params.finger_lengths@),
                Factor::Fixed(hundredths(DEFAULT_FINGER_LENGTH)),
                (h, f),
            )
        &&& self.short_down_to_long_or_long_up_to_short_factor
            == params.short_down_to_long_or_long_up_to_short_factor
        &&& self.same_row_offset == params.same_row_offset
        &&& self.unbalancing_factor == params.unbalancing_factor
        &&& self.lateral_stretch_factor == params.lateral_stretch_factor
    }

    /// The metric that `params` configures.
    pub fn new(params: &Parameters<T>) -> (r: Self)
        ensures
            r.built_from(*params),
    {
        let lengths = configured(&params.finger_lengths);
        MovementPattern {
            finger_switch_factor: FingerSwitchTable::new(&params.finger_switch_factor),
            finger_lengths: HandFingerMap::with_entries(
                &lengths,
                Factor::Fixed(Hundredths::of(DEFAULT_FINGER_LENGTH)),
            ),
            short_down_to_long_or_long_up_to_short_factor: params.short_down_to_long_or_long_up_to_short_factor,
            same_row_offset: params.same_row_offset,
            unbalancing_factor: params.unbalancing_factor,
            lateral_stretch_factor: params.lateral_stretch_factor,
        }
    }

    /// The name under which the metric is reported.
    pub fn name(&self) -> (r: &'static str)
        ensures
            r@ == "Movement Pattern"@,
    {
        "Movement Pattern"
    }

    /// What the bigram costs.
    pub open spec fn spec_cost_terms(self, k1: LayerKey, k2: LayerKey) -> SwitchCost<T> {
        spec_lateral_switch_cost(self.finger_switch_factor, k1, k2)
    }

    /// What the bigram of `k1` and then `k2` costs.
    pub fn cost_terms(&self, k1: &LayerKey, k2: &LayerKey) -> (r: SwitchCost<T>)
        ensures
            r == self.spec_cost_terms(*k1, *k2),
            k1.key.hand != k2.key.hand ==> r == SwitchCost::<T>::Zero,
            k1.key.finger == Finger::Thumb || k2.key.finger == Finger::Thumb ==> r == SwitchCost::<
                T,
            >::Zero,
            !spec_direction_of(k1.key.matrix_position).is_lateral() ==> r == SwitchCost::<T>::Zero,
    {
        lateral_switch_cost(&self.finger_switch_factor, k1, k2)
    }
}

/// Two metrics that were built from the same parameters cost every bigram the same.
pub proof fn lemma_construction_is_deterministic<T: Copy>(
    a: MovementPattern<T>,
    b: MovementPattern<T>,
    params: Parameters<T>,
    k1: LayerKey,
    k2: LayerKey,
)
    requires
        a.built_from(params),
        b.built_from(params),
    ensures
        a.spec_cost_terms(k1, k2) == b.spec_cost_terms(k1, k2),
{
}

/// A metric of this kind costs every bigram as the keywell movement pattern with
/// the same switch costs does.
pub proof fn lemma_costs_as_sval_movement_pattern<T: Copy>(
    a: MovementPattern<T>,
    params: Parameters<T>,
    b: SvalMovementPattern<T>,
    sval_params: crate::sval_movement_pattern::Parameters<T>,
    k1: LayerKey,
    k2: LayerKey,
)
    requires
        a.built_from(params),
        b.built_from(sval_params),
        params.finger_switch_factor@ == sval_params.finger_switch_factor@,
    ensures
        a.spec_cost_terms(k1, k2) == b.spec_cost_terms(k1, k2),
{
}

} // verus!
