//! Multipliers of a cost: configured values of any numeric type, and fixed ones
//! that are kept as exact hundredths.

use crate::key::{Finger, Hand};
use crate::tables::{last_value, HandFingerMap};
use vstd::prelude::*;

verus! {

/// A fixed multiplier, in hundredths. A negative zero keeps its sign.
#[derive(Clone, Copy, Debug, PartialEq, Eq, Structural, Hash)]
pub struct Hundredths {
    pub value: u32,
    pub negative: bool,
}

/// The multiplier `value / 100`.
pub open spec fn hundredths(value: u32) -> Hundredths {
    Hundredths { value, negative: false }
}

impl Hundredths {
    /// The multiplier `value / 100`.
    pub fn of(value: u32) -> (r: Hundredths)
        ensures
            r == hundredths(value),
    {
        Hundredths { value, negative: false }
    }
}

/// A multiplier: one that the configuration gives, or a fixed one.
#[derive(Clone, Copy, Debug, PartialEq)]
pub enum Factor<T> {
    Configured(T),
    Fixed(Hundredths),
}

/// The entries of a sparse list, each value marked as configured.
pub open spec fn spec_configured<K, T>(entries: Seq<(K, T)>) -> Seq<(K, Factor<T>)> {
    entries.map_values(|e: (K, T)| (e.0, Factor::Configured(e.1)))
}

/// The entries of a sparse list, each value marked as configured.
pub fn configured<K: Copy, T: Copy>(entries: &Vec<(K, T)>) -> (r: Vec<(K, Factor<T>)>)
    ensures
        r@ == spec_configured(entries@),
{
    let mut out: Vec<(K, Factor<T>)> = Vec::new();
    let mut i: usize = 0;
    while i < entries.len()
        invariant
            0 <= i <= entries.len(),
            out@ == spec_configured(entries@.take(i as int)),
        decreases entries.len() - i,
    {
        let entry = entries[i];
        out.push((entry.0, Factor::Configured(entry.1)));
        proof {
            assert(out@ =~= spec_configured(entries@.take(i + 1)));
        }
        i += 1;
    }
    proof {
        assert(entries@.take(i as int) =~= entries@);
    }
    out
}

/// The cost of moving from one finger to another.
#[derive(Clone, Copy, Debug)]
pub struct FingerSwitchCost<T> {
    pub from: Finger,
    pub to: Finger,
    pub cost: T,
}

/// The costs of a list, keyed by the pair of fingers.
pub open spec fn switch_entries<T>(costs: Seq<FingerSwitchCost<T>>) -> Seq<
    ((Finger, Finger), Factor<T>),
> {
    costs.map_values(|c: FingerSwitchCost<T>| ((c.from, c.to), Factor::Configured(c.cost)))
}

/// The cost that a list gives to a switch between two fingers: that of the last
/// entry for the pair, or zero where the list has none.
pub open spec fn spec_switch_factor<T>(costs: Seq<FingerSwitchCost<T>>, from: Finger, to: Finger)
    -> Factor<T> {
    last_value(switch_entries(costs), Factor::Fixed(hundredths(0)), (from, to))
}

/// The cost of a switch from each finger of a hand to each other finger of it.
#[derive(Clone, Copy, Debug)]
pub struct FingerSwitchTable<T> {
    table: HandFingerMap<HandFingerMap<Factor<T>>>,
}

impl<T: Copy> FingerSwitchTable<T> {
    /// The cost of a switch between two fingers of one hand.
    pub closed spec fn value(self, hand: Hand, from: Finger, to: Finger) -> Factor<T> {
        self.table.value(hand, from).value(hand, to)
    }

    /// The table of a list of costs: each cost holds for both hands.
    pub fn new(costs: &Vec<FingerSwitchCost<T>>) -> (r: Self)
        ensures
            forall|h: Hand, from: Finger, to: Finger|
                r.value(h, from, to) == spec_switch_factor(costs@, from, to),
    {
        let zero: Factor<T> = Factor::Fixed(Hundredths::of(0));
        let mut r = FingerSwitchTable {
            table: HandFingerMap::with_default(HandFingerMap::with_default(zero)),
        };
        r.fill(&Hand::Left, costs);
        r.fill(&Hand::Right, costs);
        r
    }

    /// Enters each cost of the list for one hand.
    fn fill(&mut self, hand: &Hand, costs: &Vec<FingerSwitchCost<T>>)
        requires
            forall|from: Finger, to: Finger|
                old(self).value(*hand, from, to) == Factor::<T>::Fixed(hundredths(0)),
        ensures
            forall|from: Finger, to: Finger|
                final(self).value(*hand, from, to) == spec_switch_factor(costs@, from, to),
            forall|h: Hand, from: Finger, to: Finger|
                h != *hand ==> final(self).value(h, from, to) == old(self).value(h, from, to),
    {
        let mut i: usize = 0;
        proof {
            assert(switch_entries(costs@.take(0)) =~= Seq::empty());
        }
        while i < costs.len()
            invariant
                0 <= i <= costs.len(),
                forall|from: Finger, to: Finger|
                    self.value(*hand, from, to) == spec_switch_factor(
                        costs@.take(i as int),
                        from,
                        to,
                    ),
                forall|h: Hand, from: Finger, to: Finger|
                    h != *hand ==> self.value(h, from, to) == old(self).value(h, from, to),
            decreases costs.len() - i,
        {
            let entry = costs[i];
            let ghost before = *self;
            let mut row = self.table.get(hand, &entry.from);
            let ghost old_row = row;
            row.set(hand, &entry.to, Factor::Configured(entry.cost));
            self.table.set(hand, &entry.from, row);
            proof {
                let next = switch_entries(costs@.take(i + 1));
                assert(next.drop_last() =~= switch_entries(costs@.take(i as int)));
                assert(next.last() == ((entry.from, entry.to), Factor::Configured(entry.cost)));
                assert forall|from: Finger, to: Finger|
                    self.value(*hand, from, to) == spec_switch_factor(
                        costs@.take(i + 1),
                        from,
                        to,
                    ) by {
                    assert(before.value(*hand, from, to) == spec_switch_factor(
                        costs@.take(i as int),
                        from,
                        to,
                    ));
                    if from == entry.from {
                        assert(self.table.value(*hand, from) == row);
                        if to != entry.to {
                            assert(row.value(*hand, to) == old_row.value(*hand, to));
                        }
                    } else {
                        assert(self.table.value(*hand, from) == before.table.value(*hand, from));
                    }
                }
                assert forall|h: Hand, from: Finger, to: Finger| h != *hand implies self.value(
                    h,
                    from,
                    to,
                ) == before.value(h, from, to) by {
                    assert(self.table.value(h, from) == before.table.value(h, from));
                }
            }
            i += 1;
        }
        proof {
            assert(costs@.take(i as int) =~= costs@);
        }
    }

    /// The cost of a switch between two fingers of one hand.
    pub fn get(&self, hand: &Hand, from: &Finger, to: &Finger) -> (r: Factor<T>)
        ensures
            r == self.value(*hand, *from, *to),
    {
        self.table.get(hand, from).get(hand, to)
    }
}

} // verus!
