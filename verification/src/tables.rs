//! Dense cost tables over fingers and over hand and finger, filled from sparse entries.

use crate::key::{Finger, Hand};
use vstd::prelude::*;

verus! {

/// The value that a sparse list of entries gives to `key`: that of the last entry
/// with this key, or `default` where no entry has it.
pub open spec fn last_value<K, T>(entries: Seq<(K, T)>, default: T, key: K) -> T
    decreases entries.len(),
{
    if entries.len() == 0 {
        default
    } else if entries.last().0 == key {
        entries.last().1
    } else {
        last_value(entries.drop_last(), default, key)
    }
}

/// Whether no two entries of the list have the same key.
pub open spec fn distinct_keys<K, T>(entries: Seq<(K, T)>) -> bool {
    forall|i: int, j: int|
        0 <= i < entries.len() && 0 <= j < entries.len() && i != j ==> entries[i].0 != entries[j].0
}

/// Whether every entry of `a` occurs in `b`.
pub open spec fn entries_within<K, T>(a: Seq<(K, T)>, b: Seq<(K, T)>) -> bool {
    forall|i: int| 0 <= i < a.len() ==> exists|j: int| 0 <= j < b.len() && b[j] == #[trigger] a[i]
}

/// A key that no entry configures resolves to the default.
pub proof fn lemma_unconfigured_is_default<K, T>(entries: Seq<(K, T)>, default: T, key: K)
    requires
        forall|i: int| 0 <= i < entries.len() ==> entries[i].0 != key,
    ensures
        last_value(entries, default, key) == default,
    decreases entries.len(),
{
    if entries.len() > 0 {
        lemma_unconfigured_is_default(entries.drop_last(), default, key);
    }
}

/// Later entries overwrite earlier ones: the entry at `i` decides its key's value
/// where no entry after it has the same key.
pub proof fn lemma_last_write_wins<K, T>(entries: Seq<(K, T)>, default: T, i: int)
    requires
        0 <= i < entries.len(),
        forall|j: int| i < j < entries.len() ==> entries[j].0 != entries[i].0,
    ensures
        last_value(entries, default, entries[i].0) == entries[i].1,
    decreases entries.len(),
{
    if i < entries.len() - 1 {
        lemma_last_write_wins(entries.drop_last(), default, i);
    }
}

/// Two lists that hold the same entries, each key at most once, resolve every key
/// to the same value, whatever the order of the entries.
pub proof fn lemma_order_independent<K, T>(a: Seq<(K, T)>, b: Seq<(K, T)>, default: T, key: K)
    requires
        distinct_keys(a),
        distinct_keys(b),
        entries_within(a, b),
        entries_within(b, a),
    ensures
        last_value(a, default, key) == last_value(b, default, key),
{
    if exists|i: int| 0 <= i < a.len() && a[i].0 == key {
        let i = choose|i: int| 0 <= i < a.len() && a[i].0 == key;
        let j = choose|j: int| 0 <= j < b.len() && b[j] == a[i];
        lemma_last_write_wins(a, default, i);
        lemma_last_write_wins(b, default, j);
    } else {
        assert forall|j: int| 0 <= j < b.len() implies b[j].0 != key by {
            let i = choose|i: int| 0 <= i < a.len() && a[i] == b[j];
        }
        lemma_unconfigured_is_default(a, default, key);
        lemma_unconfigured_is_default(b, default, key);
    }
}

/// A value for each finger.
#[derive(Clone, Copy, Debug)]
pub struct FingerMap<T> {
    thumb: T,
    index: T,
    middle: T,
    ring: T,
    pinky: T,
}

impl<T: Copy> FingerMap<T> {
    /// The value that the table holds for a finger.
    pub closed spec fn value(self, finger: Finger) -> T {
        match finger {
            Finger::Thumb => self.thumb,
            Finger::Index => self.index,
            Finger::Middle => self.middle,
            Finger::Ring => self.ring,
            Finger::Pinky => self.pinky,
        }
    }

    /// A table that holds `default` for every finger.
    pub fn with_default(default: T) -> (r: Self)
        ensures
            forall|f: Finger| r.value(f) == default,
    {
        FingerMap { thumb: default, index: default, middle: default, ring: default, pinky: default }
    }

    /// A table that holds for every finger what the entries give it.
    pub fn with_entries(entries: &Vec<(Finger, T)>, default: T) -> (r: Self)
        ensures
            forall|f: Finger| r.value(f) == last_value(entries@, default, f),
    {
        let mut table = FingerMap::with_default(default);
        let mut i: usize = 0;
        while i < entries.len()
            invariant
                0 <= i <= entries.len(),
                forall|f: Finger| table.value(f) == last_value(entries@.take(i as int), default, f),
            decreases entries.len() - i,
        {
            let entry = entries[i];
            table.set(&entry.0, entry.1);
            proof {
                assert(entries@.take(i + 1).drop_last() =~= entries@.take(i as int));
                assert(entries@.take(i + 1).last() == entries@[i as int]);
            }
            i += 1;
        }
        proof {
            assert(entries@.take(i as int) =~= entries@);
        }
        table
    }

    /// The value for a finger.
    pub fn get(&self, finger: &Finger) -> (r: T)
        ensures
            r == self.value(*finger),
    {
        match finger {
            Finger::Thumb => self.thumb,
            Finger::Index => self.index,
            Finger::Middle => self.middle,
            Finger::Ring => self.ring,
            Finger::Pinky => self.pinky,
        }
    }

    /// Replaces the value for one finger and keeps the others.
    pub fn set(&mut self, finger: &Finger, value: T)
        ensures
            final(self).value(*finger) == value,
            forall|f: Finger| f != *finger ==> final(self).value(f) == old(self).value(f),
    {
        match finger {
            Finger::Thumb => self.thumb = value,
            Finger::Index => self.index = value,
            Finger::Middle => self.middle = value,
            Finger::Ring => self.ring = value,
            Finger::Pinky => self.pinky = value,
        }
    }
}

/// A value for each finger of each hand.
#[derive(Clone, Copy, Debug)]
pub struct HandFingerMap<T> {
    left: FingerMap<T>,
    right: FingerMap<T>,
}

impl<T: Copy> HandFingerMap<T> {
    /// The value that the table holds for a finger of a hand.
    pub closed spec fn value(self, hand: Hand, finger: Finger) -> T {
        match hand {
            Hand::Left => self.left.value(finger),
            Hand::Right => self.right.value(finger),
        }
    }

    /// A table that holds `default` for every finger of both hands.
    pub fn with_default(default: T) -> (r: Self)
        ensures
            forall|h: Hand, f: Finger| r.value(h, f) == default,
    {
        HandFingerMap {
            left: FingerMap::with_default(default),
            right: FingerMap::with_default(default),
        }
    }

    /// A table that holds for every finger of each hand what the entries give it.
    pub fn with_entries(entries: &Vec<((Hand, Finger), T)>, default: T) -> (r: Self)
        ensures
            forall|h: Hand, f: Finger| r.value(h, f) == last_value(entries@, default, (h, f)),
    {
        let mut table = HandFingerMap::with_default(default);
        let mut i: usize = 0;
        while i < entries.len()
            invariant
                0 <= i <= entries.len(),
                forall|h: Hand, f: Finger|
                    table.value(h, f) == last_value(entries@.take(i as int), default, (h, f)),
            decreases entries.len() - i,
        {
            let entry = entries[i];
            let hand = entry.0.0;
            let finger = entry.0.1;
            table.set(&hand, &finger, entry.1);
            proof {
                assert(entries@.take(i + 1).drop_last() =~= entries@.take(i as int));
                assert(entries@.take(i + 1).last() == entries@[i as int]);
            }
            i += 1;
        }
        proof {
            assert(entries@.take(i as int) =~= entries@);
        }
        table
    }

    /// The value for a finger of a hand.
    pub fn get(&self, hand: &Hand, finger: &Finger) -> (r: T)
        ensures
            r == self.value(*hand, *finger),
    {
        match hand {
            Hand::Left => self.left.get(finger),
            Hand::Right => self.right.get(finger),
        }
    }

    /// Replaces the value for one finger of one hand and keeps the others.
    pub fn set(&mut self, hand: &Hand, finger: &Finger, value: T)
        ensures
            final(self).value(*hand, *finger) == value,
            forall|h: Hand, f: Finger|
                (h != *hand || f != *finger) ==> final(self).value(h, f) == old(self).value(h, f),
    {
        match hand {
            Hand::Left => self.left.set(finger, value),
            Hand::Right => self.right.set(finger, value),
        }
    }
}

} // verus!
