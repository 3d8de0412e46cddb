//! The physical key model: hands, fingers and keys.

use vstd::prelude::*;

verus! {

/// The hand that presses a key.
#[derive(Clone, Copy, Debug, PartialEq, Eq, Structural, Hash)]
pub enum Hand {
    Left,
    Right,
}

/// The finger that presses a key.
#[derive(Clone, Copy, Debug, PartialEq, Eq, Structural, Hash)]
pub enum Finger {
    Thumb,
    Index,
    Middle,
    Ring,
    Pinky,
}

impl Finger {
    /// Position of the finger on its hand, counted from the thumb.
    pub open spec fn ordinal(self) -> int {
        match self {
            Finger::Thumb => 0,
            Finger::Index => 1,
            Finger::Middle => 2,
            Finger::Ring => 3,
            Finger::Pinky => 4,
        }
    }

    /// Number of fingers that lie between two fingers, plus one; zero for the same finger.
    pub open spec fn spec_distance(self, other: Finger) -> int {
        if self.ordinal() >= other.ordinal() {
            self.ordinal() - other.ordinal()
        } else {
            other.ordinal() - self.ordinal()
        }
    }

    /// Position of the finger on its hand, counted from the thumb.
    pub fn index(&self) -> (r: u8)
        ensures
            r as int == self.ordinal(),
    {
        match self {
            Finger::Thumb => 0,
            Finger::Index => 1,
            Finger::Middle => 2,
            Finger::Ring => 3,
            Finger::Pinky => 4,
        }
    }

    /// Symmetric distance between two fingers of one hand.
    pub fn distance(&self, other: &Finger) -> (r: u8)
        ensures
            r as int == self.spec_distance(*other),
            r as int == other.spec_distance(*self),
    {
        let a: u8 = self.index();
        let b: u8 = other.index();
        if a >= b {
            a - b
        } else {
            b - a
        }
    }
}

/// One physical switch and the digit that presses it. How far the switch lies from
/// the resting position of its finger is a measured quantity that the caller keeps
/// beside the key.
#[derive(Clone, Copy, Debug, PartialEq, Eq, Hash)]
pub struct Key {
    pub hand: Hand,
    pub finger: Finger,
    /// Column and row of the switch in the matrix.
    pub matrix_position: (i32, i32),
}

impl Key {
    /// Whether two keys are the same switch.
    pub fn same_key(&self, other: &Key) -> (r: bool)
        ensures
            r == (*self == *other),
    {
        self.hand == other.hand && self.finger == other.finger
            && self.matrix_position.0 == other.matrix_position.0
            && self.matrix_position.1 == other.matrix_position.1
    }

    /// Number of columns that lie between two keys.
    pub open spec fn spec_column_distance(self, other: Key) -> int {
        if self.matrix_position.0 >= other.matrix_position.0 {
            self.matrix_position.0 - other.matrix_position.0
        } else {
            other.matrix_position.0 - self.matrix_position.0
        }
    }

    /// Number of columns that lie between two keys.
    pub fn column_distance(&self, other: &Key) -> (r: u32)
        ensures
            r as int == self.spec_column_distance(*other),
            r as int == other.spec_column_distance(*self),
    {
        let a: i64 = self.matrix_position.0 as i64;
        let b: i64 = other.matrix_position.0 as i64;
        if a >= b {
            (a - b) as u32
        } else {
            (b - a) as u32
        }
    }
}

/// A key on one layer of the layout.
#[derive(Clone, Copy, Debug, PartialEq, Eq, Hash)]
pub struct LayerKey {
    pub key: Key,
    pub layer: u8,
    pub symbol: char,
    /// The layer that holding this key activates, where the key acts as a modifier.
    pub is_modifier: Option<u8>,
}

impl LayerKey {
    /// Whether two layer keys are the same logical key on the same layer.
    pub fn same_layer_key(&self, other: &LayerKey) -> (r: bool)
        ensures
            r == (*self == *other),
    {
        let same_modifier = match (self.is_modifier, other.is_modifier) {
            (Some(a), Some(b)) => a == b,
            (None, None) => true,
            _ => false,
        };
        self.key.same_key(&other.key) && self.layer == other.layer && self.symbol == other.symbol
            && same_modifier
    }
}

} // verus!
