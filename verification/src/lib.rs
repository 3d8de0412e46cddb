//! Ergonomic cost models for two-key sequences on a keyboard layout.

pub mod factor;
pub mod key;
pub mod movement_pattern;
pub mod std_finger_repeats;
pub mod std_movement_pattern;
pub mod sval;
pub mod sval_finger_repeats;
pub mod sval_movement_pattern;
pub mod tables;
