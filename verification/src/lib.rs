//! Animated "shimmer" highlight for a line of terminal text.
//!
//! A band of brightened color sweeps left-to-right across the characters of a
//! text, looping continuously. The library computes, for a given text, base
//! style and sweep phase, the minimal sequence of contiguous styled runs that
//! a terminal-rendering layer can paint directly. All color math is done in
//! exact fixed-point arithmetic (parts per billion), so every function here is
//! verified; the thin layer that reads the clock, the environment and the
//! terminal types of the host rendering library lives outside.

use vstd::prelude::*;

pub mod capability;
pub mod color;
pub mod intensity;
pub mod shimmer;
pub mod style;

verus! {

/// Extra virtual positions before and after the text, so the sweep visibly
/// enters and exits instead of snapping.
pub const SHIMMER_PADDING: usize = 10;

/// Maximum distance from the sweep center that still receives a non-zero
/// highlight intensity.
pub const BAND_HALF_WIDTH: usize = 5;

/// One whole unit (1.0) in the fixed-point scale used for phases, intensities
/// and blend amounts: parts per billion.
pub const PHASE_UNIT: u64 = 1_000_000_000;

} // verus!
