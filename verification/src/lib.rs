//! A spectral decay tracker: a peak-hold filter with exponential decay and
//! linear gain, turning a noisy instantaneous spectrum into a visually stable
//! one for live rendering.
//!
//! Amplitudes and frequencies are carried as fixed-point integers; the caller
//! chooses the scale (the math is linear in the unit).

use vstd::prelude::*;

pub mod laws;
pub mod tracker;

verus! {

/// One sample point of a spectrum: a frequency and its amplitude, both in
/// fixed-point units chosen by the caller.
#[derive(Clone, Copy, PartialEq, Eq, Structural, Debug)]
pub struct Bin {
    pub frequency: u64,
    pub amplitude: u64,
}

} // verus!
