//! The spectral decay tracker and the spec functions that pin down its
//! per-bin update rule.

use vstd::prelude::*;

use crate::Bin;

verus! {

/// Default gain applied to a fresh amplitude before the peak comparison.
pub const GAIN_FACTOR: u64 = 5000;

/// Default decay ratio numerator: a held peak keeps 84/100 of its value per call.
pub const DECAY_NUM: u64 = 84;

/// Default decay ratio denominator.
pub const DECAY_DEN: u64 = 100;

/// The previous amplitude after one call's worth of decay (floor division).
pub open spec fn decayed_amp(amp: int, num: int, den: int) -> int {
    (amp * num) / den
}

/// A fresh input amplitude after the gain boost.
pub open spec fn boosted_amp(amp: int, gain: int) -> int {
    amp * gain
}

/// The peak-hold rule: a bin keeps the larger of the boosted fresh amplitude
/// and the decayed previous one.
pub open spec fn next_amplitude(old_amp: int, in_amp: int, gain: int, num: int, den: int) -> int {
    if boosted_amp(in_amp, gain) >= decayed_amp(old_amp, num, den) {
        boosted_amp(in_amp, gain)
    } else {
        decayed_amp(old_amp, num, den)
    }
}

/// How many leading bins an update touches: the shorter of the state length
/// and the input length (a pairwise walk stops at the shorter sequence).
pub open spec fn overlap_len(state_len: int, input_len: int) -> int {
    if input_len < state_len {
        input_len
    } else {
        state_len
    }
}

/// A stateful peak-hold filter over a fixed-length spectrum.
///
/// Each `update` call replaces every overlapped bin's frequency with the fresh
/// one and its amplitude with `max(fresh * gain, held * decay_num / decay_den)`.
pub struct Tracker {
    /// The held spectrum; its length never changes after construction.
    pub bins: Vec<Bin>,
    /// Multiplier applied to every fresh amplitude.
    pub gain: u64,
    /// Numerator of the per-call retention ratio.
    pub decay_num: u64,
    /// Denominator of the per-call retention ratio.
    pub decay_den: u64,
}

impl Tracker {
    /// The configuration is a valid retention ratio: a positive denominator,
    /// and a ratio of at most one (a held peak never grows on its own).
    pub open spec fn wf(&self) -> bool {
        1 <= self.decay_den && self.decay_num <= self.decay_den
    }

    /// A tracker of `length` all-zero bins with the default gain and decay.
    pub fn new(length: usize) -> (t: Tracker)
        ensures
            t.wf(),
            t.gain == GAIN_FACTOR,
            t.decay_num == DECAY_NUM,
            t.decay_den == DECAY_DEN,
            t.bins@.len() == length,
            forall|i: int| 0 <= i < length ==> t.bins@[i] == (Bin { frequency: 0u64, amplitude: 0u64 }),
    {
        Tracker::with_config(length, GAIN_FACTOR, DECAY_NUM, DECAY_DEN)
    }

    /// A tracker of `length` all-zero bins with a chosen gain and decay ratio.
    pub fn with_config(length: usize, gain: u64, decay_num: u64, decay_den: u64) -> (t: Tracker)
        requires
            1 <= decay_den,
            decay_num <= decay_den,
        ensures
            t.wf(),
            t.gain == gain,
            t.decay_num == decay_num,
            t.decay_den == decay_den,
            t.bins@.len() == length,
            forall|i: int| 0 <= i < length ==> t.bins@[i] == (Bin { frequency: 0u64, amplitude: 0u64 }),
    {
        let mut bins: Vec<Bin> = Vec::new();
        let mut i: usize = 0;
        while i < length
            invariant
                i <= length,
                bins@.len() == i,
                forall|j: int| 0 <= j < i ==> bins@[j] == (Bin { frequency: 0u64, amplitude: 0u64 }),
            decreases length - i,
        {
            bins.push(Bin { frequency: 0, amplitude: 0 });
            i = i + 1;
        }
        Tracker { bins, gain, decay_num, decay_den }
    }

    /// The number of bins the tracker holds.
    pub fn len(&self) -> (n: usize)
        ensures
            n == self.bins@.len(),
    {
        self.bins.len()
    }

    /// One peak-hold step.
    ///
    /// Over the overlap of the input and the held state (the shorter of the
    /// two lengths), every bin takes the fresh frequency and
    /// `max(fresh amplitude * gain, held amplitude * decay_num / decay_den)`;
    /// the rest of the state is left exactly as it was. Returns an
    /// independent snapshot of the full updated state.
    pub fn update(&mut self, input: &Vec<Bin>) -> (snapshot: Vec<Bin>)
        requires
            old(self).wf(),
            forall|i: int|
                0 <= i < input@.len() ==> input@[i].amplitude * old(self).gain <= u64::MAX,
        ensures
            final(self).wf(),
            final(self).gain == old(self).gain,
            final(self).decay_num == old(self).decay_num,
            final(self).decay_den == old(self).decay_den,
            final(self).bins@.len() == old(self).bins@.len(),
            forall|i: int|
                0 <= i < overlap_len(old(self).bins@.len() as int, input@.len() as int) ==> {
                    &&& final(self).bins@[i].frequency == input@[i].frequency
                    &&& final(self).bins@[i].amplitude == next_amplitude(
                        old(self).bins@[i].amplitude as int,
                        input@[i].amplitude as int,
                        old(self).gain as int,
                        old(self).decay_num as int,
                        old(self).decay_den as int,
                    )
                },
            forall|i: int|
                overlap_len(old(self).bins@.len() as int, input@.len() as int) <= i
                    < old(self).bins@.len() ==> final(self).bins@[i] == old(self).bins@[i],
            snapshot@ == final(self).bins@,
    {
        let n = self.bins.len();
        let m = input.len();
        let k = if m < n { m } else { n };
        let mut i: usize = 0;
        while i < k
            invariant
                self.wf(),
                self.gain == old(self).gain,
                self.decay_num == old(self).decay_num,
                self.decay_den == old(self).decay_den,
                self.bins@.len() == old(self).bins@.len(),
                k == overlap_len(old(self).bins@.len() as int, input@.len() as int),
                i <= k,
                k <= self.bins@.len(),
                k <= input@.len(),
                forall|j: int|
                    0 <= j < input@.len() ==> input@[j].amplitude * self.gain <= u64::MAX,
                forall|j: int|
                    0 <= j < i ==> {
                        &&& self.bins@[j].frequency == input@[j].frequency
                        &&& self.bins@[j].amplitude == next_amplitude(
                            old(self).bins@[j].amplitude as int,
                            input@[j].amplitude as int,
                            old(self).gain as int,
                            old(self).decay_num as int,
                            old(self).decay_den as int,
                        )
                    },
                forall|j: int| i <= j < self.bins@.len() ==> self.bins@[j] == old(self).bins@[j],
            decreases k - i,
        {
            let fresh = input[i];
            let held_amp = self.bins[i].amplitude;
            proof {
                assert(held_amp as int * self.decay_num as int <= u128::MAX) by (nonlinear_arith)
                    requires
                        0 <= held_amp <= u64::MAX,
                        0 <= self.decay_num <= u64::MAX,
                ;
            }
            let decayed_wide: u128 =
                (held_amp as u128) * (self.decay_num as u128) / (self.decay_den as u128);
            proof {
                assert(decayed_wide as int
                    == decayed_amp(held_amp as int, self.decay_num as int, self.decay_den as int));
                assert(decayed_wide as int <= held_amp as int) by (nonlinear_arith)
                    requires
                        decayed_wide as int == (held_amp as int * self.decay_num as int)
                            / self.decay_den as int,
                        0 <= held_amp,
                        0 <= self.decay_num <= self.decay_den,
                        1 <= self.decay_den,
                ;
            }
            let boosted_wide: u128 = (fresh.amplitude as u128) * (self.gain as u128);
            let next_wide: u128 = if boosted_wide >= decayed_wide {
                boosted_wide
            } else {
                decayed_wide
            };
            let next_amp: u64 = next_wide as u64;
            self.bins[i] = Bin { frequency: fresh.frequency, amplitude: next_amp };
            i = i + 1;
        }
        self.bins.clone()
    }
}

} // verus!
