//! Laws of the peak-hold rule, stated and proved over the spec functions that
//! `Tracker::update`'s contract speaks of.

use vstd::arithmetic::div_mod::lemma_fundamental_div_mod;
use vstd::arithmetic::power::pow;
use vstd::prelude::*;

use crate::Bin;
use crate::tracker::boosted_amp;
use crate::tracker::decayed_amp;
use crate::tracker::next_amplitude;

verus! {

/// The amplitude left after `n` successive pure-decay steps starting from
/// `amp` (each step is a floor division by `den` after scaling by `num`).
pub open spec fn decay_iter(amp: int, num: int, den: int, n: nat) -> int
    decreases n,
{
    if n == 0 {
        amp
    } else {
        decayed_amp(decay_iter(amp, num, den, (n - 1) as nat), num, den)
    }
}

/// The amplitude held at a bin after `n` successive update steps whose fresh
/// amplitude is zero, starting from `amp`.
pub open spec fn zero_run(amp: int, gain: int, num: int, den: int, n: nat) -> int
    decreases n,
{
    if n == 0 {
        amp
    } else {
        next_amplitude(zero_run(amp, gain, num, den, (n - 1) as nat), 0, gain, num, den)
    }
}

/// One decay step divides exactly: scaling `amp` by the retention ratio
/// loses nothing to the floor.
pub open spec fn exact_step(amp: int, num: int, den: int) -> bool {
    (amp * num) % den == 0
}

/// A zero held amplitude updated with a zero fresh amplitude stays exactly
/// zero: decay of zero is zero and boost of zero is zero.
pub proof fn lemma_zero_state_zero_input(gain: int, num: int, den: int)
    requires
        1 <= den,
        0 <= num <= den,
        0 <= gain,
    ensures
        next_amplitude(0, 0, gain, num, den) == 0,
{
    assert(0 * gain == 0) by (nonlinear_arith);
    assert((0 * num) / den == 0) by (nonlinear_arith)
        requires
            1 <= den,
    ;
}

/// A fresh all-zero state updated with an all-zero input of the same length
/// yields all-zero amplitudes at every bin.
pub proof fn lemma_fresh_zero_update(
    state: Seq<Bin>,
    input: Seq<Bin>,
    gain: int,
    num: int,
    den: int,
)
    requires
        1 <= den,
        0 <= num <= den,
        0 <= gain,
        state.len() == input.len(),
        forall|i: int| 0 <= i < state.len() ==> state[i].amplitude == 0,
        forall|i: int| 0 <= i < input.len() ==> input[i].amplitude == 0,
    ensures
        forall|i: int|
            0 <= i < state.len() ==> next_amplitude(
                state[i].amplitude as int,
                input[i].amplitude as int,
                gain,
                num,
                den,
            ) == 0,
{
    assert forall|i: int| 0 <= i < state.len() implies next_amplitude(
        state[i].amplitude as int,
        input[i].amplitude as int,
        gain,
        num,
        den,
    ) == 0 by {
        lemma_zero_state_zero_input(gain, num, den);
    }
}

/// Non-negativity: a non-negative held amplitude and a non-negative fresh
/// amplitude always update to a non-negative amplitude.
pub proof fn lemma_amplitude_nonnegative(
    old_amp: int,
    in_amp: int,
    gain: int,
    num: int,
    den: int,
)
    requires
        1 <= den,
        0 <= num,
        0 <= gain,
        0 <= old_amp,
        0 <= in_amp,
    ensures
        0 <= next_amplitude(old_amp, in_amp, gain, num, den),
{
    assert(0 <= in_amp * gain) by (nonlinear_arith)
        requires
            0 <= in_amp,
            0 <= gain,
    ;
    assert(0 <= (old_amp * num) / den) by (nonlinear_arith)
        requires
            0 <= old_amp,
            0 <= num,
            1 <= den,
    ;
}

/// Under a zero fresh amplitude the update is pure decay: the new amplitude
/// is the held one scaled by `num / den` (with floor), which never exceeds
/// the held one and never drops below zero.
pub proof fn lemma_zero_input_decay(old_amp: int, gain: int, num: int, den: int)
    requires
        1 <= den,
        0 <= num <= den,
        0 <= gain,
        0 <= old_amp,
    ensures
        next_amplitude(old_amp, 0, gain, num, den) == decayed_amp(old_amp, num, den),
        0 <= decayed_amp(old_amp, num, den) <= old_amp,
{
    assert(0 * gain == 0) by (nonlinear_arith);
    assert(0 <= (old_amp * num) / den <= old_amp) by (nonlinear_arith)
        requires
            0 <= old_amp,
            0 <= num <= den,
            1 <= den,
    ;
}

/// Repeated decay is monotone: after each further step the amplitude is no
/// larger than before, and it stays between zero and the starting value.
pub proof fn lemma_decay_iter_monotonic(amp: int, num: int, den: int, n: nat)
    requires
        1 <= den,
        0 <= num <= den,
        0 <= amp,
    ensures
        0 <= decay_iter(amp, num, den, n) <= amp,
        decay_iter(amp, num, den, (n + 1) as nat) <= decay_iter(amp, num, den, n),
    decreases n,
{
    if n > 0 {
        lemma_decay_iter_monotonic(amp, num, den, (n - 1) as nat);
        let prev = decay_iter(amp, num, den, (n - 1) as nat);
        assert(0 <= (prev * num) / den <= prev) by (nonlinear_arith)
            requires
                0 <= prev,
                0 <= num <= den,
                1 <= den,
        ;
    }
    let cur = decay_iter(amp, num, den, n);
    assert(0 <= (cur * num) / den <= cur) by (nonlinear_arith)
        requires
            0 <= cur,
            0 <= num <= den,
            1 <= den,
    ;
    assert(decay_iter(amp, num, den, (n + 1) as nat) == decayed_amp(cur, num, den));
}

/// The exponential decay law: as long as every step divides exactly, `n`
/// decay steps scale the amplitude by precisely `num^n / den^n` — written
/// multiplicatively to stay within the integers.
pub proof fn lemma_decay_law_exact(amp: int, num: int, den: int, n: nat)
    requires
        1 <= den,
        0 <= num <= den,
        0 <= amp,
        forall|k: nat| k < n ==> exact_step(#[trigger] decay_iter(amp, num, den, k), num, den),
    ensures
        decay_iter(amp, num, den, n) * pow(den, n) == amp * pow(num, n),
    decreases n,
{
    reveal(pow);
    if n == 0 {
        assert(pow(den, 0) == 1);
        assert(pow(num, 0) == 1);
    } else {
        let m = (n - 1) as nat;
        lemma_decay_law_exact(amp, num, den, m);
        let prev = decay_iter(amp, num, den, m);
        let cur = decay_iter(amp, num, den, n);
        assert(exact_step(decay_iter(amp, num, den, m), num, den));
        assert(cur == (prev * num) / den);
        lemma_fundamental_div_mod(prev * num, den);
        assert(prev * num == den * cur);
        assert(pow(den, n) == den * pow(den, m));
        assert(pow(num, n) == num * pow(num, m));
        assert(cur * pow(den, n) == amp * pow(num, n)) by (nonlinear_arith)
            requires
                prev * num == den * cur,
                prev * pow(den, m) == amp * pow(num, m),
                pow(den, n) == den * pow(den, m),
                pow(num, n) == num * pow(num, m),
        ;
    }
}

/// A run of zero-amplitude updates is nothing but iterated decay.
pub proof fn lemma_zero_run_is_decay(amp: int, gain: int, num: int, den: int, n: nat)
    requires
        1 <= den,
        0 <= num <= den,
        0 <= gain,
        0 <= amp,
    ensures
        zero_run(amp, gain, num, den, n) == decay_iter(amp, num, den, n),
    decreases n,
{
    if n > 0 {
        let m = (n - 1) as nat;
        lemma_zero_run_is_decay(amp, gain, num, den, m);
        lemma_decay_iter_monotonic(amp, num, den, m);
        lemma_zero_input_decay(decay_iter(amp, num, den, m), gain, num, den);
    }
}

/// Peak hold: a fresh peak over a zero held amplitude stores exactly the
/// boosted peak, and each following zero-input call decays the stored value
/// by one more `num / den` step.
pub proof fn lemma_peak_hold(a: int, gain: int, num: int, den: int, n: nat)
    requires
        1 <= den,
        0 <= num <= den,
        0 <= gain,
        0 <= a,
    ensures
        next_amplitude(0, a, gain, num, den) == boosted_amp(a, gain),
        zero_run(boosted_amp(a, gain), gain, num, den, n) == decay_iter(
            boosted_amp(a, gain),
            num,
            den,
            n,
        ),
{
    assert(0 <= a * gain) by (nonlinear_arith)
        requires
            0 <= a,
            0 <= gain,
    ;
    assert((0 * num) / den == 0) by (nonlinear_arith)
        requires
            1 <= den,
    ;
    lemma_zero_run_is_decay(a * gain, gain, num, den, n);
}

} // verus!
