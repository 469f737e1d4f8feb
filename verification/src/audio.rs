//! Sound output at other rates: how many samples are taken, and which of them are
//! heard.

use crate::app_state::NORMAL_RATE;
use crate::float::{F32, F32_ZERO};
use vstd::prelude::*;

verus! {

/// How many samples are taken for `out` samples of output at a rate in quarters of
/// normal speed: the rate's share to the nearest whole number, and at least two.
pub open spec fn samples_taken(out: int, rate: int) -> int {
    let share = (out * rate + 2) / 4;
    if share < 2 {
        2
    } else {
        share
    }
}

/// How many samples are taken for `out` samples of output.
pub fn samples_to_take(out: usize, rate: u32) -> (n: u128)
    ensures
        n == samples_taken(out as int, rate as int),
{
    assert(out * rate <= usize::MAX * u32::MAX) by (nonlinear_arith)
        requires
            out <= usize::MAX,
            rate <= u32::MAX,
    ;
    let share: u128 = (out as u128 * rate as u128 + 2) / 4;
    if share < 2 {
        2
    } else {
        share
    }
}

/// Which of `taken` samples is heard at place `i` of `out`.
pub open spec fn sample_at(i: int, taken: int, out: int) -> int {
    i * taken / out
}

proof fn sample_is_there(i: int, taken: int, out: int)
    requires
        0 <= i < out,
        0 < taken,
    ensures
        0 <= sample_at(i, taken, out) < taken,
{
    assert(i * taken < out * taken) by (nonlinear_arith)
        requires
            0 <= i < out,
            0 < taken,
    ;
    assert(0 <= i * taken) by (nonlinear_arith)
        requires
            0 <= i,
            0 < taken,
    ;
    assert(0 <= i * taken / out < taken) by (nonlinear_arith)
        requires
            0 <= i * taken < out * taken,
            0 < out,
    ;
}

/// What is heard: for each place of the output the nearest sample before it; silence
/// where nothing was taken.
pub open spec fn heard(samples: Seq<F32>, out: int) -> Seq<F32> {
    Seq::new(
        out as nat,
        |i: int|
            if samples.len() == 0 {
                F32 { bits: F32_ZERO }
            } else {
                samples[sample_at(i, samples.len() as int, out)]
            },
    )
}

/// What is heard.
pub fn resample(samples: &Vec<F32>, out: usize) -> (r: Vec<F32>)
    ensures
        r@ == heard(samples@, out as int),
{
    let taken: usize = samples.len();
    let mut r: Vec<F32> = Vec::new();
    let mut i: usize = 0;
    while i < out
        invariant
            i <= out,
            taken == samples@.len(),
            r@.len() == i,
            forall|k: int| 0 <= k < i ==> #[trigger] r@[k] == heard(samples@, out as int)[k],
        decreases out - i,
    {
        if taken == 0 {
            r.push(F32::of(F32_ZERO));
        } else {
            proof {
                sample_is_there(i as int, taken as int, out as int);
                assert(0 <= i * taken <= u128::MAX) by (nonlinear_arith)
                    requires
                        0 <= i <= 0xffff_ffff_ffff_ffff,
                        0 <= taken <= 0xffff_ffff_ffff_ffff,
                ;
            }
            let at: u128 = i as u128 * taken as u128 / out as u128;
            r.push(samples[at as usize]);
        }
        i = i + 1;
    }
    assert(r@ =~= heard(samples@, out as int));
    r
}

/// At normal speed as many samples are taken as are put out, and they are heard
/// unchanged.
pub proof fn normal_speed_is_unchanged(samples: Seq<F32>)
    ensures
        samples.len() >= 2 ==> samples_taken(samples.len() as int, NORMAL_RATE as int)
            == samples.len(),
        heard(samples, samples.len() as int) == samples,
{
    let n = samples.len() as int;
    assert forall|i: int| 0 <= i < n implies heard(samples, n)[i] == samples[i] by {
        assert(i * n / n == i) by (nonlinear_arith)
            requires
                0 <= i < n,
        ;
    }
    assert(heard(samples, n) =~= samples);
}

/// As many samples are taken as the rate asks for, to the nearest whole number and halves
/// up, and never fewer than two.
pub proof fn rate_asks_for_its_samples(out: int, rate: int)
    requires
        0 <= out,
        0 <= rate,
    ensures
        samples_taken(out, rate) >= 2,
        samples_taken(out, rate) > 2 ==> 4 * samples_taken(out, rate) - 2 <= out * rate < 4
            * samples_taken(out, rate) + 2,
        samples_taken(out, rate) == 2 ==> out * rate < 10,
{
}

/// The output is spread evenly over what was taken: at each place the sample is heard
/// whose share of the output holds that place. Where nothing was taken there is silence.
pub proof fn samples_are_spread_evenly(samples: Seq<F32>, out: int, i: int, k: int)
    requires
        0 <= i < out,
        0 <= k < samples.len(),
        k * out <= i * samples.len() < (k + 1) * out,
    ensures
        heard(samples, out).len() == out,
        heard(samples, out)[i] == samples[k],
        heard(Seq::<F32>::empty(), out).len() == out,
        heard(Seq::<F32>::empty(), out)[i].bits == 0,
{
    let n = samples.len() as int;
    assert(i * n / out == k) by (nonlinear_arith)
        requires
            k * out <= i * n < (k + 1) * out,
            0 < out,
    ;
}

} // verus!
