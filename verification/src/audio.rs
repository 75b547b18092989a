//! Sample-buffer operations that need no arithmetic on the samples
//! themselves: routing to one ear and sample-and-hold rate reduction.
use vstd::prelude::*;
use vstd::arithmetic::div_mod::lemma_fundamental_div_mod_converse;

verus! {

/// Whether sample `j` of `n` interleaved samples with `channel_count`
/// channels is silenced under `stereo_mode`: mode 1 (left ear only) silences
/// the second channel of every frame, mode 2 (right ear only) the first
/// channel of every frame that has a second one; other modes, and mono
/// audio, silence nothing.
pub open spec fn stereo_silenced(n: int, channel_count: int, stereo_mode: u8, j: int) -> bool {
    &&& channel_count >= 2
    &&& 0 <= j < n
    &&& if stereo_mode == 1 {
        j % channel_count == 1
    } else if stereo_mode == 2 {
        j % channel_count == 0 && j + 1 < n
    } else {
        false
    }
}

/// Routes interleaved audio to one ear by overwriting the other ear's
/// samples with `silence`.
pub fn apply_stereo_mode<T: Copy>(samples: &mut [T], channel_count: usize, stereo_mode: u8, silence: T)
    ensures
        final(samples)@.len() == old(samples)@.len(),
        forall|j: int|
            0 <= j < old(samples)@.len() ==> #[trigger] final(samples)@[j] == if stereo_silenced(
                old(samples)@.len() as int,
                channel_count as int,
                stereo_mode,
                j,
            ) {
                silence
            } else {
                old(samples)@[j]
            },
{
    if channel_count < 2 || stereo_mode == 0 || stereo_mode > 2 {
        return;
    }
    let n = samples.len();
    let ghost orig = samples@;
    let mut j: usize = 0;
    let mut p: usize = 0;
    let ghost mut q: int = 0;
    while j < n
        invariant
            n == samples@.len(),
            orig.len() == n,
            channel_count >= 2,
            1 <= stereo_mode <= 2,
            j <= n,
            p < channel_count,
            j == q * channel_count + p,
            forall|k: int|
                0 <= k < j ==> #[trigger] samples@[k] == if stereo_silenced(
                    n as int,
                    channel_count as int,
                    stereo_mode,
                    k,
                ) {
                    silence
                } else {
                    orig[k]
                },
            forall|k: int| j <= k < n ==> #[trigger] samples@[k] == orig[k],
        decreases n - j,
    {
        proof {
            lemma_fundamental_div_mod_converse(j as int, channel_count as int, q, p as int);
        }
        let hit = if stereo_mode == 1 {
            p == 1
        } else {
            p == 0 && j + 1 < n
        };
        if hit {
            samples[j] = silence;
        }
        j = j + 1;
        if p + 1 == channel_count {
            proof {
                assert((q + 1) * channel_count == q * channel_count + channel_count) by (nonlinear_arith);
                q = q + 1;
            }
            p = 0;
        } else {
            p = p + 1;
        }
    }
}

/// How many samples share one held value when `sample_rate` is reduced to
/// `target_rate` by sample-and-hold: the whole ratio, at least 1.
pub open spec fn hold_step(sample_rate: u32, target_rate: u32) -> int {
    let q = sample_rate / target_rate;
    if q < 1 { 1 } else { q as int }
}

/// Reduces the sample rate by sample-and-hold: each sample is replaced by
/// the first sample of its group of `hold_step` samples.
pub fn sample_and_hold<T: Copy>(samples: &mut [T], sample_rate: u32, target_rate: u32)
    requires
        target_rate > 0,
    ensures
        final(samples)@.len() == old(samples)@.len(),
        forall|j: int|
            0 <= j < old(samples)@.len() ==> #[trigger] final(samples)@[j] == old(samples)@[j - j
                % hold_step(sample_rate, target_rate)],
{
    let q = sample_rate / target_rate;
    let step: usize = if q < 1 { 1 } else { q as usize };
    let n = samples.len();
    if n == 0 {
        return;
    }
    let ghost orig = samples@;
    let mut held = samples[0];
    let mut j: usize = 0;
    let mut p: usize = 0;
    let ghost mut g: int = 0;
    while j < n
        invariant
            n == samples@.len(),
            orig.len() == n,
            step as int == hold_step(sample_rate, target_rate),
            step >= 1,
            j <= n,
            p < step,
            j == g * step + p,
            0 <= g,
            p > 0 ==> held == orig[j - p],
            forall|k: int| 0 <= k < j ==> #[trigger] samples@[k] == orig[k - k % (step as int)],
            forall|k: int| j <= k < n ==> #[trigger] samples@[k] == orig[k],
        decreases n - j,
    {
        proof {
            lemma_fundamental_div_mod_converse(j as int, step as int, g, p as int);
        }
        if p == 0 {
            held = samples[j];
        }
        samples[j] = held;
        j = j + 1;
        if p + 1 == step {
            proof {
                assert((g + 1) * step == g * step + step) by (nonlinear_arith);
                g = g + 1;
            }
            p = 0;
        } else {
            p = p + 1;
        }
    }
}

} // verus!
