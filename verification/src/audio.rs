//! Procedural audio synthesis: a looping ambient background track and a set
//! of short bounce chimes, produced as interleaved two-channel 16-bit PCM at
//! 44100 hertz.
//!
//! The waveforms are computed entirely in fixed point: the sine comes from
//! `trig`, and the decay envelope from a small rational approximation of
//! `exp(-x)` defined here. Each generator's contract pins every sample to its
//! spec-level formula.
use vstd::prelude::*;

use crate::num::{clamp, clamp_spec, lemma_tdiv_bound, tdiv, tdiv_i64};
use crate::trig::{sin_mrad, sin_mrad_spec};
use crate::{MILLI, TWO_PI_MRAD};

verus! {

/// Samples per second of the generated PCM.
pub const SAMPLE_RATE: i64 = 44_100;

/// Length of the looping background track, milliseconds.
pub const BGM_LOOP_MS: i64 = 8_000;

/// `1000 * exp(-k)` for whole `k`, rounded.
pub open spec fn exp_table_milli(k: int) -> int {
    if k <= 0 {
        1000
    } else if k == 1 {
        368
    } else if k == 2 {
        135
    } else if k == 3 {
        50
    } else if k == 4 {
        18
    } else if k == 5 {
        7
    } else if k == 6 {
        2
    } else if k == 7 {
        1
    } else {
        0
    }
}

/// `1000 * exp(-x / 1000)`, approximately: the whole part from the table, the
/// fractional part from a two-term Taylor expansion.
pub open spec fn exp_neg_milli_spec(x: int) -> int {
    let k = x / 1000;
    let f = x % 1000;
    exp_table_milli(k) * (1000 - f + f * f / 2000) / 1000
}

/// The decay envelope: `1000 * exp(-x / 1000)` in fixed point.
fn exp_neg_milli(x: i64) -> (r: i64)
    requires
        0 <= x <= 10_000,
    ensures
        r == exp_neg_milli_spec(x as int),
        0 <= r <= 1000,
{
    let k = x / 1000;
    let f = x % 1000;
    let table = if k == 0 {
        1000
    } else if k == 1 {
        368
    } else if k == 2 {
        135
    } else if k == 3 {
        50
    } else if k == 4 {
        18
    } else if k == 5 {
        7
    } else if k == 6 {
        2
    } else if k == 7 {
        1
    } else {
        0
    };
    proof {
        assert(0 <= f as int * f <= 1_000_000 && 0 <= f as int * f / 2000 <= f)
            by (nonlinear_arith)
            requires
                0 <= f < 1000,
        ;
    }
    let t = 1000 - f + f * f / 2000;
    proof {
        assert(0 <= table * t <= 1_000_000) by (nonlinear_arith)
            requires
                0 <= table <= 1000,
                0 <= t <= 1000,
        ;
    }
    table * t / 1000
}

/// One sample (before stereo interleaving) of the background track: three
/// low harmonics, each amplitude-modulated by a slow sine, clamped and scaled
/// to 16-bit range.
pub open spec fn bgm_sample(j: int) -> int {
    let modulation = tdiv(sin_mrad_spec(TWO_PI_MRAD as int * j / (5 * SAMPLE_RATE as int)), 5)
        + 800;
    let h1 = tdiv(
        tdiv(sin_mrad_spec(TWO_PI_MRAD as int * 80 * j / (SAMPLE_RATE as int)) * 200, MILLI as int)
            * modulation,
        MILLI as int,
    );
    let h2 = tdiv(
        tdiv(
            sin_mrad_spec(TWO_PI_MRAD as int * 120 * j / (SAMPLE_RATE as int)) * 150,
            MILLI as int,
        ) * modulation,
        MILLI as int,
    );
    let h3 = tdiv(
        tdiv(
            sin_mrad_spec(TWO_PI_MRAD as int * 160 * j / (SAMPLE_RATE as int)) * 100,
            MILLI as int,
        ) * modulation,
        MILLI as int,
    );
    let s = clamp_spec(h1 + h2 + h3, -(MILLI as int), MILLI as int);
    tdiv(s * 32_767, MILLI as int)
}

/// One sample of a bounce chime with base frequency `f` milli-hertz over
/// `samples` samples: a sine whose frequency falls to half across the chime,
/// a quieter octave above it, and an exponential decay envelope.
pub open spec fn bounce_sample(f: int, samples: int, j: int) -> int {
    let p = 1000 * j / samples;
    let freq = f * (1000 - p / 2) / 1000;
    let ph = TWO_PI_MRAD as int * freq * j / (SAMPLE_RATE as int * 1000);
    let s1 = tdiv(sin_mrad_spec(ph) * 700, MILLI as int);
    let s2 = tdiv(sin_mrad_spec(2 * ph) * 200, MILLI as int);
    let env = exp_neg_milli_spec(10 * p);
    let s = clamp_spec(tdiv((s1 + s2) * env, MILLI as int), -(MILLI as int), MILLI as int);
    tdiv(s * 32_767, MILLI as int)
}

/// The chime durations, milliseconds, by row.
pub open spec fn bounce_duration_ms(row: int) -> int {
    if row == 0 {
        80
    } else if row == 1 {
        100
    } else {
        120
    }
}

/// The chime base frequencies, milli-hertz, by column: notes of the scale.
pub open spec fn bounce_freq_milli(col: int) -> int {
    if col == 0 {
        220_000
    } else if col == 1 {
        330_000
    } else if col == 2 {
        440_000
    } else {
        554_000
    }
}

/// One amplitude-modulated harmonic of a sample: the sine at `phase`, scaled
/// by `amp` per mille, then by `modulation` per mille.
fn harmonic(phase: i64, amp: i64, modulation: i64) -> (r: i64)
    requires
        -2_000_000_000_000 <= phase <= 2_000_000_000_000,
        0 <= amp <= 1000,
        -1000 <= modulation <= 1000,
    ensures
        r == tdiv(
            tdiv(sin_mrad_spec(phase as int) * amp, MILLI as int) * modulation,
            MILLI as int,
        ),
        -amp <= r <= amp,
{
    let s = sin_mrad(phase);
    proof {
        assert(-(amp as int * MILLI) <= s * amp <= amp as int * MILLI) by (nonlinear_arith)
            requires
                -MILLI <= s <= MILLI,
                0 <= amp,
        ;
        lemma_tdiv_bound(s as int * amp, MILLI as int, amp as int);
    }
    let inner = tdiv_i64(s * amp, MILLI);
    proof {
        assert(-(amp as int * MILLI) <= inner * modulation <= amp as int * MILLI)
            by (nonlinear_arith)
            requires
                -amp <= inner <= amp,
                -1000 <= modulation <= 1000,
                MILLI == 1000,
        ;
        lemma_tdiv_bound(inner as int * modulation, MILLI as int, amp as int);
    }
    tdiv_i64(inner * modulation, MILLI)
}

/// Generates the looping ambient background track: 8 seconds of stereo PCM,
/// both channels equal, each frame given exactly by `bgm_sample`.
pub fn generate_bgm() -> (data: Vec<i16>)
    ensures
        data@.len() == 2 * (SAMPLE_RATE * BGM_LOOP_MS / 1000),
        forall|k: int| 0 <= k < data@.len() ==> #[trigger] data@[k] == bgm_sample(k / 2),
{
    let samples = SAMPLE_RATE * BGM_LOOP_MS / 1000;
    let mut data: Vec<i16> = Vec::new();
    let mut j: i64 = 0;
    while j < samples
        invariant
            0 <= j <= samples,
            samples == SAMPLE_RATE * BGM_LOOP_MS / 1000,
            data@.len() == 2 * j,
            forall|k: int| 0 <= k < data@.len() ==> #[trigger] data@[k] == bgm_sample(k / 2),
        decreases samples - j,
    {
        proof {
            crate::trig::lemma_sin_cos_bounds(TWO_PI_MRAD as int * j / (5 * SAMPLE_RATE));
            lemma_tdiv_bound(
                sin_mrad_spec(TWO_PI_MRAD as int * j / (5 * SAMPLE_RATE)),
                5,
                200,
            );
        }
        let modulation = tdiv_i64(sin_mrad(TWO_PI_MRAD * j / (5 * SAMPLE_RATE)), 5) + 800;
        let h1 = harmonic(TWO_PI_MRAD * 80 * j / SAMPLE_RATE, 200, modulation);
        let h2 = harmonic(TWO_PI_MRAD * 120 * j / SAMPLE_RATE, 150, modulation);
        let h3 = harmonic(TWO_PI_MRAD * 160 * j / SAMPLE_RATE, 100, modulation);
        let s = clamp(h1 + h2 + h3, -MILLI, MILLI);
        proof {
            assert(-(32_767 * MILLI) <= s * 32_767 <= 32_767 * MILLI) by (nonlinear_arith)
                requires
                    -MILLI <= s <= MILLI,
            ;
            lemma_tdiv_bound(s as int * 32_767, MILLI as int, 32_767);
        }
        let v = tdiv_i64(s * 32_767, MILLI);
        data.push(v as i16);
        data.push(v as i16);
        j = j + 1;
    }
    data
}

/// Generates the twelve bounce chimes: every combination of three durations
/// and four base notes, each a stereo PCM clip whose frames are given exactly
/// by `bounce_sample`.
pub fn generate_bounce_sounds() -> (sounds: Vec<Vec<i16>>)
    ensures
        sounds@.len() == 12,
        forall|i: int|
            0 <= i < 12 ==> (#[trigger] sounds@[i])@.len() == 2 * (SAMPLE_RATE
                * bounce_duration_ms(i / 4) / 1000),
        forall|i: int, k: int|
            0 <= i < 12 && 0 <= k < (sounds@[i])@.len() ==> #[trigger] (sounds@[i])@[k]
                == bounce_sample(
                bounce_freq_milli(i % 4),
                SAMPLE_RATE * bounce_duration_ms(i / 4) / 1000,
                k / 2,
            ),
{
    let mut sounds: Vec<Vec<i16>> = Vec::new();
    let mut i: i64 = 0;
    while i < 12
        invariant
            0 <= i <= 12,
            sounds@.len() == i,
            forall|n: int|
                0 <= n < i ==> (#[trigger] sounds@[n])@.len() == 2 * (SAMPLE_RATE
                    * bounce_duration_ms(n / 4) / 1000),
            forall|n: int, k: int|
                0 <= n < i && 0 <= k < (sounds@[n])@.len() ==> #[trigger] (sounds@[n])@[k]
                    == bounce_sample(
                    bounce_freq_milli(n % 4),
                    SAMPLE_RATE * bounce_duration_ms(n / 4) / 1000,
                    k / 2,
                ),
        decreases 12 - i,
    {
        let duration_ms: i64 = if i / 4 == 0 {
            80
        } else if i / 4 == 1 {
            100
        } else {
            120
        };
        let freq: i64 = if i % 4 == 0 {
            220_000
        } else if i % 4 == 1 {
            330_000
        } else if i % 4 == 2 {
            440_000
        } else {
            554_000
        };
        let clip = bounce_wave(freq, duration_ms);
        sounds.push(clip);
        i = i + 1;
    }
    sounds
}

/// One bounce chime: stereo PCM over `SAMPLE_RATE * duration_ms / 1000`
/// frames, each given exactly by `bounce_sample`.
fn bounce_wave(freq: i64, duration_ms: i64) -> (data: Vec<i16>)
    requires
        1_000 <= freq <= 1_000_000,
        1 <= duration_ms <= 1_000,
    ensures
        data@.len() == 2 * (SAMPLE_RATE * duration_ms / 1000),
        forall|k: int|
            0 <= k < data@.len() ==> #[trigger] data@[k] == bounce_sample(
                freq as int,
                SAMPLE_RATE * duration_ms / 1000,
                k / 2,
            ),
{
    let samples = SAMPLE_RATE * duration_ms / 1000;
    let mut data: Vec<i16> = Vec::new();
    let mut j: i64 = 0;
    while j < samples
        invariant
            0 <= j <= samples,
            1 <= samples <= SAMPLE_RATE,
            samples == SAMPLE_RATE * duration_ms / 1000,
            1_000 <= freq <= 1_000_000,
            data@.len() == 2 * j,
            forall|k: int|
                0 <= k < data@.len() ==> #[trigger] data@[k] == bounce_sample(
                    freq as int,
                    samples as int,
                    k / 2,
                ),
        decreases samples - j,
    {
        let p = 1000 * j / samples;
        proof {
            assert(0 <= p <= 999) by (nonlinear_arith)
                requires
                    0 <= j < samples,
                    1 <= samples,
                    p == 1000 * (j as int) / (samples as int),
            ;
            assert(0 <= freq as int * (1000 - p / 2) <= 1_000_000_000) by (nonlinear_arith)
                requires
                    0 <= freq <= 1_000_000,
                    0 <= p <= 999,
            ;
        }
        let fr = freq * (1000 - p / 2) / 1000;
        proof {
            assert(0 <= TWO_PI_MRAD as int * fr * j <= 300_000_000_000_000) by (nonlinear_arith)
                requires
                    0 <= fr <= 1_000_000,
                    0 <= j <= SAMPLE_RATE,
                    TWO_PI_MRAD == 6284,
            ;
        }
        let ph = TWO_PI_MRAD * fr * j / (SAMPLE_RATE * 1000);
        let s1 = tdiv_i64(sin_mrad(ph) * 700, MILLI);
        let s2 = tdiv_i64(sin_mrad(2 * ph) * 200, MILLI);
        proof {
            lemma_tdiv_bound(sin_mrad_spec(ph as int) * 700, MILLI as int, 700);
            lemma_tdiv_bound(sin_mrad_spec(2 * ph as int) * 200, MILLI as int, 200);
        }
        let env = exp_neg_milli(10 * p);
        proof {
            assert(-(900 * MILLI) <= (s1 + s2) as int * env <= 900 * MILLI) by (nonlinear_arith)
                requires
                    -900 <= s1 + s2 <= 900,
                    0 <= env <= 1000,
                    MILLI == 1000,
            ;
            lemma_tdiv_bound((s1 + s2) as int * env, MILLI as int, 900);
        }
        let s = clamp(tdiv_i64((s1 + s2) * env, MILLI), -MILLI, MILLI);
        proof {
            assert(-(32_767 * MILLI) <= s * 32_767 <= 32_767 * MILLI) by (nonlinear_arith)
                requires
                    -MILLI <= s <= MILLI,
            ;
            lemma_tdiv_bound(s as int * 32_767, MILLI as int, 32_767);
        }
        let v = tdiv_i64(s * 32_767, MILLI);
        data.push(v as i16);
        data.push(v as i16);
        j = j + 1;
    }
    data
}

} // verus!
