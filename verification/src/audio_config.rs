//! Parameters of the host's procedural audio: background-music chords and
//! melody (frequencies in milli-hertz) and the bounce sound effect. The core
//! owns the numbers; synthesis and playback are the host's business.
use vstd::prelude::*;

verus! {

/// Background-music parameters: chord stack and melody line, frequencies in
/// milli-hertz, volume per mille.
#[derive(Debug, Clone, PartialEq, Eq)]
pub struct BGMParams {
    pub enabled: bool,
    pub volume_per_mille: i64,
    pub chords: Vec<Vec<i64>>,
    pub melody: Vec<i64>,
}

/// Bounce-effect parameters: a downward frequency sweep, duration in
/// milliseconds, volume per mille.
#[derive(Debug, Clone, Copy, PartialEq, Eq, Structural)]
pub struct SFXParams {
    pub enabled: bool,
    pub volume_per_mille: i64,
    pub bounce_freq_start: i64,
    pub bounce_freq_end: i64,
    pub bounce_duration_ms: i64,
}

/// All audio parameters.
#[derive(Debug, Clone, PartialEq, Eq)]
pub struct AudioParams {
    pub bgm: BGMParams,
    pub sfx: SFXParams,
}

/// The four default chords, as sequences of milli-hertz frequencies.
pub open spec fn default_chords() -> Seq<Seq<i64>> {
    seq![
        seq![130_810i64, 261_630, 329_630, 392_000, 493_880],
        seq![220_000i64, 261_630, 329_630, 392_000],
        seq![174_610i64, 261_630, 329_630, 349_230],
        seq![196_000i64, 493_880, 293_660, 349_230],
    ]
}

/// The default melody line, milli-hertz.
pub open spec fn default_melody() -> Seq<i64> {
    seq![261_630i64, 329_630, 392_000, 493_880, 440_000, 392_000, 329_630, 293_660]
}

impl Default for AudioParams {
    /// The built-in audio tuning: quiet ambient chords around middle C and a
    /// short, bright bounce sweep from 150 to 75 hertz over 80 milliseconds.
    fn default() -> (p: AudioParams)
        ensures
            p.bgm.enabled == true,
            p.bgm.volume_per_mille == 150,
            p.bgm.chords@.len() == 4,
            forall|i: int|
                0 <= i < 4 ==> (#[trigger] p.bgm.chords@[i])@ == default_chords()[i],
            p.bgm.melody@ == default_melody(),
            p.sfx == (SFXParams {
                enabled: true,
                volume_per_mille: 800,
                bounce_freq_start: 150_000,
                bounce_freq_end: 75_000,
                bounce_duration_ms: 80,
            }),
    {
        let chord0: Vec<i64> = vec![130_810, 261_630, 329_630, 392_000, 493_880];
        let chord1: Vec<i64> = vec![220_000, 261_630, 329_630, 392_000];
        let chord2: Vec<i64> = vec![174_610, 261_630, 329_630, 349_230];
        let chord3: Vec<i64> = vec![196_000, 493_880, 293_660, 349_230];
        let mut chords: Vec<Vec<i64>> = Vec::new();
        chords.push(chord0);
        chords.push(chord1);
        chords.push(chord2);
        chords.push(chord3);
        let melody: Vec<i64> = vec![
            261_630,
            329_630,
            392_000,
            493_880,
            440_000,
            392_000,
            329_630,
            293_660,
        ];
        proof {
            assert(chords@[0]@ == default_chords()[0]);
            assert(chords@[1]@ == default_chords()[1]);
            assert(chords@[2]@ == default_chords()[2]);
            assert(chords@[3]@ == default_chords()[3]);
            assert(melody@ == default_melody());
        }
        AudioParams {
            bgm: BGMParams { enabled: true, volume_per_mille: 150, chords, melody },
            sfx: SFXParams {
                enabled: true,
                volume_per_mille: 800,
                bounce_freq_start: 150_000,
                bounce_freq_end: 75_000,
                bounce_duration_ms: 80,
            },
        }
    }
}

} // verus!
