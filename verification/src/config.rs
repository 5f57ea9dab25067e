//! The user-facing configuration the host persists between sessions. Reading
//! and writing it to disk is the host's business; the core owns the values
//! and the one piece of logic on them.
use vstd::prelude::*;
use vstd::string::StringExecFns;

use crate::audio_config::AudioParams;

verus! {

/// Persisted user settings: audio tuning, UI language, and the highest stage
/// the user has reached.
#[derive(Debug, Clone, PartialEq, Eq)]
pub struct UserConfig {
    pub audio: AudioParams,
    pub language: String,
    pub last_played_stage: i32,
}

impl Default for UserConfig {
    /// Default settings: built-in audio tuning, English, stage 1.
    fn default() -> (c: UserConfig)
        ensures
            c.language@ == "en"@,
            c.last_played_stage == 1,
    {
        UserConfig {
            audio: AudioParams::default(),
            language: String::from_str("en"),
            last_played_stage: 1,
        }
    }
}

impl UserConfig {
    /// Records that `stage` was reached: the stored stage only ever ratchets
    /// upward.
    pub fn update_last_stage(&mut self, stage: i32)
        ensures
            final (self).last_played_stage == if stage > old(self).last_played_stage {
                stage
            } else {
                old(self).last_played_stage
            },
            final (self).audio == old(self).audio,
            final (self).language == old(self).language,
    {
        if stage > self.last_played_stage {
            self.last_played_stage = stage;
        }
    }
}

} // verus!
