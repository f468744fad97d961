//! The state of an audio player and what its buttons report.

use vstd::prelude::*;

verus! {

#[derive(Debug, Clone, Copy, PartialEq, Eq, Structural)]
pub enum AudioPlaybackState {
    Paused,
    Playing,
}

#[derive(Debug, Clone, Copy, PartialEq, Eq, Structural)]
pub struct AudioPlaybackResult {
    pub play_pause_clicked: bool,
}

impl Default for AudioPlaybackResult {
    fn default() -> (r: Self)
        ensures
            r == (AudioPlaybackResult { play_pause_clicked: false }),
    {
        AudioPlaybackResult { play_pause_clicked: false }
    }
}

} // verus!
