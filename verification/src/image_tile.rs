//! The sizes, playback state and click report of an image tile.

use vstd::prelude::*;

verus! {

#[derive(Debug, Clone, Copy, PartialEq, Eq, Structural)]
pub enum ImageTileSize {
    Sm,
    Md,
    Lg,
}

#[derive(Debug, Clone, Copy, PartialEq, Eq, Structural)]
pub enum ImageTilePlaybackState {
    Paused,
    Playing,
}

#[derive(Debug, Clone, Copy, PartialEq, Eq, Structural)]
pub struct ImageTileState {
    pub tile_clicked: bool,
    pub play_pause_clicked: bool,
}

impl Default for ImageTileState {
    fn default() -> (r: Self)
        ensures
            r == (ImageTileState { tile_clicked: false, play_pause_clicked: false }),
    {
        ImageTileState { tile_clicked: false, play_pause_clicked: false }
    }
}

} // verus!
