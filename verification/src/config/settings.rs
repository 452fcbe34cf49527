//! The settings that the editors show.

use vstd::prelude::*;
use crate::config::keys::Keys;

verus! {

/// The corner that the cover picture is put in.
#[derive(Debug, Clone, Copy, PartialEq, Eq, Structural)]
pub enum Alignment {
    BottomRight,
    BottomLeft,
    TopRight,
    TopLeft,
}

/// Place and width of the cover picture, each between 1 and 100.
#[derive(Debug, Clone, Copy, PartialEq, Eq, Structural)]
pub struct Xywh {
    pub x_between_1_100: u32,
    pub y_between_1_100: u32,
    pub width_between_1_100: u32,
    pub align: Alignment,
}

/// The pages of the configuration editor.
#[derive(Debug, Clone, Copy, PartialEq, Eq, Structural)]
pub enum ConfigEditorLayout {
    General,
    Color,
    Key1,
    Key2,
}

/// The settings.
#[derive(Debug, Clone, PartialEq, Eq)]
pub struct Settings {
    pub music_dir: String,
    pub enable_exit_confirmation: bool,
    pub playlist_select_random_track_quantity: u32,
    pub playlist_select_random_album_quantity: u32,
    pub album_photo_xywh: Xywh,
    pub keys: Keys,
}

} // verus!
