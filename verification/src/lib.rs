//! Playback core of a terminal music player: the state of the audio engine,
//! the play queue and the command/event state machine that drives them,
//! together with the colour theme and key-path models of the configuration
//! and the decisions of the user interface.

pub mod config;
pub mod lyric;
pub mod player;
pub mod text;
pub mod ui;
