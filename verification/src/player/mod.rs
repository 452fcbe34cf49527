//! Playback: the queue of tracks, the engine's state and the state machine
//! that consumes commands and engine events.

pub mod gstreamer_backend;
pub mod laws;
pub mod orchestrator;
pub mod playlist;
