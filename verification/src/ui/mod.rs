//! The decisions of the user interface: which command a key stands for and
//! which message answers it. The widgets themselves live outside this crate.

pub mod components;
pub mod event;
pub mod model;
pub mod msg;
