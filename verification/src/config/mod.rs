//! The configuration's models: the colour theme and the paths of the key
//! bindings.

pub mod keys;
pub mod settings;
pub mod theme;
pub mod v1;
pub mod yaml_theme;
