//! Key bindings and the check that no two of them use one key.

pub mod conflict;

use vstd::prelude::*;
use crate::ui::event::{Key, KeyEvent, KeyModifiers};

verus! {

/// A key that an action is bound to.
#[derive(Debug, Clone, Copy, PartialEq, Eq, Structural)]
pub struct KeyBinding {
    pub key_event: KeyEvent,
}

/// A key with its modifiers, as the configuration holds it.
#[derive(Debug, Clone, Copy, PartialEq, Eq, Structural)]
pub struct KeyBind {
    pub code: Key,
    pub modifier: KeyModifiers,
}

impl KeyBind {
    /// The press of this key.
    pub open spec fn spec_key_event(self) -> KeyEvent {
        KeyEvent { code: self.code, modifiers: self.modifier }
    }

    /// The press of this key.
    pub fn key_event(&self) -> (r: KeyEvent)
        ensures
            r == self.spec_key_event(),
    {
        KeyEvent { code: self.code, modifiers: self.modifier }
    }
}

/// The keys of the actions that the editors know.
#[derive(Debug, Clone, Copy, PartialEq, Eq, Structural)]
pub struct Keys {
    pub global_quit: KeyBind,
    pub global_left: KeyBind,
    pub global_right: KeyBind,
    pub global_up: KeyBind,
    pub global_down: KeyBind,
    pub global_goto_top: KeyBind,
    pub global_goto_bottom: KeyBind,
    pub global_player_toggle_pause: KeyBind,
    pub global_player_next: KeyBind,
    pub global_player_previous: KeyBind,
    pub global_help: KeyBind,
    pub global_player_volume_plus_2: KeyBind,
    pub global_player_volume_minus_2: KeyBind,
    pub global_config_save: KeyBind,
    pub global_esc: KeyBind,
}

} // verus!
