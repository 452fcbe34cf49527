//! What the terminal reports and what is asked of a widget, as plain values.

use vstd::prelude::*;

verus! {

/// A media key.
#[derive(Debug, Clone, Copy, PartialEq, Eq, Structural)]
pub enum MediaKeyCode {
    Play,
    Pause,
    PlayPause,
    Reverse,
    Stop,
    FastForward,
    Rewind,
    TrackNext,
    TrackPrevious,
    Record,
    LowerVolume,
    RaiseVolume,
    MuteVolume,
}

/// A key of the keyboard.
#[derive(Debug, Clone, Copy, PartialEq, Eq, Structural)]
pub enum Key {
    Backspace,
    Enter,
    Left,
    Right,
    Up,
    Down,
    Home,
    End,
    PageUp,
    PageDown,
    Tab,
    /// Shift and Tab.
    BackTab,
    Delete,
    Insert,
    /// A function key with its number.
    Function(u8),
    /// A character.
    Char(char),
    Null,
    CapsLock,
    ScrollLock,
    NumLock,
    PrintScreen,
    Pause,
    Menu,
    KeypadBegin,
    Media(MediaKeyCode),
    Esc,
}

/// The keys held down with another key, one bit each.
#[derive(Debug, Clone, Copy, PartialEq, Eq, Structural)]
pub struct KeyModifiers {
    pub bits: u8,
}

/// No modifier.
pub const MODIFIER_NONE: u8 = 0;

/// Shift.
pub const MODIFIER_SHIFT: u8 = 1;

/// Control.
pub const MODIFIER_CONTROL: u8 = 2;

/// Alt.
pub const MODIFIER_ALT: u8 = 4;

/// A key that was pressed, with the modifiers held.
#[derive(Debug, Clone, Copy, PartialEq, Eq, Structural)]
pub struct KeyEvent {
    pub code: Key,
    pub modifiers: KeyModifiers,
}

impl KeyEvent {
    pub fn new(code: Key, modifiers: KeyModifiers) -> (r: KeyEvent)
        ensures
            r == (KeyEvent { code, modifiers }),
    {
        KeyEvent { code, modifiers }
    }

    /// Whether this is the same key with the same modifiers as `other`.
    pub fn same(&self, other: &KeyEvent) -> (r: bool)
        ensures
            r == (*self == *other),
    {
        *self == *other
    }
}

/// What the terminal reports.
#[derive(Debug, Clone, PartialEq, Eq)]
pub enum Event {
    Keyboard(KeyEvent),
    /// The window has this many columns and rows now.
    WindowResize(u16, u16),
    FocusGained,
    FocusLost,
    /// This text was pasted.
    Paste(String),
    Tick,
    /// Nothing that concerns anybody.
    Unhandled,
}

/// A direction of movement.
#[derive(Debug, Clone, Copy, PartialEq, Eq, Structural)]
pub enum Direction {
    Down,
    Left,
    Right,
    Up,
}

/// A place to move to.
#[derive(Debug, Clone, Copy, PartialEq, Eq, Structural)]
pub enum Position {
    Begin,
    End,
    At(usize),
}

/// What is asked of a widget.
#[derive(Debug, Clone, Copy, PartialEq, Eq, Structural)]
pub enum Cmd {
    /// This character was typed.
    Type(char),
    Move(Direction),
    Scroll(Direction),
    GoTo(Position),
    Submit,
    Delete,
    Cancel,
    Toggle,
    Change,
    Tick,
    /// Nothing is asked.
    Idle,
}

/// The colours that the widgets of the editors take.
#[derive(Debug, Clone, Copy, PartialEq, Eq, Structural)]
pub enum WidgetColor {
    Blue,
    Green,
    Red,
}

} // verus!
