//! What the widgets of the editors do with a key: the command for the
//! widget and the message for the rest of the interface.

pub mod config_editor;
pub mod ke_input;

use vstd::prelude::*;
use crate::ui::event::Cmd;
use crate::ui::msg::Msg;

verus! {

/// What a widget does with an event.
#[derive(Debug, Clone, PartialEq, Eq)]
pub enum Reaction {
    /// It answers at once.
    Reply(Option<Msg>),
    /// It carries the command out and answers with the message.
    Perform(Cmd, Msg),
    /// It carries the command out and answers by what comes of it.
    Ask(Cmd),
}

/// What came of a command, as far as the editors look at it.
#[derive(Debug, Clone, PartialEq, Eq)]
pub enum CmdOutcome {
    /// The text of the widget is now this.
    ChangedText(String),
    /// The choice at this place was confirmed.
    SubmitIndex(usize),
    /// Anything else.
    Other,
}

} // verus!
