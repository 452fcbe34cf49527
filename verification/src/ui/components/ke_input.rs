//! The fields of the key editor.

use vstd::prelude::*;
use vstd::string::*;
use crate::config::keys::{KeyBind, Keys};
use crate::ui::components::{CmdOutcome, Reaction};
use crate::ui::event::{Cmd, Direction, Event, Key, Position, WidgetColor, MODIFIER_CONTROL, MODIFIER_SHIFT};
use crate::ui::msg::{IdKeyEditor, KEMsg, Msg};

verus! {

/// The key that is bound to the action of a field.
pub open spec fn bound_key(id: IdKeyEditor, keys: Keys) -> KeyBind {
    match id {
        IdKeyEditor::GlobalQuitInput => keys.global_quit,
        IdKeyEditor::GlobalLeftInput => keys.global_left,
        IdKeyEditor::GlobalRightInput => keys.global_right,
        IdKeyEditor::GlobalUpInput => keys.global_up,
        IdKeyEditor::GlobalDownInput => keys.global_down,
        IdKeyEditor::GlobalGotoTopInput => keys.global_goto_top,
        IdKeyEditor::GlobalGotoBottomInput => keys.global_goto_bottom,
        IdKeyEditor::GlobalPlayerTogglePauseInput => keys.global_player_toggle_pause,
        IdKeyEditor::GlobalPlayerNextInput => keys.global_player_next,
        IdKeyEditor::GlobalPlayerPreviousInput => keys.global_player_previous,
        IdKeyEditor::GlobalHelpInput => keys.global_help,
        IdKeyEditor::GlobalVolumeUpInput => keys.global_player_volume_plus_2,
        IdKeyEditor::GlobalVolumeDownInput => keys.global_player_volume_minus_2,
    }
}

/// A field of the key editor.
#[derive(Debug, Clone, PartialEq, Eq)]
pub struct KEInput {
    name: String,
    id: IdKeyEditor,
    value: KeyBind,
    on_key_shift: Msg,
    on_key_backshift: Msg,
}

/// What a [`KEInput`] holds.
pub struct KEInputView {
    /// The title of the field.
    pub name: Seq<char>,
    pub id: IdKeyEditor,
    /// The key that the field shows at first.
    pub value: KeyBind,
    pub on_key_shift: Msg,
    pub on_key_backshift: Msg,
}

impl View for KEInput {
    type V = KEInputView;

    closed spec fn view(&self) -> KEInputView {
        KEInputView {
            name: self.name@,
            id: self.id,
            value: self.value,
            on_key_shift: self.on_key_shift,
            on_key_backshift: self.on_key_backshift,
        }
    }
}

impl KEInputView {
    /// What the field does with an event: the arrows, Home and End move;
    /// Delete, Backspace, a character and Enter edit, and the answer comes
    /// of the edit; Control and `h` show the help; Tab leads to the next
    /// field, Shift and BackTab to the one before, Esc out of the editor.
    /// Anything else says nothing.
    pub open spec fn on(self, ev: Event) -> Reaction {
        match ev {
            Event::Keyboard(k) => match k.code {
                Key::Left => Reaction::Perform(Cmd::Move(Direction::Left), Msg::Nothing),
                Key::Right => Reaction::Perform(Cmd::Move(Direction::Right), Msg::Nothing),
                Key::Home => Reaction::Perform(Cmd::GoTo(Position::Begin), Msg::Nothing),
                Key::End => Reaction::Perform(Cmd::GoTo(Position::End), Msg::Nothing),
                Key::Delete => Reaction::Ask(Cmd::Cancel),
                Key::Backspace => Reaction::Ask(Cmd::Delete),
                Key::Char(ch) => if ch == 'h' && k.modifiers.bits == MODIFIER_CONTROL {
                    Reaction::Reply(Some(Msg::KeyEditor(KEMsg::HelpPopupShow)))
                } else {
                    Reaction::Ask(Cmd::Type(ch))
                },
                Key::Tab => Reaction::Reply(Some(self.on_key_shift)),
                Key::BackTab => if k.modifiers.bits == MODIFIER_SHIFT {
                    Reaction::Reply(Some(self.on_key_backshift))
                } else {
                    Reaction::Reply(Some(Msg::Nothing))
                },
                Key::Esc => Reaction::Reply(Some(Msg::KeyEditor(KEMsg::KeyEditorCloseCancel))),
                Key::Enter => Reaction::Ask(Cmd::Submit),
                _ => Reaction::Reply(Some(Msg::Nothing)),
            },
            _ => Reaction::Reply(Some(Msg::Nothing)),
        }
    }

    /// The answer to what came of an edit, and the colour that the field
    /// takes: blue for an empty field, green for a key that can be bound,
    /// with the message that the key was changed, red for anything else
    /// that was typed. Where no text came of the edit the colour stays.
    pub open spec fn update_key(self, outcome: CmdOutcome, key_is_valid: bool) -> (Msg, Option<WidgetColor>) {
        match outcome {
            CmdOutcome::ChangedText(codes) => if codes@.len() == 0 {
                (Msg::Nothing, Some(WidgetColor::Blue))
            } else if key_is_valid {
                (Msg::KeyEditor(KEMsg::KeyChanged(self.id)), Some(WidgetColor::Green))
            } else {
                (Msg::Nothing, Some(WidgetColor::Red))
            },
            _ => (Msg::Nothing, None),
        }
    }
}

impl KEInput {
    /// The field `id` with the title `name`, showing the key that `keys`
    /// binds to its action.
    pub fn new(name: &str, id: IdKeyEditor, keys: &Keys, on_key_shift: Msg, on_key_backshift: Msg) -> (r:
        KEInput)
        ensures
            r@ == (KEInputView {
                name: name@,
                id,
                value: bound_key(id, *keys),
                on_key_shift,
                on_key_backshift,
            }),
    {
        let value = KEInput::init_key(&id, keys);
        KEInput { name: String::from_str(name), id, value, on_key_shift, on_key_backshift }
    }

    /// The key that `keys` binds to the action of the field `id`.
    fn init_key(id: &IdKeyEditor, keys: &Keys) -> (r: KeyBind)
        ensures
            r == bound_key(*id, *keys),
    {
        match *id {
            IdKeyEditor::GlobalQuitInput => keys.global_quit,
            IdKeyEditor::GlobalLeftInput => keys.global_left,
            IdKeyEditor::GlobalRightInput => keys.global_right,
            IdKeyEditor::GlobalUpInput => keys.global_up,
            IdKeyEditor::GlobalDownInput => keys.global_down,
            IdKeyEditor::GlobalGotoTopInput => keys.global_goto_top,
            IdKeyEditor::GlobalGotoBottomInput => keys.global_goto_bottom,
            IdKeyEditor::GlobalPlayerTogglePauseInput => keys.global_player_toggle_pause,
            IdKeyEditor::GlobalPlayerNextInput => keys.global_player_next,
            IdKeyEditor::GlobalPlayerPreviousInput => keys.global_player_previous,
            IdKeyEditor::GlobalHelpInput => keys.global_help,
            IdKeyEditor::GlobalVolumeUpInput => keys.global_player_volume_plus_2,
            IdKeyEditor::GlobalVolumeDownInput => keys.global_player_volume_minus_2,
        }
    }

    pub fn id(&self) -> (r: IdKeyEditor)
        ensures
            r == self@.id,
    {
        self.id
    }

    /// The title of the field.
    pub fn name(&self) -> (r: &str)
        ensures
            r@ == self@.name,
    {
        self.name.as_str()
    }

    /// The key that the field shows at first.
    pub fn value(&self) -> (r: KeyBind)
        ensures
            r == self@.value,
    {
        self.value
    }

    /// The answer to what came of an edit: see [`KEInputView::update_key`].
    /// `key_is_valid` says whether the text that came of the edit names a
    /// key that can be bound.
    pub fn update_key(&self, outcome: &CmdOutcome, key_is_valid: bool) -> (r: (Msg, Option<WidgetColor>))
        ensures
            r == self@.update_key(*outcome, key_is_valid),
    {
        match outcome {
            CmdOutcome::ChangedText(codes) => {
                if codes.as_str().unicode_len() == 0 {
                    (Msg::Nothing, Some(WidgetColor::Blue))
                } else if key_is_valid {
                    (Msg::KeyEditor(KEMsg::KeyChanged(self.id)), Some(WidgetColor::Green))
                } else {
                    (Msg::Nothing, Some(WidgetColor::Red))
                }
            },
            _ => (Msg::Nothing, None),
        }
    }

    /// What the field does with an event: see [`KEInputView::on`].
    pub fn on(&self, ev: &Event) -> (r: Reaction)
        ensures
            r == self@.on(*ev),
    {
        match ev {
            Event::Keyboard(k) => match k.code {
                Key::Left => Reaction::Perform(Cmd::Move(Direction::Left), Msg::Nothing),
                Key::Right => Reaction::Perform(Cmd::Move(Direction::Right), Msg::Nothing),
                Key::Home => Reaction::Perform(Cmd::GoTo(Position::Begin), Msg::Nothing),
                Key::End => Reaction::Perform(Cmd::GoTo(Position::End), Msg::Nothing),
                Key::Delete => Reaction::Ask(Cmd::Cancel),
                Key::Backspace => Reaction::Ask(Cmd::Delete),
                Key::Char(ch) => if ch == 'h' && k.modifiers.bits == MODIFIER_CONTROL {
                    Reaction::Reply(Some(Msg::KeyEditor(KEMsg::HelpPopupShow)))
                } else {
                    Reaction::Ask(Cmd::Type(ch))
                },
                Key::Tab => Reaction::Reply(Some(self.on_key_shift.clone())),
                Key::BackTab => if k.modifiers.bits == MODIFIER_SHIFT {
                    Reaction::Reply(Some(self.on_key_backshift.clone()))
                } else {
                    Reaction::Reply(Some(Msg::Nothing))
                },
                Key::Esc => Reaction::Reply(Some(Msg::KeyEditor(KEMsg::KeyEditorCloseCancel))),
                Key::Enter => Reaction::Ask(Cmd::Submit),
                _ => Reaction::Reply(Some(Msg::Nothing)),
            },
            _ => Reaction::Reply(Some(Msg::Nothing)),
        }
    }
}

/// The field of the key editor for `global_quit`.
#[derive(Debug, Clone, PartialEq, Eq)]
pub struct KEGlobalQuitInput {
    component: KEInput,
}

impl KEGlobalQuitInput {
    pub fn new(keys: &Keys) -> (r: KEGlobalQuitInput)
        ensures
            r.component()@ == (KEInputView {
                name: ""@,
                id: IdKeyEditor::GlobalQuitInput,
                value: keys.global_quit,
                on_key_shift: Msg::KeyEditor(KEMsg::GlobalQuitInputBlurDown),
                on_key_backshift: Msg::KeyEditor(KEMsg::GlobalQuitInputBlurUp),
            }),
    {
        KEGlobalQuitInput {
            component: KEInput::new(
                "",
                IdKeyEditor::GlobalQuitInput,
                keys,
                Msg::KeyEditor(KEMsg::GlobalQuitInputBlurDown),
                Msg::KeyEditor(KEMsg::GlobalQuitInputBlurUp),
            ),
        }
    }

    /// The field itself.
    pub closed spec fn component(self) -> KEInput {
        self.component
    }

    /// The field itself.
    pub fn input(&self) -> (r: &KEInput)
        ensures
            *r == self.component(),
    {
        &self.component
    }

    pub fn on(&self, ev: &Event) -> (r: Reaction)
        ensures
            r == self.component()@.on(*ev),
    {
        self.component.on(ev)
    }
}

/// The field of the key editor for `global_left`.
#[derive(Debug, Clone, PartialEq, Eq)]
pub struct KEGlobalLeftInput {
    component: KEInput,
}

impl KEGlobalLeftInput {
    pub fn new(keys: &Keys) -> (r: KEGlobalLeftInput)
        ensures
            r.component()@ == (KEInputView {
                name: ""@,
                id: IdKeyEditor::GlobalLeftInput,
                value: keys.global_left,
                on_key_shift: Msg::KeyEditor(KEMsg::GlobalLeftInputBlurDown),
                on_key_backshift: Msg::KeyEditor(KEMsg::GlobalLeftInputBlurUp),
            }),
    {
        KEGlobalLeftInput {
            component: KEInput::new(
                "",
                IdKeyEditor::GlobalLeftInput,
                keys,
                Msg::KeyEditor(KEMsg::GlobalLeftInputBlurDown),
                Msg::KeyEditor(KEMsg::GlobalLeftInputBlurUp),
            ),
        }
    }

    /// The field itself.
    pub closed spec fn component(self) -> KEInput {
        self.component
    }

    /// The field itself.
    pub fn input(&self) -> (r: &KEInput)
        ensures
            *r == self.component(),
    {
        &self.component
    }

    pub fn on(&self, ev: &Event) -> (r: Reaction)
        ensures
            r == self.component()@.on(*ev),
    {
        self.component.on(ev)
    }
}

/// The field of the key editor for `global_right`.
#[derive(Debug, Clone, PartialEq, Eq)]
pub struct KEGlobalRightInput {
    component: KEInput,
}

impl KEGlobalRightInput {
    pub fn new(keys: &Keys) -> (r: KEGlobalRightInput)
        ensures
            r.component()@ == (KEInputView {
                name: ""@,
                id: IdKeyEditor::GlobalRightInput,
                value: keys.global_right,
                on_key_shift: Msg::KeyEditor(KEMsg::GlobalRightInputBlurDown),
                on_key_backshift: Msg::KeyEditor(KEMsg::GlobalRightInputBlurUp),
            }),
    {
        KEGlobalRightInput {
            component: KEInput::new(
                "",
                IdKeyEditor::GlobalRightInput,
                keys,
                Msg::KeyEditor(KEMsg::GlobalRightInputBlurDown),
                Msg::KeyEditor(KEMsg::GlobalRightInputBlurUp),
            ),
        }
    }

    /// The field itself.
    pub closed spec fn component(self) -> KEInput {
        self.component
    }

    /// The field itself.
    pub fn input(&self) -> (r: &KEInput)
        ensures
            *r == self.component(),
    {
        &self.component
    }

    pub fn on(&self, ev: &Event) -> (r: Reaction)
        ensures
            r == self.component()@.on(*ev),
    {
        self.component.on(ev)
    }
}

/// The field of the key editor for `global_up`.
#[derive(Debug, Clone, PartialEq, Eq)]
pub struct KEGlobalUpInput {
    component: KEInput,
}

impl KEGlobalUpInput {
    pub fn new(keys: &Keys) -> (r: KEGlobalUpInput)
        ensures
            r.component()@ == (KEInputView {
                name: ""@,
                id: IdKeyEditor::GlobalUpInput,
                value: keys.global_up,
                on_key_shift: Msg::KeyEditor(KEMsg::GlobalUpInputBlurDown),
                on_key_backshift: Msg::KeyEditor(KEMsg::GlobalUpInputBlurUp),
            }),
    {
        KEGlobalUpInput {
            component: KEInput::new(
                "",
                IdKeyEditor::GlobalUpInput,
                keys,
                Msg::KeyEditor(KEMsg::GlobalUpInputBlurDown),
                Msg::KeyEditor(KEMsg::GlobalUpInputBlurUp),
            ),
        }
    }

    /// The field itself.
    pub closed spec fn component(self) -> KEInput {
        self.component
    }

    /// The field itself.
    pub fn input(&self) -> (r: &KEInput)
        ensures
            *r == self.component(),
    {
        &self.component
    }

    pub fn on(&self, ev: &Event) -> (r: Reaction)
        ensures
            r == self.component()@.on(*ev),
    {
        self.component.on(ev)
    }
}

/// The field of the key editor for `global_down`.
#[derive(Debug, Clone, PartialEq, Eq)]
pub struct KEGlobalDownInput {
    component: KEInput,
}

impl KEGlobalDownInput {
    pub fn new(keys: &Keys) -> (r: KEGlobalDownInput)
        ensures
            r.component()@ == (KEInputView {
                name: ""@,
                id: IdKeyEditor::GlobalDownInput,
                value: keys.global_down,
                on_key_shift: Msg::KeyEditor(KEMsg::GlobalDownInputBlurDown),
                on_key_backshift: Msg::KeyEditor(KEMsg::GlobalDownInputBlurUp),
            }),
    {
        KEGlobalDownInput {
            component: KEInput::new(
                "",
                IdKeyEditor::GlobalDownInput,
                keys,
                Msg::KeyEditor(KEMsg::GlobalDownInputBlurDown),
                Msg::KeyEditor(KEMsg::GlobalDownInputBlurUp),
            ),
        }
    }

    /// The field itself.
    pub closed spec fn component(self) -> KEInput {
        self.component
    }

    /// The field itself.
    pub fn input(&self) -> (r: &KEInput)
        ensures
            *r == self.component(),
    {
        &self.component
    }

    pub fn on(&self, ev: &Event) -> (r: Reaction)
        ensures
            r == self.component()@.on(*ev),
    {
        self.component.on(ev)
    }
}

/// The field of the key editor for `global_goto_top`.
#[derive(Debug, Clone, PartialEq, Eq)]
pub struct KEGlobalGotoTopInput {
    component: KEInput,
}

impl KEGlobalGotoTopInput {
    pub fn new(keys: &Keys) -> (r: KEGlobalGotoTopInput)
        ensures
            r.component()@ == (KEInputView {
                name: ""@,
                id: IdKeyEditor::GlobalGotoTopInput,
                value: keys.global_goto_top,
                on_key_shift: Msg::KeyEditor(KEMsg::GlobalGotoTopInputBlurDown),
                on_key_backshift: Msg::KeyEditor(KEMsg::GlobalGotoTopInputBlurUp),
            }),
    {
        KEGlobalGotoTopInput {
            component: KEInput::new(
                "",
                IdKeyEditor::GlobalGotoTopInput,
                keys,
                Msg::KeyEditor(KEMsg::GlobalGotoTopInputBlurDown),
                Msg::KeyEditor(KEMsg::GlobalGotoTopInputBlurUp),
            ),
        }
    }

    /// The field itself.
    pub closed spec fn component(self) -> KEInput {
        self.component
    }

    /// The field itself.
    pub fn input(&self) -> (r: &KEInput)
        ensures
            *r == self.component(),
    {
        &self.component
    }

    pub fn on(&self, ev: &Event) -> (r: Reaction)
        ensures
            r == self.component()@.on(*ev),
    {
        self.component.on(ev)
    }
}

/// The field of the key editor for `global_goto_bottom`.
#[derive(Debug, Clone, PartialEq, Eq)]
pub struct KEGlobalGotoBottomInput {
    component: KEInput,
}

impl KEGlobalGotoBottomInput {
    pub fn new(keys: &Keys) -> (r: KEGlobalGotoBottomInput)
        ensures
            r.component()@ == (KEInputView {
                name: ""@,
                id: IdKeyEditor::GlobalGotoBottomInput,
                value: keys.global_goto_bottom,
                on_key_shift: Msg::KeyEditor(KEMsg::GlobalGotoBottomInputBlurDown),
                on_key_backshift: Msg::KeyEditor(KEMsg::GlobalGotoBottomInputBlurUp),
            }),
    {
        KEGlobalGotoBottomInput {
            component: KEInput::new(
                "",
                IdKeyEditor::GlobalGotoBottomInput,
                keys,
                Msg::KeyEditor(KEMsg::GlobalGotoBottomInputBlurDown),
                Msg::KeyEditor(KEMsg::GlobalGotoBottomInputBlurUp),
            ),
        }
    }

    /// The field itself.
    pub closed spec fn component(self) -> KEInput {
        self.component
    }

    /// The field itself.
    pub fn input(&self) -> (r: &KEInput)
        ensures
            *r == self.component(),
    {
        &self.component
    }

    pub fn on(&self, ev: &Event) -> (r: Reaction)
        ensures
            r == self.component()@.on(*ev),
    {
        self.component.on(ev)
    }
}

/// The field of the key editor for `global_player_toggle_pause`.
#[derive(Debug, Clone, PartialEq, Eq)]
pub struct KEGlobalPlayerTogglePauseInput {
    component: KEInput,
}

impl KEGlobalPlayerTogglePauseInput {
    pub fn new(keys: &Keys) -> (r: KEGlobalPlayerTogglePauseInput)
        ensures
            r.component()@ == (KEInputView {
                name: ""@,
                id: IdKeyEditor::GlobalPlayerTogglePauseInput,
                value: keys.global_player_toggle_pause,
                on_key_shift: Msg::KeyEditor(KEMsg::GlobalPlayerTogglePauseInputBlurDown),
                on_key_backshift: Msg::KeyEditor(KEMsg::GlobalPlayerTogglePauseInputBlurUp),
            }),
    {
        KEGlobalPlayerTogglePauseInput {
            component: KEInput::new(
                "",
                IdKeyEditor::GlobalPlayerTogglePauseInput,
                keys,
                Msg::KeyEditor(KEMsg::GlobalPlayerTogglePauseInputBlurDown),
                Msg::KeyEditor(KEMsg::GlobalPlayerTogglePauseInputBlurUp),
            ),
        }
    }

    /// The field itself.
    pub closed spec fn component(self) -> KEInput {
        self.component
    }

    /// The field itself.
    pub fn input(&self) -> (r: &KEInput)
        ensures
            *r == self.component(),
    {
        &self.component
    }

    pub fn on(&self, ev: &Event) -> (r: Reaction)
        ensures
            r == self.component()@.on(*ev),
    {
        self.component.on(ev)
    }
}

/// The field of the key editor for `global_player_next`.
#[derive(Debug, Clone, PartialEq, Eq)]
pub struct KEGlobalPlayerNextInput {
    component: KEInput,
}

impl KEGlobalPlayerNextInput {
    pub fn new(keys: &Keys) -> (r: KEGlobalPlayerNextInput)
        ensures
            r.component()@ == (KEInputView {
                name: ""@,
                id: IdKeyEditor::GlobalPlayerNextInput,
                value: keys.global_player_next,
                on_key_shift: Msg::KeyEditor(KEMsg::GlobalPlayerNextInputBlurDown),
                on_key_backshift: Msg::KeyEditor(KEMsg::GlobalPlayerNextInputBlurUp),
            }),
    {
        KEGlobalPlayerNextInput {
            component: KEInput::new(
                "",
                IdKeyEditor::GlobalPlayerNextInput,
                keys,
                Msg::KeyEditor(KEMsg::GlobalPlayerNextInputBlurDown),
                Msg::KeyEditor(KEMsg::GlobalPlayerNextInputBlurUp),
            ),
        }
    }

    /// The field itself.
    pub closed spec fn component(self) -> KEInput {
        self.component
    }

    /// The field itself.
    pub fn input(&self) -> (r: &KEInput)
        ensures
            *r == self.component(),
    {
        &self.component
    }

    pub fn on(&self, ev: &Event) -> (r: Reaction)
        ensures
            r == self.component()@.on(*ev),
    {
        self.component.on(ev)
    }
}

/// The field of the key editor for `global_player_previous`.
#[derive(Debug, Clone, PartialEq, Eq)]
pub struct KEGlobalPlayerPreviousInput {
    component: KEInput,
}

impl KEGlobalPlayerPreviousInput {
    pub fn new(keys: &Keys) -> (r: KEGlobalPlayerPreviousInput)
        ensures
            r.component()@ == (KEInputView {
                name: ""@,
                id: IdKeyEditor::GlobalPlayerPreviousInput,
                value: keys.global_player_previous,
                on_key_shift: Msg::KeyEditor(KEMsg::GlobalPlayerPreviousInputBlurDown),
                on_key_backshift: Msg::KeyEditor(KEMsg::GlobalPlayerPreviousInputBlurUp),
            }),
    {
        KEGlobalPlayerPreviousInput {
            component: KEInput::new(
                "",
                IdKeyEditor::GlobalPlayerPreviousInput,
                keys,
                Msg::KeyEditor(KEMsg::GlobalPlayerPreviousInputBlurDown),
                Msg::KeyEditor(KEMsg::GlobalPlayerPreviousInputBlurUp),
            ),
        }
    }

    /// The field itself.
    pub closed spec fn component(self) -> KEInput {
        self.component
    }

    /// The field itself.
    pub fn input(&self) -> (r: &KEInput)
        ensures
            *r == self.component(),
    {
        &self.component
    }

    pub fn on(&self, ev: &Event) -> (r: Reaction)
        ensures
            r == self.component()@.on(*ev),
    {
        self.component.on(ev)
    }
}

/// The field of the key editor for `global_help`.
#[derive(Debug, Clone, PartialEq, Eq)]
pub struct KEGlobalHelpInput {
    component: KEInput,
}

impl KEGlobalHelpInput {
    pub fn new(keys: &Keys) -> (r: KEGlobalHelpInput)
        ensures
            r.component()@ == (KEInputView {
                name: ""@,
                id: IdKeyEditor::GlobalHelpInput,
                value: keys.global_help,
                on_key_shift: Msg::KeyEditor(KEMsg::GlobalHelpInputBlurDown),
                on_key_backshift: Msg::KeyEditor(KEMsg::GlobalHelpInputBlurUp),
            }),
    {
        KEGlobalHelpInput {
            component: KEInput::new(
                "",
                IdKeyEditor::GlobalHelpInput,
                keys,
                Msg::KeyEditor(KEMsg::GlobalHelpInputBlurDown),
                Msg::KeyEditor(KEMsg::GlobalHelpInputBlurUp),
            ),
        }
    }

    /// The field itself.
    pub closed spec fn component(self) -> KEInput {
        self.component
    }

    /// The field itself.
    pub fn input(&self) -> (r: &KEInput)
        ensures
            *r == self.component(),
    {
        &self.component
    }

    pub fn on(&self, ev: &Event) -> (r: Reaction)
        ensures
            r == self.component()@.on(*ev),
    {
        self.component.on(ev)
    }
}

/// The field of the key editor for `global_player_volume_plus_2`.
#[derive(Debug, Clone, PartialEq, Eq)]
pub struct KEGlobalVolumeUpInput {
    component: KEInput,
}

impl KEGlobalVolumeUpInput {
    pub fn new(keys: &Keys) -> (r: KEGlobalVolumeUpInput)
        ensures
            r.component()@ == (KEInputView {
                name: ""@,
                id: IdKeyEditor::GlobalVolumeUpInput,
                value: keys.global_player_volume_plus_2,
                on_key_shift: Msg::KeyEditor(KEMsg::GlobalVolumeUpInputBlurDown),
                on_key_backshift: Msg::KeyEditor(KEMsg::GlobalVolumeUpInputBlurUp),
            }),
    {
        KEGlobalVolumeUpInput {
            component: KEInput::new(
                "",
                IdKeyEditor::GlobalVolumeUpInput,
                keys,
                Msg::KeyEditor(KEMsg::GlobalVolumeUpInputBlurDown),
                Msg::KeyEditor(KEMsg::GlobalVolumeUpInputBlurUp),
            ),
        }
    }

    /// The field itself.
    pub closed spec fn component(self) -> KEInput {
        self.component
    }

    /// The field itself.
    pub fn input(&self) -> (r: &KEInput)
        ensures
            *r == self.component(),
    {
        &self.component
    }

    pub fn on(&self, ev: &Event) -> (r: Reaction)
        ensures
            r == self.component()@.on(*ev),
    {
        self.component.on(ev)
    }
}

/// The field of the key editor for `global_player_volume_minus_2`.
#[derive(Debug, Clone, PartialEq, Eq)]
pub struct KEGlobalVolumeDownInput {
    component: KEInput,
}

impl KEGlobalVolumeDownInput {
    pub fn new(keys: &Keys) -> (r: KEGlobalVolumeDownInput)
        ensures
            r.component()@ == (KEInputView {
                name: ""@,
                id: IdKeyEditor::GlobalVolumeDownInput,
                value: keys.global_player_volume_minus_2,
                on_key_shift: Msg::KeyEditor(KEMsg::GlobalVolumeDownInputBlurDown),
                on_key_backshift: Msg::KeyEditor(KEMsg::GlobalVolumeDownInputBlurUp),
            }),
    {
        KEGlobalVolumeDownInput {
            component: KEInput::new(
                "",
                IdKeyEditor::GlobalVolumeDownInput,
                keys,
                Msg::KeyEditor(KEMsg::GlobalVolumeDownInputBlurDown),
                Msg::KeyEditor(KEMsg::GlobalVolumeDownInputBlurUp),
            ),
        }
    }

    /// The field itself.
    pub closed spec fn component(self) -> KEInput {
        self.component
    }

    /// The field itself.
    pub fn input(&self) -> (r: &KEInput)
        ensures
            *r == self.component(),
    {
        &self.component
    }

    pub fn on(&self, ev: &Event) -> (r: Reaction)
        ensures
            r == self.component()@.on(*ev),
    {
        self.component.on(ev)
    }
}

} // verus!
