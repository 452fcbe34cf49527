//! The widgets of the configuration editor.

use vstd::prelude::*;
use crate::config::keys::Keys;
use crate::config::settings::{Alignment, ConfigEditorLayout, Settings};
use crate::text::{decimal, decimal_text};
use crate::ui::components::{CmdOutcome, Reaction};
use crate::ui::event::{Cmd, Direction, Event, Key, KeyEvent, Position};
use crate::ui::msg::{ConfigEditorMsg, Msg};

verus! {

/// What a text field of the editor does with an event: the arrows, Home,
/// End, Delete and Backspace move and edit; the key that saves closes the
/// editor with its changes kept; a character is typed and marks the
/// configuration as changed; Down and Up lead to the neighbours, Tab to the
/// next page, Esc out of the editor. Nothing else is answered.
pub open spec fn input_reaction(ev: Event, save: KeyEvent, on_key_down: Msg, on_key_up: Msg) -> Reaction {
    match ev {
        Event::Keyboard(k) => match k.code {
            Key::Left => Reaction::Perform(Cmd::Move(Direction::Left), Msg::Nothing),
            Key::Right => Reaction::Perform(Cmd::Move(Direction::Right), Msg::Nothing),
            Key::Home => Reaction::Perform(Cmd::GoTo(Position::Begin), Msg::Nothing),
            Key::End => Reaction::Perform(Cmd::GoTo(Position::End), Msg::Nothing),
            Key::Delete => Reaction::Perform(Cmd::Cancel, Msg::Nothing),
            Key::Backspace => Reaction::Perform(Cmd::Delete, Msg::Nothing),
            _ => if k == save {
                Reaction::Reply(Some(Msg::ConfigEditor(ConfigEditorMsg::CloseOk)))
            } else {
                match k.code {
                    Key::Char(ch) => Reaction::Perform(
                        Cmd::Type(ch),
                        Msg::ConfigEditor(ConfigEditorMsg::ConfigChanged),
                    ),
                    Key::Down => Reaction::Reply(Some(on_key_down)),
                    Key::Up => Reaction::Reply(Some(on_key_up)),
                    Key::Tab => Reaction::Reply(
                        Some(Msg::ConfigEditor(ConfigEditorMsg::ChangeLayout)),
                    ),
                    Key::Esc => Reaction::Reply(
                        Some(Msg::ConfigEditor(ConfigEditorMsg::CloseCancel)),
                    ),
                    _ => Reaction::Reply(None),
                }
            },
        },
        _ => Reaction::Reply(None),
    }
}

/// What a text field of the editor does with an event.
pub fn handle_input_ev(ev: &Event, save: KeyEvent, on_key_down: Msg, on_key_up: Msg) -> (r: Reaction)
    ensures
        r == input_reaction(*ev, save, on_key_down, on_key_up),
{
    match ev {
        Event::Keyboard(k) => match k.code {
            Key::Left => Reaction::Perform(Cmd::Move(Direction::Left), Msg::Nothing),
            Key::Right => Reaction::Perform(Cmd::Move(Direction::Right), Msg::Nothing),
            Key::Home => Reaction::Perform(Cmd::GoTo(Position::Begin), Msg::Nothing),
            Key::End => Reaction::Perform(Cmd::GoTo(Position::End), Msg::Nothing),
            Key::Delete => Reaction::Perform(Cmd::Cancel, Msg::Nothing),
            Key::Backspace => Reaction::Perform(Cmd::Delete, Msg::Nothing),
            _ => if k.same(&save) {
                Reaction::Reply(Some(Msg::ConfigEditor(ConfigEditorMsg::CloseOk)))
            } else {
                match k.code {
                    Key::Char(ch) => Reaction::Perform(
                        Cmd::Type(ch),
                        Msg::ConfigEditor(ConfigEditorMsg::ConfigChanged),
                    ),
                    Key::Down => Reaction::Reply(Some(on_key_down)),
                    Key::Up => Reaction::Reply(Some(on_key_up)),
                    Key::Tab => Reaction::Reply(
                        Some(Msg::ConfigEditor(ConfigEditorMsg::ChangeLayout)),
                    ),
                    Key::Esc => Reaction::Reply(
                        Some(Msg::ConfigEditor(ConfigEditorMsg::CloseCancel)),
                    ),
                    _ => Reaction::Reply(None),
                }
            },
        },
        _ => Reaction::Reply(None),
    }
}

/// What a choice of the editor does with an event: Left and Right change
/// the choice and mark the configuration as changed; Down and Up lead to
/// the neighbours; the key that saves closes the editor with its changes
/// kept; Tab leads to the next page, Esc out of the editor. Nothing else is
/// answered.
pub open spec fn radio_reaction(ev: Event, save: KeyEvent, on_key_down: Msg, on_key_up: Msg) -> Reaction {
    match ev {
        Event::Keyboard(k) => match k.code {
            Key::Left => Reaction::Perform(
                Cmd::Move(Direction::Left),
                Msg::ConfigEditor(ConfigEditorMsg::ConfigChanged),
            ),
            Key::Right => Reaction::Perform(
                Cmd::Move(Direction::Right),
                Msg::ConfigEditor(ConfigEditorMsg::ConfigChanged),
            ),
            Key::Down => Reaction::Reply(Some(on_key_down)),
            Key::Up => Reaction::Reply(Some(on_key_up)),
            _ => if k == save {
                Reaction::Reply(Some(Msg::ConfigEditor(ConfigEditorMsg::CloseOk)))
            } else {
                match k.code {
                    Key::Tab => Reaction::Reply(
                        Some(Msg::ConfigEditor(ConfigEditorMsg::ChangeLayout)),
                    ),
                    Key::Esc => Reaction::Reply(
                        Some(Msg::ConfigEditor(ConfigEditorMsg::CloseCancel)),
                    ),
                    _ => Reaction::Reply(None),
                }
            },
        },
        _ => Reaction::Reply(None),
    }
}

/// What a choice of the editor does with an event.
pub fn handle_radio_ev(ev: &Event, save: KeyEvent, on_key_down: Msg, on_key_up: Msg) -> (r: Reaction)
    ensures
        r == radio_reaction(*ev, save, on_key_down, on_key_up),
{
    match ev {
        Event::Keyboard(k) => match k.code {
            Key::Left => Reaction::Perform(
                Cmd::Move(Direction::Left),
                Msg::ConfigEditor(ConfigEditorMsg::ConfigChanged),
            ),
            Key::Right => Reaction::Perform(
                Cmd::Move(Direction::Right),
                Msg::ConfigEditor(ConfigEditorMsg::ConfigChanged),
            ),
            Key::Down => Reaction::Reply(Some(on_key_down)),
            Key::Up => Reaction::Reply(Some(on_key_up)),
            _ => if k.same(&save) {
                Reaction::Reply(Some(Msg::ConfigEditor(ConfigEditorMsg::CloseOk)))
            } else {
                match k.code {
                    Key::Tab => Reaction::Reply(
                        Some(Msg::ConfigEditor(ConfigEditorMsg::ChangeLayout)),
                    ),
                    Key::Esc => Reaction::Reply(
                        Some(Msg::ConfigEditor(ConfigEditorMsg::CloseCancel)),
                    ),
                    _ => Reaction::Reply(None),
                }
            },
        },
        _ => Reaction::Reply(None),
    }
}

/// The place of a page among the tabs of the editor.
pub open spec fn layout_index(layout: ConfigEditorLayout) -> int {
    match layout {
        ConfigEditorLayout::General => 0,
        ConfigEditorLayout::Color => 1,
        ConfigEditorLayout::Key1 => 2,
        ConfigEditorLayout::Key2 => 3,
    }
}

/// The place of a corner among the choices of the editor.
pub open spec fn align_index(align: Alignment) -> int {
    match align {
        Alignment::BottomRight => 0,
        Alignment::BottomLeft => 1,
        Alignment::TopRight => 2,
        Alignment::TopLeft => 3,
    }
}

/// The tabs at the top of the editor.
#[derive(Debug, Clone, PartialEq, Eq)]
pub struct CEHeader {
    /// The tab that is shown as chosen.
    pub value: usize,
}

impl CEHeader {
    pub fn new(layout: &ConfigEditorLayout) -> (r: CEHeader)
        ensures
            r.value == layout_index(*layout),
    {
        CEHeader {
            value: match layout {
                ConfigEditorLayout::General => 0,
                ConfigEditorLayout::Color => 1,
                ConfigEditorLayout::Key1 => 2,
                ConfigEditorLayout::Key2 => 3,
            },
        }
    }

    /// Enter and Esc lead out of the editor, Tab to the next page.
    pub open spec fn spec_on(ev: Event) -> Option<Msg> {
        match ev {
            Event::Keyboard(k) => match k.code {
                Key::Enter | Key::Esc => Some(Msg::ConfigEditor(ConfigEditorMsg::CloseCancel)),
                Key::Tab => Some(Msg::ConfigEditor(ConfigEditorMsg::ChangeLayout)),
                _ => None,
            },
            _ => None,
        }
    }

    pub fn on(&self, ev: &Event) -> (r: Option<Msg>)
        ensures
            r == CEHeader::spec_on(*ev),
    {
        match ev {
            Event::Keyboard(k) => match k.code {
                Key::Enter | Key::Esc => Some(Msg::ConfigEditor(ConfigEditorMsg::CloseCancel)),
                Key::Tab => Some(Msg::ConfigEditor(ConfigEditorMsg::ChangeLayout)),
                _ => None,
            },
            _ => None,
        }
    }
}

/// The line of hints at the bottom of the editor.
#[derive(Debug, Clone, PartialEq, Eq)]
pub struct Footer {
    /// The keys and what they do, in turn.
    pub spans: Vec<&'static str>,
}

/// The hints of the footer: a key, then what it does.
pub open spec fn footer_spans() -> Seq<Seq<char>> {
    seq![
        "<CTRL+S>"@,
        " Save parameters "@,
        "<ESC>"@,
        " Exit "@,
        "<TAB>"@,
        " Change panel "@,
        "<UP/DOWN>"@,
        " Change field "@,
    ]
}

impl Default for Footer {
    fn default() -> (r: Footer)
        ensures
            crate::config::keys::conflict::parts_of(r.spans@) == footer_spans(),
    {
        let spans = vec![
            "<CTRL+S>",
            " Save parameters ",
            "<ESC>",
            " Exit ",
            "<TAB>",
            " Change panel ",
            "<UP/DOWN>",
            " Change field ",
        ];
        assert(crate::config::keys::conflict::parts_of(spans@) =~= footer_spans());
        Footer { spans }
    }
}

impl Footer {
    /// The footer answers nothing.
    pub fn on(&self, ev: &Event) -> (r: Option<Msg>)
        ensures
            r is None,
    {
        None
    }
}

/// The field of the music directory.
#[derive(Debug, Clone, PartialEq, Eq)]
pub struct MusicDir {
    /// The directory that is shown.
    pub value: String,
    /// The key that saves the configuration.
    pub save: KeyEvent,
}

impl MusicDir {
    pub fn new(config: &Settings) -> (r: MusicDir)
        ensures
            r.value@ == config.music_dir@,
            r.save == config.keys.global_config_save.spec_key_event(),
    {
        MusicDir {
            value: config.music_dir.clone(),
            save: config.keys.global_config_save.key_event(),
        }
    }

    pub fn on(&self, ev: &Event) -> (r: Reaction)
        ensures
            r == input_reaction(
                *ev,
                self.save,
                Msg::ConfigEditor(ConfigEditorMsg::MusicDirBlurDown),
                Msg::ConfigEditor(ConfigEditorMsg::MusicDirBlurUp),
            ),
    {
        handle_input_ev(
            ev,
            self.save,
            Msg::ConfigEditor(ConfigEditorMsg::MusicDirBlurDown),
            Msg::ConfigEditor(ConfigEditorMsg::MusicDirBlurUp),
        )
    }
}

/// The choice whether leaving has to be confirmed: yes, then no.
#[derive(Debug, Clone, PartialEq, Eq)]
pub struct ExitConfirmation {
    /// The choice that is shown: 0 for yes, 1 for no.
    pub value: usize,
    /// The key that saves the configuration.
    pub save: KeyEvent,
}

impl ExitConfirmation {
    pub fn new(config: &Settings) -> (r: ExitConfirmation)
        ensures
            r.value == (if config.enable_exit_confirmation {
                0usize
            } else {
                1usize
            }),
            r.save == config.keys.global_config_save.spec_key_event(),
    {
        ExitConfirmation { value: if config.enable_exit_confirmation {
                0
            } else {
                1
            }, save: config.keys.global_config_save.key_event() }
    }

    pub fn on(&self, ev: &Event) -> (r: Reaction)
        ensures
            r == radio_reaction(
                *ev,
                self.save,
                Msg::ConfigEditor(ConfigEditorMsg::ExitConfirmationBlurDown),
                Msg::ConfigEditor(ConfigEditorMsg::ExitConfirmationBlurUp),
            ),
    {
        handle_radio_ev(
            ev,
            self.save,
            Msg::ConfigEditor(ConfigEditorMsg::ExitConfirmationBlurDown),
            Msg::ConfigEditor(ConfigEditorMsg::ExitConfirmationBlurUp),
        )
    }
}

/// The choice whether the playlist shows symbols in its title: yes, then
/// no. It starts from the setting of the exit confirmation.
#[derive(Debug, Clone, PartialEq, Eq)]
pub struct PlaylistDisplaySymbol {
    /// The choice that is shown: 0 for yes, 1 for no.
    pub value: usize,
    /// The key that saves the configuration.
    pub save: KeyEvent,
}

impl PlaylistDisplaySymbol {
    pub fn new(config: &Settings) -> (r: PlaylistDisplaySymbol)
        ensures
            r.value == (if config.enable_exit_confirmation {
                0usize
            } else {
                1usize
            }),
            r.save == config.keys.global_config_save.spec_key_event(),
    {
        PlaylistDisplaySymbol { value: if config.enable_exit_confirmation {
                0
            } else {
                1
            }, save: config.keys.global_config_save.key_event() }
    }

    pub fn on(&self, ev: &Event) -> (r: Reaction)
        ensures
            r == radio_reaction(
                *ev,
                self.save,
                Msg::ConfigEditor(ConfigEditorMsg::PlaylistDisplaySymbolBlurDown),
                Msg::ConfigEditor(ConfigEditorMsg::PlaylistDisplaySymbolBlurUp),
            ),
    {
        handle_radio_ev(
            ev,
            self.save,
            Msg::ConfigEditor(ConfigEditorMsg::PlaylistDisplaySymbolBlurDown),
            Msg::ConfigEditor(ConfigEditorMsg::PlaylistDisplaySymbolBlurUp),
        )
    }
}

/// The field of how many tracks are added at random.
#[derive(Debug, Clone, PartialEq, Eq)]
pub struct PlaylistRandomTrack {
    /// The number that is shown.
    pub value: String,
    /// The key that saves the configuration.
    pub save: KeyEvent,
}

impl PlaylistRandomTrack {
    pub fn new(config: &Settings) -> (r: PlaylistRandomTrack)
        ensures
            r.value@ == decimal_text(config.playlist_select_random_track_quantity as nat),
            r.save == config.keys.global_config_save.spec_key_event(),
    {
        PlaylistRandomTrack {
            value: decimal(config.playlist_select_random_track_quantity as usize),
            save: config.keys.global_config_save.key_event(),
        }
    }

    pub fn on(&self, ev: &Event) -> (r: Reaction)
        ensures
            r == input_reaction(
                *ev,
                self.save,
                Msg::ConfigEditor(ConfigEditorMsg::PlaylistRandomTrackBlurDown),
                Msg::ConfigEditor(ConfigEditorMsg::PlaylistRandomTrackBlurUp),
            ),
    {
        handle_input_ev(
            ev,
            self.save,
            Msg::ConfigEditor(ConfigEditorMsg::PlaylistRandomTrackBlurDown),
            Msg::ConfigEditor(ConfigEditorMsg::PlaylistRandomTrackBlurUp),
        )
    }
}

/// The field of how many albums are added at random.
#[derive(Debug, Clone, PartialEq, Eq)]
pub struct PlaylistRandomAlbum {
    /// The number that is shown.
    pub value: String,
    /// The key that saves the configuration.
    pub save: KeyEvent,
}

impl PlaylistRandomAlbum {
    pub fn new(config: &Settings) -> (r: PlaylistRandomAlbum)
        ensures
            r.value@ == decimal_text(config.playlist_select_random_album_quantity as nat),
            r.save == config.keys.global_config_save.spec_key_event(),
    {
        PlaylistRandomAlbum {
            value: decimal(config.playlist_select_random_album_quantity as usize),
            save: config.keys.global_config_save.key_event(),
        }
    }

    pub fn on(&self, ev: &Event) -> (r: Reaction)
        ensures
            r == input_reaction(
                *ev,
                self.save,
                Msg::ConfigEditor(ConfigEditorMsg::PlaylistRandomAlbumBlurDown),
                Msg::ConfigEditor(ConfigEditorMsg::PlaylistRandomAlbumBlurUp),
            ),
    {
        handle_input_ev(
            ev,
            self.save,
            Msg::ConfigEditor(ConfigEditorMsg::PlaylistRandomAlbumBlurDown),
            Msg::ConfigEditor(ConfigEditorMsg::PlaylistRandomAlbumBlurUp),
        )
    }
}

/// The field of the cover picture's place from the left.
#[derive(Debug, Clone, PartialEq, Eq)]
pub struct AlbumPhotoX {
    /// The number that is shown.
    pub value: String,
    /// The key that saves the configuration.
    pub save: KeyEvent,
}

impl AlbumPhotoX {
    pub fn new(config: &Settings) -> (r: AlbumPhotoX)
        ensures
            r.value@ == decimal_text(config.album_photo_xywh.x_between_1_100 as nat),
            r.save == config.keys.global_config_save.spec_key_event(),
    {
        AlbumPhotoX {
            value: decimal(config.album_photo_xywh.x_between_1_100 as usize),
            save: config.keys.global_config_save.key_event(),
        }
    }

    pub fn on(&self, ev: &Event) -> (r: Reaction)
        ensures
            r == input_reaction(
                *ev,
                self.save,
                Msg::ConfigEditor(ConfigEditorMsg::AlbumPhotoXBlurDown),
                Msg::ConfigEditor(ConfigEditorMsg::AlbumPhotoXBlurUp),
            ),
    {
        handle_input_ev(
            ev,
            self.save,
            Msg::ConfigEditor(ConfigEditorMsg::AlbumPhotoXBlurDown),
            Msg::ConfigEditor(ConfigEditorMsg::AlbumPhotoXBlurUp),
        )
    }
}

/// The field of the cover picture's place from the top.
#[derive(Debug, Clone, PartialEq, Eq)]
pub struct AlbumPhotoY {
    /// The number that is shown.
    pub value: String,
    /// The key that saves the configuration.
    pub save: KeyEvent,
}

impl AlbumPhotoY {
    pub fn new(config: &Settings) -> (r: AlbumPhotoY)
        ensures
            r.value@ == decimal_text(config.album_photo_xywh.y_between_1_100 as nat),
            r.save == config.keys.global_config_save.spec_key_event(),
    {
        AlbumPhotoY {
            value: decimal(config.album_photo_xywh.y_between_1_100 as usize),
            save: config.keys.global_config_save.key_event(),
        }
    }

    pub fn on(&self, ev: &Event) -> (r: Reaction)
        ensures
            r == input_reaction(
                *ev,
                self.save,
                Msg::ConfigEditor(ConfigEditorMsg::AlbumPhotoYBlurDown),
                Msg::ConfigEditor(ConfigEditorMsg::AlbumPhotoYBlurUp),
            ),
    {
        handle_input_ev(
            ev,
            self.save,
            Msg::ConfigEditor(ConfigEditorMsg::AlbumPhotoYBlurDown),
            Msg::ConfigEditor(ConfigEditorMsg::AlbumPhotoYBlurUp),
        )
    }
}

/// The field of the cover picture's width.
#[derive(Debug, Clone, PartialEq, Eq)]
pub struct AlbumPhotoWidth {
    /// The number that is shown.
    pub value: String,
    /// The key that saves the configuration.
    pub save: KeyEvent,
}

impl AlbumPhotoWidth {
    pub fn new(config: &Settings) -> (r: AlbumPhotoWidth)
        ensures
            r.value@ == decimal_text(config.album_photo_xywh.width_between_1_100 as nat),
            r.save == config.keys.global_config_save.spec_key_event(),
    {
        AlbumPhotoWidth {
            value: decimal(config.album_photo_xywh.width_between_1_100 as usize),
            save: config.keys.global_config_save.key_event(),
        }
    }

    pub fn on(&self, ev: &Event) -> (r: Reaction)
        ensures
            r == input_reaction(
                *ev,
                self.save,
                Msg::ConfigEditor(ConfigEditorMsg::AlbumPhotoWidthBlurDown),
                Msg::ConfigEditor(ConfigEditorMsg::AlbumPhotoWidthBlurUp),
            ),
    {
        handle_input_ev(
            ev,
            self.save,
            Msg::ConfigEditor(ConfigEditorMsg::AlbumPhotoWidthBlurDown),
            Msg::ConfigEditor(ConfigEditorMsg::AlbumPhotoWidthBlurUp),
        )
    }
}

/// The choice of the cover picture's corner.
#[derive(Debug, Clone, PartialEq, Eq)]
pub struct AlbumPhotoAlign {
    /// The choice that is shown.
    pub value: usize,
    /// The key that saves the configuration.
    pub save: KeyEvent,
}

impl AlbumPhotoAlign {
    pub fn new(config: &Settings) -> (r: AlbumPhotoAlign)
        ensures
            r.value == align_index(config.album_photo_xywh.align),
            r.save == config.keys.global_config_save.spec_key_event(),
    {
        AlbumPhotoAlign { value: match config.album_photo_xywh.align {
                Alignment::BottomRight => 0,
                Alignment::BottomLeft => 1,
                Alignment::TopRight => 2,
                Alignment::TopLeft => 3,
            }, save: config.keys.global_config_save.key_event() }
    }

    pub fn on(&self, ev: &Event) -> (r: Reaction)
        ensures
            r == radio_reaction(
                *ev,
                self.save,
                Msg::ConfigEditor(ConfigEditorMsg::AlbumPhotoAlignBlurDown),
                Msg::ConfigEditor(ConfigEditorMsg::AlbumPhotoAlignBlurUp),
            ),
    {
        handle_radio_ev(
            ev,
            self.save,
            Msg::ConfigEditor(ConfigEditorMsg::AlbumPhotoAlignBlurDown),
            Msg::ConfigEditor(ConfigEditorMsg::AlbumPhotoAlignBlurUp),
        )
    }
}

/// The question whether a changed configuration is to be saved: no, then
/// yes.
#[derive(Debug, Clone, PartialEq, Eq)]
pub struct ConfigSavePopup {
    /// The choice that is shown: 0 for no.
    pub value: usize,
    pub keys: Keys,
}

impl ConfigSavePopup {
    pub fn new(config: &Settings) -> (r: ConfigSavePopup)
        ensures
            r.value == 0,
            r.keys == config.keys,
    {
        ConfigSavePopup { value: 0, keys: config.keys }
    }

    /// Left and Right, and the keys bound to left and up, right and down,
    /// change the choice; the keys bound to leaving drop the changes; Enter
    /// confirms the choice. Nothing else is answered.
    pub open spec fn spec_on(self, ev: Event) -> Reaction {
        match ev {
            Event::Keyboard(k) => if k.code == Key::Left {
                Reaction::Ask(Cmd::Move(Direction::Left))
            } else if k.code == Key::Right {
                Reaction::Ask(Cmd::Move(Direction::Right))
            } else if k == self.keys.global_left.spec_key_event() {
                Reaction::Ask(Cmd::Move(Direction::Left))
            } else if k == self.keys.global_right.spec_key_event() {
                Reaction::Ask(Cmd::Move(Direction::Right))
            } else if k == self.keys.global_up.spec_key_event() {
                Reaction::Ask(Cmd::Move(Direction::Left))
            } else if k == self.keys.global_down.spec_key_event() {
                Reaction::Ask(Cmd::Move(Direction::Right))
            } else if k == self.keys.global_quit.spec_key_event() {
                Reaction::Reply(Some(Msg::ConfigEditor(ConfigEditorMsg::ConfigSaveCancel)))
            } else if k == self.keys.global_esc.spec_key_event() {
                Reaction::Reply(Some(Msg::ConfigEditor(ConfigEditorMsg::ConfigSaveCancel)))
            } else if k.code == Key::Enter {
                Reaction::Ask(Cmd::Submit)
            } else {
                Reaction::Reply(None)
            },
            _ => Reaction::Reply(None),
        }
    }

    pub fn on(&self, ev: &Event) -> (r: Reaction)
        ensures
            r == self.spec_on(*ev),
    {
        match ev {
            Event::Keyboard(k) => {
                let left = Key::Left;
                let right = Key::Right;
                let enter = Key::Enter;
                if k.code == left {
                    Reaction::Ask(Cmd::Move(Direction::Left))
                } else if k.code == right {
                    Reaction::Ask(Cmd::Move(Direction::Right))
                } else if k.same(&self.keys.global_left.key_event()) {
                    Reaction::Ask(Cmd::Move(Direction::Left))
                } else if k.same(&self.keys.global_right.key_event()) {
                    Reaction::Ask(Cmd::Move(Direction::Right))
                } else if k.same(&self.keys.global_up.key_event()) {
                    Reaction::Ask(Cmd::Move(Direction::Left))
                } else if k.same(&self.keys.global_down.key_event()) {
                    Reaction::Ask(Cmd::Move(Direction::Right))
                } else if k.same(&self.keys.global_quit.key_event()) {
                    Reaction::Reply(Some(Msg::ConfigEditor(ConfigEditorMsg::ConfigSaveCancel)))
                } else if k.same(&self.keys.global_esc.key_event()) {
                    Reaction::Reply(Some(Msg::ConfigEditor(ConfigEditorMsg::ConfigSaveCancel)))
                } else if k.code == enter {
                    Reaction::Ask(Cmd::Submit)
                } else {
                    Reaction::Reply(None)
                }
            },
            _ => Reaction::Reply(None),
        }
    }

    /// The answer to what came of the command: a confirmed "no" drops the
    /// changes, a confirmed "yes" saves them, anything else says nothing.
    pub fn on_result(&self, outcome: &CmdOutcome) -> (r: Msg)
        ensures
            r == match *outcome {
                CmdOutcome::SubmitIndex(n) => if n == 0 {
                    Msg::ConfigEditor(ConfigEditorMsg::ConfigSaveCancel)
                } else if n == 1 {
                    Msg::ConfigEditor(ConfigEditorMsg::ConfigSaveOk)
                } else {
                    Msg::Nothing
                },
                _ => Msg::Nothing,
            },
    {
        match outcome {
            CmdOutcome::SubmitIndex(n) => if *n == 0 {
                Msg::ConfigEditor(ConfigEditorMsg::ConfigSaveCancel)
            } else if *n == 1 {
                Msg::ConfigEditor(ConfigEditorMsg::ConfigSaveOk)
            } else {
                Msg::Nothing
            },
            _ => Msg::Nothing,
        }
    }
}

/// In a text field of the editor the key that saves never types a
/// character, and whatever the key, the field answers with a message of the
/// editor or one of its two neighbours' messages.
pub proof fn lemma_input_save_wins(k: KeyEvent, on_key_down: Msg, on_key_up: Msg)
    requires
        !(k.code is Left || k.code is Right || k.code is Home || k.code is End || k.code is Delete
            || k.code is Backspace),
    ensures
        input_reaction(Event::Keyboard(k), k, on_key_down, on_key_up) == Reaction::Reply(
            Some(Msg::ConfigEditor(ConfigEditorMsg::CloseOk)),
        ),
        radio_reaction(Event::Keyboard(k), k, on_key_down, on_key_up) == if k.code is Down {
            Reaction::Reply(Some(on_key_down))
        } else if k.code is Up {
            Reaction::Reply(Some(on_key_up))
        } else {
            Reaction::Reply(Some(Msg::ConfigEditor(ConfigEditorMsg::CloseOk)))
        },
{
}

} // verus!
