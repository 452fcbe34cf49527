//! What the application does with a message: the steps that it takes, in
//! order, as plain values. The steps themselves are carried out outside this
//! crate.

use vstd::prelude::*;
use vstd::string::*;
use crate::player::orchestrator::PlayerCmd;
use crate::player::playlist::{MediaType, Track};
use crate::text::{is_prefix, starts_with};
use crate::ui::msg::{
    clone_opt,
    ConfigEditorMsg,
    DBMsg,
    DLMsg,
    GSMsg,
    Id,
    LIMsg,
    LyricMsg,
    Msg,
    PCMsg,
    PLMsg,
    XYWHMsg,
    YSMsg,
};

verus! {

/// The three layouts of the main screen.
#[derive(Debug, Clone, Copy, PartialEq, Eq, Structural)]
pub enum TermusicLayout {
    TreeView,
    DataBase,
    Podcast,
}

/// Which of the popups are on the screen.
#[derive(Debug, Clone, Copy, PartialEq, Eq, Structural)]
pub struct Mounted {
    pub error_popup: bool,
    pub quit_popup: bool,
    pub help_popup: bool,
    pub general_search_input: bool,
    pub general_search_table: bool,
    pub delete_confirm_radio_popup: bool,
    pub delete_confirm_input_popup: bool,
    pub youtube_search_input_popup: bool,
    pub tag_editor_label_hint: bool,
}

/// What the decisions read of the screen and of the application, taken
/// when the message arrives.
#[derive(Debug, Clone, Copy, PartialEq, Eq, Structural)]
pub struct Snapshot {
    pub mounted: Mounted,
    /// The part of the screen that has the focus.
    pub focus: Option<Id>,
    /// Whether leaving has to be confirmed.
    pub confirm_quit: bool,
    /// Whether the current track is a live radio.
    pub is_radio: bool,
    /// Whether transfers are running.
    pub tracker_visible: bool,
    /// How many tracks the database view has found.
    pub search_tracks: usize,
    /// How many feeds the last search has found, if there was one.
    pub search_results: Option<usize>,
}

impl Snapshot {
    /// Whether the last search has found a feed at the place `index`.
    pub open spec fn spec_has_result(self, index: usize) -> bool {
        self.search_results matches Some(n) && index < n
    }

    /// Whether the last search has found a feed at the place `index`.
    pub fn has_result(&self, index: usize) -> (r: bool)
        ensures
            r == self.spec_has_result(index),
    {
        match self.search_results {
            Some(n) => index < n,
            None => false,
        }
    }
}

/// What is shown of the running transfers.
#[derive(Debug, PartialEq, Eq)]
pub enum TrackerMessage {
    SyncSuccess,
    FeedsAdded,
    FeedSyncFailed,
    SyncStart,
    /// With the title of what is downloaded.
    DownloadStart(String),
    DownloadComplete,
    DownloadErrorResponse(String),
    DownloadErrorFileCreate(String),
    DownloadErrorFileWrite(String),
    DownloadErrorEmbedData(String),
}

/// What an error popup says.
#[derive(Debug, PartialEq, Eq)]
pub enum ErrorText {
    /// The feed of the message could not be read.
    FeedFailed,
    /// The download of the episode with this title failed.
    EpisodeDownloadFailed(String),
    /// A download failed, for this reason.
    DownloadFailed(String),
    /// The download went well but the tags could not be written in full.
    TagInfoIncomplete,
    /// The search at the video service failed, for this reason.
    YoutubeSearchFail(String),
    /// This text as it is.
    Plain(String),
}

/// The words of an error popup.
pub open spec fn error_words(e: ErrorText) -> Option<Seq<char>> {
    match e {
        ErrorText::FeedFailed => None,
        ErrorText::EpisodeDownloadFailed(title) => Some("download failed for episode: "@ + title@),
        ErrorText::DownloadFailed(reason) => Some("download failed: "@ + reason@),
        ErrorText::TagInfoIncomplete => Some("download ok but tag info is not complete."@),
        ErrorText::YoutubeSearchFail(reason) => Some("Youtube search fail: "@ + reason@),
        ErrorText::Plain(text) => Some(text@),
    }
}

impl ErrorText {
    /// The words of the popup; `None` where they are made of the feed that
    /// failed.
    pub fn to_string(&self) -> (r: Option<String>)
        ensures
            crate::text::opt_text(r) == error_words(*self),
    {
        match self {
            ErrorText::FeedFailed => None,
            ErrorText::EpisodeDownloadFailed(title) => Some(
                crate::text::concat("download failed for episode: ", title.as_str()),
            ),
            ErrorText::DownloadFailed(reason) => Some(
                crate::text::concat("download failed: ", reason.as_str()),
            ),
            ErrorText::TagInfoIncomplete => Some(
                String::from_str("download ok but tag info is not complete."),
            ),
            ErrorText::YoutubeSearchFail(reason) => Some(
                crate::text::concat("Youtube search fail: ", reason.as_str()),
            ),
            ErrorText::Plain(text) => Some(text.clone()),
        }
    }
}

/// An operation of the application.
#[derive(Debug, PartialEq, Eq)]
pub enum Op {
    /// The feed of the message is stored, under this id if it has one.
    AddOrSyncData(Option<i64>),
    DatabaseUpdateSearch(String),
    /// The search popup lists everything of the database.
    DatabaseUpdateSearchAll,
    DatabaseUpdateSearchResults,
    DatabaseUpdateSearchTracks(usize),
    EpisodeDeleteFile(usize),
    EpisodeDownload(usize),
    EpisodeDownloadComplete,
    EpisodeMarkAllPlayed,
    EpisodeMarkPlayed(usize),
    EpisodeUpdateSearch(String),
    /// The search popup lists all episodes.
    EpisodeUpdateSearchAll,
    GeneralSearchAfterDatabaseAddPlaylist,
    GeneralSearchAfterEpisodeAddPlaylist,
    GeneralSearchAfterEpisodeSelect,
    GeneralSearchAfterLibraryAddPlaylist,
    GeneralSearchAfterLibrarySelect,
    GeneralSearchAfterPlaylistPlaySelected,
    GeneralSearchAfterPlaylistSelect,
    GeneralSearchAfterPodcastSelect,
    LibraryAddRoot,
    LibraryBeforeDelete,
    LibraryDeleteNode,
    LibraryPaste,
    LibraryReloadWithNodeFocus(Option<String>),
    LibraryRemoveRoot,
    LibraryStepInto(String),
    LibraryStepOut,
    LibrarySwitchRoot,
    LibraryUpdateSearch(String),
    /// The search popup lists everything of the library.
    LibraryUpdateSearchAll,
    LibraryYank,
    LyricAdjustDelay(i64),
    LyricCycle,
    LyricUpdate,
    MountFeedDeleteConfirmInput,
    MountFeedDeleteConfirmRadio,
    MountHelpPopup,
    MountMessage(String, String),
    MountPodcastAddPopup,
    MountPodcastSearchTable,
    MountQuitPopup,
    MountSavePlaylist,
    MountSearchDatabase,
    MountSearchEpisode,
    MountSearchLibrary,
    MountSearchPlaylist,
    MountSearchPodcast,
    MountYoutubeSearchInput,
    MountYoutubeSearchTable,
    PlayerPrevious,
    PlayerSyncPlaylist,
    PlayerTogglePause,
    PlaylistAdd(String),
    PlaylistAddAllFromDb,
    PlaylistAddEpisode(usize),
    /// The track at this place of the found tracks is queued.
    PlaylistAddFound(usize),
    PlaylistAddRandomAlbum,
    PlaylistAddRandomTracks,
    PlaylistClear,
    PlaylistDeleteItem(usize),
    PlaylistPlaySelected(usize),
    PlaylistSaveM3u(String),
    PlaylistSaveM3uBefore(String),
    PlaylistShuffle,
    PlaylistSwapDown(usize),
    PlaylistSwapUp(usize),
    PlaylistSwitchLayout,
    PlaylistSync,
    PlaylistUpdateSearch(String),
    /// The search popup lists everything of the playlist.
    PlaylistUpdateSearchAll,
    PlaylistUpdateTitle,
    PodcastAdd(String),
    /// The feed at this place of the search results is added.
    PodcastAddFound(usize),
    PodcastFocusEpisodeList,
    PodcastFocusPodcastList,
    PodcastRefreshFeeds(Option<usize>),
    PodcastRemoveAllFeeds,
    PodcastRemoveFeed,
    PodcastSearchItunes(String),
    PodcastSyncEpisodes,
    PodcastSyncFeedsAndEpisodes,
    PodcastUpdateSearch(String),
    /// The search popup lists all podcasts.
    PodcastUpdateSearchAll,
    RemountSavePlaylistLabel(String),
    SelectPodcast(usize),
    SetCriteria(usize),
    /// The picture of the message is shown.
    ShowImage,
    /// The playlist's loop mode is cycled and written to the configuration.
    StoreLoopMode,
    /// The feeds of the message become the search results.
    StoreSearchResults,
    /// The videos of the message become the search results.
    StoreYoutubeOptions,
    SyncYoutubeOptions,
    /// One transfer less is running: the one at this address.
    TrackerDecrease(String),
    /// One transfer more is running: the one at this address.
    TrackerIncrease(String),
    UmountErrorPopup,
    UmountFeedDeleteConfirmInput,
    UmountFeedDeleteConfirmRadio,
    UmountMessage(String, String),
    UmountPodcastAddPopup,
    UmountPodcastSearchTable,
    UmountSavePlaylist,
    UmountSavePlaylistConfirm,
    UmountTagEditor,
    UmountYoutubeSearchTablePopup,
    UpdatePhoto,
    UpdatePodcastSearchTable,
    /// The message goes to the tag editor.
    UpdateTagEditor,
    XywhMoveDown,
    XywhMoveLeft,
    XywhMoveRight,
    XywhMoveUp,
    XywhToggleHide,
    XywhZoomIn,
    XywhZoomOut,
    YoutubeDl(String),
    YoutubeOptionsDownload(usize),
    YoutubeOptionsNextPage,
    YoutubeOptionsPrevPage,
    YoutubeOptionsSearch(String),
}

/// One step that the application takes.
#[derive(Debug, PartialEq, Eq)]
pub enum Action {
    /// The part gets the focus, if it can.
    Active(Id),
    /// The part gets the focus; that it cannot is a fault of the program.
    ActiveStrict(Id),
    /// The part leaves the screen, if it is there.
    Umount(Id),
    /// The part leaves the screen; that it cannot is a fault of the program.
    UmountStrict(Id),
    /// The operation is carried out; how it ends is not looked at.
    Do(Op),
    /// The operation is carried out; if it fails, an error popup shows why,
    /// under this heading.
    Try(Op, &'static str),
    /// As `Try`, but if it fails the library is loaded anew before the
    /// popup.
    TryReload(Op, &'static str),
    /// The command goes to the player.
    Command(PlayerCmd),
    /// The state of the transfers is shown.
    Message(TrackerMessage),
    /// These words are shown.
    Say(&'static str),
    /// This text is shown.
    SayText(String),
    /// An error popup is put up.
    ErrorPopup(ErrorText),
    /// The message goes to the configuration editor, whose answer is the
    /// answer to the whole.
    ConfigEditor(ConfigEditorMsg),
}

/// A notice that is put up for some time: the message that puts it up, the
/// seconds that it stays, and the message that takes it down.
#[derive(Debug, PartialEq, Eq)]
pub struct TimedMessage {
    pub show: Msg,
    pub delay: u64,
    pub hide: Msg,
}

/// The notice of what is playing.
#[derive(Debug, PartialEq, Eq)]
pub struct PlayingNotice {
    pub title: &'static str,
    pub text: String,
    /// Whether the playlist is drawn anew after the notice.
    pub sync_playlist: bool,
}

/// The seconds that a notice stays if nothing else is asked for.
pub const NOTICE_SECONDS: u64 = 10;

/// What the application keeps of the user interface.
#[derive(Debug, Clone, Copy, PartialEq, Eq, Structural)]
pub struct Model {
    /// Whether the screen has to be drawn anew.
    pub redraw: bool,
    /// Whether the program is to end.
    pub quit: bool,
    pub layout: TermusicLayout,
}

impl Model {
    /// Moves, zooms or hides the cover picture.
    pub open spec fn xywh_msg_actions(self, snap: Snapshot, msg: XYWHMsg) -> Seq<Action> {
        match msg {
            XYWHMsg::MoveLeft => seq![Action::Do(Op::XywhMoveLeft)],
            XYWHMsg::MoveRight => seq![Action::Do(Op::XywhMoveRight)],
            XYWHMsg::MoveUp => seq![Action::Do(Op::XywhMoveUp)],
            XYWHMsg::MoveDown => seq![Action::Do(Op::XywhMoveDown)],
            XYWHMsg::ZoomIn => seq![Action::Do(Op::XywhZoomIn)],
            XYWHMsg::ZoomOut => seq![Action::Do(Op::XywhZoomOut)],
            XYWHMsg::Hide => seq![Action::Do(Op::XywhToggleHide)],
        }
    }

    /// Moves the focus from the lyric area: up to the playlist, down to the
    /// first list of the layout.
    pub open spec fn lyric_textarea_actions(self, snap: Snapshot, msg: LyricMsg) -> Seq<Action> {
        match msg {
            LyricMsg::LyricTextAreaBlurUp => seq![Action::Active(Id::Playlist)],
            LyricMsg::LyricTextAreaBlurDown => {
                if self.layout == TermusicLayout::TreeView {
                    seq![Action::Active(Id::Library)]
                } else {
                    if self.layout == TermusicLayout::DataBase {
                        seq![Action::Active(Id::DBListCriteria)]
                    } else {
                        seq![Action::Active(Id::Podcast)]
                    }
                }
            },
        }
    }

    /// The podcasts: focus between the lists, the popups to add and to delete
    /// feeds, and what a fetch or a download reports. Whatever is counted as
    /// running is counted down before its outcome is shown.
    pub open spec fn podcast_actions(self, snap: Snapshot, msg: PCMsg) -> Seq<Action> {
        match msg {
            PCMsg::PodcastBlurDown => seq![Action::Active(Id::Episode)],
            PCMsg::PodcastBlurUp => seq![Action::Active(Id::Lyric)],
            PCMsg::EpisodeBlurDown => seq![Action::Active(Id::Playlist)],
            PCMsg::EpisodeBlurUp => seq![Action::Active(Id::Podcast)],
            PCMsg::PodcastAddPopupShow => seq![Action::Do(Op::MountPodcastAddPopup)],
            PCMsg::PodcastAddPopupCloseOk(url) => {
                let s = seq![Action::Do(Op::UmountPodcastAddPopup)];
                if is_prefix("http"@, url@) {
                    s.push(Action::Do(Op::PodcastAdd(url)))
                } else {
                    s
                        .push(Action::Do(Op::PodcastSearchItunes(url)))
                        .push(Action::Do(Op::MountPodcastSearchTable))
                }
            },
            PCMsg::PodcastAddPopupCloseCancel => seq![Action::Do(Op::UmountPodcastAddPopup)],
            PCMsg::SyncData(id, url) => {
                seq![
                    Action::Do(Op::TrackerDecrease(url)),
                    Action::Message(TrackerMessage::SyncSuccess),
                    Action::Try(Op::AddOrSyncData(Some(id)), "add or sync data"),
                ]
            },
            PCMsg::NewData(url) => {
                seq![
                    Action::Do(Op::TrackerDecrease(url)),
                    Action::Message(TrackerMessage::FeedsAdded),
                    Action::Try(Op::AddOrSyncData(None), "add or sync data"),
                ]
            },
            PCMsg::Error(url) => {
                seq![
                    Action::Do(Op::TrackerDecrease(url)),
                    Action::ErrorPopup(ErrorText::FeedFailed),
                    Action::Message(TrackerMessage::FeedSyncFailed),
                ]
            },
            PCMsg::PodcastSelected(index) => {
                seq![
                    Action::Do(Op::SelectPodcast(index)),
                    Action::Try(Op::PodcastSyncEpisodes, "podcast sync episodes"),
                ]
            },
            PCMsg::DescriptionUpdate => seq![Action::Do(Op::LyricUpdate)],
            PCMsg::EpisodeAdd(index) => {
                seq![
                    Action::Try(Op::PlaylistAddEpisode(index), "podcast playlist add episode"),
                ]
            },
            PCMsg::EpisodeMarkPlayed(index) => {
                seq![
                    Action::Try(Op::EpisodeMarkPlayed(index), "podcast episode mark played"),
                ]
            },
            PCMsg::EpisodeMarkAllPlayed => {
                seq![
                    Action::Try(Op::EpisodeMarkAllPlayed, "podcast episode mark all played"),
                ]
            },
            PCMsg::PodcastRefreshOne(index) => {
                seq![
                    Action::Try(Op::PodcastRefreshFeeds(Some(index)), "podcast refresh feeds one"),
                ]
            },
            PCMsg::PodcastRefreshAll => {
                seq![
                    Action::Try(Op::PodcastRefreshFeeds(None), "podcast refresh feeds all"),
                ]
            },
            PCMsg::FetchPodcastStart(url) => {
                seq![
                    Action::Do(Op::TrackerIncrease(url)),
                    Action::Message(TrackerMessage::SyncStart),
                ]
            },
            PCMsg::EpisodeDownload(index) => {
                seq![Action::Try(Op::EpisodeDownload(index), "podcast episode download")]
            },
            PCMsg::DLStart(ep_data) => {
                seq![
                    Action::Do(Op::TrackerIncrease(ep_data.url)),
                    Action::Message(TrackerMessage::DownloadStart(ep_data.title)),
                ]
            },
            PCMsg::DLComplete(ep_data) => {
                seq![
                    Action::Try(Op::EpisodeDownloadComplete, "podcast episode download complete"),
                    Action::Do(Op::TrackerDecrease(ep_data.url)),
                    Action::Message(TrackerMessage::DownloadComplete),
                ]
            },
            PCMsg::DLResponseError(ep_data) => {
                seq![
                    Action::Do(Op::TrackerDecrease(ep_data.url)),
                    Action::ErrorPopup(ErrorText::EpisodeDownloadFailed(ep_data.title)),
                    Action::Message(TrackerMessage::DownloadErrorResponse(ep_data.title)),
                ]
            },
            PCMsg::DLFileCreateError(ep_data) => {
                seq![
                    Action::Do(Op::TrackerDecrease(ep_data.url)),
                    Action::ErrorPopup(ErrorText::EpisodeDownloadFailed(ep_data.title)),
                    Action::Message(TrackerMessage::DownloadErrorFileCreate(ep_data.title)),
                ]
            },
            PCMsg::DLFileWriteError(ep_data) => {
                seq![
                    Action::Do(Op::TrackerDecrease(ep_data.url)),
                    Action::ErrorPopup(ErrorText::EpisodeDownloadFailed(ep_data.title)),
                    Action::Message(TrackerMessage::DownloadErrorFileWrite(ep_data.title)),
                ]
            },
            PCMsg::EpisodeDeleteFile(index) => {
                seq![Action::Try(Op::EpisodeDeleteFile(index), "podcast episode delete")]
            },
            PCMsg::FeedDeleteShow => seq![Action::Do(Op::MountFeedDeleteConfirmRadio)],
            PCMsg::FeedDeleteCloseOk => {
                seq![
                    Action::Do(Op::UmountFeedDeleteConfirmRadio),
                    Action::Try(Op::PodcastRemoveFeed, "podcast remove feed"),
                ]
            },
            PCMsg::FeedDeleteCloseCancel => seq![Action::Do(Op::UmountFeedDeleteConfirmRadio)],
            PCMsg::FeedsDeleteShow => seq![Action::Do(Op::MountFeedDeleteConfirmInput)],
            PCMsg::FeedsDeleteCloseOk => {
                seq![
                    Action::Do(Op::UmountFeedDeleteConfirmInput),
                    Action::Try(Op::PodcastRemoveAllFeeds, "podcast remove all feeds"),
                ]
            },
            PCMsg::FeedsDeleteCloseCancel => seq![Action::Do(Op::UmountFeedDeleteConfirmInput)],
            PCMsg::SearchItunesCloseCancel => seq![Action::Do(Op::UmountPodcastSearchTable)],
            PCMsg::SearchItunesCloseOk(index) => {
                if snap.spec_has_result(index) {
                    seq![Action::Do(Op::PodcastAddFound(index))]
                } else {
                    Seq::<Action>::empty()
                }
            },
            PCMsg::SearchSuccess => {
                seq![
                    Action::Do(Op::StoreSearchResults),
                    Action::Do(Op::UpdatePodcastSearchTable),
                ]
            },
            PCMsg::SearchError(e) => seq![Action::ErrorPopup(ErrorText::Plain(e))],
        }
    }

    /// The keys of the player become commands of the player. A live radio
    /// cannot be sought in: that is said instead.
    pub open spec fn player_actions(self, snap: Snapshot, msg: Msg) -> Seq<Action> {
        match msg {
            Msg::PlayerTogglePause => seq![Action::Do(Op::PlayerTogglePause)],
            Msg::PlayerSeekForward => {
                if snap.is_radio {
                    seq![Action::Say("seek is not available for live radio")]
                } else {
                    seq![Action::Command(PlayerCmd::SeekForward)]
                }
            },
            Msg::PlayerSeekBackward => {
                if snap.is_radio {
                    seq![Action::Say("seek is not available for live radio")]
                } else {
                    seq![Action::Command(PlayerCmd::SeekBackward)]
                }
            },
            Msg::PlayerSpeedUp => seq![Action::Command(PlayerCmd::SpeedUp)],
            Msg::PlayerSpeedDown => seq![Action::Command(PlayerCmd::SpeedDown)],
            Msg::PlayerVolumeUp => seq![Action::Command(PlayerCmd::VolumeUp)],
            Msg::PlayerVolumeDown => seq![Action::Command(PlayerCmd::VolumeDown)],
            Msg::PlayerToggleGapless => seq![Action::Command(PlayerCmd::ToggleGapless)],
            _ => Seq::<Action>::empty(),
        }
    }

    /// The lists of a layout between which the focus moves; the first of
    /// them takes the focus where none of them has it.
    pub open spec fn layout_lists(layout: TermusicLayout) -> Seq<Id> {
        match layout {
            TermusicLayout::DataBase => seq![
                Id::DBListCriteria,
                Id::DBListSearchResult,
                Id::DBListSearchTracks,
                Id::Playlist,
            ],
            TermusicLayout::TreeView => seq![Id::Library, Id::Playlist],
            TermusicLayout::Podcast => seq![Id::Podcast, Id::Episode, Id::Playlist, Id::Lyric],
        }
    }

    /// The steps that lead to the layout `layout`: unless one of its lists
    /// has the focus already, its first list gets it; the podcasts are
    /// read anew for their layout; then the playlist is fitted in.
    pub open spec fn enter_layout(snap: Snapshot, layout: TermusicLayout) -> Seq<Action> {
        let lists = Model::layout_lists(layout);
        let focus = if snap.focus is Some && lists.contains(snap.focus->0) {
            Seq::<Action>::empty()
        } else {
            seq![Action::Active(lists[0])]
        };
        let sync = if layout == TermusicLayout::Podcast {
            seq![Action::Do(Op::PodcastSyncFeedsAndEpisodes)]
        } else {
            Seq::<Action>::empty()
        };
        focus + sync + seq![Action::Do(Op::PlaylistSwitchLayout)]
    }

    /// A change of the layout: the steps that lead to the layout that the
    /// message asks for. Any other message asks for nothing.
    pub open spec fn layout_actions(self, snap: Snapshot, msg: Msg) -> Seq<Action> {
        match msg {
            Msg::LayoutDataBase => Model::enter_layout(snap, TermusicLayout::DataBase),
            Msg::LayoutTreeView => Model::enter_layout(snap, TermusicLayout::TreeView),
            Msg::LayoutPodCast => Model::enter_layout(snap, TermusicLayout::Podcast),
            _ => Seq::<Action>::empty(),
        }
    }

    /// The lists of the database view: the focus goes round criteria, results,
    /// tracks and playlist; a chosen track is queued if there is one at its
    /// place.
    pub open spec fn database_list_actions(self, snap: Snapshot, msg: DBMsg) -> Seq<Action> {
        match msg {
            DBMsg::CriteriaBlurDown | DBMsg::SearchTracksBlurUp => {
                seq![Action::Active(Id::DBListSearchResult)]
            },
            DBMsg::SearchResultBlurDown => seq![Action::Active(Id::DBListSearchTracks)],
            DBMsg::SearchTracksBlurDown | DBMsg::CriteriaBlurUp => {
                seq![Action::Active(Id::Playlist)]
            },
            DBMsg::SearchResultBlurUp => seq![Action::Active(Id::DBListCriteria)],
            DBMsg::SearchResult(index) => {
                seq![
                    Action::Do(Op::SetCriteria(index)),
                    Action::Do(Op::DatabaseUpdateSearchResults),
                ]
            },
            DBMsg::SearchTrack(index) => {
                seq![Action::Do(Op::DatabaseUpdateSearchTracks(index))]
            },
            DBMsg::AddPlaylist(index) => {
                if index < snap.search_tracks {
                    seq![Action::Try(Op::PlaylistAddFound(index), "playlist add")]
                } else {
                    Seq::<Action>::empty()
                }
            },
            DBMsg::AddAllToPlaylist => seq![Action::Do(Op::PlaylistAddAllFromDb)],
        }
    }

    /// The tree of the library.
    pub open spec fn library_actions(self, snap: Snapshot, msg: LIMsg) -> Seq<Action> {
        match msg {
            LIMsg::TreeBlur => seq![Action::ActiveStrict(Id::Playlist)],
            LIMsg::TreeStepInto(path) => seq![Action::Do(Op::LibraryStepInto(path))],
            LIMsg::TreeStepOut => seq![Action::Do(Op::LibraryStepOut)],
            LIMsg::Yank => seq![Action::Do(Op::LibraryYank)],
            LIMsg::Paste => seq![Action::Try(Op::LibraryPaste, "library paste")],
            LIMsg::SwitchRoot => seq![Action::Do(Op::LibrarySwitchRoot)],
            LIMsg::AddRoot => seq![Action::Try(Op::LibraryAddRoot, "library add root")],
            LIMsg::RemoveRoot => {
                seq![Action::Try(Op::LibraryRemoveRoot, "library remove root")]
            },
        }
    }

    /// The search at the video service: what was typed is downloaded if it is
    /// an address and searched for if it is not.
    pub open spec fn youtube_search_actions(self, snap: Snapshot, msg: YSMsg) -> Seq<Action> {
        match msg {
            YSMsg::InputPopupShow => seq![Action::Do(Op::MountYoutubeSearchInput)],
            YSMsg::InputPopupCloseCancel => {
                if snap.mounted.youtube_search_input_popup {
                    seq![Action::UmountStrict(Id::YoutubeSearchInputPopup)]
                } else {
                    Seq::<Action>::empty()
                }
            },
            YSMsg::InputPopupCloseOk(url) => {
                let s = if snap.mounted.youtube_search_input_popup {
                    seq![Action::UmountStrict(Id::YoutubeSearchInputPopup)]
                } else {
                    Seq::<Action>::empty()
                };
                if is_prefix("http"@, url@) {
                    s.push(Action::Try(Op::YoutubeDl(url), "youtube-dl download"))
                } else {
                    s
                        .push(Action::Do(Op::MountYoutubeSearchTable))
                        .push(Action::Do(Op::YoutubeOptionsSearch(url)))
                }
            },
            YSMsg::TablePopupCloseCancel => seq![Action::Do(Op::UmountYoutubeSearchTablePopup)],
            YSMsg::TablePopupNext => seq![Action::Do(Op::YoutubeOptionsNextPage)],
            YSMsg::TablePopupPrevious => seq![Action::Do(Op::YoutubeOptionsPrevPage)],
            YSMsg::TablePopupCloseOk(index) => {
                seq![
                    Action::TryReload(
                        Op::YoutubeOptionsDownload(index),
                        "youtube-dl options download",
                    ),
                ]
            },
        }
    }

    /// The search popup: it opens with everything listed, lists anew for what
    /// is typed, and on closing does what it was opened for, closes its two
    /// parts and shows the cover again.
    pub open spec fn general_search_actions(self, snap: Snapshot, msg: GSMsg) -> Seq<Action> {
        match msg {
            GSMsg::PopupShowDatabase => {
                seq![
                    Action::Do(Op::MountSearchDatabase),
                    Action::Do(Op::DatabaseUpdateSearchAll),
                ]
            },
            GSMsg::PopupShowLibrary => {
                seq![
                    Action::Do(Op::MountSearchLibrary),
                    Action::Do(Op::LibraryUpdateSearchAll),
                ]
            },
            GSMsg::PopupShowPlaylist => {
                seq![
                    Action::Do(Op::MountSearchPlaylist),
                    Action::Do(Op::PlaylistUpdateSearchAll),
                ]
            },
            GSMsg::PopupShowEpisode => {
                seq![
                    Action::Do(Op::MountSearchEpisode),
                    Action::Do(Op::EpisodeUpdateSearchAll),
                ]
            },
            GSMsg::PopupShowPodcast => {
                seq![
                    Action::Do(Op::MountSearchPodcast),
                    Action::Do(Op::PodcastUpdateSearchAll),
                ]
            },
            GSMsg::PopupUpdateLibrary(input) => {
                seq![Action::Do(Op::LibraryUpdateSearch(input))]
            },
            GSMsg::PopupUpdatePlaylist(input) => {
                seq![Action::Do(Op::PlaylistUpdateSearch(input))]
            },
            GSMsg::PopupUpdateDatabase(input) => {
                seq![Action::Do(Op::DatabaseUpdateSearch(input))]
            },
            GSMsg::InputBlur => {
                if snap.mounted.general_search_table {
                    seq![Action::Active(Id::GeneralSearchTable)]
                } else {
                    Seq::<Action>::empty()
                }
            },
            GSMsg::TableBlur => {
                if snap.mounted.general_search_input {
                    seq![Action::Active(Id::GeneralSearchInput)]
                } else {
                    Seq::<Action>::empty()
                }
            },
            GSMsg::PopupCloseCancel => {
                seq![
                    Action::Umount(Id::GeneralSearchInput),
                    Action::Umount(Id::GeneralSearchTable),
                    Action::Try(Op::UpdatePhoto, "update_photo"),
                ]
            },
            GSMsg::PopupCloseLibraryAddPlaylist => {
                seq![
                    Action::Try(Op::GeneralSearchAfterLibraryAddPlaylist, "general search"),
                ]
            },
            GSMsg::PopupCloseOkLibraryLocate => {
                seq![
                    Action::Do(Op::GeneralSearchAfterLibrarySelect),
                    Action::Umount(Id::GeneralSearchInput),
                    Action::Umount(Id::GeneralSearchTable),
                    Action::Try(Op::UpdatePhoto, "update_photo"),
                ]
            },
            GSMsg::PopupClosePlaylistPlaySelected => {
                seq![
                    Action::Do(Op::GeneralSearchAfterPlaylistPlaySelected),
                    Action::Umount(Id::GeneralSearchInput),
                    Action::Umount(Id::GeneralSearchTable),
                    Action::Try(Op::UpdatePhoto, "update_photo"),
                ]
            },
            GSMsg::PopupCloseOkPlaylistLocate => {
                seq![
                    Action::Do(Op::GeneralSearchAfterPlaylistSelect),
                    Action::Umount(Id::GeneralSearchInput),
                    Action::Umount(Id::GeneralSearchTable),
                    Action::Try(Op::UpdatePhoto, "update_photo"),
                ]
            },
            GSMsg::PopupCloseDatabaseAddPlaylist => {
                seq![
                    Action::Try(
                        Op::GeneralSearchAfterDatabaseAddPlaylist,
                        "add to playlist from database search",
                    ),
                ]
            },
            GSMsg::PopupCloseEpisodeAddPlaylist => {
                seq![
                    Action::Try(
                        Op::GeneralSearchAfterEpisodeAddPlaylist,
                        "add to playlist from episode search",
                    ),
                ]
            },
            GSMsg::PopupCloseOkEpisodeLocate => {
                seq![
                    Action::Try(
                        Op::GeneralSearchAfterEpisodeSelect,
                        "general search after episode select",
                    ),
                    Action::Umount(Id::GeneralSearchInput),
                    Action::Umount(Id::GeneralSearchTable),
                    Action::Do(Op::PodcastFocusEpisodeList),
                    Action::Try(Op::UpdatePhoto, "update_photo"),
                ]
            },
            GSMsg::PopupUpdateEpisode(input) => {
                seq![Action::Do(Op::EpisodeUpdateSearch(input))]
            },
            GSMsg::PopupUpdatePodcast(input) => {
                seq![Action::Do(Op::PodcastUpdateSearch(input))]
            },
            GSMsg::PopupCloseOkPodcastLocate => {
                seq![
                    Action::Try(
                        Op::GeneralSearchAfterPodcastSelect,
                        "general search after podcast select",
                    ),
                    Action::Umount(Id::GeneralSearchInput),
                    Action::Umount(Id::GeneralSearchTable),
                    Action::Do(Op::PodcastFocusPodcastList),
                    Action::Try(Op::UpdatePhoto, "update_photo"),
                ]
            },
        }
    }

    /// The question before something is deleted from the library: either answer
    /// closes whichever of its two popups is open, and yes deletes.
    pub open spec fn delete_confirmation_actions(self, snap: Snapshot, msg: Msg) -> Seq<Action> {
        match msg {
            Msg::DeleteConfirmShow => seq![Action::Do(Op::LibraryBeforeDelete)],
            Msg::DeleteConfirmCloseCancel => {
                let s = if snap.mounted.delete_confirm_radio_popup {
                    seq![Action::Umount(Id::DeleteConfirmRadioPopup)]
                } else {
                    Seq::<Action>::empty()
                };
                if snap.mounted.delete_confirm_input_popup {
                    s.push(Action::Umount(Id::DeleteConfirmInputPopup))
                } else {
                    s
                }
            },
            Msg::DeleteConfirmCloseOk => {
                let s = if snap.mounted.delete_confirm_radio_popup {
                    seq![Action::Umount(Id::DeleteConfirmRadioPopup)]
                } else {
                    Seq::<Action>::empty()
                };
                let s = if snap.mounted.delete_confirm_input_popup {
                    s.push(Action::Umount(Id::DeleteConfirmInputPopup))
                } else {
                    s
                };
                s.push(Action::Try(Op::LibraryDeleteNode, "library delete song"))
            },
            _ => Seq::<Action>::empty(),
        }
    }

    /// The playlist: its keys queue, delete, reorder and play; cycling the loop
    /// mode goes to the player as a command and into the configuration; after a
    /// swap the player is told the new order.
    pub open spec fn playlist_actions(self, snap: Snapshot, msg: PLMsg) -> Seq<Action> {
        match msg {
            PLMsg::Add(current_node) => {
                seq![Action::Try(Op::PlaylistAdd(current_node), "playlist add")]
            },
            PLMsg::Delete(index) => seq![Action::Do(Op::PlaylistDeleteItem(index))],
            PLMsg::DeleteAll => seq![Action::Do(Op::PlaylistClear)],
            PLMsg::Shuffle => seq![Action::Do(Op::PlaylistShuffle)],
            PLMsg::PlaySelected(index) => seq![Action::Do(Op::PlaylistPlaySelected(index))],
            PLMsg::LoopModeCycle => {
                seq![
                    Action::Command(PlayerCmd::CycleLoopMode),
                    Action::Do(Op::StoreLoopMode),
                    Action::Do(Op::PlaylistUpdateTitle),
                ]
            },
            PLMsg::PlaylistTableBlurDown => {
                if self.layout == TermusicLayout::TreeView {
                    seq![Action::ActiveStrict(Id::Library)]
                } else {
                    if self.layout == TermusicLayout::DataBase {
                        seq![Action::ActiveStrict(Id::DBListCriteria)]
                    } else {
                        seq![Action::ActiveStrict(Id::Lyric)]
                    }
                }
            },
            PLMsg::NextSong => seq![Action::Command(PlayerCmd::SkipNext)],
            PLMsg::PrevSong => seq![Action::Do(Op::PlayerPrevious)],
            PLMsg::SwapDown(index) => {
                seq![
                    Action::Do(Op::PlaylistSwapDown(index)),
                    Action::Do(Op::PlaylistSync),
                    Action::Try(Op::PlayerSyncPlaylist, "playlist sync playlist"),
                ]
            },
            PLMsg::SwapUp(index) => {
                seq![
                    Action::Do(Op::PlaylistSwapUp(index)),
                    Action::Do(Op::PlaylistSync),
                    Action::Try(Op::PlayerSyncPlaylist, "playlist sync playlist"),
                ]
            },
            PLMsg::AddRandomAlbum => seq![Action::Do(Op::PlaylistAddRandomAlbum)],
            PLMsg::AddRandomTracks => seq![Action::Do(Op::PlaylistAddRandomTracks)],
            PLMsg::PlaylistTableBlurUp => {
                if self.layout == TermusicLayout::TreeView {
                    seq![Action::ActiveStrict(Id::Library)]
                } else {
                    if self.layout == TermusicLayout::DataBase {
                        seq![Action::ActiveStrict(Id::DBListSearchTracks)]
                    } else {
                        seq![Action::ActiveStrict(Id::Episode)]
                    }
                }
            },
        }
    }

    /// What a download reports: it is counted as running at its start and
    /// counted down at its end, and its outcome is shown. A finished download
    /// reloads the library unless others are still running.
    pub open spec fn download_msg_actions(self, snap: Snapshot, msg: DLMsg) -> Seq<Action> {
        match msg {
            DLMsg::DownloadRunning(url, title) => {
                seq![
                    Action::Do(Op::TrackerIncrease(url)),
                    Action::Message(TrackerMessage::DownloadStart(title)),
                ]
            },
            DLMsg::DownloadSuccess(url) => {
                let s = seq![
                    Action::Do(Op::TrackerDecrease(url)),
                    Action::Message(TrackerMessage::DownloadComplete),
                ];
                if snap.mounted.tag_editor_label_hint {
                    s.push(Action::Do(Op::UmountTagEditor))
                } else {
                    s
                }
            },
            DLMsg::DownloadCompleted(_, file) => {
                if !snap.tracker_visible {
                    seq![Action::Do(Op::LibraryReloadWithNodeFocus(file))]
                } else {
                    Seq::<Action>::empty()
                }
            },
            DLMsg::DownloadErrDownload(url, title, error_message) => {
                seq![
                    Action::Do(Op::TrackerDecrease(url)),
                    Action::ErrorPopup(ErrorText::DownloadFailed(error_message)),
                    Action::Message(TrackerMessage::DownloadErrorResponse(title)),
                ]
            },
            DLMsg::DownloadErrEmbedData(_, title) => {
                seq![
                    Action::ErrorPopup(ErrorText::TagInfoIncomplete),
                    Action::Message(TrackerMessage::DownloadErrorEmbedData(title)),
                ]
            },
            DLMsg::MessageShow(title, text) => seq![Action::Do(Op::MountMessage(title, text))],
            DLMsg::MessageHide(title, text) => seq![Action::Do(Op::UmountMessage(title, text))],
            DLMsg::YoutubeSearchSuccess => {
                seq![
                    Action::Do(Op::StoreYoutubeOptions),
                    Action::Do(Op::SyncYoutubeOptions),
                ]
            },
            DLMsg::YoutubeSearchFail(e) => {
                seq![Action::ErrorPopup(ErrorText::YoutubeSearchFail(e))]
            },
            DLMsg::FetchPhotoSuccess => seq![Action::Do(Op::ShowImage)],
            DLMsg::FetchPhotoErr(err_text) => seq![Action::SayText(err_text)],
        }
    }

    /// The layout that a message leads to.
    pub open spec fn layout_after(self, msg: Msg) -> TermusicLayout {
        match msg {
            Msg::LayoutDataBase => TermusicLayout::DataBase,
            Msg::LayoutTreeView => TermusicLayout::TreeView,
            Msg::LayoutPodCast => TermusicLayout::Podcast,
            _ => self.layout,
        }
    }

    /// What is kept after a message: the screen is to be drawn anew; the
    /// layout is the one that the message asks for, if it asks for one; the
    /// program is to end once leaving was confirmed, or asked for where it
    /// needs no confirmation.
    pub open spec fn after(self, snap: Snapshot, msg: Option<Msg>) -> Model {
        match msg {
            Some(m) => Model {
                redraw: true,
                quit: self.quit || m == Msg::QuitPopupCloseOk || (m == Msg::QuitPopupShow
                    && !snap.confirm_quit),
                layout: self.layout_after(m),
            },
            None => self,
        }
    }

    /// The steps that a message asks for, in order. Without a message
    /// nothing is done.
    pub open spec fn update_actions(self, snap: Snapshot, msg: Option<Msg>) -> Seq<Action> {
        match msg {
            Some(m) => self.message_actions(snap, m),
            None => Seq::<Action>::empty(),
        }
    }

    /// The steps that a message asks for, in order.
    pub open spec fn message_actions(self, snap: Snapshot, msg: Msg) -> Seq<Action> {
        match msg {
            Msg::ConfigEditor(m) => seq![Action::ConfigEditor(m)],
            Msg::DataBase(m) => self.database_list_actions(snap, m),
            Msg::DeleteConfirmShow
            | Msg::DeleteConfirmCloseCancel
            | Msg::DeleteConfirmCloseOk => self.delete_confirmation_actions(snap, msg),
            Msg::ErrorPopupClose => {
                if snap.mounted.error_popup {
                    seq![Action::Do(Op::UmountErrorPopup)]
                } else {
                    Seq::<Action>::empty()
                }
            },
            Msg::QuitPopupShow => {
                if snap.confirm_quit {
                    seq![Action::Do(Op::MountQuitPopup)]
                } else {
                    Seq::<Action>::empty()
                }
            },
            Msg::QuitPopupCloseCancel => seq![Action::Umount(Id::QuitPopup)],
            Msg::QuitPopupCloseOk => Seq::<Action>::empty(),
            Msg::Library(m) => self.library_actions(snap, m),
            Msg::GeneralSearch(m) => self.general_search_actions(snap, m),
            Msg::Playlist(m) => self.playlist_actions(snap, m),
            Msg::PlayerTogglePause
            | Msg::PlayerToggleGapless
            | Msg::PlayerSpeedUp
            | Msg::PlayerSpeedDown
            | Msg::PlayerVolumeUp
            | Msg::PlayerVolumeDown
            | Msg::PlayerSeekForward
            | Msg::PlayerSeekBackward => self.player_actions(snap, msg),
            Msg::HelpPopupShow => seq![Action::Do(Op::MountHelpPopup)],
            Msg::HelpPopupClose => {
                let s = if snap.mounted.help_popup {
                    seq![Action::Umount(Id::HelpPopup)]
                } else {
                    Seq::<Action>::empty()
                };
                s.push(Action::Do(Op::UpdatePhoto))
            },
            Msg::YoutubeSearch(m) => self.youtube_search_actions(snap, m),
            Msg::LyricCycle => seq![Action::Do(Op::LyricCycle)],
            Msg::LyricAdjustDelay(offset) => seq![Action::Do(Op::LyricAdjustDelay(offset))],
            Msg::TagEditor => seq![Action::Do(Op::UpdateTagEditor)],
            Msg::UpdatePhoto => seq![Action::Try(Op::UpdatePhoto, "update_photo")],
            Msg::LayoutDataBase
            | Msg::LayoutTreeView
            | Msg::LayoutPodCast => self.layout_actions(snap, msg),
            Msg::Nothing => Seq::<Action>::empty(),
            Msg::SavePlaylistPopupShow => {
                seq![Action::Try(Op::MountSavePlaylist, "mount save playlist")]
            },
            Msg::SavePlaylistPopupCloseCancel => seq![Action::Do(Op::UmountSavePlaylist)],
            Msg::SavePlaylistPopupCloseOk(filename) => {
                seq![
                    Action::Do(Op::UmountSavePlaylist),
                    Action::Try(Op::PlaylistSaveM3uBefore(filename), "save m3u playlist before"),
                ]
            },
            Msg::SavePlaylistPopupUpdate(filename) => {
                seq![
                    Action::Try(
                        Op::RemountSavePlaylistLabel(filename),
                        "remount save playlist label",
                    ),
                ]
            },
            Msg::SavePlaylistConfirmCloseCancel => {
                seq![Action::Do(Op::UmountSavePlaylistConfirm)]
            },
            Msg::SavePlaylistConfirmCloseOk(filename) => {
                seq![
                    Action::Try(Op::PlaylistSaveM3u(filename), "save m3u playlist"),
                    Action::Do(Op::UmountSavePlaylistConfirm),
                ]
            },
            Msg::Podcast(m) => self.podcast_actions(snap, m),
            Msg::LyricMessage(m) => self.lyric_textarea_actions(snap, m),
            Msg::Download(m) => self.download_msg_actions(snap, m),
            Msg::Xywh(m) => self.xywh_msg_actions(snap, m),
            Msg::KeyEditor(_) => Seq::<Action>::empty(),
        }
    }

    /// The steps that keep the popup that asks before leaving on top: while
    /// it is on the screen and has not the focus, it gets the focus.
    pub open spec fn quit_popup_actions(snap: Snapshot) -> Seq<Action> {
        if snap.mounted.quit_popup && snap.focus != Some(Id::QuitPopup) {
            seq![Action::Active(Id::QuitPopup)]
        } else {
            Seq::<Action>::empty()
        }
    }

    /// The text of the notice of what is playing: the title of an episode
    /// in the podcast layout, else the name of the song.
    pub open spec fn playing_text(self, track: Track) -> Seq<char> {
        if self.layout == TermusicLayout::Podcast {
            match track@.title {
                Some(t) => t,
                None => "Unknown Episode"@,
            }
        } else {
            match track@.name {
                Some(n) => n,
                None => "Unknown Song"@,
            }
        }
    }

    /// The message that changes the layout to fit the kind of the current
    /// track: to the podcasts for an episode, away from them, to the tree,
    /// for anything else. `None` where the layout fits already.
    pub open spec fn layout_for(self, media_type: Option<MediaType>) -> Option<Msg> {
        match media_type {
            Some(MediaType::Podcast) => if self.layout == TermusicLayout::Podcast {
                None
            } else {
                Some(Msg::LayoutPodCast)
            },
            Some(_) => if self.layout == TermusicLayout::Podcast {
                Some(Msg::LayoutTreeView)
            } else {
                None
            },
            None => None,
        }
    }

    pub fn new(layout: TermusicLayout) -> (r: Model)
        ensures
            r == (Model { redraw: true, quit: false, layout }),
    {
        Model { redraw: true, quit: false, layout }
    }

    /// Takes a message: see [`Model::after`] and [`Model::update_actions`].
    pub fn update(&mut self, snap: &Snapshot, msg: Option<Msg>) -> (acts: Vec<Action>)
        ensures
            acts@ == old(self).update_actions(*snap, msg),
            *final(self) == old(self).after(*snap, msg),
    {
        let msg = match &msg {
            Some(m) => m,
            None => {
                return Vec::new();
            },
        };
        self.redraw = true;
        match msg {
            Msg::QuitPopupCloseOk => {
                self.quit = true;
            },
            Msg::QuitPopupShow => {
                if !snap.confirm_quit {
                    self.quit = true;
                }
            },
            _ => {},
        }
        match msg {
            Msg::ConfigEditor(m) => {
                let mut acts: Vec<Action> = Vec::new();
                acts.push(Action::ConfigEditor(*m));
                acts
            },
            Msg::DataBase(m) => self.update_database_list(snap, m),
            Msg::DeleteConfirmShow
            | Msg::DeleteConfirmCloseCancel
            | Msg::DeleteConfirmCloseOk => self.update_delete_confirmation(snap, msg),
            Msg::ErrorPopupClose => {
                let mut acts: Vec<Action> = Vec::new();
                if snap.mounted.error_popup {
                    acts.push(Action::Do(Op::UmountErrorPopup));
                }
                acts
            },
            Msg::QuitPopupShow => {
                let mut acts: Vec<Action> = Vec::new();
                if snap.confirm_quit {
                    acts.push(Action::Do(Op::MountQuitPopup));
                }
                acts
            },
            Msg::QuitPopupCloseCancel => {
                let mut acts: Vec<Action> = Vec::new();
                acts.push(Action::Umount(Id::QuitPopup));
                acts
            },
            Msg::QuitPopupCloseOk => {
                let mut acts: Vec<Action> = Vec::new();
                acts
            },
            Msg::Library(m) => self.update_library(snap, m),
            Msg::GeneralSearch(m) => self.update_general_search(snap, m),
            Msg::Playlist(m) => self.update_playlist(snap, m),
            Msg::PlayerTogglePause
            | Msg::PlayerToggleGapless
            | Msg::PlayerSpeedUp
            | Msg::PlayerSpeedDown
            | Msg::PlayerVolumeUp
            | Msg::PlayerVolumeDown
            | Msg::PlayerSeekForward
            | Msg::PlayerSeekBackward => self.update_player(snap, msg),
            Msg::HelpPopupShow => {
                let mut acts: Vec<Action> = Vec::new();
                acts.push(Action::Do(Op::MountHelpPopup));
                acts
            },
            Msg::HelpPopupClose => {
                let mut acts: Vec<Action> = Vec::new();
                if snap.mounted.help_popup {
                    acts.push(Action::Umount(Id::HelpPopup));
                }
                acts.push(Action::Do(Op::UpdatePhoto));
                acts
            },
            Msg::YoutubeSearch(m) => self.update_youtube_search(snap, m),
            Msg::LyricCycle => {
                let mut acts: Vec<Action> = Vec::new();
                acts.push(Action::Do(Op::LyricCycle));
                acts
            },
            Msg::LyricAdjustDelay(offset) => {
                let mut acts: Vec<Action> = Vec::new();
                acts.push(Action::Do(Op::LyricAdjustDelay(*offset)));
                acts
            },
            Msg::TagEditor => {
                let mut acts: Vec<Action> = Vec::new();
                acts.push(Action::Do(Op::UpdateTagEditor));
                acts
            },
            Msg::UpdatePhoto => {
                let mut acts: Vec<Action> = Vec::new();
                acts.push(Action::Try(Op::UpdatePhoto, "update_photo"));
                acts
            },
            Msg::LayoutDataBase
            | Msg::LayoutTreeView
            | Msg::LayoutPodCast => self.update_layout(snap, msg),
            Msg::Nothing => {
                let mut acts: Vec<Action> = Vec::new();
                acts
            },
            Msg::SavePlaylistPopupShow => {
                let mut acts: Vec<Action> = Vec::new();
                acts.push(Action::Try(Op::MountSavePlaylist, "mount save playlist"));
                acts
            },
            Msg::SavePlaylistPopupCloseCancel => {
                let mut acts: Vec<Action> = Vec::new();
                acts.push(Action::Do(Op::UmountSavePlaylist));
                acts
            },
            Msg::SavePlaylistPopupCloseOk(filename) => {
                let mut acts: Vec<Action> = Vec::new();
                acts.push(Action::Do(Op::UmountSavePlaylist));
                acts.push(
                    Action::Try(
                        Op::PlaylistSaveM3uBefore(filename.clone()),
                        "save m3u playlist before",
                    ),
                );
                acts
            },
            Msg::SavePlaylistPopupUpdate(filename) => {
                let mut acts: Vec<Action> = Vec::new();
                acts.push(
                    Action::Try(
                        Op::RemountSavePlaylistLabel(filename.clone()),
                        "remount save playlist label",
                    ),
                );
                acts
            },
            Msg::SavePlaylistConfirmCloseCancel => {
                let mut acts: Vec<Action> = Vec::new();
                acts.push(Action::Do(Op::UmountSavePlaylistConfirm));
                acts
            },
            Msg::SavePlaylistConfirmCloseOk(filename) => {
                let mut acts: Vec<Action> = Vec::new();
                acts.push(Action::Try(Op::PlaylistSaveM3u(filename.clone()), "save m3u playlist"));
                acts.push(Action::Do(Op::UmountSavePlaylistConfirm));
                acts
            },
            Msg::Podcast(m) => self.update_podcast(snap, m),
            Msg::LyricMessage(m) => self.update_lyric_textarea(snap, m),
            Msg::Download(m) => self.update_download_msg(snap, m),
            Msg::Xywh(m) => self.update_xywh_msg(snap, m),
            Msg::KeyEditor(_) => {
                let mut acts: Vec<Action> = Vec::new();
                acts
            },
        }
    }

    /// Keeps the popup that asks before leaving on top.
    pub fn ensure_quit_popup_top_most_focus(&self, snap: &Snapshot) -> (acts: Vec<Action>)
        ensures
            acts@ == Model::quit_popup_actions(*snap),
    {
        let mut acts: Vec<Action> = Vec::new();
        let on_top = match snap.focus {
            Some(Id::QuitPopup) => true,
            _ => false,
        };
        if snap.mounted.quit_popup && !on_top {
            acts.push(Action::Active(Id::QuitPopup));
        }
        acts
    }

    /// A change of the layout: see [`Model::layout_actions`].
    pub fn update_layout(&mut self, snap: &Snapshot, msg: &Msg) -> (acts: Vec<Action>)
        ensures
            acts@ == old(self).layout_actions(*snap, *msg),
            *final(self) == (Model { layout: old(self).layout_after(*msg), ..*old(self) }),
    {
        let mut acts: Vec<Action> = Vec::new();
        match msg {
            Msg::LayoutDataBase => {
                let focused = match snap.focus {
                    Some(Id::DBListCriteria) | Some(Id::DBListSearchResult) | Some(
                        Id::DBListSearchTracks,
                    ) | Some(Id::Playlist) => true,
                    _ => false,
                };
                if !focused {
                    acts.push(Action::Active(Id::DBListCriteria));
                }
                self.layout = TermusicLayout::DataBase;
                acts.push(Action::Do(Op::PlaylistSwitchLayout));
                proof {
                    let lists = Model::layout_lists(TermusicLayout::DataBase);
                    assert(lists[0] == Id::DBListCriteria && lists[1] == Id::DBListSearchResult
                        && lists[2] == Id::DBListSearchTracks && lists[3] == Id::Playlist);
                    assert(acts@ =~= Model::enter_layout(*snap, TermusicLayout::DataBase));
                }
            },
            Msg::LayoutTreeView => {
                let focused = match snap.focus {
                    Some(Id::Playlist) | Some(Id::Library) => true,
                    _ => false,
                };
                if !focused {
                    acts.push(Action::Active(Id::Library));
                }
                self.layout = TermusicLayout::TreeView;
                acts.push(Action::Do(Op::PlaylistSwitchLayout));
                proof {
                    let lists = Model::layout_lists(TermusicLayout::TreeView);
                    assert(lists[0] == Id::Library && lists[1] == Id::Playlist);
                    assert(acts@ =~= Model::enter_layout(*snap, TermusicLayout::TreeView));
                }
            },
            Msg::LayoutPodCast => {
                let focused = match snap.focus {
                    Some(Id::Podcast) | Some(Id::Episode) | Some(Id::Playlist) | Some(
                        Id::Lyric,
                    ) => true,
                    _ => false,
                };
                if !focused {
                    acts.push(Action::Active(Id::Podcast));
                }
                self.layout = TermusicLayout::Podcast;
                acts.push(Action::Do(Op::PodcastSyncFeedsAndEpisodes));
                acts.push(Action::Do(Op::PlaylistSwitchLayout));
                proof {
                    let lists = Model::layout_lists(TermusicLayout::Podcast);
                    assert(lists[0] == Id::Podcast && lists[1] == Id::Episode && lists[2]
                        == Id::Playlist && lists[3] == Id::Lyric);
                    assert(acts@ =~= Model::enter_layout(*snap, TermusicLayout::Podcast));
                }
            },
            _ => {},
        }
        acts
    }

    /// Moves, zooms or hides the cover picture.
    pub fn update_xywh_msg(&self, snap: &Snapshot, msg: &XYWHMsg) -> (acts: Vec<Action>)
        ensures
            acts@ == self.xywh_msg_actions(*snap, *msg),
    {
        let mut acts: Vec<Action> = Vec::new();
        match msg {
            XYWHMsg::MoveLeft => {
                acts.push(Action::Do(Op::XywhMoveLeft));
            },
            XYWHMsg::MoveRight => {
                acts.push(Action::Do(Op::XywhMoveRight));
            },
            XYWHMsg::MoveUp => {
                acts.push(Action::Do(Op::XywhMoveUp));
            },
            XYWHMsg::MoveDown => {
                acts.push(Action::Do(Op::XywhMoveDown));
            },
            XYWHMsg::ZoomIn => {
                acts.push(Action::Do(Op::XywhZoomIn));
            },
            XYWHMsg::ZoomOut => {
                acts.push(Action::Do(Op::XywhZoomOut));
            },
            XYWHMsg::Hide => {
                acts.push(Action::Do(Op::XywhToggleHide));
            },
        }
        acts
    }

    /// Moves the focus from the lyric area: up to the playlist, down to the
    /// first list of the layout.
    pub fn update_lyric_textarea(&self, snap: &Snapshot, msg: &LyricMsg) -> (acts: Vec<Action>)
        ensures
            acts@ == self.lyric_textarea_actions(*snap, *msg),
    {
        let mut acts: Vec<Action> = Vec::new();
        match msg {
            LyricMsg::LyricTextAreaBlurUp => {
                acts.push(Action::Active(Id::Playlist));
            },
            LyricMsg::LyricTextAreaBlurDown => {
                if self.layout == TermusicLayout::TreeView {
                    acts.push(Action::Active(Id::Library));
                } else {
                    if self.layout == TermusicLayout::DataBase {
                        acts.push(Action::Active(Id::DBListCriteria));
                    } else {
                        acts.push(Action::Active(Id::Podcast));
                    }
                }
            },
        }
        acts
    }

    /// The podcasts: focus between the lists, the popups to add and to delete
    /// feeds, and what a fetch or a download reports. Whatever is counted as
    /// running is counted down before its outcome is shown.
    pub fn update_podcast(&self, snap: &Snapshot, msg: &PCMsg) -> (acts: Vec<Action>)
        ensures
            acts@ == self.podcast_actions(*snap, *msg),
    {
        let mut acts: Vec<Action> = Vec::new();
        match msg {
            PCMsg::PodcastBlurDown => {
                acts.push(Action::Active(Id::Episode));
            },
            PCMsg::PodcastBlurUp => {
                acts.push(Action::Active(Id::Lyric));
            },
            PCMsg::EpisodeBlurDown => {
                acts.push(Action::Active(Id::Playlist));
            },
            PCMsg::EpisodeBlurUp => {
                acts.push(Action::Active(Id::Podcast));
            },
            PCMsg::PodcastAddPopupShow => {
                acts.push(Action::Do(Op::MountPodcastAddPopup));
            },
            PCMsg::PodcastAddPopupCloseOk(url) => {
                acts.push(Action::Do(Op::UmountPodcastAddPopup));
                if starts_with(url.as_str(), "http") {
                    acts.push(Action::Do(Op::PodcastAdd(url.clone())));
                } else {
                    acts.push(Action::Do(Op::PodcastSearchItunes(url.clone())));
                    acts.push(Action::Do(Op::MountPodcastSearchTable));
                }
            },
            PCMsg::PodcastAddPopupCloseCancel => {
                acts.push(Action::Do(Op::UmountPodcastAddPopup));
            },
            PCMsg::SyncData(id, url) => {
                acts.push(Action::Do(Op::TrackerDecrease(url.clone())));
                acts.push(Action::Message(TrackerMessage::SyncSuccess));
                acts.push(Action::Try(Op::AddOrSyncData(Some(*id)), "add or sync data"));
            },
            PCMsg::NewData(url) => {
                acts.push(Action::Do(Op::TrackerDecrease(url.clone())));
                acts.push(Action::Message(TrackerMessage::FeedsAdded));
                acts.push(Action::Try(Op::AddOrSyncData(None), "add or sync data"));
            },
            PCMsg::Error(url) => {
                acts.push(Action::Do(Op::TrackerDecrease(url.clone())));
                acts.push(Action::ErrorPopup(ErrorText::FeedFailed));
                acts.push(Action::Message(TrackerMessage::FeedSyncFailed));
            },
            PCMsg::PodcastSelected(index) => {
                acts.push(Action::Do(Op::SelectPodcast(*index)));
                acts.push(Action::Try(Op::PodcastSyncEpisodes, "podcast sync episodes"));
            },
            PCMsg::DescriptionUpdate => {
                acts.push(Action::Do(Op::LyricUpdate));
            },
            PCMsg::EpisodeAdd(index) => {
                acts.push(
                    Action::Try(
                        Op::PlaylistAddEpisode(*index),
                        "podcast playlist add episode",
                    ),
                );
            },
            PCMsg::EpisodeMarkPlayed(index) => {
                acts.push(
                    Action::Try(
                        Op::EpisodeMarkPlayed(*index),
                        "podcast episode mark played",
                    ),
                );
            },
            PCMsg::EpisodeMarkAllPlayed => {
                acts.push(Action::Try(Op::EpisodeMarkAllPlayed, "podcast episode mark all played"));
            },
            PCMsg::PodcastRefreshOne(index) => {
                acts.push(
                    Action::Try(
                        Op::PodcastRefreshFeeds(Some(*index)),
                        "podcast refresh feeds one",
                    ),
                );
            },
            PCMsg::PodcastRefreshAll => {
                acts.push(Action::Try(Op::PodcastRefreshFeeds(None), "podcast refresh feeds all"));
            },
            PCMsg::FetchPodcastStart(url) => {
                acts.push(Action::Do(Op::TrackerIncrease(url.clone())));
                acts.push(Action::Message(TrackerMessage::SyncStart));
            },
            PCMsg::EpisodeDownload(index) => {
                acts.push(Action::Try(Op::EpisodeDownload(*index), "podcast episode download"));
            },
            PCMsg::DLStart(ep_data) => {
                acts.push(Action::Do(Op::TrackerIncrease(ep_data.url.clone())));
                acts.push(Action::Message(TrackerMessage::DownloadStart(ep_data.title.clone())));
            },
            PCMsg::DLComplete(ep_data) => {
                acts.push(
                    Action::Try(
                        Op::EpisodeDownloadComplete,
                        "podcast episode download complete",
                    ),
                );
                acts.push(Action::Do(Op::TrackerDecrease(ep_data.url.clone())));
                acts.push(Action::Message(TrackerMessage::DownloadComplete));
            },
            PCMsg::DLResponseError(ep_data) => {
                acts.push(Action::Do(Op::TrackerDecrease(ep_data.url.clone())));
                acts.push(
                    Action::ErrorPopup(ErrorText::EpisodeDownloadFailed(ep_data.title.clone())),
                );
                acts.push(
                    Action::Message(TrackerMessage::DownloadErrorResponse(ep_data.title.clone())),
                );
            },
            PCMsg::DLFileCreateError(ep_data) => {
                acts.push(Action::Do(Op::TrackerDecrease(ep_data.url.clone())));
                acts.push(
                    Action::ErrorPopup(ErrorText::EpisodeDownloadFailed(ep_data.title.clone())),
                );
                acts.push(
                    Action::Message(TrackerMessage::DownloadErrorFileCreate(ep_data.title.clone())),
                );
            },
            PCMsg::DLFileWriteError(ep_data) => {
                acts.push(Action::Do(Op::TrackerDecrease(ep_data.url.clone())));
                acts.push(
                    Action::ErrorPopup(ErrorText::EpisodeDownloadFailed(ep_data.title.clone())),
                );
                acts.push(
                    Action::Message(TrackerMessage::DownloadErrorFileWrite(ep_data.title.clone())),
                );
            },
            PCMsg::EpisodeDeleteFile(index) => {
                acts.push(Action::Try(Op::EpisodeDeleteFile(*index), "podcast episode delete"));
            },
            PCMsg::FeedDeleteShow => {
                acts.push(Action::Do(Op::MountFeedDeleteConfirmRadio));
            },
            PCMsg::FeedDeleteCloseOk => {
                acts.push(Action::Do(Op::UmountFeedDeleteConfirmRadio));
                acts.push(Action::Try(Op::PodcastRemoveFeed, "podcast remove feed"));
            },
            PCMsg::FeedDeleteCloseCancel => {
                acts.push(Action::Do(Op::UmountFeedDeleteConfirmRadio));
            },
            PCMsg::FeedsDeleteShow => {
                acts.push(Action::Do(Op::MountFeedDeleteConfirmInput));
            },
            PCMsg::FeedsDeleteCloseOk => {
                acts.push(Action::Do(Op::UmountFeedDeleteConfirmInput));
                acts.push(Action::Try(Op::PodcastRemoveAllFeeds, "podcast remove all feeds"));
            },
            PCMsg::FeedsDeleteCloseCancel => {
                acts.push(Action::Do(Op::UmountFeedDeleteConfirmInput));
            },
            PCMsg::SearchItunesCloseCancel => {
                acts.push(Action::Do(Op::UmountPodcastSearchTable));
            },
            PCMsg::SearchItunesCloseOk(index) => {
                if snap.has_result(*index) {
                    acts.push(Action::Do(Op::PodcastAddFound(*index)));
                }
            },
            PCMsg::SearchSuccess => {
                acts.push(Action::Do(Op::StoreSearchResults));
                acts.push(Action::Do(Op::UpdatePodcastSearchTable));
            },
            PCMsg::SearchError(e) => {
                acts.push(Action::ErrorPopup(ErrorText::Plain(e.clone())));
            },
        }
        acts
    }

    /// The keys of the player become commands of the player. A live radio
    /// cannot be sought in: that is said instead.
    pub fn update_player(&self, snap: &Snapshot, msg: &Msg) -> (acts: Vec<Action>)
        ensures
            acts@ == self.player_actions(*snap, *msg),
    {
        let mut acts: Vec<Action> = Vec::new();
        match msg {
            Msg::PlayerTogglePause => {
                acts.push(Action::Do(Op::PlayerTogglePause));
            },
            Msg::PlayerSeekForward => {
                if snap.is_radio {
                    acts.push(Action::Say("seek is not available for live radio"));
                } else {
                    acts.push(Action::Command(PlayerCmd::SeekForward));
                }
            },
            Msg::PlayerSeekBackward => {
                if snap.is_radio {
                    acts.push(Action::Say("seek is not available for live radio"));
                } else {
                    acts.push(Action::Command(PlayerCmd::SeekBackward));
                }
            },
            Msg::PlayerSpeedUp => {
                acts.push(Action::Command(PlayerCmd::SpeedUp));
            },
            Msg::PlayerSpeedDown => {
                acts.push(Action::Command(PlayerCmd::SpeedDown));
            },
            Msg::PlayerVolumeUp => {
                acts.push(Action::Command(PlayerCmd::VolumeUp));
            },
            Msg::PlayerVolumeDown => {
                acts.push(Action::Command(PlayerCmd::VolumeDown));
            },
            Msg::PlayerToggleGapless => {
                acts.push(Action::Command(PlayerCmd::ToggleGapless));
            },
            _ => {
            },
        }
        acts
    }

    /// The lists of the database view: the focus goes round criteria, results,
    /// tracks and playlist; a chosen track is queued if there is one at its
    /// place.
    pub fn update_database_list(&self, snap: &Snapshot, msg: &DBMsg) -> (acts: Vec<Action>)
        ensures
            acts@ == self.database_list_actions(*snap, *msg),
    {
        let mut acts: Vec<Action> = Vec::new();
        match msg {
            DBMsg::CriteriaBlurDown | DBMsg::SearchTracksBlurUp => {
                acts.push(Action::Active(Id::DBListSearchResult));
            },
            DBMsg::SearchResultBlurDown => {
                acts.push(Action::Active(Id::DBListSearchTracks));
            },
            DBMsg::SearchTracksBlurDown | DBMsg::CriteriaBlurUp => {
                acts.push(Action::Active(Id::Playlist));
            },
            DBMsg::SearchResultBlurUp => {
                acts.push(Action::Active(Id::DBListCriteria));
            },
            DBMsg::SearchResult(index) => {
                acts.push(Action::Do(Op::SetCriteria(*index)));
                acts.push(Action::Do(Op::DatabaseUpdateSearchResults));
            },
            DBMsg::SearchTrack(index) => {
                acts.push(Action::Do(Op::DatabaseUpdateSearchTracks(*index)));
            },
            DBMsg::AddPlaylist(index) => {
                if *index < snap.search_tracks {
                    acts.push(Action::Try(Op::PlaylistAddFound(*index), "playlist add"));
                }
            },
            DBMsg::AddAllToPlaylist => {
                acts.push(Action::Do(Op::PlaylistAddAllFromDb));
            },
        }
        acts
    }

    /// The tree of the library.
    pub fn update_library(&self, snap: &Snapshot, msg: &LIMsg) -> (acts: Vec<Action>)
        ensures
            acts@ == self.library_actions(*snap, *msg),
    {
        let mut acts: Vec<Action> = Vec::new();
        match msg {
            LIMsg::TreeBlur => {
                acts.push(Action::ActiveStrict(Id::Playlist));
            },
            LIMsg::TreeStepInto(path) => {
                acts.push(Action::Do(Op::LibraryStepInto(path.clone())));
            },
            LIMsg::TreeStepOut => {
                acts.push(Action::Do(Op::LibraryStepOut));
            },
            LIMsg::Yank => {
                acts.push(Action::Do(Op::LibraryYank));
            },
            LIMsg::Paste => {
                acts.push(Action::Try(Op::LibraryPaste, "library paste"));
            },
            LIMsg::SwitchRoot => {
                acts.push(Action::Do(Op::LibrarySwitchRoot));
            },
            LIMsg::AddRoot => {
                acts.push(Action::Try(Op::LibraryAddRoot, "library add root"));
            },
            LIMsg::RemoveRoot => {
                acts.push(Action::Try(Op::LibraryRemoveRoot, "library remove root"));
            },
        }
        acts
    }

    /// The search at the video service: what was typed is downloaded if it is
    /// an address and searched for if it is not.
    pub fn update_youtube_search(&self, snap: &Snapshot, msg: &YSMsg) -> (acts: Vec<Action>)
        ensures
            acts@ == self.youtube_search_actions(*snap, *msg),
    {
        let mut acts: Vec<Action> = Vec::new();
        match msg {
            YSMsg::InputPopupShow => {
                acts.push(Action::Do(Op::MountYoutubeSearchInput));
            },
            YSMsg::InputPopupCloseCancel => {
                if snap.mounted.youtube_search_input_popup {
                    acts.push(Action::UmountStrict(Id::YoutubeSearchInputPopup));
                }
            },
            YSMsg::InputPopupCloseOk(url) => {
                if snap.mounted.youtube_search_input_popup {
                    acts.push(Action::UmountStrict(Id::YoutubeSearchInputPopup));
                }
                if starts_with(url.as_str(), "http") {
                    acts.push(Action::Try(Op::YoutubeDl(url.clone()), "youtube-dl download"));
                } else {
                    acts.push(Action::Do(Op::MountYoutubeSearchTable));
                    acts.push(Action::Do(Op::YoutubeOptionsSearch(url.clone())));
                }
            },
            YSMsg::TablePopupCloseCancel => {
                acts.push(Action::Do(Op::UmountYoutubeSearchTablePopup));
            },
            YSMsg::TablePopupNext => {
                acts.push(Action::Do(Op::YoutubeOptionsNextPage));
            },
            YSMsg::TablePopupPrevious => {
                acts.push(Action::Do(Op::YoutubeOptionsPrevPage));
            },
            YSMsg::TablePopupCloseOk(index) => {
                acts.push(
                    Action::TryReload(
                        Op::YoutubeOptionsDownload(*index),
                        "youtube-dl options download",
                    ),
                );
            },
        }
        acts
    }

    /// The search popup: it opens with everything listed, lists anew for what
    /// is typed, and on closing does what it was opened for, closes its two
    /// parts and shows the cover again.
    pub fn update_general_search(&self, snap: &Snapshot, msg: &GSMsg) -> (acts: Vec<Action>)
        ensures
            acts@ == self.general_search_actions(*snap, *msg),
    {
        let mut acts: Vec<Action> = Vec::new();
        match msg {
            GSMsg::PopupShowDatabase => {
                acts.push(Action::Do(Op::MountSearchDatabase));
                acts.push(Action::Do(Op::DatabaseUpdateSearchAll));
            },
            GSMsg::PopupShowLibrary => {
                acts.push(Action::Do(Op::MountSearchLibrary));
                acts.push(Action::Do(Op::LibraryUpdateSearchAll));
            },
            GSMsg::PopupShowPlaylist => {
                acts.push(Action::Do(Op::MountSearchPlaylist));
                acts.push(Action::Do(Op::PlaylistUpdateSearchAll));
            },
            GSMsg::PopupShowEpisode => {
                acts.push(Action::Do(Op::MountSearchEpisode));
                acts.push(Action::Do(Op::EpisodeUpdateSearchAll));
            },
            GSMsg::PopupShowPodcast => {
                acts.push(Action::Do(Op::MountSearchPodcast));
                acts.push(Action::Do(Op::PodcastUpdateSearchAll));
            },
            GSMsg::PopupUpdateLibrary(input) => {
                acts.push(Action::Do(Op::LibraryUpdateSearch(input.clone())));
            },
            GSMsg::PopupUpdatePlaylist(input) => {
                acts.push(Action::Do(Op::PlaylistUpdateSearch(input.clone())));
            },
            GSMsg::PopupUpdateDatabase(input) => {
                acts.push(Action::Do(Op::DatabaseUpdateSearch(input.clone())));
            },
            GSMsg::InputBlur => {
                if snap.mounted.general_search_table {
                    acts.push(Action::Active(Id::GeneralSearchTable));
                }
            },
            GSMsg::TableBlur => {
                if snap.mounted.general_search_input {
                    acts.push(Action::Active(Id::GeneralSearchInput));
                }
            },
            GSMsg::PopupCloseCancel => {
                acts.push(Action::Umount(Id::GeneralSearchInput));
                acts.push(Action::Umount(Id::GeneralSearchTable));
                acts.push(Action::Try(Op::UpdatePhoto, "update_photo"));
            },
            GSMsg::PopupCloseLibraryAddPlaylist => {
                acts.push(Action::Try(Op::GeneralSearchAfterLibraryAddPlaylist, "general search"));
            },
            GSMsg::PopupCloseOkLibraryLocate => {
                acts.push(Action::Do(Op::GeneralSearchAfterLibrarySelect));
                acts.push(Action::Umount(Id::GeneralSearchInput));
                acts.push(Action::Umount(Id::GeneralSearchTable));
                acts.push(Action::Try(Op::UpdatePhoto, "update_photo"));
            },
            GSMsg::PopupClosePlaylistPlaySelected => {
                acts.push(Action::Do(Op::GeneralSearchAfterPlaylistPlaySelected));
                acts.push(Action::Umount(Id::GeneralSearchInput));
                acts.push(Action::Umount(Id::GeneralSearchTable));
                acts.push(Action::Try(Op::UpdatePhoto, "update_photo"));
            },
            GSMsg::PopupCloseOkPlaylistLocate => {
                acts.push(Action::Do(Op::GeneralSearchAfterPlaylistSelect));
                acts.push(Action::Umount(Id::GeneralSearchInput));
                acts.push(Action::Umount(Id::GeneralSearchTable));
                acts.push(Action::Try(Op::UpdatePhoto, "update_photo"));
            },
            GSMsg::PopupCloseDatabaseAddPlaylist => {
                acts.push(
                    Action::Try(
                        Op::GeneralSearchAfterDatabaseAddPlaylist,
                        "add to playlist from database search",
                    ),
                );
            },
            GSMsg::PopupCloseEpisodeAddPlaylist => {
                acts.push(
                    Action::Try(
                        Op::GeneralSearchAfterEpisodeAddPlaylist,
                        "add to playlist from episode search",
                    ),
                );
            },
            GSMsg::PopupCloseOkEpisodeLocate => {
                acts.push(
                    Action::Try(
                        Op::GeneralSearchAfterEpisodeSelect,
                        "general search after episode select",
                    ),
                );
                acts.push(Action::Umount(Id::GeneralSearchInput));
                acts.push(Action::Umount(Id::GeneralSearchTable));
                acts.push(Action::Do(Op::PodcastFocusEpisodeList));
                acts.push(Action::Try(Op::UpdatePhoto, "update_photo"));
            },
            GSMsg::PopupUpdateEpisode(input) => {
                acts.push(Action::Do(Op::EpisodeUpdateSearch(input.clone())));
            },
            GSMsg::PopupUpdatePodcast(input) => {
                acts.push(Action::Do(Op::PodcastUpdateSearch(input.clone())));
            },
            GSMsg::PopupCloseOkPodcastLocate => {
                acts.push(
                    Action::Try(
                        Op::GeneralSearchAfterPodcastSelect,
                        "general search after podcast select",
                    ),
                );
                acts.push(Action::Umount(Id::GeneralSearchInput));
                acts.push(Action::Umount(Id::GeneralSearchTable));
                acts.push(Action::Do(Op::PodcastFocusPodcastList));
                acts.push(Action::Try(Op::UpdatePhoto, "update_photo"));
            },
        }
        acts
    }

    /// The question before something is deleted from the library: either answer
    /// closes whichever of its two popups is open, and yes deletes.
    pub fn update_delete_confirmation(&self, snap: &Snapshot, msg: &Msg) -> (acts: Vec<Action>)
        ensures
            acts@ == self.delete_confirmation_actions(*snap, *msg),
    {
        let mut acts: Vec<Action> = Vec::new();
        match msg {
            Msg::DeleteConfirmShow => {
                acts.push(Action::Do(Op::LibraryBeforeDelete));
            },
            Msg::DeleteConfirmCloseCancel => {
                if snap.mounted.delete_confirm_radio_popup {
                    acts.push(Action::Umount(Id::DeleteConfirmRadioPopup));
                }
                if snap.mounted.delete_confirm_input_popup {
                    acts.push(Action::Umount(Id::DeleteConfirmInputPopup));
                }
            },
            Msg::DeleteConfirmCloseOk => {
                if snap.mounted.delete_confirm_radio_popup {
                    acts.push(Action::Umount(Id::DeleteConfirmRadioPopup));
                }
                if snap.mounted.delete_confirm_input_popup {
                    acts.push(Action::Umount(Id::DeleteConfirmInputPopup));
                }
                acts.push(Action::Try(Op::LibraryDeleteNode, "library delete song"));
            },
            _ => {
            },
        }
        acts
    }

    /// The playlist: its keys queue, delete, reorder and play; cycling the loop
    /// mode goes to the player as a command and into the configuration; after a
    /// swap the player is told the new order.
    pub fn update_playlist(&self, snap: &Snapshot, msg: &PLMsg) -> (acts: Vec<Action>)
        ensures
            acts@ == self.playlist_actions(*snap, *msg),
    {
        let mut acts: Vec<Action> = Vec::new();
        match msg {
            PLMsg::Add(current_node) => {
                acts.push(Action::Try(Op::PlaylistAdd(current_node.clone()), "playlist add"));
            },
            PLMsg::Delete(index) => {
                acts.push(Action::Do(Op::PlaylistDeleteItem(*index)));
            },
            PLMsg::DeleteAll => {
                acts.push(Action::Do(Op::PlaylistClear));
            },
            PLMsg::Shuffle => {
                acts.push(Action::Do(Op::PlaylistShuffle));
            },
            PLMsg::PlaySelected(index) => {
                acts.push(Action::Do(Op::PlaylistPlaySelected(*index)));
            },
            PLMsg::LoopModeCycle => {
                acts.push(Action::Command(PlayerCmd::CycleLoopMode));
                acts.push(Action::Do(Op::StoreLoopMode));
                acts.push(Action::Do(Op::PlaylistUpdateTitle));
            },
            PLMsg::PlaylistTableBlurDown => {
                if self.layout == TermusicLayout::TreeView {
                    acts.push(Action::ActiveStrict(Id::Library));
                } else {
                    if self.layout == TermusicLayout::DataBase {
                        acts.push(Action::ActiveStrict(Id::DBListCriteria));
                    } else {
                        acts.push(Action::ActiveStrict(Id::Lyric));
                    }
                }
            },
            PLMsg::NextSong => {
                acts.push(Action::Command(PlayerCmd::SkipNext));
            },
            PLMsg::PrevSong => {
                acts.push(Action::Do(Op::PlayerPrevious));
            },
            PLMsg::SwapDown(index) => {
                acts.push(Action::Do(Op::PlaylistSwapDown(*index)));
                acts.push(Action::Do(Op::PlaylistSync));
                acts.push(Action::Try(Op::PlayerSyncPlaylist, "playlist sync playlist"));
            },
            PLMsg::SwapUp(index) => {
                acts.push(Action::Do(Op::PlaylistSwapUp(*index)));
                acts.push(Action::Do(Op::PlaylistSync));
                acts.push(Action::Try(Op::PlayerSyncPlaylist, "playlist sync playlist"));
            },
            PLMsg::AddRandomAlbum => {
                acts.push(Action::Do(Op::PlaylistAddRandomAlbum));
            },
            PLMsg::AddRandomTracks => {
                acts.push(Action::Do(Op::PlaylistAddRandomTracks));
            },
            PLMsg::PlaylistTableBlurUp => {
                if self.layout == TermusicLayout::TreeView {
                    acts.push(Action::ActiveStrict(Id::Library));
                } else {
                    if self.layout == TermusicLayout::DataBase {
                        acts.push(Action::ActiveStrict(Id::DBListSearchTracks));
                    } else {
                        acts.push(Action::ActiveStrict(Id::Episode));
                    }
                }
            },
        }
        acts
    }

    /// What a download reports: it is counted as running at its start and
    /// counted down at its end, and its outcome is shown. A finished download
    /// reloads the library unless others are still running.
    pub fn update_download_msg(&mut self, snap: &Snapshot, msg: &DLMsg) -> (acts: Vec<Action>)
        ensures
            acts@ == old(self).download_msg_actions(*snap, *msg),
            *final(self) == (Model { redraw: true, ..*old(self) }),
    {
        self.redraw = true;
        let mut acts: Vec<Action> = Vec::new();
        match msg {
            DLMsg::DownloadRunning(url, title) => {
                acts.push(Action::Do(Op::TrackerIncrease(url.clone())));
                acts.push(Action::Message(TrackerMessage::DownloadStart(title.clone())));
            },
            DLMsg::DownloadSuccess(url) => {
                acts.push(Action::Do(Op::TrackerDecrease(url.clone())));
                acts.push(Action::Message(TrackerMessage::DownloadComplete));
                if snap.mounted.tag_editor_label_hint {
                    acts.push(Action::Do(Op::UmountTagEditor));
                }
            },
            DLMsg::DownloadCompleted(_url, file) => {
                if !snap.tracker_visible {
                    acts.push(Action::Do(Op::LibraryReloadWithNodeFocus(clone_opt(file))));
                }
            },
            DLMsg::DownloadErrDownload(url, title, error_message) => {
                acts.push(Action::Do(Op::TrackerDecrease(url.clone())));
                acts.push(Action::ErrorPopup(ErrorText::DownloadFailed(error_message.clone())));
                acts.push(Action::Message(TrackerMessage::DownloadErrorResponse(title.clone())));
            },
            DLMsg::DownloadErrEmbedData(_url, title) => {
                acts.push(Action::ErrorPopup(ErrorText::TagInfoIncomplete));
                acts.push(Action::Message(TrackerMessage::DownloadErrorEmbedData(title.clone())));
            },
            DLMsg::MessageShow(title, text) => {
                acts.push(Action::Do(Op::MountMessage(title.clone(), text.clone())));
            },
            DLMsg::MessageHide(title, text) => {
                acts.push(Action::Do(Op::UmountMessage(title.clone(), text.clone())));
            },
            DLMsg::YoutubeSearchSuccess => {
                acts.push(Action::Do(Op::StoreYoutubeOptions));
                acts.push(Action::Do(Op::SyncYoutubeOptions));
            },
            DLMsg::YoutubeSearchFail(e) => {
                acts.push(Action::ErrorPopup(ErrorText::YoutubeSearchFail(e.clone())));
            },
            DLMsg::FetchPhotoSuccess => {
                acts.push(Action::Do(Op::ShowImage));
            },
            DLMsg::FetchPhotoErr(err_text) => {
                acts.push(Action::SayText(err_text.clone()));
            },
        }
        acts
    }

    /// The notice of what is playing, if something is: its text is the
    /// title of an episode in the podcast layout, else the name of the
    /// song, and but for an episode the playlist is drawn anew after it.
    pub fn update_playing_song(&self, track: Option<&Track>) -> (r: Option<PlayingNotice>)
        ensures
            r is Some == track is Some,
            r matches Some(n) ==> n.title@ == "Currently Playing"@ && n.text@ == self.playing_text(
                *track->0,
            ) && n.sync_playlist == (self.layout != TermusicLayout::Podcast),
    {
        match track {
            Some(t) => {
                if self.layout == TermusicLayout::Podcast {
                    let title = match t.title() {
                        Some(s) => s,
                        None => "Unknown Episode",
                    };
                    Some(
                        PlayingNotice {
                            title: "Currently Playing",
                            text: own(title),
                            sync_playlist: false,
                        },
                    )
                } else {
                    let name = match t.name() {
                        Some(s) => s,
                        None => "Unknown Song",
                    };
                    Some(
                        PlayingNotice {
                            title: "Currently Playing",
                            text: own(name),
                            sync_playlist: true,
                        },
                    )
                }
            },
            None => None,
        }
    }

    /// The two messages that put a notice up and take it down again, and
    /// the seconds between them: `time_out`, or ten where none is given.
    pub fn update_show_message_timeout(&self, title: &str, text: &str, time_out: Option<u64>) -> (r:
        TimedMessage)
        ensures
            r.delay == match time_out {
                Some(t) => t,
                None => NOTICE_SECONDS,
            },
            r.show matches Msg::Download(DLMsg::MessageShow(a, b)) && a@ == title@ && b@ == text@,
            r.hide matches Msg::Download(DLMsg::MessageHide(a, b)) && a@ == title@ && b@ == text@,
    {
        let delay = match time_out {
            Some(t) => t,
            None => NOTICE_SECONDS,
        };
        TimedMessage {
            show: Msg::Download(DLMsg::MessageShow(own(title), own(text))),
            delay,
            hide: Msg::Download(DLMsg::MessageHide(own(title), own(text))),
        }
    }

    /// Fits the layout to the kind of the current track: see
    /// [`Model::layout_for`].
    pub fn update_layout_for_current_track(&mut self, snap: &Snapshot, track: Option<&Track>) -> (acts:
        Vec<Action>)
        ensures
            match old(self).layout_for(
                match track {
                    Some(t) => Some(t@.media_type),
                    None => None,
                },
            ) {
                Some(m) => acts@ == old(self).layout_actions(*snap, m) && *final(self) == (Model {
                    layout: old(self).layout_after(m),
                    ..*old(self)
                }),
                None => acts@ == Seq::<Action>::empty() && *final(self) == *old(self),
            },
    {
        match track {
            Some(t) => match t.media_type() {
                MediaType::Podcast => {
                    if self.layout == TermusicLayout::Podcast {
                        return Vec::new();
                    }
                    self.update_layout(snap, &Msg::LayoutPodCast)
                },
                MediaType::Music | MediaType::LiveRadio => match self.layout {
                    TermusicLayout::TreeView | TermusicLayout::DataBase => Vec::new(),
                    TermusicLayout::Podcast => self.update_layout(snap, &Msg::LayoutTreeView),
                },
            },
            None => Vec::new(),
        }
    }

    /// Takes the message that came from outside, if one came.
    pub fn update_outside_msg(&mut self, snap: &Snapshot, received: Option<Msg>) -> (acts: Vec<
        Action,
    >)
        ensures
            acts@ == old(self).update_actions(*snap, received),
            *final(self) == old(self).after(*snap, received),
    {
        self.update(snap, received)
    }
}

/// An owned copy of `text`.
fn own(text: &str) -> (r: String)
    ensures
        r@ == text@,
{
    String::from_str(text)
}

} // verus!
