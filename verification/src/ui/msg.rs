//! The messages that the parts of the user interface send each other.

use vstd::prelude::*;

verus! {

/// A field of the key editor.
#[derive(Debug, Clone, Copy, PartialEq, Eq, Structural)]
pub enum IdKeyEditor {
    GlobalQuitInput,
    GlobalLeftInput,
    GlobalRightInput,
    GlobalUpInput,
    GlobalDownInput,
    GlobalGotoTopInput,
    GlobalGotoBottomInput,
    GlobalPlayerTogglePauseInput,
    GlobalPlayerNextInput,
    GlobalPlayerPreviousInput,
    GlobalHelpInput,
    GlobalVolumeUpInput,
    GlobalVolumeDownInput,
}

/// A message of the key editor.
#[derive(Debug, Clone, Copy, PartialEq, Eq, Structural)]
pub enum KEMsg {
    HelpPopupShow,
    KeyEditorCloseCancel,
    /// The key in this field was changed to a key that can be bound.
    KeyChanged(IdKeyEditor),
    GlobalQuitInputBlurDown,
    GlobalQuitInputBlurUp,
    GlobalLeftInputBlurDown,
    GlobalLeftInputBlurUp,
    GlobalRightInputBlurDown,
    GlobalRightInputBlurUp,
    GlobalUpInputBlurDown,
    GlobalUpInputBlurUp,
    GlobalDownInputBlurDown,
    GlobalDownInputBlurUp,
    GlobalGotoTopInputBlurDown,
    GlobalGotoTopInputBlurUp,
    GlobalGotoBottomInputBlurDown,
    GlobalGotoBottomInputBlurUp,
    GlobalPlayerTogglePauseInputBlurDown,
    GlobalPlayerTogglePauseInputBlurUp,
    GlobalPlayerNextInputBlurDown,
    GlobalPlayerNextInputBlurUp,
    GlobalPlayerPreviousInputBlurDown,
    GlobalPlayerPreviousInputBlurUp,
    GlobalHelpInputBlurDown,
    GlobalHelpInputBlurUp,
    GlobalVolumeUpInputBlurDown,
    GlobalVolumeUpInputBlurUp,
    GlobalVolumeDownInputBlurDown,
    GlobalVolumeDownInputBlurUp,
}

/// A message of the configuration editor.
#[derive(Debug, Clone, Copy, PartialEq, Eq, Structural)]
pub enum ConfigEditorMsg {
    CloseCancel,
    CloseOk,
    ChangeLayout,
    ConfigChanged,
    ConfigSaveCancel,
    ConfigSaveOk,
    MusicDirBlurDown,
    MusicDirBlurUp,
    ExitConfirmationBlurDown,
    ExitConfirmationBlurUp,
    PlaylistDisplaySymbolBlurDown,
    PlaylistDisplaySymbolBlurUp,
    PlaylistRandomTrackBlurDown,
    PlaylistRandomTrackBlurUp,
    PlaylistRandomAlbumBlurDown,
    PlaylistRandomAlbumBlurUp,
    AlbumPhotoXBlurDown,
    AlbumPhotoXBlurUp,
    AlbumPhotoYBlurDown,
    AlbumPhotoYBlurUp,
    AlbumPhotoWidthBlurDown,
    AlbumPhotoWidthBlurUp,
    AlbumPhotoAlignBlurDown,
    AlbumPhotoAlignBlurUp,
}

/// A message of the lists of the database view.
#[derive(Debug, Clone, Copy, PartialEq, Eq, Structural)]
pub enum DBMsg {
    CriteriaBlurDown,
    CriteriaBlurUp,
    SearchResultBlurDown,
    SearchResultBlurUp,
    SearchTracksBlurDown,
    SearchTracksBlurUp,
    /// The criterion at this place was chosen.
    SearchResult(usize),
    /// The result at this place was chosen.
    SearchTrack(usize),
    /// The track at this place is to be queued.
    AddPlaylist(usize),
    AddAllToPlaylist,
}

/// A message of the tree of the library.
#[derive(Debug, PartialEq, Eq)]
pub enum LIMsg {
    TreeBlur,
    /// Step into this directory.
    TreeStepInto(String),
    TreeStepOut,
    Yank,
    Paste,
    SwitchRoot,
    AddRoot,
    RemoveRoot,
}

/// A message of the search popup.
#[derive(Debug, PartialEq, Eq)]
pub enum GSMsg {
    PopupShowDatabase,
    PopupShowLibrary,
    PopupShowPlaylist,
    PopupShowEpisode,
    PopupShowPodcast,
    PopupUpdateLibrary(String),
    PopupUpdatePlaylist(String),
    PopupUpdateDatabase(String),
    PopupUpdateEpisode(String),
    PopupUpdatePodcast(String),
    InputBlur,
    TableBlur,
    PopupCloseCancel,
    PopupCloseLibraryAddPlaylist,
    PopupCloseOkLibraryLocate,
    PopupClosePlaylistPlaySelected,
    PopupCloseOkPlaylistLocate,
    PopupCloseDatabaseAddPlaylist,
    PopupCloseEpisodeAddPlaylist,
    PopupCloseOkEpisodeLocate,
    PopupCloseOkPodcastLocate,
}

/// A message of the playlist.
#[derive(Debug, PartialEq, Eq)]
pub enum PLMsg {
    /// Queue what stands at this path.
    Add(String),
    Delete(usize),
    DeleteAll,
    Shuffle,
    PlaySelected(usize),
    LoopModeCycle,
    PlaylistTableBlurDown,
    PlaylistTableBlurUp,
    NextSong,
    PrevSong,
    SwapDown(usize),
    SwapUp(usize),
    AddRandomAlbum,
    AddRandomTracks,
}

/// A message of the search at the video service.
#[derive(Debug, PartialEq, Eq)]
pub enum YSMsg {
    InputPopupShow,
    InputPopupCloseCancel,
    /// What was typed: an address or words to search for.
    InputPopupCloseOk(String),
    TablePopupCloseCancel,
    TablePopupNext,
    TablePopupPrevious,
    TablePopupCloseOk(usize),
}

/// What the messages of the podcasts say of an episode.
#[derive(Debug, PartialEq, Eq)]
pub struct EpData {
    pub url: String,
    pub title: String,
}

/// A message of the podcasts.
#[derive(Debug, PartialEq, Eq)]
pub enum PCMsg {
    PodcastBlurDown,
    PodcastBlurUp,
    EpisodeBlurDown,
    EpisodeBlurUp,
    PodcastAddPopupShow,
    /// What was typed: an address or words to search for.
    PodcastAddPopupCloseOk(String),
    PodcastAddPopupCloseCancel,
    /// The feed with this id, at this address, was read again.
    SyncData(i64, String),
    /// The feed at this address was read for the first time.
    NewData(String),
    /// The feed at this address could not be read.
    Error(String),
    PodcastSelected(usize),
    DescriptionUpdate,
    EpisodeAdd(usize),
    EpisodeMarkPlayed(usize),
    EpisodeMarkAllPlayed,
    PodcastRefreshOne(usize),
    PodcastRefreshAll,
    /// The feed at this address is being fetched.
    FetchPodcastStart(String),
    EpisodeDownload(usize),
    DLStart(EpData),
    DLComplete(EpData),
    DLResponseError(EpData),
    DLFileCreateError(EpData),
    DLFileWriteError(EpData),
    EpisodeDeleteFile(usize),
    FeedDeleteShow,
    FeedDeleteCloseOk,
    FeedDeleteCloseCancel,
    FeedsDeleteShow,
    FeedsDeleteCloseOk,
    FeedsDeleteCloseCancel,
    SearchItunesCloseCancel,
    SearchItunesCloseOk(usize),
    /// The search found feeds; the list of them is of no concern here.
    SearchSuccess,
    SearchError(String),
}

/// A message of the lyric area.
#[derive(Debug, Clone, Copy, PartialEq, Eq, Structural)]
pub enum LyricMsg {
    LyricTextAreaBlurUp,
    LyricTextAreaBlurDown,
}

/// A message on place and size of the cover picture.
#[derive(Debug, Clone, Copy, PartialEq, Eq, Structural)]
pub enum XYWHMsg {
    MoveLeft,
    MoveRight,
    MoveUp,
    MoveDown,
    ZoomIn,
    ZoomOut,
    Hide,
}

/// A message on a download.
#[derive(Debug, PartialEq, Eq)]
pub enum DLMsg {
    /// Address and title.
    DownloadRunning(String, String),
    DownloadSuccess(String),
    /// Address and, where known, the file that was written.
    DownloadCompleted(String, Option<String>),
    /// Address, title and what went wrong.
    DownloadErrDownload(String, String, String),
    /// Address and title.
    DownloadErrEmbedData(String, String),
    /// Title and text.
    MessageShow(String, String),
    /// Title and text.
    MessageHide(String, String),
    YoutubeSearchSuccess,
    YoutubeSearchFail(String),
    FetchPhotoSuccess,
    FetchPhotoErr(String),
}

/// A message of the user interface.
#[derive(Debug, PartialEq, Eq)]
pub enum Msg {
    ConfigEditor(ConfigEditorMsg),
    DataBase(DBMsg),
    DeleteConfirmShow,
    DeleteConfirmCloseCancel,
    DeleteConfirmCloseOk,
    ErrorPopupClose,
    QuitPopupShow,
    QuitPopupCloseCancel,
    QuitPopupCloseOk,
    Library(LIMsg),
    GeneralSearch(GSMsg),
    Playlist(PLMsg),
    PlayerTogglePause,
    PlayerToggleGapless,
    PlayerSpeedUp,
    PlayerSpeedDown,
    PlayerVolumeUp,
    PlayerVolumeDown,
    PlayerSeekForward,
    PlayerSeekBackward,
    HelpPopupShow,
    HelpPopupClose,
    YoutubeSearch(YSMsg),
    LyricCycle,
    LyricAdjustDelay(i64),
    /// A message of the tag editor; what it says is of no concern here.
    TagEditor,
    UpdatePhoto,
    LayoutDataBase,
    LayoutTreeView,
    LayoutPodCast,
    /// Nothing to say.
    Nothing,
    SavePlaylistPopupShow,
    SavePlaylistPopupCloseCancel,
    SavePlaylistPopupCloseOk(String),
    SavePlaylistPopupUpdate(String),
    SavePlaylistConfirmCloseCancel,
    SavePlaylistConfirmCloseOk(String),
    Podcast(PCMsg),
    LyricMessage(LyricMsg),
    Download(DLMsg),
    Xywh(XYWHMsg),
    KeyEditor(KEMsg),
}

/// A part of the screen.
#[derive(Debug, Clone, Copy, PartialEq, Eq, Hash, Structural)]
pub enum Id {
    DBListCriteria,
    DBListSearchResult,
    DBListSearchTracks,
    DeleteConfirmInputPopup,
    DeleteConfirmRadioPopup,
    Episode,
    ErrorPopup,
    GeneralSearchInput,
    GeneralSearchTable,
    HelpPopup,
    Library,
    Lyric,
    Playlist,
    Podcast,
    QuitPopup,
    TagEditor(IdTagEditor),
    YoutubeSearchInputPopup,
}

/// A part of the tag editor.
#[derive(Debug, Clone, Copy, PartialEq, Eq, Hash, Structural)]
pub enum IdTagEditor {
    LabelHint,
}

/// A copy of an optional text.
pub(crate) fn clone_opt(s: &Option<String>) -> (r: Option<String>)
    ensures
        r == *s,
{
    match s {
        Some(t) => Some(t.clone()),
        None => None,
    }
}

impl Clone for EpData {
    fn clone(&self) -> (r: EpData)
        ensures
            r == *self,
    {
        EpData { url: self.url.clone(), title: self.title.clone() }
    }
}

impl Clone for LIMsg {
    fn clone(&self) -> (r: LIMsg)
        ensures
            r == *self,
    {
        match self {
            LIMsg::TreeBlur => LIMsg::TreeBlur,
            LIMsg::TreeStepInto(a0) => LIMsg::TreeStepInto(a0.clone()),
            LIMsg::TreeStepOut => LIMsg::TreeStepOut,
            LIMsg::Yank => LIMsg::Yank,
            LIMsg::Paste => LIMsg::Paste,
            LIMsg::SwitchRoot => LIMsg::SwitchRoot,
            LIMsg::AddRoot => LIMsg::AddRoot,
            LIMsg::RemoveRoot => LIMsg::RemoveRoot,
        }
    }
}

impl Clone for GSMsg {
    fn clone(&self) -> (r: GSMsg)
        ensures
            r == *self,
    {
        match self {
            GSMsg::PopupShowDatabase => GSMsg::PopupShowDatabase,
            GSMsg::PopupShowLibrary => GSMsg::PopupShowLibrary,
            GSMsg::PopupShowPlaylist => GSMsg::PopupShowPlaylist,
            GSMsg::PopupShowEpisode => GSMsg::PopupShowEpisode,
            GSMsg::PopupShowPodcast => GSMsg::PopupShowPodcast,
            GSMsg::PopupUpdateLibrary(a0) => GSMsg::PopupUpdateLibrary(a0.clone()),
            GSMsg::PopupUpdatePlaylist(a0) => GSMsg::PopupUpdatePlaylist(a0.clone()),
            GSMsg::PopupUpdateDatabase(a0) => GSMsg::PopupUpdateDatabase(a0.clone()),
            GSMsg::PopupUpdateEpisode(a0) => GSMsg::PopupUpdateEpisode(a0.clone()),
            GSMsg::PopupUpdatePodcast(a0) => GSMsg::PopupUpdatePodcast(a0.clone()),
            GSMsg::InputBlur => GSMsg::InputBlur,
            GSMsg::TableBlur => GSMsg::TableBlur,
            GSMsg::PopupCloseCancel => GSMsg::PopupCloseCancel,
            GSMsg::PopupCloseLibraryAddPlaylist => GSMsg::PopupCloseLibraryAddPlaylist,
            GSMsg::PopupCloseOkLibraryLocate => GSMsg::PopupCloseOkLibraryLocate,
            GSMsg::PopupClosePlaylistPlaySelected => GSMsg::PopupClosePlaylistPlaySelected,
            GSMsg::PopupCloseOkPlaylistLocate => GSMsg::PopupCloseOkPlaylistLocate,
            GSMsg::PopupCloseDatabaseAddPlaylist => GSMsg::PopupCloseDatabaseAddPlaylist,
            GSMsg::PopupCloseEpisodeAddPlaylist => GSMsg::PopupCloseEpisodeAddPlaylist,
            GSMsg::PopupCloseOkEpisodeLocate => GSMsg::PopupCloseOkEpisodeLocate,
            GSMsg::PopupCloseOkPodcastLocate => GSMsg::PopupCloseOkPodcastLocate,
        }
    }
}

impl Clone for PLMsg {
    fn clone(&self) -> (r: PLMsg)
        ensures
            r == *self,
    {
        match self {
            PLMsg::Add(a0) => PLMsg::Add(a0.clone()),
            PLMsg::Delete(a0) => PLMsg::Delete(*a0),
            PLMsg::DeleteAll => PLMsg::DeleteAll,
            PLMsg::Shuffle => PLMsg::Shuffle,
            PLMsg::PlaySelected(a0) => PLMsg::PlaySelected(*a0),
            PLMsg::LoopModeCycle => PLMsg::LoopModeCycle,
            PLMsg::PlaylistTableBlurDown => PLMsg::PlaylistTableBlurDown,
            PLMsg::PlaylistTableBlurUp => PLMsg::PlaylistTableBlurUp,
            PLMsg::NextSong => PLMsg::NextSong,
            PLMsg::PrevSong => PLMsg::PrevSong,
            PLMsg::SwapDown(a0) => PLMsg::SwapDown(*a0),
            PLMsg::SwapUp(a0) => PLMsg::SwapUp(*a0),
            PLMsg::AddRandomAlbum => PLMsg::AddRandomAlbum,
            PLMsg::AddRandomTracks => PLMsg::AddRandomTracks,
        }
    }
}

impl Clone for YSMsg {
    fn clone(&self) -> (r: YSMsg)
        ensures
            r == *self,
    {
        match self {
            YSMsg::InputPopupShow => YSMsg::InputPopupShow,
            YSMsg::InputPopupCloseCancel => YSMsg::InputPopupCloseCancel,
            YSMsg::InputPopupCloseOk(a0) => YSMsg::InputPopupCloseOk(a0.clone()),
            YSMsg::TablePopupCloseCancel => YSMsg::TablePopupCloseCancel,
            YSMsg::TablePopupNext => YSMsg::TablePopupNext,
            YSMsg::TablePopupPrevious => YSMsg::TablePopupPrevious,
            YSMsg::TablePopupCloseOk(a0) => YSMsg::TablePopupCloseOk(*a0),
        }
    }
}

impl Clone for PCMsg {
    fn clone(&self) -> (r: PCMsg)
        ensures
            r == *self,
    {
        match self {
            PCMsg::PodcastBlurDown => PCMsg::PodcastBlurDown,
            PCMsg::PodcastBlurUp => PCMsg::PodcastBlurUp,
            PCMsg::EpisodeBlurDown => PCMsg::EpisodeBlurDown,
            PCMsg::EpisodeBlurUp => PCMsg::EpisodeBlurUp,
            PCMsg::PodcastAddPopupShow => PCMsg::PodcastAddPopupShow,
            PCMsg::PodcastAddPopupCloseOk(a0) => PCMsg::PodcastAddPopupCloseOk(a0.clone()),
            PCMsg::PodcastAddPopupCloseCancel => PCMsg::PodcastAddPopupCloseCancel,
            PCMsg::SyncData(a0, a1) => PCMsg::SyncData(*a0, a1.clone()),
            PCMsg::NewData(a0) => PCMsg::NewData(a0.clone()),
            PCMsg::Error(a0) => PCMsg::Error(a0.clone()),
            PCMsg::PodcastSelected(a0) => PCMsg::PodcastSelected(*a0),
            PCMsg::DescriptionUpdate => PCMsg::DescriptionUpdate,
            PCMsg::EpisodeAdd(a0) => PCMsg::EpisodeAdd(*a0),
            PCMsg::EpisodeMarkPlayed(a0) => PCMsg::EpisodeMarkPlayed(*a0),
            PCMsg::EpisodeMarkAllPlayed => PCMsg::EpisodeMarkAllPlayed,
            PCMsg::PodcastRefreshOne(a0) => PCMsg::PodcastRefreshOne(*a0),
            PCMsg::PodcastRefreshAll => PCMsg::PodcastRefreshAll,
            PCMsg::FetchPodcastStart(a0) => PCMsg::FetchPodcastStart(a0.clone()),
            PCMsg::EpisodeDownload(a0) => PCMsg::EpisodeDownload(*a0),
            PCMsg::DLStart(a0) => PCMsg::DLStart(a0.clone()),
            PCMsg::DLComplete(a0) => PCMsg::DLComplete(a0.clone()),
            PCMsg::DLResponseError(a0) => PCMsg::DLResponseError(a0.clone()),
            PCMsg::DLFileCreateError(a0) => PCMsg::DLFileCreateError(a0.clone()),
            PCMsg::DLFileWriteError(a0) => PCMsg::DLFileWriteError(a0.clone()),
            PCMsg::EpisodeDeleteFile(a0) => PCMsg::EpisodeDeleteFile(*a0),
            PCMsg::FeedDeleteShow => PCMsg::FeedDeleteShow,
            PCMsg::FeedDeleteCloseOk => PCMsg::FeedDeleteCloseOk,
            PCMsg::FeedDeleteCloseCancel => PCMsg::FeedDeleteCloseCancel,
            PCMsg::FeedsDeleteShow => PCMsg::FeedsDeleteShow,
            PCMsg::FeedsDeleteCloseOk => PCMsg::FeedsDeleteCloseOk,
            PCMsg::FeedsDeleteCloseCancel => PCMsg::FeedsDeleteCloseCancel,
            PCMsg::SearchItunesCloseCancel => PCMsg::SearchItunesCloseCancel,
            PCMsg::SearchItunesCloseOk(a0) => PCMsg::SearchItunesCloseOk(*a0),
            PCMsg::SearchSuccess => PCMsg::SearchSuccess,
            PCMsg::SearchError(a0) => PCMsg::SearchError(a0.clone()),
        }
    }
}

impl Clone for DLMsg {
    fn clone(&self) -> (r: DLMsg)
        ensures
            r == *self,
    {
        match self {
            DLMsg::DownloadRunning(a0, a1) => DLMsg::DownloadRunning(a0.clone(), a1.clone()),
            DLMsg::DownloadSuccess(a0) => DLMsg::DownloadSuccess(a0.clone()),
            DLMsg::DownloadCompleted(a0, a1) => DLMsg::DownloadCompleted(a0.clone(), clone_opt(&a1)),
            DLMsg::DownloadErrDownload(a0, a1, a2) => DLMsg::DownloadErrDownload(a0.clone(), a1.clone(), a2.clone()),
            DLMsg::DownloadErrEmbedData(a0, a1) => DLMsg::DownloadErrEmbedData(a0.clone(), a1.clone()),
            DLMsg::MessageShow(a0, a1) => DLMsg::MessageShow(a0.clone(), a1.clone()),
            DLMsg::MessageHide(a0, a1) => DLMsg::MessageHide(a0.clone(), a1.clone()),
            DLMsg::YoutubeSearchSuccess => DLMsg::YoutubeSearchSuccess,
            DLMsg::YoutubeSearchFail(a0) => DLMsg::YoutubeSearchFail(a0.clone()),
            DLMsg::FetchPhotoSuccess => DLMsg::FetchPhotoSuccess,
            DLMsg::FetchPhotoErr(a0) => DLMsg::FetchPhotoErr(a0.clone()),
        }
    }
}

impl Clone for Msg {
    fn clone(&self) -> (r: Msg)
        ensures
            r == *self,
    {
        match self {
            Msg::ConfigEditor(a0) => Msg::ConfigEditor(a0.clone()),
            Msg::DataBase(a0) => Msg::DataBase(a0.clone()),
            Msg::DeleteConfirmShow => Msg::DeleteConfirmShow,
            Msg::DeleteConfirmCloseCancel => Msg::DeleteConfirmCloseCancel,
            Msg::DeleteConfirmCloseOk => Msg::DeleteConfirmCloseOk,
            Msg::ErrorPopupClose => Msg::ErrorPopupClose,
            Msg::QuitPopupShow => Msg::QuitPopupShow,
            Msg::QuitPopupCloseCancel => Msg::QuitPopupCloseCancel,
            Msg::QuitPopupCloseOk => Msg::QuitPopupCloseOk,
            Msg::Library(a0) => Msg::Library(a0.clone()),
            Msg::GeneralSearch(a0) => Msg::GeneralSearch(a0.clone()),
            Msg::Playlist(a0) => Msg::Playlist(a0.clone()),
            Msg::PlayerTogglePause => Msg::PlayerTogglePause,
            Msg::PlayerToggleGapless => Msg::PlayerToggleGapless,
            Msg::PlayerSpeedUp => Msg::PlayerSpeedUp,
            Msg::PlayerSpeedDown => Msg::PlayerSpeedDown,
            Msg::PlayerVolumeUp => Msg::PlayerVolumeUp,
            Msg::PlayerVolumeDown => Msg::PlayerVolumeDown,
            Msg::PlayerSeekForward => Msg::PlayerSeekForward,
            Msg::PlayerSeekBackward => Msg::PlayerSeekBackward,
            Msg::HelpPopupShow => Msg::HelpPopupShow,
            Msg::HelpPopupClose => Msg::HelpPopupClose,
            Msg::YoutubeSearch(a0) => Msg::YoutubeSearch(a0.clone()),
            Msg::LyricCycle => Msg::LyricCycle,
            Msg::LyricAdjustDelay(a0) => Msg::LyricAdjustDelay(*a0),
            Msg::TagEditor => Msg::TagEditor,
            Msg::UpdatePhoto => Msg::UpdatePhoto,
            Msg::LayoutDataBase => Msg::LayoutDataBase,
            Msg::LayoutTreeView => Msg::LayoutTreeView,
            Msg::LayoutPodCast => Msg::LayoutPodCast,
            Msg::Nothing => Msg::Nothing,
            Msg::SavePlaylistPopupShow => Msg::SavePlaylistPopupShow,
            Msg::SavePlaylistPopupCloseCancel => Msg::SavePlaylistPopupCloseCancel,
            Msg::SavePlaylistPopupCloseOk(a0) => Msg::SavePlaylistPopupCloseOk(a0.clone()),
            Msg::SavePlaylistPopupUpdate(a0) => Msg::SavePlaylistPopupUpdate(a0.clone()),
            Msg::SavePlaylistConfirmCloseCancel => Msg::SavePlaylistConfirmCloseCancel,
            Msg::SavePlaylistConfirmCloseOk(a0) => Msg::SavePlaylistConfirmCloseOk(a0.clone()),
            Msg::Podcast(a0) => Msg::Podcast(a0.clone()),
            Msg::LyricMessage(a0) => Msg::LyricMessage(a0.clone()),
            Msg::Download(a0) => Msg::Download(a0.clone()),
            Msg::Xywh(a0) => Msg::Xywh(a0.clone()),
            Msg::KeyEditor(a0) => Msg::KeyEditor(a0.clone()),
        }
    }
}

} // verus!
