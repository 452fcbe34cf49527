use termusic::player::orchestrator::PlayerCmd;
use termusic::player::playlist::{MediaType, Track};
use termusic::ui::model::update::{
    Action, ErrorText, Model, Mounted, Op, Snapshot, TermusicLayout, TrackerMessage,
    NOTICE_SECONDS,
};
use termusic::ui::msg::{
    ConfigEditorMsg, DBMsg, DLMsg, EpData, GSMsg, Id, IdTagEditor, KEMsg, LIMsg, LyricMsg, Msg,
    PCMsg, PLMsg, XYWHMsg, YSMsg,
};

fn nothing_mounted() -> Mounted {
    Mounted {
        error_popup: false,
        quit_popup: false,
        help_popup: false,
        general_search_input: false,
        general_search_table: false,
        delete_confirm_radio_popup: false,
        delete_confirm_input_popup: false,
        youtube_search_input_popup: false,
        tag_editor_label_hint: false,
    }
}

fn snap() -> Snapshot {
    Snapshot {
        mounted: nothing_mounted(),
        focus: None,
        confirm_quit: true,
        is_radio: false,
        tracker_visible: false,
        search_tracks: 0,
        search_results: None,
    }
}

fn model(layout: TermusicLayout) -> Model {
    let mut m = Model::new(layout);
    m.redraw = false;
    m
}

fn run(snap: &Snapshot, msg: Msg) -> Vec<Action> {
    let mut m = model(TermusicLayout::TreeView);
    let acts = m.update(snap, Some(msg));
    assert!(m.redraw);
    acts
}

fn s(text: &str) -> String {
    text.to_string()
}

fn ep() -> EpData {
    EpData { url: s("http://e/1.mp3"), title: s("Episode 1") }
}

#[test]
fn no_message_changes_nothing() {
    let mut m = model(TermusicLayout::DataBase);
    assert_eq!(m.update(&snap(), None), vec![]);
    assert_eq!(m, model(TermusicLayout::DataBase));
    assert_eq!(m.update_outside_msg(&snap(), None), vec![]);
    assert!(!m.redraw);
    assert_eq!(m.update(&snap(), Some(Msg::Nothing)), vec![]);
    assert!(m.redraw);
    assert!(!m.quit);
    assert_eq!(
        m.update_outside_msg(&snap(), Some(Msg::LyricCycle)),
        vec![Action::Do(Op::LyricCycle)]
    );
    assert_eq!(run(&snap(), Msg::KeyEditor(KEMsg::HelpPopupShow)), vec![]);
}

#[test]
fn quitting() {
    let mut m = model(TermusicLayout::TreeView);
    assert_eq!(
        m.update(&snap(), Some(Msg::QuitPopupShow)),
        vec![Action::Do(Op::MountQuitPopup)]
    );
    assert!(!m.quit);
    let mut direct = snap();
    direct.confirm_quit = false;
    assert_eq!(m.update(&direct, Some(Msg::QuitPopupShow)), vec![]);
    assert!(m.quit);
    let mut m = model(TermusicLayout::TreeView);
    assert_eq!(
        m.update(&snap(), Some(Msg::QuitPopupCloseCancel)),
        vec![Action::Umount(Id::QuitPopup)]
    );
    assert!(!m.quit);
    assert_eq!(m.update(&snap(), Some(Msg::QuitPopupCloseOk)), vec![]);
    assert!(m.quit);
    // once asked to end, it stays so
    m.update(&snap(), Some(Msg::Nothing));
    assert!(m.quit);
}

#[test]
fn quit_popup_stays_on_top() {
    let m = model(TermusicLayout::TreeView);
    let mut sn = snap();
    assert_eq!(m.ensure_quit_popup_top_most_focus(&sn), vec![]);
    sn.mounted.quit_popup = true;
    assert_eq!(
        m.ensure_quit_popup_top_most_focus(&sn),
        vec![Action::Active(Id::QuitPopup)]
    );
    sn.focus = Some(Id::Library);
    assert_eq!(
        m.ensure_quit_popup_top_most_focus(&sn),
        vec![Action::Active(Id::QuitPopup)]
    );
    sn.focus = Some(Id::QuitPopup);
    assert_eq!(m.ensure_quit_popup_top_most_focus(&sn), vec![]);
}

#[test]
fn popups_and_simple_messages() {
    let mut sn = snap();
    assert_eq!(run(&sn, Msg::ErrorPopupClose), vec![]);
    assert_eq!(run(&sn, Msg::HelpPopupClose), vec![Action::Do(Op::UpdatePhoto)]);
    sn.mounted.error_popup = true;
    sn.mounted.help_popup = true;
    assert_eq!(run(&sn, Msg::ErrorPopupClose), vec![Action::Do(Op::UmountErrorPopup)]);
    assert_eq!(
        run(&sn, Msg::HelpPopupClose),
        vec![Action::Umount(Id::HelpPopup), Action::Do(Op::UpdatePhoto)]
    );
    assert_eq!(run(&sn, Msg::HelpPopupShow), vec![Action::Do(Op::MountHelpPopup)]);
    assert_eq!(
        run(&sn, Msg::LyricAdjustDelay(-500)),
        vec![Action::Do(Op::LyricAdjustDelay(-500))]
    );
    assert_eq!(run(&sn, Msg::TagEditor), vec![Action::Do(Op::UpdateTagEditor)]);
    assert_eq!(
        run(&sn, Msg::UpdatePhoto),
        vec![Action::Try(Op::UpdatePhoto, "update_photo")]
    );
    assert_eq!(
        run(&sn, Msg::ConfigEditor(ConfigEditorMsg::CloseOk)),
        vec![Action::ConfigEditor(ConfigEditorMsg::CloseOk)]
    );
}

#[test]
fn saving_the_playlist() {
    let sn = snap();
    assert_eq!(
        run(&sn, Msg::SavePlaylistPopupShow),
        vec![Action::Try(Op::MountSavePlaylist, "mount save playlist")]
    );
    assert_eq!(
        run(&sn, Msg::SavePlaylistPopupCloseCancel),
        vec![Action::Do(Op::UmountSavePlaylist)]
    );
    assert_eq!(
        run(&sn, Msg::SavePlaylistPopupCloseOk(s("a.m3u"))),
        vec![
            Action::Do(Op::UmountSavePlaylist),
            Action::Try(Op::PlaylistSaveM3uBefore(s("a.m3u")), "save m3u playlist before")
        ]
    );
    assert_eq!(
        run(&sn, Msg::SavePlaylistPopupUpdate(s("a"))),
        vec![Action::Try(
            Op::RemountSavePlaylistLabel(s("a")),
            "remount save playlist label"
        )]
    );
    assert_eq!(
        run(&sn, Msg::SavePlaylistConfirmCloseCancel),
        vec![Action::Do(Op::UmountSavePlaylistConfirm)]
    );
    assert_eq!(
        run(&sn, Msg::SavePlaylistConfirmCloseOk(s("a.m3u"))),
        vec![
            Action::Try(Op::PlaylistSaveM3u(s("a.m3u")), "save m3u playlist"),
            Action::Do(Op::UmountSavePlaylistConfirm)
        ]
    );
}

#[test]
fn player_keys_become_commands() {
    let sn = snap();
    assert_eq!(run(&sn, Msg::PlayerTogglePause), vec![Action::Do(Op::PlayerTogglePause)]);
    assert_eq!(
        run(&sn, Msg::PlayerSeekForward),
        vec![Action::Command(PlayerCmd::SeekForward)]
    );
    assert_eq!(
        run(&sn, Msg::PlayerSeekBackward),
        vec![Action::Command(PlayerCmd::SeekBackward)]
    );
    assert_eq!(run(&sn, Msg::PlayerSpeedUp), vec![Action::Command(PlayerCmd::SpeedUp)]);
    assert_eq!(run(&sn, Msg::PlayerSpeedDown), vec![Action::Command(PlayerCmd::SpeedDown)]);
    assert_eq!(run(&sn, Msg::PlayerVolumeUp), vec![Action::Command(PlayerCmd::VolumeUp)]);
    assert_eq!(
        run(&sn, Msg::PlayerVolumeDown),
        vec![Action::Command(PlayerCmd::VolumeDown)]
    );
    assert_eq!(
        run(&sn, Msg::PlayerToggleGapless),
        vec![Action::Command(PlayerCmd::ToggleGapless)]
    );
    let mut radio = snap();
    radio.is_radio = true;
    let said = vec![Action::Say("seek is not available for live radio")];
    assert_eq!(run(&radio, Msg::PlayerSeekForward), said);
    assert_eq!(run(&radio, Msg::PlayerSeekBackward), said);
    assert_eq!(run(&radio, Msg::PlayerSpeedUp), vec![Action::Command(PlayerCmd::SpeedUp)]);
    // a message that is none of the player's
    let m = model(TermusicLayout::TreeView);
    assert_eq!(m.update_player(&sn, &Msg::LyricCycle), vec![]);
}

#[test]
fn layouts() {
    let mut m = model(TermusicLayout::TreeView);
    let mut sn = snap();
    assert_eq!(
        m.update(&sn, Some(Msg::LayoutDataBase)),
        vec![Action::Active(Id::DBListCriteria), Action::Do(Op::PlaylistSwitchLayout)]
    );
    assert_eq!(m.layout, TermusicLayout::DataBase);
    for id in [
        Id::DBListCriteria,
        Id::DBListSearchResult,
        Id::DBListSearchTracks,
        Id::Playlist,
    ] {
        sn.focus = Some(id);
        assert_eq!(
            m.update(&sn, Some(Msg::LayoutDataBase)),
            vec![Action::Do(Op::PlaylistSwitchLayout)]
        );
    }
    sn.focus = Some(Id::Lyric);
    assert_eq!(
        m.update(&sn, Some(Msg::LayoutTreeView)),
        vec![Action::Active(Id::Library), Action::Do(Op::PlaylistSwitchLayout)]
    );
    assert_eq!(m.layout, TermusicLayout::TreeView);
    for id in [Id::Playlist, Id::Library] {
        sn.focus = Some(id);
        assert_eq!(
            m.update(&sn, Some(Msg::LayoutTreeView)),
            vec![Action::Do(Op::PlaylistSwitchLayout)]
        );
    }
    assert_eq!(
        m.update(&sn, Some(Msg::LayoutPodCast)),
        vec![
            Action::Active(Id::Podcast),
            Action::Do(Op::PodcastSyncFeedsAndEpisodes),
            Action::Do(Op::PlaylistSwitchLayout)
        ]
    );
    assert_eq!(m.layout, TermusicLayout::Podcast);
    for id in [Id::Podcast, Id::Episode, Id::Playlist, Id::Lyric] {
        sn.focus = Some(id);
        assert_eq!(
            m.update_layout(&sn, &Msg::LayoutPodCast),
            vec![
                Action::Do(Op::PodcastSyncFeedsAndEpisodes),
                Action::Do(Op::PlaylistSwitchLayout)
            ]
        );
    }
    assert_eq!(m.update_layout(&sn, &Msg::Nothing), vec![]);
    assert_eq!(m.layout, TermusicLayout::Podcast);
}

#[test]
fn layout_follows_the_current_track() {
    let song = Track::new(s("a"), None, None, None, MediaType::Music);
    let radio = Track::new(s("r"), None, None, None, MediaType::LiveRadio);
    let episode = Track::new(s("e"), None, None, None, MediaType::Podcast);
    let sn = snap();
    for layout in [TermusicLayout::TreeView, TermusicLayout::DataBase] {
        let mut m = model(layout);
        assert_eq!(m.update_layout_for_current_track(&sn, Some(&song)), vec![]);
        assert_eq!(m.update_layout_for_current_track(&sn, Some(&radio)), vec![]);
        assert_eq!(m.update_layout_for_current_track(&sn, None), vec![]);
        assert_eq!(m.layout, layout);
        assert_eq!(
            m.update_layout_for_current_track(&sn, Some(&episode)),
            vec![
                Action::Active(Id::Podcast),
                Action::Do(Op::PodcastSyncFeedsAndEpisodes),
                Action::Do(Op::PlaylistSwitchLayout)
            ]
        );
        assert_eq!(m.layout, TermusicLayout::Podcast);
    }
    let mut m = model(TermusicLayout::Podcast);
    assert_eq!(m.update_layout_for_current_track(&sn, Some(&episode)), vec![]);
    assert_eq!(m.layout, TermusicLayout::Podcast);
    assert_eq!(
        m.update_layout_for_current_track(&sn, Some(&radio)),
        vec![Action::Active(Id::Library), Action::Do(Op::PlaylistSwitchLayout)]
    );
    assert_eq!(m.layout, TermusicLayout::TreeView);
}

#[test]
fn playing_song_notice() {
    let named = Track::new(s("a"), Some(s("a.mp3")), Some(s("A")), None, MediaType::Music);
    let bare = Track::new(s("a"), None, None, None, MediaType::Podcast);
    let m = model(TermusicLayout::TreeView);
    assert_eq!(m.update_playing_song(None), None);
    let n = m.update_playing_song(Some(&named)).unwrap();
    assert_eq!((n.title, n.text.as_str(), n.sync_playlist), ("Currently Playing", "a.mp3", true));
    let n = m.update_playing_song(Some(&bare)).unwrap();
    assert_eq!((n.text.as_str(), n.sync_playlist), ("Unknown Song", true));
    let m = model(TermusicLayout::Podcast);
    let n = m.update_playing_song(Some(&named)).unwrap();
    assert_eq!((n.title, n.text.as_str(), n.sync_playlist), ("Currently Playing", "A", false));
    let n = m.update_playing_song(Some(&bare)).unwrap();
    assert_eq!((n.text.as_str(), n.sync_playlist), ("Unknown Episode", false));
}

#[test]
fn timed_message() {
    let m = model(TermusicLayout::TreeView);
    let t = m.update_show_message_timeout("Title", "text", None);
    assert_eq!(t.show, Msg::Download(DLMsg::MessageShow(s("Title"), s("text"))));
    assert_eq!(t.hide, Msg::Download(DLMsg::MessageHide(s("Title"), s("text"))));
    assert_eq!(t.delay, 10);
    assert_eq!(NOTICE_SECONDS, 10);
    assert_eq!(m.update_show_message_timeout("", "", Some(3)).delay, 3);
    assert_eq!(m.update_show_message_timeout("", "", Some(0)).delay, 0);
}

#[test]
fn lyric_area_and_cover() {
    let sn = snap();
    for (layout, id) in [
        (TermusicLayout::TreeView, Id::Library),
        (TermusicLayout::DataBase, Id::DBListCriteria),
        (TermusicLayout::Podcast, Id::Podcast),
    ] {
        let mut m = model(layout);
        assert_eq!(
            m.update(&sn, Some(Msg::LyricMessage(LyricMsg::LyricTextAreaBlurDown))),
            vec![Action::Active(id)]
        );
        assert_eq!(
            m.update(&sn, Some(Msg::LyricMessage(LyricMsg::LyricTextAreaBlurUp))),
            vec![Action::Active(Id::Playlist)]
        );
    }
    for (msg, op) in [
        (XYWHMsg::MoveLeft, Op::XywhMoveLeft),
        (XYWHMsg::MoveRight, Op::XywhMoveRight),
        (XYWHMsg::MoveUp, Op::XywhMoveUp),
        (XYWHMsg::MoveDown, Op::XywhMoveDown),
        (XYWHMsg::ZoomIn, Op::XywhZoomIn),
        (XYWHMsg::ZoomOut, Op::XywhZoomOut),
        (XYWHMsg::Hide, Op::XywhToggleHide),
    ] {
        assert_eq!(run(&sn, Msg::Xywh(msg)), vec![Action::Do(op)]);
    }
}

#[test]
fn playlist_messages() {
    let sn = snap();
    let pl = |m: PLMsg| run(&sn, Msg::Playlist(m));
    assert_eq!(
        pl(PLMsg::Add(s("/music/a.mp3"))),
        vec![Action::Try(Op::PlaylistAdd(s("/music/a.mp3")), "playlist add")]
    );
    assert_eq!(pl(PLMsg::Delete(3)), vec![Action::Do(Op::PlaylistDeleteItem(3))]);
    assert_eq!(pl(PLMsg::DeleteAll), vec![Action::Do(Op::PlaylistClear)]);
    assert_eq!(pl(PLMsg::Shuffle), vec![Action::Do(Op::PlaylistShuffle)]);
    assert_eq!(pl(PLMsg::PlaySelected(2)), vec![Action::Do(Op::PlaylistPlaySelected(2))]);
    assert_eq!(
        pl(PLMsg::LoopModeCycle),
        vec![
            Action::Command(PlayerCmd::CycleLoopMode),
            Action::Do(Op::StoreLoopMode),
            Action::Do(Op::PlaylistUpdateTitle)
        ]
    );
    assert_eq!(pl(PLMsg::NextSong), vec![Action::Command(PlayerCmd::SkipNext)]);
    assert_eq!(pl(PLMsg::PrevSong), vec![Action::Do(Op::PlayerPrevious)]);
    assert_eq!(
        pl(PLMsg::SwapDown(1)),
        vec![
            Action::Do(Op::PlaylistSwapDown(1)),
            Action::Do(Op::PlaylistSync),
            Action::Try(Op::PlayerSyncPlaylist, "playlist sync playlist")
        ]
    );
    assert_eq!(
        pl(PLMsg::SwapUp(1)),
        vec![
            Action::Do(Op::PlaylistSwapUp(1)),
            Action::Do(Op::PlaylistSync),
            Action::Try(Op::PlayerSyncPlaylist, "playlist sync playlist")
        ]
    );
    assert_eq!(pl(PLMsg::AddRandomAlbum), vec![Action::Do(Op::PlaylistAddRandomAlbum)]);
    assert_eq!(pl(PLMsg::AddRandomTracks), vec![Action::Do(Op::PlaylistAddRandomTracks)]);
    for (layout, down, up) in [
        (TermusicLayout::TreeView, Id::Library, Id::Library),
        (TermusicLayout::DataBase, Id::DBListCriteria, Id::DBListSearchTracks),
        (TermusicLayout::Podcast, Id::Lyric, Id::Episode),
    ] {
        let m = model(layout);
        assert_eq!(
            m.update_playlist(&sn, &PLMsg::PlaylistTableBlurDown),
            vec![Action::ActiveStrict(down)]
        );
        assert_eq!(
            m.update_playlist(&sn, &PLMsg::PlaylistTableBlurUp),
            vec![Action::ActiveStrict(up)]
        );
    }
}

#[test]
fn database_messages() {
    let mut sn = snap();
    let db = |sn: &Snapshot, m: DBMsg| run(sn, Msg::DataBase(m));
    assert_eq!(db(&sn, DBMsg::CriteriaBlurDown), vec![Action::Active(Id::DBListSearchResult)]);
    assert_eq!(db(&sn, DBMsg::SearchTracksBlurUp), vec![Action::Active(Id::DBListSearchResult)]);
    assert_eq!(
        db(&sn, DBMsg::SearchResultBlurDown),
        vec![Action::Active(Id::DBListSearchTracks)]
    );
    assert_eq!(db(&sn, DBMsg::SearchTracksBlurDown), vec![Action::Active(Id::Playlist)]);
    assert_eq!(db(&sn, DBMsg::CriteriaBlurUp), vec![Action::Active(Id::Playlist)]);
    assert_eq!(db(&sn, DBMsg::SearchResultBlurUp), vec![Action::Active(Id::DBListCriteria)]);
    assert_eq!(
        db(&sn, DBMsg::SearchResult(4)),
        vec![Action::Do(Op::SetCriteria(4)), Action::Do(Op::DatabaseUpdateSearchResults)]
    );
    assert_eq!(
        db(&sn, DBMsg::SearchTrack(4)),
        vec![Action::Do(Op::DatabaseUpdateSearchTracks(4))]
    );
    assert_eq!(db(&sn, DBMsg::AddAllToPlaylist), vec![Action::Do(Op::PlaylistAddAllFromDb)]);
    assert_eq!(db(&sn, DBMsg::AddPlaylist(0)), vec![]);
    sn.search_tracks = 2;
    assert_eq!(
        db(&sn, DBMsg::AddPlaylist(1)),
        vec![Action::Try(Op::PlaylistAddFound(1), "playlist add")]
    );
    assert_eq!(db(&sn, DBMsg::AddPlaylist(2)), vec![]);
}

#[test]
fn library_messages() {
    let sn = snap();
    let li = |m: LIMsg| run(&sn, Msg::Library(m));
    assert_eq!(li(LIMsg::TreeBlur), vec![Action::ActiveStrict(Id::Playlist)]);
    assert_eq!(
        li(LIMsg::TreeStepInto(s("/music"))),
        vec![Action::Do(Op::LibraryStepInto(s("/music")))]
    );
    assert_eq!(li(LIMsg::TreeStepOut), vec![Action::Do(Op::LibraryStepOut)]);
    assert_eq!(li(LIMsg::Yank), vec![Action::Do(Op::LibraryYank)]);
    assert_eq!(li(LIMsg::Paste), vec![Action::Try(Op::LibraryPaste, "library paste")]);
    assert_eq!(li(LIMsg::SwitchRoot), vec![Action::Do(Op::LibrarySwitchRoot)]);
    assert_eq!(li(LIMsg::AddRoot), vec![Action::Try(Op::LibraryAddRoot, "library add root")]);
    assert_eq!(
        li(LIMsg::RemoveRoot),
        vec![Action::Try(Op::LibraryRemoveRoot, "library remove root")]
    );
}

#[test]
fn delete_confirmation() {
    let mut sn = snap();
    assert_eq!(run(&sn, Msg::DeleteConfirmShow), vec![Action::Do(Op::LibraryBeforeDelete)]);
    assert_eq!(run(&sn, Msg::DeleteConfirmCloseCancel), vec![]);
    assert_eq!(
        run(&sn, Msg::DeleteConfirmCloseOk),
        vec![Action::Try(Op::LibraryDeleteNode, "library delete song")]
    );
    sn.mounted.delete_confirm_radio_popup = true;
    assert_eq!(
        run(&sn, Msg::DeleteConfirmCloseCancel),
        vec![Action::Umount(Id::DeleteConfirmRadioPopup)]
    );
    sn.mounted.delete_confirm_input_popup = true;
    assert_eq!(
        run(&sn, Msg::DeleteConfirmCloseOk),
        vec![
            Action::Umount(Id::DeleteConfirmRadioPopup),
            Action::Umount(Id::DeleteConfirmInputPopup),
            Action::Try(Op::LibraryDeleteNode, "library delete song")
        ]
    );
    let m = model(TermusicLayout::TreeView);
    assert_eq!(m.update_delete_confirmation(&sn, &Msg::Nothing), vec![]);
}

#[test]
fn youtube_search() {
    let mut sn = snap();
    let ys = |sn: &Snapshot, m: YSMsg| run(sn, Msg::YoutubeSearch(m));
    assert_eq!(ys(&sn, YSMsg::InputPopupShow), vec![Action::Do(Op::MountYoutubeSearchInput)]);
    assert_eq!(ys(&sn, YSMsg::InputPopupCloseCancel), vec![]);
    assert_eq!(
        ys(&sn, YSMsg::InputPopupCloseOk(s("https://v/1"))),
        vec![Action::Try(Op::YoutubeDl(s("https://v/1")), "youtube-dl download")]
    );
    assert_eq!(
        ys(&sn, YSMsg::InputPopupCloseOk(s("some words"))),
        vec![
            Action::Do(Op::MountYoutubeSearchTable),
            Action::Do(Op::YoutubeOptionsSearch(s("some words")))
        ]
    );
    sn.mounted.youtube_search_input_popup = true;
    assert_eq!(
        ys(&sn, YSMsg::InputPopupCloseCancel),
        vec![Action::UmountStrict(Id::YoutubeSearchInputPopup)]
    );
    assert_eq!(
        ys(&sn, YSMsg::InputPopupCloseOk(s("htt"))),
        vec![
            Action::UmountStrict(Id::YoutubeSearchInputPopup),
            Action::Do(Op::MountYoutubeSearchTable),
            Action::Do(Op::YoutubeOptionsSearch(s("htt")))
        ]
    );
    assert_eq!(
        ys(&sn, YSMsg::TablePopupCloseCancel),
        vec![Action::Do(Op::UmountYoutubeSearchTablePopup)]
    );
    assert_eq!(ys(&sn, YSMsg::TablePopupNext), vec![Action::Do(Op::YoutubeOptionsNextPage)]);
    assert_eq!(
        ys(&sn, YSMsg::TablePopupPrevious),
        vec![Action::Do(Op::YoutubeOptionsPrevPage)]
    );
    assert_eq!(
        ys(&sn, YSMsg::TablePopupCloseOk(3)),
        vec![Action::TryReload(
            Op::YoutubeOptionsDownload(3),
            "youtube-dl options download"
        )]
    );
}

#[test]
fn general_search() {
    let mut sn = snap();
    let gs = |sn: &Snapshot, m: GSMsg| run(sn, Msg::GeneralSearch(m));
    let close = || {
        vec![
            Action::Umount(Id::GeneralSearchInput),
            Action::Umount(Id::GeneralSearchTable),
        ]
    };
    let photo = || Action::Try(Op::UpdatePhoto, "update_photo");
    assert_eq!(
        gs(&sn, GSMsg::PopupShowDatabase),
        vec![Action::Do(Op::MountSearchDatabase), Action::Do(Op::DatabaseUpdateSearchAll)]
    );
    assert_eq!(
        gs(&sn, GSMsg::PopupShowLibrary),
        vec![Action::Do(Op::MountSearchLibrary), Action::Do(Op::LibraryUpdateSearchAll)]
    );
    assert_eq!(
        gs(&sn, GSMsg::PopupShowPlaylist),
        vec![Action::Do(Op::MountSearchPlaylist), Action::Do(Op::PlaylistUpdateSearchAll)]
    );
    assert_eq!(
        gs(&sn, GSMsg::PopupShowEpisode),
        vec![Action::Do(Op::MountSearchEpisode), Action::Do(Op::EpisodeUpdateSearchAll)]
    );
    assert_eq!(
        gs(&sn, GSMsg::PopupShowPodcast),
        vec![Action::Do(Op::MountSearchPodcast), Action::Do(Op::PodcastUpdateSearchAll)]
    );
    assert_eq!(
        gs(&sn, GSMsg::PopupUpdateLibrary(s("a"))),
        vec![Action::Do(Op::LibraryUpdateSearch(s("a")))]
    );
    assert_eq!(
        gs(&sn, GSMsg::PopupUpdatePlaylist(s("b"))),
        vec![Action::Do(Op::PlaylistUpdateSearch(s("b")))]
    );
    assert_eq!(
        gs(&sn, GSMsg::PopupUpdateDatabase(s("c"))),
        vec![Action::Do(Op::DatabaseUpdateSearch(s("c")))]
    );
    assert_eq!(
        gs(&sn, GSMsg::PopupUpdateEpisode(s("d"))),
        vec![Action::Do(Op::EpisodeUpdateSearch(s("d")))]
    );
    assert_eq!(
        gs(&sn, GSMsg::PopupUpdatePodcast(s("e"))),
        vec![Action::Do(Op::PodcastUpdateSearch(s("e")))]
    );
    assert_eq!(gs(&sn, GSMsg::InputBlur), vec![]);
    assert_eq!(gs(&sn, GSMsg::TableBlur), vec![]);
    sn.mounted.general_search_table = true;
    assert_eq!(gs(&sn, GSMsg::InputBlur), vec![Action::Active(Id::GeneralSearchTable)]);
    assert_eq!(gs(&sn, GSMsg::TableBlur), vec![]);
    sn.mounted.general_search_input = true;
    assert_eq!(gs(&sn, GSMsg::TableBlur), vec![Action::Active(Id::GeneralSearchInput)]);
    let mut expected = close();
    expected.push(photo());
    assert_eq!(gs(&sn, GSMsg::PopupCloseCancel), expected);
    assert_eq!(
        gs(&sn, GSMsg::PopupCloseLibraryAddPlaylist),
        vec![Action::Try(Op::GeneralSearchAfterLibraryAddPlaylist, "general search")]
    );
    for (msg, op) in [
        (GSMsg::PopupCloseOkLibraryLocate, Op::GeneralSearchAfterLibrarySelect),
        (
            GSMsg::PopupClosePlaylistPlaySelected,
            Op::GeneralSearchAfterPlaylistPlaySelected,
        ),
        (GSMsg::PopupCloseOkPlaylistLocate, Op::GeneralSearchAfterPlaylistSelect),
    ] {
        let mut expected = vec![Action::Do(op)];
        expected.extend(close());
        expected.push(photo());
        assert_eq!(gs(&sn, msg), expected);
    }
    assert_eq!(
        gs(&sn, GSMsg::PopupCloseDatabaseAddPlaylist),
        vec![Action::Try(
            Op::GeneralSearchAfterDatabaseAddPlaylist,
            "add to playlist from database search"
        )]
    );
    assert_eq!(
        gs(&sn, GSMsg::PopupCloseEpisodeAddPlaylist),
        vec![Action::Try(
            Op::GeneralSearchAfterEpisodeAddPlaylist,
            "add to playlist from episode search"
        )]
    );
    let mut expected = vec![Action::Try(
        Op::GeneralSearchAfterEpisodeSelect,
        "general search after episode select",
    )];
    expected.extend(close());
    expected.push(Action::Do(Op::PodcastFocusEpisodeList));
    expected.push(photo());
    assert_eq!(gs(&sn, GSMsg::PopupCloseOkEpisodeLocate), expected);
    let mut expected = vec![Action::Try(
        Op::GeneralSearchAfterPodcastSelect,
        "general search after podcast select",
    )];
    expected.extend(close());
    expected.push(Action::Do(Op::PodcastFocusPodcastList));
    expected.push(photo());
    assert_eq!(gs(&sn, GSMsg::PopupCloseOkPodcastLocate), expected);
}

#[test]
fn podcast_focus_and_popups() {
    let sn = snap();
    let pc = |m: PCMsg| run(&sn, Msg::Podcast(m));
    assert_eq!(pc(PCMsg::PodcastBlurDown), vec![Action::Active(Id::Episode)]);
    assert_eq!(pc(PCMsg::PodcastBlurUp), vec![Action::Active(Id::Lyric)]);
    assert_eq!(pc(PCMsg::EpisodeBlurDown), vec![Action::Active(Id::Playlist)]);
    assert_eq!(pc(PCMsg::EpisodeBlurUp), vec![Action::Active(Id::Podcast)]);
    assert_eq!(pc(PCMsg::PodcastAddPopupShow), vec![Action::Do(Op::MountPodcastAddPopup)]);
    assert_eq!(
        pc(PCMsg::PodcastAddPopupCloseOk(s("http://feed"))),
        vec![
            Action::Do(Op::UmountPodcastAddPopup),
            Action::Do(Op::PodcastAdd(s("http://feed")))
        ]
    );
    assert_eq!(
        pc(PCMsg::PodcastAddPopupCloseOk(s("news"))),
        vec![
            Action::Do(Op::UmountPodcastAddPopup),
            Action::Do(Op::PodcastSearchItunes(s("news"))),
            Action::Do(Op::MountPodcastSearchTable)
        ]
    );
    assert_eq!(
        pc(PCMsg::PodcastAddPopupCloseOk(s(""))),
        vec![
            Action::Do(Op::UmountPodcastAddPopup),
            Action::Do(Op::PodcastSearchItunes(s(""))),
            Action::Do(Op::MountPodcastSearchTable)
        ]
    );
    assert_eq!(
        pc(PCMsg::PodcastAddPopupCloseCancel),
        vec![Action::Do(Op::UmountPodcastAddPopup)]
    );
    assert_eq!(pc(PCMsg::DescriptionUpdate), vec![Action::Do(Op::LyricUpdate)]);
    assert_eq!(pc(PCMsg::FeedDeleteShow), vec![Action::Do(Op::MountFeedDeleteConfirmRadio)]);
    assert_eq!(
        pc(PCMsg::FeedDeleteCloseOk),
        vec![
            Action::Do(Op::UmountFeedDeleteConfirmRadio),
            Action::Try(Op::PodcastRemoveFeed, "podcast remove feed")
        ]
    );
    assert_eq!(
        pc(PCMsg::FeedDeleteCloseCancel),
        vec![Action::Do(Op::UmountFeedDeleteConfirmRadio)]
    );
    assert_eq!(pc(PCMsg::FeedsDeleteShow), vec![Action::Do(Op::MountFeedDeleteConfirmInput)]);
    assert_eq!(
        pc(PCMsg::FeedsDeleteCloseOk),
        vec![
            Action::Do(Op::UmountFeedDeleteConfirmInput),
            Action::Try(Op::PodcastRemoveAllFeeds, "podcast remove all feeds")
        ]
    );
    assert_eq!(
        pc(PCMsg::FeedsDeleteCloseCancel),
        vec![Action::Do(Op::UmountFeedDeleteConfirmInput)]
    );
    assert_eq!(
        pc(PCMsg::SearchItunesCloseCancel),
        vec![Action::Do(Op::UmountPodcastSearchTable)]
    );
    assert_eq!(
        pc(PCMsg::SearchSuccess),
        vec![Action::Do(Op::StoreSearchResults), Action::Do(Op::UpdatePodcastSearchTable)]
    );
    assert_eq!(
        pc(PCMsg::SearchError(s("no net"))),
        vec![Action::ErrorPopup(ErrorText::Plain(s("no net")))]
    );
}

#[test]
fn podcast_feeds_and_episodes() {
    let mut sn = snap();
    let pc = |sn: &Snapshot, m: PCMsg| run(sn, Msg::Podcast(m));
    assert_eq!(
        pc(&sn, PCMsg::SyncData(7, s("u"))),
        vec![
            Action::Do(Op::TrackerDecrease(s("u"))),
            Action::Message(TrackerMessage::SyncSuccess),
            Action::Try(Op::AddOrSyncData(Some(7)), "add or sync data")
        ]
    );
    assert_eq!(
        pc(&sn, PCMsg::NewData(s("u"))),
        vec![
            Action::Do(Op::TrackerDecrease(s("u"))),
            Action::Message(TrackerMessage::FeedsAdded),
            Action::Try(Op::AddOrSyncData(None), "add or sync data")
        ]
    );
    assert_eq!(
        pc(&sn, PCMsg::Error(s("u"))),
        vec![
            Action::Do(Op::TrackerDecrease(s("u"))),
            Action::ErrorPopup(ErrorText::FeedFailed),
            Action::Message(TrackerMessage::FeedSyncFailed)
        ]
    );
    assert_eq!(
        pc(&sn, PCMsg::PodcastSelected(2)),
        vec![
            Action::Do(Op::SelectPodcast(2)),
            Action::Try(Op::PodcastSyncEpisodes, "podcast sync episodes")
        ]
    );
    assert_eq!(
        pc(&sn, PCMsg::EpisodeAdd(1)),
        vec![Action::Try(Op::PlaylistAddEpisode(1), "podcast playlist add episode")]
    );
    assert_eq!(
        pc(&sn, PCMsg::EpisodeMarkPlayed(1)),
        vec![Action::Try(Op::EpisodeMarkPlayed(1), "podcast episode mark played")]
    );
    assert_eq!(
        pc(&sn, PCMsg::EpisodeMarkAllPlayed),
        vec![Action::Try(Op::EpisodeMarkAllPlayed, "podcast episode mark all played")]
    );
    assert_eq!(
        pc(&sn, PCMsg::PodcastRefreshOne(4)),
        vec![Action::Try(Op::PodcastRefreshFeeds(Some(4)), "podcast refresh feeds one")]
    );
    assert_eq!(
        pc(&sn, PCMsg::PodcastRefreshAll),
        vec![Action::Try(Op::PodcastRefreshFeeds(None), "podcast refresh feeds all")]
    );
    assert_eq!(
        pc(&sn, PCMsg::FetchPodcastStart(s("u"))),
        vec![
            Action::Do(Op::TrackerIncrease(s("u"))),
            Action::Message(TrackerMessage::SyncStart)
        ]
    );
    assert_eq!(
        pc(&sn, PCMsg::EpisodeDownload(0)),
        vec![Action::Try(Op::EpisodeDownload(0), "podcast episode download")]
    );
    assert_eq!(
        pc(&sn, PCMsg::EpisodeDeleteFile(0)),
        vec![Action::Try(Op::EpisodeDeleteFile(0), "podcast episode delete")]
    );
    assert_eq!(pc(&sn, PCMsg::SearchItunesCloseOk(0)), vec![]);
    sn.search_results = Some(2);
    assert_eq!(
        pc(&sn, PCMsg::SearchItunesCloseOk(1)),
        vec![Action::Do(Op::PodcastAddFound(1))]
    );
    assert_eq!(pc(&sn, PCMsg::SearchItunesCloseOk(2)), vec![]);
}

#[test]
fn podcast_downloads() {
    let sn = snap();
    let pc = |m: PCMsg| run(&sn, Msg::Podcast(m));
    assert_eq!(
        pc(PCMsg::DLStart(ep())),
        vec![
            Action::Do(Op::TrackerIncrease(s("http://e/1.mp3"))),
            Action::Message(TrackerMessage::DownloadStart(s("Episode 1")))
        ]
    );
    assert_eq!(
        pc(PCMsg::DLComplete(ep())),
        vec![
            Action::Try(Op::EpisodeDownloadComplete, "podcast episode download complete"),
            Action::Do(Op::TrackerDecrease(s("http://e/1.mp3"))),
            Action::Message(TrackerMessage::DownloadComplete)
        ]
    );
    let failed = |m: TrackerMessage| {
        vec![
            Action::Do(Op::TrackerDecrease(s("http://e/1.mp3"))),
            Action::ErrorPopup(ErrorText::EpisodeDownloadFailed(s("Episode 1"))),
            Action::Message(m),
        ]
    };
    assert_eq!(
        pc(PCMsg::DLResponseError(ep())),
        failed(TrackerMessage::DownloadErrorResponse(s("Episode 1")))
    );
    assert_eq!(
        pc(PCMsg::DLFileCreateError(ep())),
        failed(TrackerMessage::DownloadErrorFileCreate(s("Episode 1")))
    );
    assert_eq!(
        pc(PCMsg::DLFileWriteError(ep())),
        failed(TrackerMessage::DownloadErrorFileWrite(s("Episode 1")))
    );
}

#[test]
fn download_messages() {
    let mut sn = snap();
    let dl = |sn: &Snapshot, m: DLMsg| run(sn, Msg::Download(m));
    assert_eq!(
        dl(&sn, DLMsg::DownloadRunning(s("u"), s("t"))),
        vec![
            Action::Do(Op::TrackerIncrease(s("u"))),
            Action::Message(TrackerMessage::DownloadStart(s("t")))
        ]
    );
    assert_eq!(
        dl(&sn, DLMsg::DownloadSuccess(s("u"))),
        vec![
            Action::Do(Op::TrackerDecrease(s("u"))),
            Action::Message(TrackerMessage::DownloadComplete)
        ]
    );
    assert_eq!(
        dl(&sn, DLMsg::DownloadCompleted(s("u"), Some(s("/music/a.mp3")))),
        vec![Action::Do(Op::LibraryReloadWithNodeFocus(Some(s("/music/a.mp3"))))]
    );
    assert_eq!(
        dl(&sn, DLMsg::DownloadCompleted(s("u"), None)),
        vec![Action::Do(Op::LibraryReloadWithNodeFocus(None))]
    );
    sn.tracker_visible = true;
    sn.mounted.tag_editor_label_hint = true;
    assert_eq!(dl(&sn, DLMsg::DownloadCompleted(s("u"), None)), vec![]);
    assert_eq!(
        dl(&sn, DLMsg::DownloadSuccess(s("u"))),
        vec![
            Action::Do(Op::TrackerDecrease(s("u"))),
            Action::Message(TrackerMessage::DownloadComplete),
            Action::Do(Op::UmountTagEditor)
        ]
    );
    assert_eq!(
        dl(&sn, DLMsg::DownloadErrDownload(s("u"), s("t"), s("404"))),
        vec![
            Action::Do(Op::TrackerDecrease(s("u"))),
            Action::ErrorPopup(ErrorText::DownloadFailed(s("404"))),
            Action::Message(TrackerMessage::DownloadErrorResponse(s("t")))
        ]
    );
    assert_eq!(
        dl(&sn, DLMsg::DownloadErrEmbedData(s("u"), s("t"))),
        vec![
            Action::ErrorPopup(ErrorText::TagInfoIncomplete),
            Action::Message(TrackerMessage::DownloadErrorEmbedData(s("t")))
        ]
    );
    assert_eq!(
        dl(&sn, DLMsg::MessageShow(s("a"), s("b"))),
        vec![Action::Do(Op::MountMessage(s("a"), s("b")))]
    );
    assert_eq!(
        dl(&sn, DLMsg::MessageHide(s("a"), s("b"))),
        vec![Action::Do(Op::UmountMessage(s("a"), s("b")))]
    );
    assert_eq!(
        dl(&sn, DLMsg::YoutubeSearchSuccess),
        vec![Action::Do(Op::StoreYoutubeOptions), Action::Do(Op::SyncYoutubeOptions)]
    );
    assert_eq!(
        dl(&sn, DLMsg::YoutubeSearchFail(s("e"))),
        vec![Action::ErrorPopup(ErrorText::YoutubeSearchFail(s("e")))]
    );
    assert_eq!(dl(&sn, DLMsg::FetchPhotoSuccess), vec![Action::Do(Op::ShowImage)]);
    assert_eq!(
        dl(&sn, DLMsg::FetchPhotoErr(s("no photo"))),
        vec![Action::SayText(s("no photo"))]
    );
    let mut m = model(TermusicLayout::TreeView);
    m.update_download_msg(&sn, &DLMsg::FetchPhotoSuccess);
    assert!(m.redraw);
}

#[test]
fn error_words() {
    assert_eq!(ErrorText::FeedFailed.to_string(), None);
    assert_eq!(
        ErrorText::EpisodeDownloadFailed(s("E")).to_string(),
        Some(s("download failed for episode: E"))
    );
    assert_eq!(
        ErrorText::DownloadFailed(s("404")).to_string(),
        Some(s("download failed: 404"))
    );
    assert_eq!(
        ErrorText::TagInfoIncomplete.to_string(),
        Some(s("download ok but tag info is not complete."))
    );
    assert_eq!(
        ErrorText::YoutubeSearchFail(s("x")).to_string(),
        Some(s("Youtube search fail: x"))
    );
    assert_eq!(ErrorText::Plain(s("plain")).to_string(), Some(s("plain")));
}

#[test]
fn tag_editor_id_is_told_apart() {
    assert_ne!(Id::TagEditor(IdTagEditor::LabelHint), Id::Lyric);
    let m = Msg::Podcast(PCMsg::DLStart(ep()));
    assert_eq!(m.clone(), m);
    let m = Msg::Download(DLMsg::DownloadCompleted(s("u"), Some(s("f"))));
    assert_eq!(m.clone(), m);
}
