use termusic::player::gstreamer_backend::{
    GStreamer, PlayerCall, PlayerError, PlayerMsg, ProgressSample,
};
use termusic::player::orchestrator::{Orchestrator, PlaybackState, PlayerCmd};
use termusic::player::playlist::{LoopMode, MediaType, Playlist, Track};

fn track(file: &str, seconds: u64) -> Track {
    Track::new(file.to_string(), None, None, Some(seconds), MediaType::Music)
}

fn load(file: &str) -> Vec<PlayerCall> {
    vec![
        PlayerCall::SetUri(format!("file:///{}", file)),
        PlayerCall::Stop,
        PlayerCall::Play,
    ]
}

fn two_tracks(mode: LoopMode) -> Orchestrator {
    let (mut o, _) = Orchestrator::new(true, 70, 100, mode, 5);
    o.enqueue(track("/music/a.mp3", 180));
    o.enqueue(track("/music/b.mp3", 200));
    o
}

fn files(p: &Playlist) -> Vec<String> {
    (0..p.len())
        .map(|i| p.track(i).unwrap().file().to_string())
        .collect()
}

#[test]
fn engine_starts_with_the_configured_values() {
    let (e, calls) = GStreamer::new(true, 70, 120);
    assert_eq!(e.volume(), 70);
    assert_eq!(e.speed(), 120);
    assert!(!e.is_paused());
    assert!(e.gapless());
    assert!(e.is_ready());
    assert_eq!(e.media(), None);
    assert_eq!(calls, vec![PlayerCall::SetVolume(70), PlayerCall::SetRate(120)]);
    let (e, calls) = GStreamer::new(true, 170, 1);
    assert_eq!(e.volume(), 100);
    assert_eq!(e.speed(), 10);
    assert_eq!(calls, vec![PlayerCall::SetVolume(100), PlayerCall::SetRate(10)]);
    let (e, _) = GStreamer::new(true, -3, 3000);
    assert_eq!(e.volume(), 0);
    assert_eq!(e.speed(), 300);
}

#[test]
fn volume_stays_in_range() {
    let (mut e, _) = GStreamer::new(true, 98, 100);
    assert_eq!(e.volume_up(), PlayerCall::SetVolume(100));
    assert_eq!(e.volume_up(), PlayerCall::SetVolume(100));
    assert_eq!(e.volume(), 100);
    assert_eq!(e.set_volume(3), PlayerCall::SetVolume(3));
    assert_eq!(e.volume_down(), PlayerCall::SetVolume(0));
    assert_eq!(e.volume_down(), PlayerCall::SetVolume(0));
    assert_eq!(e.volume(), 0);
    assert_eq!(e.set_volume(101), PlayerCall::SetVolume(100));
    assert_eq!(e.set_volume(-1), PlayerCall::SetVolume(0));
    assert_eq!(e.set_volume(i32::MAX), PlayerCall::SetVolume(100));
    assert_eq!(e.set_volume(i32::MIN), PlayerCall::SetVolume(0));
    assert_eq!(e.set_volume(50), PlayerCall::SetVolume(50));
    assert_eq!(e.volume_up(), PlayerCall::SetVolume(55));
    assert_eq!(e.volume_down(), PlayerCall::SetVolume(50));
}

#[test]
fn speed_stays_in_range() {
    // 2.95 and two steps of 0.1
    let (mut e, _) = GStreamer::new(true, 50, 295);
    assert_eq!(e.speed_up(), PlayerCall::SetRate(300));
    assert_eq!(e.speed_up(), PlayerCall::SetRate(300));
    assert_eq!(e.speed(), 300);
    assert_eq!(e.set_speed(15), PlayerCall::SetRate(15));
    assert_eq!(e.speed_down(), PlayerCall::SetRate(10));
    assert_eq!(e.speed_down(), PlayerCall::SetRate(10));
    assert_eq!(e.set_speed(0), PlayerCall::SetRate(10));
    assert_eq!(e.set_speed(301), PlayerCall::SetRate(300));
    assert_eq!(e.set_speed(i32::MAX), PlayerCall::SetRate(300));
    assert_eq!(e.set_speed(i32::MIN), PlayerCall::SetRate(10));
    assert_eq!(e.set_speed(100), PlayerCall::SetRate(100));
    assert_eq!(e.speed_up(), PlayerCall::SetRate(110));
    assert_eq!(e.speed_down(), PlayerCall::SetRate(100));
}

#[test]
fn seek_out_of_range_changes_nothing() {
    let (mut e, _) = GStreamer::new(true, 50, 100);
    e.set_clock(Some(170), Some(180));
    assert_eq!(e.seek(11), Err(PlayerError::SeekOutOfRange));
    assert_eq!(e.get_progress().position_seconds, 170);
    assert_eq!(e.seek(10), Ok(PlayerCall::Seek(180)));
    assert_eq!(e.get_progress().position_seconds, 180);
    assert_eq!(e.seek(-200), Ok(PlayerCall::Seek(0)));
    assert_eq!(e.get_progress().position_seconds, 0);
    assert_eq!(e.seek(i64::MAX), Err(PlayerError::SeekOutOfRange));
    assert_eq!(e.seek(i64::MIN), Ok(PlayerCall::Seek(0)));
    e.set_clock(Some(i64::MAX as u64), Some(i64::MAX as u64));
    assert_eq!(e.seek(i64::MAX), Err(PlayerError::SeekOutOfRange));
    assert_eq!(e.seek(1), Err(PlayerError::SeekOutOfRange));
    assert_eq!(e.seek(0), Ok(PlayerCall::Seek(i64::MAX as u64)));
}

#[test]
fn progress_is_zero_for_an_unknown_duration() {
    let (mut e, _) = GStreamer::new(true, 50, 100);
    assert_eq!(
        e.get_progress(),
        ProgressSample { percent: 0, position_seconds: 0, duration_seconds: 0 }
    );
    e.set_clock(Some(42), None);
    assert_eq!(
        e.get_progress(),
        ProgressSample { percent: 0, position_seconds: 42, duration_seconds: 0 }
    );
    e.set_clock(Some(42), Some(0));
    assert_eq!(e.get_progress().percent, 0);
}

#[test]
fn progress_in_whole_percent() {
    let (mut e, _) = GStreamer::new(true, 50, 100);
    e.set_clock(Some(45), Some(180));
    assert_eq!(
        e.get_progress(),
        ProgressSample { percent: 25, position_seconds: 45, duration_seconds: 180 }
    );
    e.set_clock(Some(1), Some(3));
    assert_eq!(e.get_progress().percent, 33);
    e.set_clock(Some(2), Some(3));
    assert_eq!(e.get_progress().percent, 66);
    e.set_clock(Some(180), Some(180));
    assert_eq!(e.get_progress().percent, 100);
    // the clock may run past the end
    e.set_clock(Some(190), Some(180));
    assert_eq!(
        e.get_progress(),
        ProgressSample { percent: 100, position_seconds: 190, duration_seconds: 180 }
    );
    e.set_clock(Some(i64::MAX as u64), Some(1));
    assert_eq!(e.get_progress().percent, 100);
    e.set_clock(Some(i64::MAX as u64), Some(i64::MAX as u64));
    assert_eq!(e.get_progress().percent, 100);
    // a reading that does not fit counts as none
    e.set_clock(Some(u64::MAX), Some(10));
    assert_eq!(
        e.get_progress(),
        ProgressSample { percent: 0, position_seconds: 0, duration_seconds: 10 }
    );
}

#[test]
fn pause_and_resume_are_idempotent() {
    let (mut e, _) = GStreamer::new(true, 50, 100);
    assert_eq!(e.pause(), vec![PlayerCall::Pause]);
    assert!(e.is_paused());
    assert_eq!(e.pause(), vec![]);
    assert!(e.is_paused());
    assert_eq!(e.resume(), vec![PlayerCall::Play]);
    assert!(!e.is_paused());
    assert_eq!(e.resume(), vec![]);
    assert!(!e.is_paused());
}

#[test]
fn engine_loads_and_stops() {
    let (mut e, _) = GStreamer::new(true, 50, 100);
    assert_eq!(e.add_and_play("/music/a.mp3"), Ok(load("/music/a.mp3")));
    assert_eq!(e.media(), Some("file:////music/a.mp3"));
    e.set_clock(Some(3), Some(10));
    assert_eq!(e.play(), vec![PlayerCall::Stop, PlayerCall::Play]);
    assert_eq!(e.get_progress().position_seconds, 0);
    assert_eq!(e.get_progress().duration_seconds, 10);
    assert_eq!(
        e.enqueue_next("b.mp3"),
        vec![PlayerCall::SetUri("file:///b.mp3".to_string())]
    );
    assert_eq!(e.enqueued(), Some("file:///b.mp3"));
    assert_eq!(e.media(), Some("file:////music/a.mp3"));
    assert_eq!(e.play(), vec![PlayerCall::Stop, PlayerCall::Play]);
    assert_eq!(e.media(), Some("file:///b.mp3"));
    assert_eq!(e.enqueued(), None);
    assert_eq!(e.stop(), PlayerCall::Stop);
    assert_eq!(e.media(), None);
    assert_eq!(e.skip_one(), PlayerMsg::EndOfStream);
    e.set_gapless(false);
    assert_eq!(e.enqueue_next("c.mp3"), vec![]);
    assert_eq!(e.enqueued(), None);
}

#[test]
fn engine_that_was_not_constructed_plays_nothing() {
    let (mut e, _) = GStreamer::new(false, 50, 100);
    assert_eq!(e.add_and_play("/music/a.mp3"), Err(PlayerError::EngineInit));
    assert_eq!(e.media(), None);
    let (mut o, _) = Orchestrator::new(false, 50, 100, LoopMode::Sequential, 5);
    let out = o.command(PlayerCmd::Play(track("/music/a.mp3", 1)), 0);
    assert_eq!(out.calls, vec![]);
    assert_eq!(out.report, Some(PlayerError::EngineInit));
    assert_eq!(o.state(), PlaybackState::Stopped);
    assert_eq!(o.playlist().len(), 0);
}

#[test]
fn loop_mode_cycles_in_four_steps() {
    assert_eq!(LoopMode::Single.next(), LoopMode::Sequential);
    assert_eq!(LoopMode::Sequential.next(), LoopMode::Shuffle);
    assert_eq!(LoopMode::Shuffle.next(), LoopMode::PlaylistRepeat);
    assert_eq!(LoopMode::PlaylistRepeat.next(), LoopMode::Single);
    let mut o = two_tracks(LoopMode::Sequential);
    let mut seen = vec![];
    for _ in 0..4 {
        let out = o.command(PlayerCmd::CycleLoopMode, 0);
        assert_eq!(out.calls, vec![]);
        seen.push(o.playlist().loop_mode());
    }
    assert_eq!(
        seen,
        vec![
            LoopMode::Shuffle,
            LoopMode::PlaylistRepeat,
            LoopMode::Single,
            LoopMode::Sequential
        ]
    );
}

#[test]
fn end_to_end_sequential() {
    let mut o = two_tracks(LoopMode::Sequential);
    let out = o.command(PlayerCmd::Play(track("/music/a.mp3", 180)), 0);
    assert_eq!(out.calls, load("/music/a.mp3"));
    assert_eq!(out.report, None);
    assert_eq!(o.state(), PlaybackState::Playing);
    assert_eq!(o.playlist().current_index(), Some(0));
    assert_eq!(o.playlist().len(), 2);

    let out = o.message(PlayerMsg::EndOfStream, 0);
    assert_eq!(out.calls, load("/music/b.mp3"));
    assert_eq!(out.report, None);
    assert_eq!(o.state(), PlaybackState::Playing);
    assert_eq!(o.playlist().current_index(), Some(1));
    assert_eq!(o.playlist().current_track().unwrap().file(), "/music/b.mp3");
    assert_eq!(o.playlist().current_track().unwrap().duration(), Some(200));
    assert_eq!(o.engine().media(), Some("file:////music/b.mp3"));

    // the last track ends
    let out = o.message(PlayerMsg::EndOfStream, 0);
    assert_eq!(out.calls, vec![PlayerCall::Stop]);
    assert_eq!(o.state(), PlaybackState::Stopped);
    assert_eq!(o.playlist().current_index(), None);
    assert_eq!(o.engine().media(), None);
}

#[test]
fn playlist_repeat_wraps() {
    let mut o = two_tracks(LoopMode::PlaylistRepeat);
    o.play(track("/music/b.mp3", 200));
    assert_eq!(o.playlist().current_index(), Some(1));
    let out = o.end_of_stream(7);
    assert_eq!(out.calls, load("/music/a.mp3"));
    assert_eq!(o.playlist().current_index(), Some(0));
    assert_eq!(o.state(), PlaybackState::Playing);
}

#[test]
fn single_repeats_the_same_track() {
    let mut o = two_tracks(LoopMode::Single);
    o.play(track("/music/b.mp3", 200));
    for pick in 0..5 {
        let out = o.end_of_stream(pick);
        assert_eq!(out.calls, load("/music/b.mp3"));
        assert_eq!(o.playlist().current_index(), Some(1));
        assert_eq!(o.state(), PlaybackState::Playing);
    }
}

#[test]
fn shuffle_never_repeats_with_more_than_one_track() {
    let (mut o, _) = Orchestrator::new(true, 70, 100, LoopMode::Shuffle, 5);
    for name in ["a", "b", "c", "d"] {
        o.enqueue(track(name, 1));
    }
    o.play(track("c", 1));
    for pick in 0..300 {
        let before = o.playlist().current_index().unwrap();
        o.end_of_stream(pick * 7 + 1);
        let after = o.playlist().current_index().unwrap();
        assert_ne!(before, after);
        assert!(after < 4);
    }
    // picks 0, 1, 2 from the track at 2 give 0, 1, 3
    let mut p = Playlist::new(LoopMode::Shuffle);
    for name in ["a", "b", "c", "d"] {
        p.append(track(name, 1));
    }
    p.set_current(Some(2));
    assert_eq!(p.next_index(0), Some(0));
    assert_eq!(p.next_index(1), Some(1));
    assert_eq!(p.next_index(2), Some(3));
    assert_eq!(p.next_index(3), Some(0));
    assert_eq!(p.next_index(usize::MAX), Some(usize::MAX % 3));
    // from every track, the picks below three reach each other track once
    for current in 0..4 {
        p.set_current(Some(current));
        let mut reached: Vec<usize> = (0..3).map(|pick| p.next_index(pick).unwrap()).collect();
        reached.sort();
        let others: Vec<usize> = (0..4).filter(|i| *i != current).collect();
        assert_eq!(reached, others);
    }
}

#[test]
fn shuffle_with_one_track_repeats_it() {
    let (mut o, _) = Orchestrator::new(true, 70, 100, LoopMode::Shuffle, 5);
    o.play(track("only", 1));
    assert_eq!(o.playlist().len(), 1);
    let out = o.end_of_stream(12345);
    assert_eq!(out.calls, load("only"));
    assert_eq!(o.playlist().current_index(), Some(0));
}

#[test]
fn stop_supersedes_end_of_stream() {
    let mut o = two_tracks(LoopMode::Sequential);
    o.play(track("/music/a.mp3", 180));
    let out = o.command(PlayerCmd::Stop, 0);
    assert_eq!(out.calls, vec![PlayerCall::Stop]);
    assert_eq!(o.state(), PlaybackState::Stopped);
    assert_eq!(o.playlist().current_index(), None);
    // the end of stream that was on its way
    let out = o.message(PlayerMsg::EndOfStream, 0);
    assert_eq!(out.calls, vec![]);
    assert_eq!(out.report, None);
    assert_eq!(o.state(), PlaybackState::Stopped);
    assert_eq!(o.playlist().current_index(), None);
}

#[test]
fn end_of_stream_while_paused_is_ignored() {
    let mut o = two_tracks(LoopMode::Sequential);
    o.play(track("/music/a.mp3", 180));
    let out = o.command(PlayerCmd::TogglePause, 0);
    assert_eq!(out.calls, vec![PlayerCall::Pause]);
    assert_eq!(o.state(), PlaybackState::Paused);
    let out = o.end_of_stream(0);
    assert_eq!(out.calls, vec![]);
    assert_eq!(o.state(), PlaybackState::Paused);
    assert_eq!(o.playlist().current_index(), Some(0));
    let out = o.command(PlayerCmd::TogglePause, 0);
    assert_eq!(out.calls, vec![PlayerCall::Play]);
    assert_eq!(o.state(), PlaybackState::Playing);
}

#[test]
fn toggle_pause_while_stopped_does_nothing() {
    let mut o = two_tracks(LoopMode::Sequential);
    let out = o.toggle_pause();
    assert_eq!(out.calls, vec![]);
    assert_eq!(o.state(), PlaybackState::Stopped);
}

#[test]
fn play_puts_an_unknown_track_at_the_end() {
    let mut o = two_tracks(LoopMode::Sequential);
    let out = o.play(track("/music/c.mp3", 10));
    assert_eq!(out.calls, load("/music/c.mp3"));
    assert_eq!(o.playlist().len(), 3);
    assert_eq!(o.playlist().current_index(), Some(2));
    // a second play of the same media finds it
    o.play(track("/music/c.mp3", 10));
    assert_eq!(o.playlist().len(), 3);
    assert_eq!(o.playlist().current_index(), Some(2));
    // a play while playing starts the new track
    let out = o.play(track("/music/a.mp3", 180));
    assert_eq!(out.calls, load("/music/a.mp3"));
    assert_eq!(o.playlist().current_index(), Some(0));
    assert_eq!(o.state(), PlaybackState::Playing);
}

#[test]
fn skip_next_ignores_single() {
    let mut o = two_tracks(LoopMode::Single);
    o.play(track("/music/a.mp3", 180));
    let out = o.command(PlayerCmd::SkipNext, 0);
    assert_eq!(out.calls, load("/music/b.mp3"));
    assert_eq!(o.playlist().current_index(), Some(1));
    let out = o.command(PlayerCmd::SkipNext, 0);
    assert_eq!(out.calls, vec![PlayerCall::Stop]);
    assert_eq!(o.state(), PlaybackState::Stopped);
    let out = o.command(PlayerCmd::SkipNext, 0);
    assert_eq!(out.calls, vec![]);
}

#[test]
fn skip_previous_stops_at_the_first() {
    let mut o = two_tracks(LoopMode::PlaylistRepeat);
    o.play(track("/music/b.mp3", 200));
    let out = o.command(PlayerCmd::SkipPrevious, 0);
    assert_eq!(out.calls, load("/music/a.mp3"));
    assert_eq!(o.playlist().current_index(), Some(0));
    let out = o.command(PlayerCmd::SkipPrevious, 0);
    assert_eq!(out.calls, load("/music/a.mp3"));
    assert_eq!(o.playlist().current_index(), Some(0));
    o.stop();
    let out = o.command(PlayerCmd::SkipPrevious, 0);
    assert_eq!(out.calls, vec![]);
    assert_eq!(o.state(), PlaybackState::Stopped);
}

#[test]
fn commands_for_volume_speed_and_seek() {
    let mut o = two_tracks(LoopMode::Sequential);
    o.play(track("/music/a.mp3", 180));
    assert_eq!(
        o.command(PlayerCmd::VolumeUp, 0).calls,
        vec![PlayerCall::SetVolume(75)]
    );
    assert_eq!(
        o.command(PlayerCmd::VolumeDown, 0).calls,
        vec![PlayerCall::SetVolume(70)]
    );
    assert_eq!(
        o.command(PlayerCmd::SpeedUp, 0).calls,
        vec![PlayerCall::SetRate(110)]
    );
    assert_eq!(
        o.command(PlayerCmd::SpeedDown, 0).calls,
        vec![PlayerCall::SetRate(100)]
    );
    assert_eq!(o.set_volume(200).calls, vec![PlayerCall::SetVolume(100)]);
    assert_eq!(o.set_speed(-5).calls, vec![PlayerCall::SetRate(10)]);
    assert_eq!(
        o.get_progress(Some(100), Some(180)),
        PlayerMsg::PositionChanged(ProgressSample {
            percent: 55,
            position_seconds: 100,
            duration_seconds: 180
        })
    );
    let out = o.command(PlayerCmd::SeekForward, 0);
    assert_eq!(out.calls, vec![PlayerCall::Seek(105)]);
    let out = o.command(PlayerCmd::SeekBackward, 0);
    assert_eq!(out.calls, vec![PlayerCall::Seek(100)]);
    o.get_progress(Some(178), Some(180));
    let out = o.command(PlayerCmd::SeekForward, 0);
    assert_eq!(out.calls, vec![]);
    assert_eq!(out.report, Some(PlayerError::SeekOutOfRange));
    assert_eq!(o.engine().get_progress().position_seconds, 178);
    assert_eq!(o.state(), PlaybackState::Playing);
    assert_eq!(o.seek_step(), 5);
    o.get_progress(Some(2), Some(180));
    assert_eq!(
        o.command(PlayerCmd::SeekBackward, 0).calls,
        vec![PlayerCall::Seek(0)]
    );
}

#[test]
fn gapless_preloads_and_plays_without_a_new_load() {
    let mut o = two_tracks(LoopMode::Sequential);
    o.play(track("/music/a.mp3", 180));
    let out = o.prepare_next(0);
    assert_eq!(
        out.calls,
        vec![PlayerCall::SetUri("file:////music/b.mp3".to_string())]
    );
    assert_eq!(o.upcoming(), Some(1));
    // once per track
    assert_eq!(o.prepare_next(0).calls, vec![]);
    // a change of the loop mode does not touch what was resolved
    o.command(PlayerCmd::CycleLoopMode, 0);
    o.command(PlayerCmd::CycleLoopMode, 0);
    o.command(PlayerCmd::CycleLoopMode, 0);
    assert_eq!(o.playlist().loop_mode(), LoopMode::Single);
    let out = o.end_of_stream(0);
    assert_eq!(out.calls, vec![PlayerCall::Stop, PlayerCall::Play]);
    assert_eq!(o.playlist().current_index(), Some(1));
    assert_eq!(o.engine().media(), Some("file:////music/b.mp3"));
    assert_eq!(o.upcoming(), None);
    // now the new mode holds
    let out = o.end_of_stream(0);
    assert_eq!(out.calls, load("/music/b.mp3"));
    assert_eq!(o.playlist().current_index(), Some(1));
}

#[test]
fn gapless_off_preloads_nothing() {
    let mut o = two_tracks(LoopMode::Sequential);
    o.play(track("/music/a.mp3", 180));
    o.prepare_next(0);
    assert_eq!(o.upcoming(), Some(1));
    let out = o.command(PlayerCmd::ToggleGapless, 0);
    assert_eq!(out.calls, vec![]);
    assert!(!o.engine().gapless());
    assert_eq!(o.upcoming(), None);
    assert_eq!(o.engine().enqueued(), None);
    assert_eq!(o.prepare_next(0).calls, vec![]);
    assert_eq!(o.end_of_stream(0).calls, load("/music/b.mp3"));
    o.command(PlayerCmd::ToggleGapless, 0);
    assert!(o.engine().gapless());
}

#[test]
fn engine_failure_stops_for_good() {
    let mut o = two_tracks(LoopMode::Sequential);
    o.play(track("/music/a.mp3", 180));
    let out = o.message(
        PlayerMsg::EngineError(PlayerError::ChannelClosed, "gone".to_string()),
        0,
    );
    assert_eq!(out.calls, vec![]);
    assert_eq!(out.report, Some(PlayerError::ChannelClosed));
    assert_eq!(o.state(), PlaybackState::Stopped);
    assert_eq!(o.playlist().current_index(), None);
    let out = o.play(track("/music/a.mp3", 180));
    assert_eq!(out.report, Some(PlayerError::EngineInit));
    assert_eq!(o.state(), PlaybackState::Stopped);
}

#[test]
fn recoverable_failure_leaves_playback() {
    let mut o = two_tracks(LoopMode::Sequential);
    o.play(track("/music/a.mp3", 180));
    for e in [PlayerError::SeekOutOfRange, PlayerError::UnsupportedOperation] {
        let out = o.engine_error(e);
        assert_eq!(out.report, Some(e));
        assert_eq!(out.calls, vec![]);
        assert_eq!(o.state(), PlaybackState::Playing);
        assert_eq!(o.playlist().current_index(), Some(0));
    }
    let sample = ProgressSample { percent: 1, position_seconds: 1, duration_seconds: 100 };
    let out = o.message(PlayerMsg::PositionChanged(sample), 0);
    assert_eq!(out.calls, vec![]);
    assert_eq!(out.report, None);
    assert_eq!(o.state(), PlaybackState::Playing);
}

#[test]
fn removing_the_current_track_stops() {
    let mut o = two_tracks(LoopMode::Sequential);
    o.enqueue(track("/music/c.mp3", 1));
    o.play(track("/music/b.mp3", 200));
    // a track before the current one: the current track stays
    let out = o.remove(0);
    assert_eq!(out.calls, vec![]);
    assert_eq!(o.playlist().current_index(), Some(0));
    assert_eq!(o.playlist().current_track().unwrap().file(), "/music/b.mp3");
    assert_eq!(o.state(), PlaybackState::Playing);
    // a track after it
    o.remove(1);
    assert_eq!(o.playlist().current_index(), Some(0));
    assert_eq!(files(o.playlist()), vec!["/music/b.mp3"]);
    // no track
    assert_eq!(o.remove(1).calls, vec![]);
    assert_eq!(o.playlist().len(), 1);
    // the current track
    let out = o.remove(0);
    assert_eq!(out.calls, vec![PlayerCall::Stop]);
    assert_eq!(o.state(), PlaybackState::Stopped);
    assert_eq!(o.playlist().current_index(), None);
    assert_eq!(o.playlist().len(), 0);
}

#[test]
fn removing_the_preloaded_track_forgets_it() {
    let mut o = two_tracks(LoopMode::Sequential);
    o.play(track("/music/a.mp3", 180));
    o.prepare_next(0);
    assert_eq!(o.upcoming(), Some(1));
    o.remove(1);
    assert_eq!(o.upcoming(), None);
    assert_eq!(o.engine().enqueued(), None);
    assert_eq!(o.end_of_stream(0).calls, vec![PlayerCall::Stop]);
}

#[test]
fn swapping_keeps_the_current_track() {
    let mut o = two_tracks(LoopMode::Sequential);
    o.enqueue(track("/music/c.mp3", 1));
    o.play(track("/music/a.mp3", 180));
    o.prepare_next(0);
    o.swap_down(0);
    assert_eq!(
        files(o.playlist()),
        vec!["/music/b.mp3", "/music/a.mp3", "/music/c.mp3"]
    );
    assert_eq!(o.playlist().current_index(), Some(1));
    assert_eq!(o.upcoming(), Some(0));
    o.swap_up(2);
    assert_eq!(
        files(o.playlist()),
        vec!["/music/b.mp3", "/music/c.mp3", "/music/a.mp3"]
    );
    assert_eq!(o.playlist().current_index(), Some(2));
    // at the boundaries nothing is done
    o.swap_up(0);
    o.swap_down(2);
    o.swap_down(7);
    o.swap_up(7);
    assert_eq!(
        files(o.playlist()),
        vec!["/music/b.mp3", "/music/c.mp3", "/music/a.mp3"]
    );
    assert_eq!(o.playlist().current_index(), Some(2));
}

#[test]
fn clear_stops_playback() {
    let mut o = two_tracks(LoopMode::Sequential);
    assert_eq!(o.clear().calls, vec![]);
    assert_eq!(o.playlist().len(), 0);
    o.play(track("/music/a.mp3", 180));
    let out = o.clear();
    assert_eq!(out.calls, vec![PlayerCall::Stop]);
    assert_eq!(o.state(), PlaybackState::Stopped);
    assert!(o.playlist().is_empty());
    assert_eq!(o.playlist().current_index(), None);
}

#[test]
fn random_tracks_are_bounded() {
    let library: Vec<Track> = ["l0", "l1", "l2"].iter().map(|f| track(f, 1)).collect();
    let mut o = two_tracks(LoopMode::Sequential);
    o.add_random_tracks(&library, &vec![4, 2, 0, 1], 3);
    assert_eq!(
        files(o.playlist()),
        vec!["/music/a.mp3", "/music/b.mp3", "l1", "l2", "l0"]
    );
    o.add_random_tracks(&library, &vec![5], 3);
    assert_eq!(o.playlist().len(), 6);
    assert_eq!(o.playlist().track(5).unwrap().file(), "l2");
    o.add_random_tracks(&library, &vec![5, 6], 0);
    assert_eq!(o.playlist().len(), 6);
    o.add_random_tracks(&vec![], &vec![5, 6], 7);
    assert_eq!(o.playlist().len(), 6);
}

#[test]
fn playlist_on_its_own() {
    let mut p = Playlist::new(LoopMode::Sequential);
    assert!(p.is_empty());
    assert_eq!(p.current_track().map(|t| t.file().to_string()), None);
    assert_eq!(p.next_index(0), None);
    assert_eq!(p.skip_index(0), None);
    assert_eq!(p.previous_index(), None);
    p.append(Track::new(
        "x".to_string(),
        Some("Name".to_string()),
        Some("Title".to_string()),
        None,
        MediaType::Podcast,
    ));
    p.append(track("y", 2));
    assert_eq!(p.track(0).unwrap().title(), Some("Title"));
    assert_eq!(p.track(0).unwrap().name(), Some("Name"));
    assert_eq!(p.track(0).unwrap().media_type(), MediaType::Podcast);
    assert_eq!(p.track(0).unwrap().duration(), None);
    assert_eq!(p.track(1).unwrap().title(), None);
    assert!(p.track(2).is_none());
    assert_eq!(p.position_of("y"), Some(1));
    assert_eq!(p.position_of("z"), None);
    p.set_current(Some(5));
    assert_eq!(p.current_index(), None);
    p.set_current(Some(1));
    assert_eq!(p.current_index(), Some(1));
    assert_eq!(p.next_index(0), None);
    assert_eq!(p.previous_index(), Some(0));
    assert_eq!(p.cycle_loop_mode(), LoopMode::Shuffle);
    assert_eq!(p.cycle_loop_mode(), LoopMode::PlaylistRepeat);
    assert_eq!(p.next_index(0), Some(0));
    assert_eq!(p.remove(1).unwrap().file(), "y");
    assert_eq!(p.current_index(), None);
    assert!(p.remove(1).is_none());
    p.set_current(Some(0));
    p.swap_down(0);
    p.swap_up(0);
    assert_eq!(p.current_index(), Some(0));
    p.clear();
    assert_eq!(p.len(), 0);
    assert_eq!(p.current_index(), None);
}
