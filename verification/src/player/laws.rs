//! What holds of playback whatever the commands and events are.

use vstd::prelude::*;
use crate::player::gstreamer_backend::{
    clamp_speed,
    clamp_volume,
    file_uri,
    load_calls,
    progress_percent,
    seek_target,
    PlayerCallView,
    PlayerError,
    PlayerMsg,
    MAX_SPEED,
    MAX_VOLUME,
    MIN_SPEED,
    MIN_VOLUME,
};
use crate::player::orchestrator::{
    first_with_file,
    is_first_with_file,
    OrchestratorView,
    PlaybackState,
    PlayerCmd,
};
use crate::player::playlist::{lemma_shuffle_excludes_current, LoopMode, TrackView};

verus! {

/// Whatever volume is asked for, the volume that is stored lies between the
/// minimum and the maximum, and a volume within the range is stored as it is.
pub proof fn lemma_volume_in_range(volume: int)
    ensures
        MIN_VOLUME <= clamp_volume(volume) <= MAX_VOLUME,
        MIN_VOLUME <= volume <= MAX_VOLUME ==> clamp_volume(volume) == volume,
{
}

/// Whatever speed is asked for, the speed that is stored lies between the
/// minimum and the maximum, and a speed within the range is stored as it is.
pub proof fn lemma_speed_in_range(speed: int)
    ensures
        MIN_SPEED <= clamp_speed(speed) <= MAX_SPEED,
        MIN_SPEED <= speed <= MAX_SPEED ==> clamp_speed(speed) == speed,
{
}

/// While the duration is unknown the percentage played is 0, and it never
/// leaves the range from 0 to 100.
pub proof fn lemma_progress_percent(position: int, duration: int)
    requires
        0 <= position,
        0 <= duration,
    ensures
        duration == 0 ==> progress_percent(position, duration) == 0,
        0 <= progress_percent(position, duration) <= 100,
{
    if duration > 0 {
        assert((position * 100) / duration >= 0) by (nonlinear_arith)
            requires
                position >= 0,
                duration > 0,
        ;
    }
}

/// A seek that would end after the end of the track changes nothing and
/// reports `SeekOutOfRange`; any other seek moves the position to its
/// target, which is never before the start.
pub proof fn lemma_seek(v: OrchestratorView, delta: int)
    requires
        v.valid(),
    ensures
        v.engine.position + delta > v.engine.duration ==> v.seek(delta).next == v && v.seek(
            delta,
        ).report == Some(PlayerError::SeekOutOfRange) && v.seek(delta).calls.len() == 0,
        v.engine.position + delta <= v.engine.duration ==> v.seek(delta).report
            == None::<PlayerError> && v.seek(delta).next.engine.position == seek_target(
            v.engine.position,
            delta,
        ) && 0 <= v.seek(delta).next.engine.position <= v.engine.duration,
        v.seek(delta).next.state == v.state,
        v.seek(delta).next.playlist == v.playlist,
{
}

/// Among any tracks there is a first place for a media: that of the first
/// track that holds it, or the end.
pub proof fn lemma_first_with_file_exists(tracks: Seq<TrackView>, file: Seq<char>)
    ensures
        is_first_with_file(tracks, file, first_with_file(tracks, file)),
{
    lemma_first_from(tracks, file, 0);
}

proof fn lemma_first_from(tracks: Seq<TrackView>, file: Seq<char>, n: int)
    requires
        0 <= n <= tracks.len(),
        forall|j: int| 0 <= j < n ==> (#[trigger] tracks[j]).file != file,
    ensures
        is_first_with_file(tracks, file, first_with_file(tracks, file)),
    decreases tracks.len() - n,
{
    if n == tracks.len() {
        assert(is_first_with_file(tracks, file, n));
    } else if tracks[n].file == file {
        assert(is_first_with_file(tracks, file, n));
    } else {
        lemma_first_from(tracks, file, n + 1);
    }
}

/// Every command leaves the state as it must be at all times: volume and
/// speed within their ranges, a current position exactly while not
/// stopped, and that position within the queue.
pub proof fn lemma_command_keeps_valid(v: OrchestratorView, cmd: PlayerCmd, pick: int)
    requires
        v.valid(),
        0 <= pick,
    ensures
        v.command(cmd, pick).next.valid(),
{
    let len = v.playlist.tracks.len() as int;
    match cmd {
        PlayerCmd::Play(track) => {
            lemma_first_with_file_exists(v.playlist.tracks, track@.file);
        },
        PlayerCmd::SkipNext => {
            if v.playlist.current is Some {
                lemma_shuffle_excludes_current(len, v.playlist.current->0, pick);
            }
        },
        _ => {},
    }
}

/// Every message from the engine's side leaves the state as it must be at
/// all times.
pub proof fn lemma_message_keeps_valid(v: OrchestratorView, msg: PlayerMsg, pick: int)
    requires
        v.valid(),
        0 <= pick,
    ensures
        v.message(msg, pick).next.valid(),
{
    if v.playlist.current is Some {
        lemma_shuffle_excludes_current(v.playlist.tracks.len() as int, v.playlist.current->0, pick);
    }
}

/// Pre-loading and every change of the queue leave the state as it must be
/// at all times. In particular the current position never points past the
/// end of the queue, and where the current track is taken out nothing is
/// current and playback is stopped.
pub proof fn lemma_queue_keeps_valid(v: OrchestratorView, index: int, track: TrackView, pick: int)
    requires
        v.valid(),
        0 <= pick,
    ensures
        v.prepare_next(pick).next.valid(),
        v.enqueue(track).valid(),
        v.remove(index).next.valid(),
        v.swap_down(index).valid(),
        v.clear().next.valid(),
        v.playlist.current == Some(index) ==> v.remove(index).next.state == PlaybackState::Stopped
            && v.remove(index).next.playlist.current is None,
{
    if v.playlist.current is Some {
        lemma_shuffle_excludes_current(v.playlist.tracks.len() as int, v.playlist.current->0, pick);
    }
}

/// Tracks added at random leave the state as it must be at all times.
pub proof fn lemma_enqueue_random_keeps_valid(
    v: OrchestratorView,
    library: Seq<TrackView>,
    picks: Seq<usize>,
    max_count: int,
)
    requires
        v.valid(),
    ensures
        v.enqueue_random(library, picks, max_count).valid(),
        v.enqueue_random(library, picks, max_count).playlist.tracks.len() <= v.playlist.tracks.len()
            + max_count || max_count < 0,
{
}

/// When the last track of the queue ends in `Sequential` mode, with nothing
/// pre-loaded, playback is stopped and nothing is current.
pub proof fn lemma_sequential_ends_at_last(v: OrchestratorView, pick: int)
    requires
        v.valid(),
        v.state == PlaybackState::Playing,
        v.playlist.loop_mode == LoopMode::Sequential,
        v.playlist.current == Some(v.playlist.tracks.len() - 1),
        v.upcoming is None,
    ensures
        v.end_of_stream(pick).next.state == PlaybackState::Stopped,
        v.end_of_stream(pick).next.playlist.current is None,
        v.end_of_stream(pick).calls == seq![PlayerCallView::Stop],
{
}

/// When the last track of the queue ends in `PlaylistRepeat` mode, with
/// nothing pre-loaded, the first track is started.
pub proof fn lemma_repeat_wraps_at_last(v: OrchestratorView, pick: int)
    requires
        v.valid(),
        v.state == PlaybackState::Playing,
        v.playlist.loop_mode == LoopMode::PlaylistRepeat,
        v.playlist.current == Some(v.playlist.tracks.len() - 1),
        v.upcoming is None,
    ensures
        v.end_of_stream(pick).next.state == PlaybackState::Playing,
        v.end_of_stream(pick).next.playlist.current == Some(0int),
        v.end_of_stream(pick).calls == load_calls(file_uri(v.playlist.tracks[0].file)),
{
}

/// When a track that is not the last ends in `Sequential` or
/// `PlaylistRepeat` mode, with nothing pre-loaded, the track after it is
/// loaded and started, and playback goes on.
pub proof fn lemma_advances_to_following(v: OrchestratorView, pick: int)
    requires
        v.valid(),
        v.state == PlaybackState::Playing,
        v.playlist.loop_mode == LoopMode::Sequential || v.playlist.loop_mode
            == LoopMode::PlaylistRepeat,
        v.playlist.current->0 + 1 < v.playlist.tracks.len(),
        v.upcoming is None,
    ensures
        v.end_of_stream(pick).next.state == PlaybackState::Playing,
        v.end_of_stream(pick).next.playlist.current == Some(v.playlist.current->0 + 1),
        v.end_of_stream(pick).next.playlist.tracks == v.playlist.tracks,
        v.end_of_stream(pick).calls == load_calls(
            file_uri(v.playlist.tracks[v.playlist.current->0 + 1].file),
        ),
        v.end_of_stream(pick).report == None::<PlayerError>,
{
}

/// The state after the current track has ended once for each of `picks`.
pub open spec fn after_ends(v: OrchestratorView, picks: Seq<int>) -> OrchestratorView
    decreases picks.len(),
{
    if picks.len() == 0 {
        v
    } else {
        after_ends(v.end_of_stream(picks[0]).next, picks.drop_first())
    }
}

/// In `Single` mode, with nothing pre-loaded, the current track stays the
/// current track however often it ends, and playback goes on.
pub proof fn lemma_single_keeps_index(v: OrchestratorView, picks: Seq<int>)
    requires
        v.valid(),
        v.state == PlaybackState::Playing,
        v.playlist.loop_mode == LoopMode::Single,
        v.upcoming is None,
    ensures
        after_ends(v, picks).state == PlaybackState::Playing,
        after_ends(v, picks).playlist.current == v.playlist.current,
        after_ends(v, picks).playlist.tracks == v.playlist.tracks,
    decreases picks.len(),
{
    if picks.len() > 0 {
        lemma_single_keeps_index(v.end_of_stream(picks[0]).next, picks.drop_first());
    }
}

/// In `Shuffle` mode, with more than one track and nothing pre-loaded, the
/// track that follows is never the one that has just ended.
pub proof fn lemma_shuffle_never_repeats(v: OrchestratorView, pick: int)
    requires
        v.valid(),
        v.state == PlaybackState::Playing,
        v.playlist.loop_mode == LoopMode::Shuffle,
        v.playlist.tracks.len() > 1,
        v.upcoming is None,
        0 <= pick,
    ensures
        v.end_of_stream(pick).next.state == PlaybackState::Playing,
        v.end_of_stream(pick).next.playlist.current is Some,
        v.end_of_stream(pick).next.playlist.current != v.playlist.current,
{
    lemma_shuffle_excludes_current(v.playlist.tracks.len() as int, v.playlist.current->0, pick);
}

/// Cycling the loop mode four times leads back to the state before, and
/// none of the steps on the way touches anything but the loop mode.
pub proof fn lemma_cycle_four_times(v: OrchestratorView)
    ensures
        v.cycle_loop_mode().next.cycle_loop_mode().next.cycle_loop_mode().next.cycle_loop_mode().next
            == v,
        v.cycle_loop_mode().next.upcoming == v.upcoming,
        v.cycle_loop_mode().next.state == v.state,
        v.cycle_loop_mode().next.engine == v.engine,
{
}

/// A change of the loop mode does not touch a track that was pre-loaded:
/// when the current track ends, that track is started, whatever the new
/// mode would have resolved to.
pub proof fn lemma_cycle_keeps_upcoming(v: OrchestratorView, pick: int)
    requires
        v.valid(),
        v.state == PlaybackState::Playing,
        v.upcoming is Some,
    ensures
        v.cycle_loop_mode().next.end_of_stream(pick).next.playlist.current == v.upcoming,
{
}

/// An end of stream that arrives while nothing is playing is late: it
/// changes nothing, asks for nothing and reports nothing.
pub proof fn lemma_late_end_of_stream(v: OrchestratorView, pick: int)
    requires
        v.state != PlaybackState::Playing,
    ensures
        v.end_of_stream(pick) == v.quiet(),
        v.end_of_stream(pick).next == v,
{
}

/// A stop wins over an end of stream, whichever of the two is taken first:
/// the state is stopped in the end and nothing is current.
pub proof fn lemma_stop_supersedes(v: OrchestratorView, pick: int)
    requires
        v.valid(),
    ensures
        v.stop().next.end_of_stream(pick).next.state == PlaybackState::Stopped,
        v.stop().next.end_of_stream(pick).next == v.stop().next,
        v.stop().next.end_of_stream(pick).calls.len() == 0,
        v.end_of_stream(pick).next.stop().next.state == PlaybackState::Stopped,
        v.stop().next.playlist.current is None,
{
}

/// Pausing twice, or resuming twice, is no more than doing it once: the
/// second toggle undoes nothing but itself.
pub proof fn lemma_toggle_pause_twice(v: OrchestratorView)
    requires
        v.valid(),
    ensures
        v.toggle_pause().next.toggle_pause().next == v,
        v.state == PlaybackState::Stopped ==> v.toggle_pause().next == v,
{
}

/// The state after the commands `cmds` were carried out one after the
/// other, each with its pick.
pub open spec fn after_commands(v: OrchestratorView, cmds: Seq<(PlayerCmd, int)>) -> OrchestratorView
    decreases cmds.len(),
{
    if cmds.len() == 0 {
        v
    } else {
        after_commands(v.command(cmds[0].0, cmds[0].1).next, cmds.drop_first())
    }
}

/// Whatever commands are carried out, in whatever order, the volume stays
/// between 0 and 100, the speed between a tenth and three times the normal
/// speed, and the current position within the queue.
pub proof fn lemma_commands_keep_valid(v: OrchestratorView, cmds: Seq<(PlayerCmd, int)>)
    requires
        v.valid(),
        forall|i: int| 0 <= i < cmds.len() ==> 0 <= (#[trigger] cmds[i]).1,
    ensures
        after_commands(v, cmds).valid(),
        MIN_VOLUME <= after_commands(v, cmds).engine.volume <= MAX_VOLUME,
        MIN_SPEED <= after_commands(v, cmds).engine.speed <= MAX_SPEED,
        after_commands(v, cmds).playlist.current matches Some(c) ==> 0 <= c < after_commands(
            v,
            cmds,
        ).playlist.tracks.len(),
    decreases cmds.len(),
{
    if cmds.len() > 0 {
        lemma_command_keeps_valid(v, cmds[0].0, cmds[0].1);
        let rest = cmds.drop_first();
        assert forall|i: int| 0 <= i < rest.len() implies 0 <= (#[trigger] rest[i]).1 by {
            assert(rest[i] == cmds[i + 1]);
        }
        lemma_commands_keep_valid(v.command(cmds[0].0, cmds[0].1).next, rest);
    }
}

} // verus!
