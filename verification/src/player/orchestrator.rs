//! The state machine of playback.
//!
//! The [`Orchestrator`] owns the engine's state and the queue. It takes the
//! commands of the user and the events of the engine one at a time, in the
//! order in which they arrive, and answers each with the calls that the owner
//! of the native player has to carry out. Nothing else changes its state.

use vstd::prelude::*;
use crate::player::gstreamer_backend::{
    calls_view,
    clamp_speed,
    clamp_volume,
    file_uri,
    load_calls,
    seek_target,
    GStreamer,
    GStreamerView,
    PlayerCall,
    PlayerCallView,
    PlayerError,
    PlayerMsg,
    ProgressSample,
    SPEED_STEP,
    VOLUME_STEP,
};
use crate::player::playlist::{
    current_after_remove,
    current_after_swap,
    random_selection,
    resolve_next,
    resolve_previous,
    resolve_skip,
    swap_adjacent,
    tracks_view,
    LoopMode,
    Playlist,
    PlaylistView,
    Track,
    TrackView,
};

verus! {

/// Whether something is playing.
#[derive(Clone, Copy, Debug, PartialEq, Eq, Structural)]
pub enum PlaybackState {
    Stopped,
    Playing,
    Paused,
}

/// A command of the user.
#[derive(Debug, PartialEq, Eq)]
pub enum PlayerCmd {
    Play(Track),
    TogglePause,
    Stop,
    SkipNext,
    SkipPrevious,
    SeekForward,
    SeekBackward,
    VolumeUp,
    VolumeDown,
    SpeedUp,
    SpeedDown,
    ToggleGapless,
    CycleLoopMode,
}

/// The answer to one command or event.
#[derive(Debug)]
pub struct Outcome {
    /// What the native player has to do, in this order.
    pub calls: Vec<PlayerCall>,
    /// The failure to show to the user, if there was one. Playback goes on
    /// as the state says.
    pub report: Option<PlayerError>,
}

/// One step of the state machine as plain values.
pub struct Step {
    pub next: OrchestratorView,
    pub calls: Seq<PlayerCallView>,
    pub report: Option<PlayerError>,
}

impl Outcome {
    /// The answer holds the calls and the report of `step`.
    pub open spec fn agrees(self, step: Step) -> bool {
        &&& calls_view(self.calls@) == step.calls
        &&& self.report == step.report
    }
}

/// `i` is the place of the first of `tracks` with the media `file`, or the
/// length of `tracks` where there is none.
pub open spec fn is_first_with_file(tracks: Seq<TrackView>, file: Seq<char>, i: int) -> bool {
    &&& 0 <= i <= tracks.len()
    &&& i < tracks.len() ==> tracks[i].file == file
    &&& forall|j: int| 0 <= j < i ==> (#[trigger] tracks[j]).file != file
}

/// The place of the first of `tracks` with the media `file`, or the length
/// of `tracks` where there is none.
pub open spec fn first_with_file(tracks: Seq<TrackView>, file: Seq<char>) -> int {
    choose|i: int| is_first_with_file(tracks, file, i)
}

/// There is exactly one first place.
pub proof fn lemma_first_with_file(tracks: Seq<TrackView>, file: Seq<char>, i: int)
    requires
        is_first_with_file(tracks, file, i),
    ensures
        first_with_file(tracks, file) == i,
{
    let c = first_with_file(tracks, file);
    assert(is_first_with_file(tracks, file, c));
    if c < i {
        assert(tracks[c].file != file);
    }
    if i < c {
        assert(tracks[i].file != file);
    }
}

/// The whole state of playback as plain values.
pub struct OrchestratorView {
    pub state: PlaybackState,
    pub engine: GStreamerView,
    pub playlist: PlaylistView,
    /// Index of the track that was pre-loaded to follow the current one.
    pub upcoming: Option<int>,
    /// How far one seek command moves, in seconds.
    pub seek_step: int,
}

impl OrchestratorView {
    /// What holds of the state at all times: a position exactly while not
    /// stopped, the engine paused exactly while paused, the current track
    /// loaded, and the pre-loaded track, if any, one of the queue.
    pub open spec fn valid(self) -> bool {
        &&& self.engine.valid()
        &&& self.playlist.valid()
        &&& (self.state == PlaybackState::Stopped <==> self.playlist.current is None)
        &&& (self.engine.paused <==> self.state == PlaybackState::Paused)
        &&& (self.state != PlaybackState::Stopped ==> self.engine.ready)
        &&& (self.playlist.current matches Some(c) ==> self.engine.media == Some(
            file_uri(self.playlist.tracks[c].file),
        ))
        &&& (self.playlist.current is None ==> self.engine.media is None)
        &&& (self.upcoming is Some <==> self.engine.enqueued is Some)
        &&& (self.upcoming matches Some(j) ==> 0 <= j < self.playlist.tracks.len() && self.state
            != PlaybackState::Stopped && self.engine.gapless && self.engine.enqueued == Some(
            file_uri(self.playlist.tracks[j].file),
        ))
        &&& 0 <= self.seek_step <= u32::MAX
    }

    /// The state before anything was played.
    pub open spec fn initial(
        ready: bool,
        volume: int,
        speed: int,
        loop_mode: LoopMode,
        seek_step: int,
    ) -> OrchestratorView {
        OrchestratorView {
            state: PlaybackState::Stopped,
            engine: GStreamerView::initial(ready, volume, speed),
            playlist: PlaylistView { tracks: Seq::<TrackView>::empty(), current: None, loop_mode },
            upcoming: None,
            seek_step,
        }
    }

    /// Nothing happens.
    pub open spec fn quiet(self) -> Step {
        Step { next: self, calls: Seq::<PlayerCallView>::empty(), report: None }
    }

    /// Nothing happens but that `error` is reported.
    pub open spec fn refuse(self, error: PlayerError) -> Step {
        Step { next: self, calls: Seq::<PlayerCallView>::empty(), report: Some(error) }
    }

    /// The state in which the track at `j` is loaded and playing.
    pub open spec fn playing(self, j: int) -> OrchestratorView {
        OrchestratorView {
            state: PlaybackState::Playing,
            engine: self.engine.loaded(file_uri(self.playlist.tracks[j].file)),
            playlist: PlaylistView { current: Some(j), ..self.playlist },
            upcoming: None,
            ..self
        }
    }

    /// The track at `j` is loaded and started.
    pub open spec fn start(self, j: int) -> Step {
        Step {
            next: self.playing(j),
            calls: load_calls(file_uri(self.playlist.tracks[j].file)),
            report: None,
        }
    }

    /// The state in which nothing is loaded and nothing is current.
    pub open spec fn halted(self) -> OrchestratorView {
        OrchestratorView {
            state: PlaybackState::Stopped,
            engine: self.engine.stopped(),
            playlist: PlaylistView { current: None, ..self.playlist },
            upcoming: None,
            ..self
        }
    }

    /// Playback is stopped.
    pub open spec fn halt(self) -> Step {
        Step { next: self.halted(), calls: seq![PlayerCallView::Stop], report: None }
    }

    /// `Play(track)`: the track is looked up in the queue by its media, or
    /// put at its end, becomes the current track and is loaded and started.
    /// Without a native engine nothing is done and `EngineInit` is reported.
    pub open spec fn play(self, track: TrackView) -> Step {
        if !self.engine.ready {
            self.refuse(PlayerError::EngineInit)
        } else {
            let i = first_with_file(self.playlist.tracks, track.file);
            let queued = OrchestratorView {
                playlist: PlaylistView {
                    tracks: if i < self.playlist.tracks.len() {
                        self.playlist.tracks
                    } else {
                        self.playlist.tracks.push(track)
                    },
                    ..self.playlist
                },
                ..self
            };
            queued.start(i)
        }
    }

    /// `TogglePause`: playing becomes paused and paused becomes playing;
    /// while stopped nothing is done.
    pub open spec fn toggle_pause(self) -> Step {
        match self.state {
            PlaybackState::Playing => Step {
                next: OrchestratorView {
                    state: PlaybackState::Paused,
                    engine: GStreamerView { paused: true, ..self.engine },
                    ..self
                },
                calls: seq![PlayerCallView::Pause],
                report: None,
            },
            PlaybackState::Paused => Step {
                next: OrchestratorView {
                    state: PlaybackState::Playing,
                    engine: GStreamerView { paused: false, ..self.engine },
                    ..self
                },
                calls: seq![PlayerCallView::Play],
                report: None,
            },
            PlaybackState::Stopped => self.quiet(),
        }
    }

    /// `Stop`: playback is stopped and the position cleared.
    pub open spec fn stop(self) -> Step {
        self.halt()
    }

    /// The current track has played to its end. Unless something is
    /// playing the event is late and nothing is done. Otherwise the track
    /// that was pre-loaded is started, or else the one that the loop mode
    /// resolves to; where it resolves to none, playback is stopped.
    pub open spec fn end_of_stream(self, pick: int) -> Step {
        if self.state != PlaybackState::Playing {
            self.quiet()
        } else {
            match self.upcoming {
                Some(j) => Step {
                    next: self.playing(j),
                    calls: seq![PlayerCallView::Stop, PlayerCallView::Play],
                    report: None,
                },
                None => match resolve_next(
                    self.playlist.loop_mode,
                    self.playlist.tracks.len() as int,
                    self.playlist.current->0,
                    pick,
                ) {
                    Some(j) => self.start(j),
                    None => self.halt(),
                },
            }
        }
    }

    /// `SkipNext`: as the end of the current track, but a single track is
    /// not repeated and what was pre-loaded is dropped. While stopped
    /// nothing is done.
    pub open spec fn skip_next(self, pick: int) -> Step {
        if self.state == PlaybackState::Stopped {
            self.quiet()
        } else {
            match resolve_skip(
                self.playlist.loop_mode,
                self.playlist.tracks.len() as int,
                self.playlist.current->0,
                pick,
            ) {
                Some(j) => self.start(j),
                None => self.halt(),
            }
        }
    }

    /// `SkipPrevious`: the track before the current one is started, at the
    /// first track the first one again. While stopped nothing is done.
    pub open spec fn skip_previous(self) -> Step {
        if self.state == PlaybackState::Stopped {
            self.quiet()
        } else {
            self.start(resolve_previous(self.playlist.current->0))
        }
    }

    /// A seek by `delta` seconds: refused with `SeekOutOfRange`, and nothing
    /// changed, where it would end after the end of the track.
    pub open spec fn seek(self, delta: int) -> Step {
        if self.engine.seek_in_range(delta) {
            Step {
                next: OrchestratorView {
                    engine: GStreamerView {
                        position: seek_target(self.engine.position, delta),
                        ..self.engine
                    },
                    ..self
                },
                calls: seq![PlayerCallView::Seek(seek_target(self.engine.position, delta))],
                report: None,
            }
        } else {
            self.refuse(PlayerError::SeekOutOfRange)
        }
    }

    /// The volume is set to `volume`, brought into range.
    pub open spec fn volume(self, volume: int) -> Step {
        Step {
            next: OrchestratorView {
                engine: GStreamerView { volume: clamp_volume(volume), ..self.engine },
                ..self
            },
            calls: seq![PlayerCallView::SetVolume(clamp_volume(volume))],
            report: None,
        }
    }

    /// The speed is set to `speed`, brought into range.
    pub open spec fn speed(self, speed: int) -> Step {
        Step {
            next: OrchestratorView {
                engine: GStreamerView { speed: clamp_speed(speed), ..self.engine },
                ..self
            },
            calls: seq![PlayerCallView::SetRate(clamp_speed(speed))],
            report: None,
        }
    }

    /// `ToggleGapless`: pre-loading is switched on or off; switching it off
    /// drops what was pre-loaded.
    pub open spec fn toggle_gapless(self) -> Step {
        Step {
            next: if self.engine.gapless {
                OrchestratorView {
                    engine: GStreamerView { gapless: false, enqueued: None, ..self.engine },
                    upcoming: None,
                    ..self
                }
            } else {
                OrchestratorView {
                    engine: GStreamerView { gapless: true, ..self.engine },
                    ..self
                }
            },
            calls: Seq::<PlayerCallView>::empty(),
            report: None,
        }
    }

    /// `CycleLoopMode`: the loop mode advances in its cycle. A track that
    /// was pre-loaded stays pre-loaded.
    pub open spec fn cycle_loop_mode(self) -> Step {
        Step {
            next: OrchestratorView {
                playlist: PlaylistView {
                    loop_mode: self.playlist.loop_mode.spec_next(),
                    ..self.playlist
                },
                ..self
            },
            calls: Seq::<PlayerCallView>::empty(),
            report: None,
        }
    }

    /// Ahead of the end of the current track, the track that the loop mode
    /// resolves to is pre-loaded. This is done once per track, while
    /// playing, with pre-loading switched on; else nothing is done.
    pub open spec fn prepare_next(self, pick: int) -> Step {
        if self.state == PlaybackState::Playing && self.engine.gapless && self.upcoming is None {
            match resolve_next(
                self.playlist.loop_mode,
                self.playlist.tracks.len() as int,
                self.playlist.current->0,
                pick,
            ) {
                Some(j) => Step {
                    next: OrchestratorView {
                        engine: GStreamerView {
                            enqueued: Some(file_uri(self.playlist.tracks[j].file)),
                            ..self.engine
                        },
                        upcoming: Some(j),
                        ..self
                    },
                    calls: seq![PlayerCallView::SetUri(file_uri(self.playlist.tracks[j].file))],
                    report: None,
                },
                None => self.quiet(),
            }
        } else {
            self.quiet()
        }
    }

    /// The engine reports a failure. Without its event thread or without
    /// the native engine itself nothing can be played any more: playback is
    /// stopped for good. Any other failure leaves playback as it is. The
    /// failure is reported in either case.
    pub open spec fn engine_error(self, error: PlayerError) -> Step {
        match error {
            PlayerError::EngineInit | PlayerError::ChannelClosed => Step {
                next: OrchestratorView {
                    engine: GStreamerView { ready: false, ..self.engine.stopped() },
                    ..self.halted()
                },
                calls: Seq::<PlayerCallView>::empty(),
                report: Some(error),
            },
            _ => self.refuse(error),
        }
    }

    /// A command of the user.
    pub open spec fn command(self, cmd: PlayerCmd, pick: int) -> Step {
        match cmd {
            PlayerCmd::Play(track) => self.play(track@),
            PlayerCmd::TogglePause => self.toggle_pause(),
            PlayerCmd::Stop => self.stop(),
            PlayerCmd::SkipNext => self.skip_next(pick),
            PlayerCmd::SkipPrevious => self.skip_previous(),
            PlayerCmd::SeekForward => self.seek(self.seek_step),
            PlayerCmd::SeekBackward => self.seek(-self.seek_step),
            PlayerCmd::VolumeUp => self.volume(self.engine.volume + VOLUME_STEP),
            PlayerCmd::VolumeDown => self.volume(self.engine.volume - VOLUME_STEP),
            PlayerCmd::SpeedUp => self.speed(self.engine.speed + SPEED_STEP),
            PlayerCmd::SpeedDown => self.speed(self.engine.speed - SPEED_STEP),
            PlayerCmd::ToggleGapless => self.toggle_gapless(),
            PlayerCmd::CycleLoopMode => self.cycle_loop_mode(),
        }
    }

    /// A message from the engine's side. A reading of the clock asks for
    /// nothing.
    pub open spec fn message(self, msg: PlayerMsg, pick: int) -> Step {
        match msg {
            PlayerMsg::EndOfStream => self.end_of_stream(pick),
            PlayerMsg::PositionChanged(_) => self.quiet(),
            PlayerMsg::EngineError(error, _) => self.engine_error(error),
        }
    }

    /// `track` is put at the end of the queue.
    pub open spec fn enqueue(self, track: TrackView) -> OrchestratorView {
        OrchestratorView {
            playlist: PlaylistView { tracks: self.playlist.tracks.push(track), ..self.playlist },
            ..self
        }
    }

    /// Tracks picked at random from `library` are put at the end of the
    /// queue.
    pub open spec fn enqueue_random(
        self,
        library: Seq<TrackView>,
        picks: Seq<usize>,
        max_count: int,
    ) -> OrchestratorView {
        OrchestratorView {
            playlist: PlaylistView {
                tracks: self.playlist.tracks + random_selection(library, picks, max_count),
                ..self.playlist
            },
            ..self
        }
    }

    /// The track at `index` is taken out of the queue. If it is the current
    /// track, playback is stopped. If it was pre-loaded, it no longer is.
    /// Where `index` points at no track nothing is done.
    pub open spec fn remove(self, index: int) -> Step {
        if !(0 <= index < self.playlist.tracks.len()) {
            self.quiet()
        } else if self.playlist.current == Some(index) {
            Step {
                next: OrchestratorView {
                    playlist: PlaylistView {
                        tracks: self.playlist.tracks.remove(index),
                        current: None,
                        ..self.playlist
                    },
                    ..self.halted()
                },
                calls: seq![PlayerCallView::Stop],
                report: None,
            }
        } else {
            Step {
                next: OrchestratorView {
                    playlist: PlaylistView {
                        tracks: self.playlist.tracks.remove(index),
                        current: current_after_remove(self.playlist.current, index),
                        ..self.playlist
                    },
                    upcoming: current_after_remove(self.upcoming, index),
                    engine: if self.upcoming == Some(index) {
                        GStreamerView { enqueued: None, ..self.engine }
                    } else {
                        self.engine
                    },
                    ..self
                },
                calls: Seq::<PlayerCallView>::empty(),
                report: None,
            }
        }
    }

    /// The tracks at `index` and `index + 1` change places. The current
    /// track and the pre-loaded track stay what they are. For the last track
    /// nothing is done.
    pub open spec fn swap_down(self, index: int) -> OrchestratorView {
        if 0 <= index && index + 1 < self.playlist.tracks.len() {
            OrchestratorView {
                playlist: PlaylistView {
                    tracks: swap_adjacent(self.playlist.tracks, index),
                    current: current_after_swap(self.playlist.current, index),
                    ..self.playlist
                },
                upcoming: current_after_swap(self.upcoming, index),
                ..self
            }
        } else {
            self
        }
    }

    /// The queue is emptied; if something was playing, playback is stopped.
    pub open spec fn clear(self) -> Step {
        Step {
            next: OrchestratorView {
                playlist: PlaylistView {
                    tracks: Seq::<TrackView>::empty(),
                    current: None,
                    ..self.playlist
                },
                ..if self.state == PlaybackState::Stopped {
                    self
                } else {
                    self.halted()
                }
            },
            calls: if self.state == PlaybackState::Stopped {
                Seq::<PlayerCallView>::empty()
            } else {
                seq![PlayerCallView::Stop]
            },
            report: None,
        }
    }
}

/// The state machine of playback: the engine's state, the queue and whether
/// something is playing.
pub struct Orchestrator {
    state: PlaybackState,
    engine: GStreamer,
    playlist: Playlist,
    upcoming: Option<usize>,
    seek_step: u32,
}

impl View for Orchestrator {
    type V = OrchestratorView;

    closed spec fn view(&self) -> OrchestratorView {
        OrchestratorView {
            state: self.state,
            engine: self.engine@,
            playlist: self.playlist@,
            upcoming: match self.upcoming {
                Some(j) => Some(j as int),
                None => None,
            },
            seek_step: self.seek_step as int,
        }
    }
}

/// No calls.
fn no_calls() -> (calls: Vec<PlayerCall>)
    ensures
        calls_view(calls@) == Seq::<PlayerCallView>::empty(),
{
    let calls: Vec<PlayerCall> = Vec::new();
    assert(calls_view(calls@) =~= Seq::<PlayerCallView>::empty());
    calls
}

/// The one call `call`.
fn one_call(call: PlayerCall) -> (calls: Vec<PlayerCall>)
    ensures
        calls_view(calls@) == seq![call@],
{
    let calls = vec![call];
    assert(calls_view(calls@) =~= seq![call@]);
    calls
}

/// Loads the track at `j` into the engine, starts it and makes it the
/// current track.
fn load_track(engine: &mut GStreamer, playlist: &mut Playlist, j: usize) -> (calls: Vec<PlayerCall>)
    requires
        old(engine)@.ready,
        j < old(playlist)@.tracks.len(),
    ensures
        final(engine)@ == old(engine)@.loaded(file_uri(old(playlist)@.tracks[j as int].file)),
        final(engine)@.valid(),
        final(playlist)@ == (PlaylistView { current: Some(j as int), ..old(playlist)@ }),
        final(playlist)@.valid(),
        calls_view(calls@) == load_calls(file_uri(old(playlist)@.tracks[j as int].file)),
{
    let loaded = match playlist.track(j) {
        Some(track) => engine.add_and_play(track.file()),
        None => Err(PlayerError::EngineInit),
    };
    playlist.set_current(Some(j));
    match loaded {
        Ok(calls) => calls,
        Err(_) => no_calls(),
    }
}

/// Stops the engine and clears the position.
fn halt_playback(engine: &mut GStreamer, playlist: &mut Playlist) -> (calls: Vec<PlayerCall>)
    ensures
        final(engine)@ == old(engine)@.stopped(),
        final(engine)@.valid(),
        final(playlist)@ == (PlaylistView { current: None, ..old(playlist)@ }),
        final(playlist)@.valid(),
        calls_view(calls@) == seq![PlayerCallView::Stop],
{
    let call = engine.stop();
    playlist.set_current(None);
    one_call(call)
}

impl Orchestrator {
    #[verifier::type_invariant]
    spec fn inv(self) -> bool {
        self@.valid()
    }

    /// The state before anything was played: stopped, with an empty queue,
    /// and the calls that set the native player up. `ready` says whether the
    /// native engine could be constructed; `seek_step` is how many seconds
    /// one seek command moves.
    pub fn new(ready: bool, volume: i32, speed: i32, loop_mode: LoopMode, seek_step: u32) -> (r: (
        Orchestrator,
        Vec<PlayerCall>,
    ))
        ensures
            r.0@ == OrchestratorView::initial(
                ready,
                volume as int,
                speed as int,
                loop_mode,
                seek_step as int,
            ),
            r.0@.valid(),
            calls_view(r.1@) == seq![
                PlayerCallView::SetVolume(clamp_volume(volume as int)),
                PlayerCallView::SetRate(clamp_speed(speed as int)),
            ],
    {
        let (engine, calls) = GStreamer::new(ready, volume, speed);
        let playlist = Playlist::new(loop_mode);
        (
            Orchestrator { state: PlaybackState::Stopped, engine, playlist, upcoming: None, seek_step },
            calls,
        )
    }

    /// Hands the state out and leaves a stopped one in its place.
    fn take(&mut self) -> (r: Orchestrator)
        ensures
            r == *old(self),
            r@.valid(),
    {
        proof {
            use_type_invariant(&*self);
        }
        let (mut tmp, _) = Orchestrator::new(false, 0, 100, LoopMode::Sequential, 0);
        std::mem::swap(self, &mut tmp);
        tmp
    }

    pub fn state(&self) -> (r: PlaybackState)
        ensures
            r == self@.state,
            self@.valid(),
    {
        proof {
            use_type_invariant(self);
        }
        self.state
    }

    /// The engine's state.
    pub fn engine(&self) -> (r: &GStreamer)
        ensures
            r@ == self@.engine,
            self@.valid(),
    {
        proof {
            use_type_invariant(self);
        }
        &self.engine
    }

    /// The queue.
    pub fn playlist(&self) -> (r: &Playlist)
        ensures
            r@ == self@.playlist,
            self@.valid(),
    {
        proof {
            use_type_invariant(self);
        }
        &self.playlist
    }

    /// Index of the track that was pre-loaded to follow the current one.
    pub fn upcoming(&self) -> (r: Option<usize>)
        ensures
            r is Some == self@.upcoming is Some,
            r matches Some(j) ==> self@.upcoming == Some(j as int),
            self@.valid(),
    {
        proof {
            use_type_invariant(self);
        }
        self.upcoming
    }

    /// How far one seek command moves, in seconds.
    pub fn seek_step(&self) -> (r: u32)
        ensures
            r == self@.seek_step,
    {
        self.seek_step
    }

    /// `Play(track)`: see [`OrchestratorView::play`].
    pub fn play(&mut self, track: Track) -> (out: Outcome)
        ensures
            final(self)@ == old(self)@.play(track@).next,
            out.agrees(old(self)@.play(track@)),
            final(self)@.valid(),
            old(self)@.engine.ready ==> final(self)@.state == PlaybackState::Playing,
    {
        let Orchestrator { state, mut engine, mut playlist, upcoming, seek_step } = self.take();
        if !engine.is_ready() {
            *self = Orchestrator { state, engine, playlist, upcoming, seek_step };
            return Outcome { calls: no_calls(), report: Some(PlayerError::EngineInit) };
        }
        let ghost before = playlist@.tracks;
        let index: usize = match playlist.position_of(track.file()) {
            Some(i) => i,
            None => {
                let n: usize = playlist.len();
                playlist.append(track);
                n
            },
        };
        proof {
            lemma_first_with_file(before, track@.file, index as int);
        }
        let calls = load_track(&mut engine, &mut playlist, index);
        *self = Orchestrator {
            state: PlaybackState::Playing,
            engine,
            playlist,
            upcoming: None,
            seek_step,
        };
        Outcome { calls, report: None }
    }

    /// `TogglePause`: see [`OrchestratorView::toggle_pause`].
    pub fn toggle_pause(&mut self) -> (out: Outcome)
        ensures
            final(self)@ == old(self)@.toggle_pause().next,
            out.agrees(old(self)@.toggle_pause()),
            final(self)@.valid(),
    {
        let Orchestrator { state, mut engine, playlist, upcoming, seek_step } = self.take();
        let (state, calls) = match state {
            PlaybackState::Playing => (PlaybackState::Paused, engine.pause()),
            PlaybackState::Paused => (PlaybackState::Playing, engine.resume()),
            PlaybackState::Stopped => (PlaybackState::Stopped, no_calls()),
        };
        *self = Orchestrator { state, engine, playlist, upcoming, seek_step };
        Outcome { calls, report: None }
    }

    /// `Stop`: see [`OrchestratorView::stop`].
    pub fn stop(&mut self) -> (out: Outcome)
        ensures
            final(self)@ == old(self)@.stop().next,
            out.agrees(old(self)@.stop()),
            final(self)@.valid(),
            final(self)@.state == PlaybackState::Stopped,
            final(self)@.playlist.current is None,
    {
        let Orchestrator { state, mut engine, mut playlist, upcoming, seek_step } = self.take();
        let calls = halt_playback(&mut engine, &mut playlist);
        *self = Orchestrator {
            state: PlaybackState::Stopped,
            engine,
            playlist,
            upcoming: None,
            seek_step,
        };
        Outcome { calls, report: None }
    }

    /// The current track has played to its end: see
    /// [`OrchestratorView::end_of_stream`]. `pick` is a random number, read
    /// in `Shuffle` mode only.
    pub fn end_of_stream(&mut self, pick: usize) -> (out: Outcome)
        ensures
            final(self)@ == old(self)@.end_of_stream(pick as int).next,
            out.agrees(old(self)@.end_of_stream(pick as int)),
            final(self)@.valid(),
            old(self)@.state != PlaybackState::Playing ==> final(self)@ == old(self)@,
    {
        let Orchestrator { state, mut engine, mut playlist, upcoming, seek_step } = self.take();
        if state != PlaybackState::Playing {
            *self = Orchestrator { state, engine, playlist, upcoming, seek_step };
            return Outcome { calls: no_calls(), report: None };
        }
        match upcoming {
            Some(j) => {
                let calls = engine.play();
                playlist.set_current(Some(j));
                *self = Orchestrator {
                    state: PlaybackState::Playing,
                    engine,
                    playlist,
                    upcoming: None,
                    seek_step,
                };
                Outcome { calls, report: None }
            },
            None => match playlist.next_index(pick) {
                Some(j) => {
                    let calls = load_track(&mut engine, &mut playlist, j);
                    *self = Orchestrator {
                        state: PlaybackState::Playing,
                        engine,
                        playlist,
                        upcoming: None,
                        seek_step,
                    };
                    Outcome { calls, report: None }
                },
                None => {
                    let calls = halt_playback(&mut engine, &mut playlist);
                    *self = Orchestrator {
                        state: PlaybackState::Stopped,
                        engine,
                        playlist,
                        upcoming: None,
                        seek_step,
                    };
                    Outcome { calls, report: None }
                },
            },
        }
    }

    /// `SkipNext`: see [`OrchestratorView::skip_next`]. `pick` is a random
    /// number, read in `Shuffle` mode only.
    pub fn skip_next(&mut self, pick: usize) -> (out: Outcome)
        ensures
            final(self)@ == old(self)@.skip_next(pick as int).next,
            out.agrees(old(self)@.skip_next(pick as int)),
            final(self)@.valid(),
    {
        let Orchestrator { state, mut engine, mut playlist, upcoming, seek_step } = self.take();
        if state == PlaybackState::Stopped {
            *self = Orchestrator { state, engine, playlist, upcoming, seek_step };
            return Outcome { calls: no_calls(), report: None };
        }
        match playlist.skip_index(pick) {
            Some(j) => {
                let calls = load_track(&mut engine, &mut playlist, j);
                *self = Orchestrator {
                    state: PlaybackState::Playing,
                    engine,
                    playlist,
                    upcoming: None,
                    seek_step,
                };
                Outcome { calls, report: None }
            },
            None => {
                let calls = halt_playback(&mut engine, &mut playlist);
                *self = Orchestrator {
                    state: PlaybackState::Stopped,
                    engine,
                    playlist,
                    upcoming: None,
                    seek_step,
                };
                Outcome { calls, report: None }
            },
        }
    }

    /// `SkipPrevious`: see [`OrchestratorView::skip_previous`].
    pub fn skip_previous(&mut self) -> (out: Outcome)
        ensures
            final(self)@ == old(self)@.skip_previous().next,
            out.agrees(old(self)@.skip_previous()),
            final(self)@.valid(),
    {
        let Orchestrator { state, mut engine, mut playlist, upcoming, seek_step } = self.take();
        match playlist.previous_index() {
            Some(j) => {
                let calls = load_track(&mut engine, &mut playlist, j);
                *self = Orchestrator {
                    state: PlaybackState::Playing,
                    engine,
                    playlist,
                    upcoming: None,
                    seek_step,
                };
                Outcome { calls, report: None }
            },
            None => {
                *self = Orchestrator { state, engine, playlist, upcoming, seek_step };
                Outcome { calls: no_calls(), report: None }
            },
        }
    }

    /// A seek by `delta` seconds: see [`OrchestratorView::seek`].
    pub fn seek(&mut self, delta: i64) -> (out: Outcome)
        ensures
            final(self)@ == old(self)@.seek(delta as int).next,
            out.agrees(old(self)@.seek(delta as int)),
            final(self)@.valid(),
            !old(self)@.engine.seek_in_range(delta as int) ==> final(self)@ == old(self)@
                && out.report == Some(PlayerError::SeekOutOfRange),
    {
        let Orchestrator { state, mut engine, playlist, upcoming, seek_step } = self.take();
        let out = match engine.seek(delta) {
            Ok(call) => Outcome { calls: one_call(call), report: None },
            Err(error) => Outcome { calls: no_calls(), report: Some(error) },
        };
        *self = Orchestrator { state, engine, playlist, upcoming, seek_step };
        out
    }

    /// `SeekForward`: a seek by the seek step.
    pub fn seek_forward(&mut self) -> (out: Outcome)
        ensures
            final(self)@ == old(self)@.seek(old(self)@.seek_step).next,
            out.agrees(old(self)@.seek(old(self)@.seek_step)),
            final(self)@.valid(),
    {
        let step: i64 = self.seek_step as i64;
        self.seek(step)
    }

    /// `SeekBackward`: a seek back by the seek step.
    pub fn seek_backward(&mut self) -> (out: Outcome)
        ensures
            final(self)@ == old(self)@.seek(-old(self)@.seek_step).next,
            out.agrees(old(self)@.seek(-old(self)@.seek_step)),
            final(self)@.valid(),
    {
        let step: i64 = -(self.seek_step as i64);
        self.seek(step)
    }

    /// `VolumeUp`: one step louder, up to the maximum.
    pub fn volume_up(&mut self) -> (out: Outcome)
        ensures
            final(self)@ == old(self)@.volume(old(self)@.engine.volume + VOLUME_STEP).next,
            out.agrees(old(self)@.volume(old(self)@.engine.volume + VOLUME_STEP)),
            final(self)@.valid(),
    {
        let Orchestrator { state, mut engine, playlist, upcoming, seek_step } = self.take();
        let call = engine.volume_up();
        *self = Orchestrator { state, engine, playlist, upcoming, seek_step };
        Outcome { calls: one_call(call), report: None }
    }

    /// `VolumeDown`: one step quieter, down to the minimum.
    pub fn volume_down(&mut self) -> (out: Outcome)
        ensures
            final(self)@ == old(self)@.volume(old(self)@.engine.volume - VOLUME_STEP).next,
            out.agrees(old(self)@.volume(old(self)@.engine.volume - VOLUME_STEP)),
            final(self)@.valid(),
    {
        let Orchestrator { state, mut engine, playlist, upcoming, seek_step } = self.take();
        let call = engine.volume_down();
        *self = Orchestrator { state, engine, playlist, upcoming, seek_step };
        Outcome { calls: one_call(call), report: None }
    }

    /// Sets the volume, in percent, brought into range.
    pub fn set_volume(&mut self, volume: i32) -> (out: Outcome)
        ensures
            final(self)@ == old(self)@.volume(volume as int).next,
            out.agrees(old(self)@.volume(volume as int)),
            final(self)@.valid(),
    {
        let Orchestrator { state, mut engine, playlist, upcoming, seek_step } = self.take();
        let call = engine.set_volume(volume);
        *self = Orchestrator { state, engine, playlist, upcoming, seek_step };
        Outcome { calls: one_call(call), report: None }
    }

    /// `SpeedUp`: one step faster, up to the maximum.
    pub fn speed_up(&mut self) -> (out: Outcome)
        ensures
            final(self)@ == old(self)@.speed(old(self)@.engine.speed + SPEED_STEP).next,
            out.agrees(old(self)@.speed(old(self)@.engine.speed + SPEED_STEP)),
            final(self)@.valid(),
    {
        let Orchestrator { state, mut engine, playlist, upcoming, seek_step } = self.take();
        let call = engine.speed_up();
        *self = Orchestrator { state, engine, playlist, upcoming, seek_step };
        Outcome { calls: one_call(call), report: None }
    }

    /// `SpeedDown`: one step slower, down to the minimum.
    pub fn speed_down(&mut self) -> (out: Outcome)
        ensures
            final(self)@ == old(self)@.speed(old(self)@.engine.speed - SPEED_STEP).next,
            out.agrees(old(self)@.speed(old(self)@.engine.speed - SPEED_STEP)),
            final(self)@.valid(),
    {
        let Orchestrator { state, mut engine, playlist, upcoming, seek_step } = self.take();
        let call = engine.speed_down();
        *self = Orchestrator { state, engine, playlist, upcoming, seek_step };
        Outcome { calls: one_call(call), report: None }
    }

    /// Sets the speed, in hundredths of the normal speed, brought into range.
    pub fn set_speed(&mut self, speed: i32) -> (out: Outcome)
        ensures
            final(self)@ == old(self)@.speed(speed as int).next,
            out.agrees(old(self)@.speed(speed as int)),
            final(self)@.valid(),
    {
        let Orchestrator { state, mut engine, playlist, upcoming, seek_step } = self.take();
        let call = engine.set_speed(speed);
        *self = Orchestrator { state, engine, playlist, upcoming, seek_step };
        Outcome { calls: one_call(call), report: None }
    }

    /// `ToggleGapless`: see [`OrchestratorView::toggle_gapless`].
    pub fn toggle_gapless(&mut self) -> (out: Outcome)
        ensures
            final(self)@ == old(self)@.toggle_gapless().next,
            out.agrees(old(self)@.toggle_gapless()),
            final(self)@.valid(),
    {
        let Orchestrator { state, mut engine, playlist, upcoming, seek_step } = self.take();
        let gapless = !engine.gapless();
        engine.set_gapless(gapless);
        let upcoming = if gapless {
            upcoming
        } else {
            None
        };
        *self = Orchestrator { state, engine, playlist, upcoming, seek_step };
        Outcome { calls: no_calls(), report: None }
    }

    /// `CycleLoopMode`: see [`OrchestratorView::cycle_loop_mode`].
    pub fn cycle_loop_mode(&mut self) -> (out: Outcome)
        ensures
            final(self)@ == old(self)@.cycle_loop_mode().next,
            out.agrees(old(self)@.cycle_loop_mode()),
            final(self)@.valid(),
    {
        let Orchestrator { state, engine, mut playlist, upcoming, seek_step } = self.take();
        let _ = playlist.cycle_loop_mode();
        *self = Orchestrator { state, engine, playlist, upcoming, seek_step };
        Outcome { calls: no_calls(), report: None }
    }

    /// Pre-loads the track that follows: see
    /// [`OrchestratorView::prepare_next`]. `pick` is a random number, read in
    /// `Shuffle` mode only.
    pub fn prepare_next(&mut self, pick: usize) -> (out: Outcome)
        ensures
            final(self)@ == old(self)@.prepare_next(pick as int).next,
            out.agrees(old(self)@.prepare_next(pick as int)),
            final(self)@.valid(),
    {
        let Orchestrator { state, mut engine, playlist, upcoming, seek_step } = self.take();
        if state != PlaybackState::Playing || !engine.gapless() || upcoming.is_some() {
            *self = Orchestrator { state, engine, playlist, upcoming, seek_step };
            return Outcome { calls: no_calls(), report: None };
        }
        let next = playlist.next_index(pick);
        let (upcoming, calls) = match next {
            Some(j) => match playlist.track(j) {
                Some(track) => (Some(j), engine.enqueue_next(track.file())),
                None => (None, no_calls()),
            },
            None => (None, no_calls()),
        };
        *self = Orchestrator { state, engine, playlist, upcoming, seek_step };
        Outcome { calls, report: None }
    }

    /// The engine reports a failure: see [`OrchestratorView::engine_error`].
    pub fn engine_error(&mut self, error: PlayerError) -> (out: Outcome)
        ensures
            final(self)@ == old(self)@.engine_error(error).next,
            out.agrees(old(self)@.engine_error(error)),
            final(self)@.valid(),
            out.report == Some(error),
    {
        let Orchestrator { state, mut engine, mut playlist, upcoming, seek_step } = self.take();
        match error {
            PlayerError::EngineInit | PlayerError::ChannelClosed => {
                engine.fail();
                playlist.set_current(None);
                *self = Orchestrator {
                    state: PlaybackState::Stopped,
                    engine,
                    playlist,
                    upcoming: None,
                    seek_step,
                };
            },
            _ => {
                *self = Orchestrator { state, engine, playlist, upcoming, seek_step };
            },
        }
        Outcome { calls: no_calls(), report: Some(error) }
    }

    /// Carries out a command of the user. `pick` is a random number, read
    /// only where a track is picked in `Shuffle` mode.
    pub fn command(&mut self, cmd: PlayerCmd, pick: usize) -> (out: Outcome)
        ensures
            final(self)@ == old(self)@.command(cmd, pick as int).next,
            out.agrees(old(self)@.command(cmd, pick as int)),
            final(self)@.valid(),
    {
        match cmd {
            PlayerCmd::Play(track) => self.play(track),
            PlayerCmd::TogglePause => self.toggle_pause(),
            PlayerCmd::Stop => self.stop(),
            PlayerCmd::SkipNext => self.skip_next(pick),
            PlayerCmd::SkipPrevious => self.skip_previous(),
            PlayerCmd::SeekForward => self.seek_forward(),
            PlayerCmd::SeekBackward => self.seek_backward(),
            PlayerCmd::VolumeUp => self.volume_up(),
            PlayerCmd::VolumeDown => self.volume_down(),
            PlayerCmd::SpeedUp => self.speed_up(),
            PlayerCmd::SpeedDown => self.speed_down(),
            PlayerCmd::ToggleGapless => self.toggle_gapless(),
            PlayerCmd::CycleLoopMode => self.cycle_loop_mode(),
        }
    }

    /// Takes a message from the engine's side. `pick` is a random number,
    /// read only where a track is picked in `Shuffle` mode.
    pub fn message(&mut self, msg: PlayerMsg, pick: usize) -> (out: Outcome)
        ensures
            final(self)@ == old(self)@.message(msg, pick as int).next,
            out.agrees(old(self)@.message(msg, pick as int)),
            final(self)@.valid(),
    {
        match msg {
            PlayerMsg::EndOfStream => self.end_of_stream(pick),
            PlayerMsg::PositionChanged(_) => {
                proof {
                    use_type_invariant(&*self);
                }
                Outcome { calls: no_calls(), report: None }
            },
            PlayerMsg::EngineError(error, _) => self.engine_error(error),
        }
    }

    /// Takes over what the native player's clock shows and says how far the
    /// current track has played.
    pub fn get_progress(&mut self, position: Option<u64>, duration: Option<u64>) -> (r: PlayerMsg)
        ensures
            final(self)@ == (OrchestratorView {
                engine: GStreamerView {
                    position: crate::player::gstreamer_backend::clock_seconds(position),
                    duration: crate::player::gstreamer_backend::clock_seconds(duration),
                    ..old(self)@.engine
                },
                ..old(self)@
            }),
            final(self)@.valid(),
            r == PlayerMsg::PositionChanged(final(self)@.engine.progress()),
    {
        let Orchestrator { state, mut engine, playlist, upcoming, seek_step } = self.take();
        engine.set_clock(position, duration);
        let sample: ProgressSample = engine.get_progress();
        *self = Orchestrator { state, engine, playlist, upcoming, seek_step };
        PlayerMsg::PositionChanged(sample)
    }

    /// Puts `track` at the end of the queue.
    pub fn enqueue(&mut self, track: Track)
        ensures
            final(self)@ == old(self)@.enqueue(track@),
            final(self)@.valid(),
    {
        let Orchestrator { state, engine, mut playlist, upcoming, seek_step } = self.take();
        playlist.append(track);
        *self = Orchestrator { state, engine, playlist, upcoming, seek_step };
    }

    /// Puts tracks of `library` at the end of the queue, one for each of the
    /// random `picks`, but no more than `max_count`.
    pub fn add_random_tracks(&mut self, library: &Vec<Track>, picks: &Vec<usize>, max_count: usize)
        ensures
            final(self)@ == old(self)@.enqueue_random(
                tracks_view(library@),
                picks@,
                max_count as int,
            ),
            final(self)@.valid(),
    {
        let Orchestrator { state, engine, mut playlist, upcoming, seek_step } = self.take();
        playlist.add_random_tracks(library, picks, max_count);
        *self = Orchestrator { state, engine, playlist, upcoming, seek_step };
    }

    /// Takes the track at `index` out of the queue: see
    /// [`OrchestratorView::remove`].
    pub fn remove(&mut self, index: usize) -> (out: Outcome)
        ensures
            final(self)@ == old(self)@.remove(index as int).next,
            out.agrees(old(self)@.remove(index as int)),
            final(self)@.valid(),
    {
        let Orchestrator { state, mut engine, mut playlist, upcoming, seek_step } = self.take();
        if index >= playlist.len() {
            *self = Orchestrator { state, engine, playlist, upcoming, seek_step };
            return Outcome { calls: no_calls(), report: None };
        }
        let current = playlist.current_index();
        let is_current = match current {
            Some(c) => c == index,
            None => false,
        };
        if is_current {
            let calls = halt_playback(&mut engine, &mut playlist);
            let _ = playlist.remove(index);
            *self = Orchestrator {
                state: PlaybackState::Stopped,
                engine,
                playlist,
                upcoming: None,
                seek_step,
            };
            return Outcome { calls, report: None };
        }
        let upcoming = match upcoming {
            Some(j) => if index == j {
                engine.clear_enqueued();
                None
            } else if index < j {
                Some((j - 1) as usize)
            } else {
                Some(j)
            },
            None => None,
        };
        let _ = playlist.remove(index);
        *self = Orchestrator { state, engine, playlist, upcoming, seek_step };
        Outcome { calls: no_calls(), report: None }
    }

    /// Moves the track at `index` one place towards the end: see
    /// [`OrchestratorView::swap_down`].
    pub fn swap_down(&mut self, index: usize)
        ensures
            final(self)@ == old(self)@.swap_down(index as int),
            final(self)@.valid(),
    {
        let Orchestrator { state, engine, mut playlist, upcoming, seek_step } = self.take();
        if index >= playlist.len() || index + 1 >= playlist.len() {
            *self = Orchestrator { state, engine, playlist, upcoming, seek_step };
            return ;
        }
        let upcoming = match upcoming {
            Some(j) => if j == index {
                Some(index + 1)
            } else if j == index + 1 {
                Some(index)
            } else {
                Some(j)
            },
            None => None,
        };
        playlist.swap_down(index);
        *self = Orchestrator { state, engine, playlist, upcoming, seek_step };
    }

    /// Moves the track at `index` one place towards the front. For the
    /// first track nothing is done.
    pub fn swap_up(&mut self, index: usize)
        ensures
            final(self)@ == if index > 0 {
                old(self)@.swap_down(index - 1)
            } else {
                old(self)@
            },
            final(self)@.valid(),
    {
        if index == 0 {
            proof {
                use_type_invariant(&*self);
            }
            return ;
        }
        self.swap_down(index - 1)
    }

    /// Empties the queue: see [`OrchestratorView::clear`].
    pub fn clear(&mut self) -> (out: Outcome)
        ensures
            final(self)@ == old(self)@.clear().next,
            out.agrees(old(self)@.clear()),
            final(self)@.valid(),
    {
        let Orchestrator { state, mut engine, mut playlist, upcoming, seek_step } = self.take();
        let calls = if state == PlaybackState::Stopped {
            no_calls()
        } else {
            halt_playback(&mut engine, &mut playlist)
        };
        playlist.clear();
        *self = Orchestrator {
            state: PlaybackState::Stopped,
            engine,
            playlist,
            upcoming: None,
            seek_step,
        };
        Outcome { calls, report: None }
    }
}

} // verus!
