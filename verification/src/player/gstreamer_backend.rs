//! The state of the audio engine.
//!
//! The native player lives outside this crate. [`GStreamer`] keeps what the
//! player was told (volume, speed, pause, loaded media, the clock as last
//! read) and every method answers with the [`PlayerCall`]s that the owner of
//! the native player has to carry out, in order.

use vstd::prelude::*;
use vstd::string::*;
use crate::text::{clone_opt_string, concat};

verus! {

/// Lowest volume, in percent.
pub const MIN_VOLUME: i32 = 0;

/// Highest volume, in percent.
pub const MAX_VOLUME: i32 = 100;

/// What one `volume_up` or `volume_down` changes, in percent.
pub const VOLUME_STEP: i32 = 5;

/// Lowest playback speed, in hundredths of the normal speed (0.1).
pub const MIN_SPEED: i32 = 10;

/// Highest playback speed, in hundredths of the normal speed (3.0).
pub const MAX_SPEED: i32 = 300;

/// What one `speed_up` or `speed_down` changes, in hundredths (0.1).
pub const SPEED_STEP: i32 = 10;

/// `v` brought into the volume range.
pub open spec fn clamp_volume(v: int) -> int {
    if v > MAX_VOLUME {
        MAX_VOLUME as int
    } else if v < MIN_VOLUME {
        MIN_VOLUME as int
    } else {
        v
    }
}

/// `s` brought into the speed range.
pub open spec fn clamp_speed(s: int) -> int {
    if s > MAX_SPEED {
        MAX_SPEED as int
    } else if s < MIN_SPEED {
        MIN_SPEED as int
    } else {
        s
    }
}

/// The whole seconds that a clock reading of the native player stands for:
/// nothing read, or a reading that does not fit, counts as 0.
pub open spec fn clock_seconds(reading: Option<u64>) -> int {
    match reading {
        Some(s) => if s <= i64::MAX {
            s as int
        } else {
            0
        },
        None => 0,
    }
}

/// The position a seek by `delta` seconds aims at: never before the start.
pub open spec fn seek_target(position: int, delta: int) -> int {
    if position + delta < 0 {
        0
    } else {
        position + delta
    }
}

/// How far the track has played, in whole percent: 0 while the duration is
/// unknown (0), never above 100.
pub open spec fn progress_percent(position: int, duration: int) -> int {
    if duration <= 0 {
        0
    } else if (position * 100) / duration > 100 {
        100
    } else {
        (position * 100) / duration
    }
}

/// The locator handed to the native player for the local file `path`.
pub open spec fn file_uri(path: Seq<char>) -> Seq<char> {
    "file:///"@ + path
}

/// The three calls that load the media at `uri` and start it.
pub open spec fn load_calls(uri: Seq<char>) -> Seq<PlayerCallView> {
    seq![PlayerCallView::SetUri(uri), PlayerCallView::Stop, PlayerCallView::Play]
}

/// A failure of an engine operation.
#[derive(Clone, Copy, Debug, PartialEq, Eq, Structural)]
pub enum PlayerError {
    /// The native engine could not be constructed: nothing can be played
    /// with it.
    EngineInit,
    /// A seek aimed beyond the end of the track. Nothing was changed.
    SeekOutOfRange,
    /// The thread that produces the engine's events is gone.
    ChannelClosed,
    /// The engine lacks the capability that was asked for.
    UnsupportedOperation,
}

/// A snapshot of how far the current track has played.
#[derive(Clone, Copy, Debug, PartialEq, Eq, Structural)]
pub struct ProgressSample {
    /// Whole percent played, 0 to 100.
    pub percent: i64,
    /// Seconds played.
    pub position_seconds: i64,
    /// Length of the track in seconds, 0 when unknown.
    pub duration_seconds: i64,
}

/// One request to the native player.
#[derive(Clone, Debug, PartialEq, Eq)]
pub enum PlayerCall {
    /// Load the media at this locator.
    SetUri(String),
    /// Start or continue playing.
    Play,
    /// Halt, keeping the position.
    Pause,
    /// Halt and rewind.
    Stop,
    /// Set the volume, in percent.
    SetVolume(i32),
    /// Set the playback rate, in hundredths of the normal speed.
    SetRate(i32),
    /// Jump to this second of the track.
    Seek(u64),
}

/// What a [`PlayerCall`] stands for.
pub enum PlayerCallView {
    SetUri(Seq<char>),
    Play,
    Pause,
    Stop,
    SetVolume(int),
    SetRate(int),
    Seek(int),
}

impl View for PlayerCall {
    type V = PlayerCallView;

    open spec fn view(&self) -> PlayerCallView {
        match *self {
            PlayerCall::SetUri(s) => PlayerCallView::SetUri(s@),
            PlayerCall::Play => PlayerCallView::Play,
            PlayerCall::Pause => PlayerCallView::Pause,
            PlayerCall::Stop => PlayerCallView::Stop,
            PlayerCall::SetVolume(v) => PlayerCallView::SetVolume(v as int),
            PlayerCall::SetRate(r) => PlayerCallView::SetRate(r as int),
            PlayerCall::Seek(p) => PlayerCallView::Seek(p as int),
        }
    }
}

/// What a list of calls stands for, call by call.
pub open spec fn calls_view(calls: Seq<PlayerCall>) -> Seq<PlayerCallView> {
    Seq::new(calls.len(), |i: int| calls[i]@)
}

/// The engine's state as plain values.
pub struct GStreamerView {
    /// Whether the native engine could be constructed.
    pub ready: bool,
    pub paused: bool,
    /// Volume in percent.
    pub volume: int,
    /// Speed in hundredths of the normal speed.
    pub speed: int,
    /// Whether the next track is pre-loaded.
    pub gapless: bool,
    /// Seconds played, as last read or set.
    pub position: int,
    /// Length of the loaded media in seconds, 0 when unknown.
    pub duration: int,
    /// Locator of the loaded media.
    pub media: Option<Seq<char>>,
    /// Locator of the media that was pre-loaded to follow.
    pub enqueued: Option<Seq<char>>,
}

impl GStreamerView {
    /// Volume, speed and clock are within their ranges.
    pub open spec fn valid(self) -> bool {
        &&& MIN_VOLUME <= self.volume <= MAX_VOLUME
        &&& MIN_SPEED <= self.speed <= MAX_SPEED
        &&& 0 <= self.position <= i64::MAX
        &&& 0 <= self.duration <= i64::MAX
    }

    /// The state of an engine that was just set up.
    pub open spec fn initial(ready: bool, volume: int, speed: int) -> GStreamerView {
        GStreamerView {
            ready,
            paused: false,
            volume: clamp_volume(volume),
            speed: clamp_speed(speed),
            gapless: true,
            position: 0,
            duration: 0,
            media: None,
            enqueued: None,
        }
    }

    /// The state once the media at `uri` was loaded and started.
    pub open spec fn loaded(self, uri: Seq<char>) -> GStreamerView {
        GStreamerView {
            paused: false,
            position: 0,
            duration: 0,
            media: Some(uri),
            enqueued: None,
            ..self
        }
    }

    /// The state once playback was restarted: what was pre-loaded, if
    /// anything, is now the loaded media.
    pub open spec fn restarted(self) -> GStreamerView {
        GStreamerView {
            position: 0,
            media: if self.enqueued is Some {
                self.enqueued
            } else {
                self.media
            },
            duration: if self.enqueued is Some {
                0
            } else {
                self.duration
            },
            enqueued: None,
            ..self
        }
    }

    /// The state once playback was stopped and the media dropped.
    pub open spec fn stopped(self) -> GStreamerView {
        GStreamerView {
            paused: false,
            position: 0,
            duration: 0,
            media: None,
            enqueued: None,
            ..self
        }
    }

    /// Whether a seek by `delta` seconds stays within the track.
    pub open spec fn seek_in_range(self, delta: int) -> bool {
        seek_target(self.position, delta) <= self.duration
    }

    /// The progress that this state shows.
    pub open spec fn progress(self) -> ProgressSample {
        ProgressSample {
            percent: progress_percent(self.position, self.duration) as i64,
            position_seconds: self.position as i64,
            duration_seconds: self.duration as i64,
        }
    }
}

/// The state of one audio engine.
pub struct GStreamer {
    ready: bool,
    paused: bool,
    volume: i32,
    speed: i32,
    gapless: bool,
    position: i64,
    duration: i64,
    media: Option<String>,
    enqueued: Option<String>,
}

impl View for GStreamer {
    type V = GStreamerView;

    closed spec fn view(&self) -> GStreamerView {
        GStreamerView {
            ready: self.ready,
            paused: self.paused,
            volume: self.volume as int,
            speed: self.speed as int,
            gapless: self.gapless,
            position: self.position as int,
            duration: self.duration as int,
            media: crate::text::opt_text(self.media),
            enqueued: crate::text::opt_text(self.enqueued),
        }
    }
}

impl GStreamer {
    #[verifier::type_invariant]
    spec fn inv(self) -> bool {
        &&& MIN_VOLUME <= self.volume <= MAX_VOLUME
        &&& MIN_SPEED <= self.speed <= MAX_SPEED
        &&& 0 <= self.position
        &&& 0 <= self.duration
    }

    /// The state of an engine that was just set up with the configured
    /// volume (percent) and speed (hundredths), both brought into range, and
    /// the two calls that make the native player agree with it.
    /// `ready` says whether the native engine could be constructed.
    pub fn new(ready: bool, volume: i32, speed: i32) -> (r: (GStreamer, Vec<PlayerCall>))
        ensures
            r.0@ == GStreamerView::initial(ready, volume as int, speed as int),
            r.0@.valid(),
            calls_view(r.1@) == seq![
                PlayerCallView::SetVolume(clamp_volume(volume as int)),
                PlayerCallView::SetRate(clamp_speed(speed as int)),
            ],
    {
        let volume: i32 = clamp_volume_exec(volume);
        let speed: i32 = clamp_speed_exec(speed);
        let engine = GStreamer {
            ready,
            paused: false,
            volume,
            speed,
            gapless: true,
            position: 0,
            duration: 0,
            media: None,
            enqueued: None,
        };
        let calls = vec![PlayerCall::SetVolume(volume), PlayerCall::SetRate(speed)];
        assert(calls_view(calls@) =~= seq![
            PlayerCallView::SetVolume(clamp_volume(volume as int)),
            PlayerCallView::SetRate(clamp_speed(speed as int)),
        ]);
        (engine, calls)
    }

    /// Whether the native engine could be constructed.
    pub fn is_ready(&self) -> (r: bool)
        ensures
            r == self@.ready,
    {
        self.ready
    }

    /// The volume in percent.
    pub fn volume(&self) -> (r: i32)
        ensures
            r == self@.volume,
            MIN_VOLUME <= r <= MAX_VOLUME,
    {
        proof {
            use_type_invariant(self);
        }
        self.volume
    }

    /// The speed in hundredths of the normal speed.
    pub fn speed(&self) -> (r: i32)
        ensures
            r == self@.speed,
            MIN_SPEED <= r <= MAX_SPEED,
    {
        proof {
            use_type_invariant(self);
        }
        self.speed
    }

    pub fn is_paused(&self) -> (r: bool)
        ensures
            r == self@.paused,
    {
        self.paused
    }

    /// Whether the next track is pre-loaded ahead of the end of the current one.
    pub fn gapless(&self) -> (r: bool)
        ensures
            r == self@.gapless,
    {
        self.gapless
    }

    /// Switches pre-loading on or off. Switching it off forgets what was
    /// pre-loaded.
    pub fn set_gapless(&mut self, gapless: bool)
        ensures
            final(self)@ == (GStreamerView {
                gapless,
                enqueued: if gapless {
                    old(self)@.enqueued
                } else {
                    None
                },
                ..old(self)@
            }),
            final(self)@.valid(),
    {
        proof {
            use_type_invariant(&*self);
        }
        self.gapless = gapless;
        if !gapless {
            self.enqueued = None;
        }
    }

    /// The locator of the loaded media.
    pub fn media(&self) -> (r: Option<&str>)
        ensures
            r is Some == self@.media is Some,
            r matches Some(s) ==> self@.media == Some(s@),
    {
        match &self.media {
            Some(s) => Some(s.as_str()),
            None => None,
        }
    }

    /// The locator of the media that was pre-loaded to follow.
    pub fn enqueued(&self) -> (r: Option<&str>)
        ensures
            r is Some == self@.enqueued is Some,
            r matches Some(s) ==> self@.enqueued == Some(s@),
    {
        match &self.enqueued {
            Some(s) => Some(s.as_str()),
            None => None,
        }
    }

    /// The message that makes the owner of the queue go on to the next
    /// track, as if the current one had ended.
    pub fn skip_one(&mut self) -> (r: PlayerMsg)
        ensures
            final(self)@ == old(self)@,
            r == PlayerMsg::EndOfStream,
    {
        PlayerMsg::EndOfStream
    }

    /// Pre-loads the local file `next_track` to follow the current media,
    /// without interrupting it. With pre-loading switched off nothing is
    /// done.
    pub fn enqueue_next(&mut self, next_track: &str) -> (calls: Vec<PlayerCall>)
        ensures
            final(self)@.valid(),
            old(self)@.gapless ==> final(self)@ == (GStreamerView {
                enqueued: Some(file_uri(next_track@)),
                ..old(self)@
            }) && calls_view(calls@) == seq![PlayerCallView::SetUri(file_uri(next_track@))],
            !old(self)@.gapless ==> final(self)@ == old(self)@ && calls@.len() == 0,
    {
        proof {
            use_type_invariant(&*self);
        }
        if !self.gapless {
            return Vec::new();
        }
        let uri = concat("file:///", next_track);
        self.enqueued = Some(uri.clone());
        let calls = vec![PlayerCall::SetUri(uri)];
        assert(calls_view(calls@) =~= seq![PlayerCallView::SetUri(file_uri(next_track@))]);
        calls
    }

    /// Restarts playback from the beginning. What was pre-loaded, if
    /// anything, becomes the loaded media.
    pub fn play(&mut self) -> (calls: Vec<PlayerCall>)
        ensures
            final(self)@ == old(self)@.restarted(),
            final(self)@.valid(),
            calls_view(calls@) == seq![PlayerCallView::Stop, PlayerCallView::Play],
    {
        proof {
            use_type_invariant(&*self);
        }
        self.position = 0;
        if self.enqueued.is_some() {
            self.media = clone_opt_string(&self.enqueued);
            self.enqueued = None;
            self.duration = 0;
        }
        let calls = vec![PlayerCall::Stop, PlayerCall::Play];
        assert(calls_view(calls@) =~= seq![PlayerCallView::Stop, PlayerCallView::Play]);
        calls
    }

    /// Drops whatever is loaded, loads the local file `song` and starts
    /// playing it at once. Fails, and changes nothing, where the native
    /// engine could not be constructed.
    pub fn add_and_play(&mut self, song: &str) -> (r: Result<Vec<PlayerCall>, PlayerError>)
        ensures
            final(self)@.valid(),
            old(self)@.ready ==> final(self)@ == old(self)@.loaded(file_uri(song@)) && (r matches Ok(
                calls,
            ) && calls_view(calls@) == load_calls(file_uri(song@))),
            !old(self)@.ready ==> final(self)@ == old(self)@ && r == Err::<
                Vec<PlayerCall>,
                PlayerError,
            >(PlayerError::EngineInit),
    {
        proof {
            use_type_invariant(&*self);
        }
        if !self.ready {
            return Err(PlayerError::EngineInit);
        }
        let uri = concat("file:///", song);
        self.media = Some(uri.clone());
        self.enqueued = None;
        self.paused = false;
        self.position = 0;
        self.duration = 0;
        let calls = vec![PlayerCall::SetUri(uri), PlayerCall::Stop, PlayerCall::Play];
        assert(calls_view(calls@) =~= load_calls(file_uri(song@)));
        Ok(calls)
    }

    /// Raises the volume by one step, up to the maximum.
    pub fn volume_up(&mut self) -> (call: PlayerCall)
        ensures
            final(self)@ == (GStreamerView {
                volume: clamp_volume(old(self)@.volume + VOLUME_STEP),
                ..old(self)@
            }),
            final(self)@.valid(),
            call@ == PlayerCallView::SetVolume(final(self)@.volume),
    {
        proof {
            use_type_invariant(&*self);
        }
        let v: i32 = self.volume + VOLUME_STEP;
        self.volume = if v > MAX_VOLUME {
            MAX_VOLUME
        } else {
            v
        };
        PlayerCall::SetVolume(self.volume)
    }

    /// Lowers the volume by one step, down to the minimum.
    pub fn volume_down(&mut self) -> (call: PlayerCall)
        ensures
            final(self)@ == (GStreamerView {
                volume: clamp_volume(old(self)@.volume - VOLUME_STEP),
                ..old(self)@
            }),
            final(self)@.valid(),
            call@ == PlayerCallView::SetVolume(final(self)@.volume),
    {
        proof {
            use_type_invariant(&*self);
        }
        let v: i32 = self.volume - VOLUME_STEP;
        self.volume = if v < MIN_VOLUME {
            MIN_VOLUME
        } else {
            v
        };
        PlayerCall::SetVolume(self.volume)
    }

    /// Sets the volume to `volume` percent, brought into range.
    pub fn set_volume(&mut self, volume: i32) -> (call: PlayerCall)
        ensures
            final(self)@ == (GStreamerView { volume: clamp_volume(volume as int), ..old(self)@ }),
            final(self)@.valid(),
            call@ == PlayerCallView::SetVolume(final(self)@.volume),
    {
        proof {
            use_type_invariant(&*self);
        }
        self.volume = clamp_volume_exec(volume);
        PlayerCall::SetVolume(self.volume)
    }

    /// Halts playback and keeps the position. Pausing what is paused does
    /// nothing.
    pub fn pause(&mut self) -> (calls: Vec<PlayerCall>)
        ensures
            final(self)@ == (GStreamerView { paused: true, ..old(self)@ }),
            final(self)@.valid(),
            calls_view(calls@) == if old(self)@.paused {
                Seq::<PlayerCallView>::empty()
            } else {
                seq![PlayerCallView::Pause]
            },
    {
        proof {
            use_type_invariant(&*self);
        }
        if self.paused {
            let calls: Vec<PlayerCall> = Vec::new();
            assert(calls_view(calls@) =~= Seq::<PlayerCallView>::empty());
            return calls;
        }
        self.paused = true;
        let calls = vec![PlayerCall::Pause];
        assert(calls_view(calls@) =~= seq![PlayerCallView::Pause]);
        calls
    }

    /// Continues what was paused. Resuming what is not paused does nothing.
    pub fn resume(&mut self) -> (calls: Vec<PlayerCall>)
        ensures
            final(self)@ == (GStreamerView { paused: false, ..old(self)@ }),
            final(self)@.valid(),
            calls_view(calls@) == if old(self)@.paused {
                seq![PlayerCallView::Play]
            } else {
                Seq::<PlayerCallView>::empty()
            },
    {
        proof {
            use_type_invariant(&*self);
        }
        if !self.paused {
            let calls: Vec<PlayerCall> = Vec::new();
            assert(calls_view(calls@) =~= Seq::<PlayerCallView>::empty());
            return calls;
        }
        self.paused = false;
        let calls = vec![PlayerCall::Play];
        assert(calls_view(calls@) =~= seq![PlayerCallView::Play]);
        calls
    }

    /// Takes over what the native player's clock shows: position and
    /// duration in whole seconds, each `None` where the player has none.
    pub fn set_clock(&mut self, position: Option<u64>, duration: Option<u64>)
        ensures
            final(self)@ == (GStreamerView {
                position: clock_seconds(position),
                duration: clock_seconds(duration),
                ..old(self)@
            }),
            final(self)@.valid(),
    {
        proof {
            use_type_invariant(&*self);
        }
        self.position = clock_seconds_exec(position);
        self.duration = clock_seconds_exec(duration);
    }

    /// Moves the position by `secs` seconds, not before the start. A seek
    /// that would end after the end of the track is refused with
    /// `SeekOutOfRange` and changes nothing.
    pub fn seek(&mut self, secs: i64) -> (r: Result<PlayerCall, PlayerError>)
        ensures
            final(self)@.valid(),
            old(self)@.seek_in_range(secs as int) ==> final(self)@ == (GStreamerView {
                position: seek_target(old(self)@.position, secs as int),
                ..old(self)@
            }) && (r matches Ok(call) && call@ == PlayerCallView::Seek(
                seek_target(old(self)@.position, secs as int),
            )),
            !old(self)@.seek_in_range(secs as int) ==> final(self)@ == old(self)@ && r == Err::<
                PlayerCall,
                PlayerError,
            >(PlayerError::SeekOutOfRange),
    {
        proof {
            use_type_invariant(&*self);
        }
        let sum: i128 = self.position as i128 + secs as i128;
        let target: i128 = if sum < 0 {
            0
        } else {
            sum
        };
        if target > self.duration as i128 {
            return Err(PlayerError::SeekOutOfRange);
        }
        self.position = target as i64;
        Ok(PlayerCall::Seek(target as u64))
    }

    /// How far the current track has played. While the duration is unknown
    /// (0) the percentage is 0; it never exceeds 100.
    pub fn get_progress(&self) -> (r: ProgressSample)
        ensures
            r == self@.progress(),
            r.percent == progress_percent(self@.position, self@.duration),
            r.position_seconds == self@.position,
            r.duration_seconds == self@.duration,
            0 <= r.percent <= 100,
            self@.duration == 0 ==> r.percent == 0,
    {
        proof {
            use_type_invariant(self);
        }
        let percent: i64 = percent_exec(self.position, self.duration);
        ProgressSample {
            percent,
            position_seconds: self.position,
            duration_seconds: self.duration,
        }
    }

    /// Sets the speed to `speed` hundredths of the normal speed, brought
    /// into range.
    pub fn set_speed(&mut self, speed: i32) -> (call: PlayerCall)
        ensures
            final(self)@ == (GStreamerView { speed: clamp_speed(speed as int), ..old(self)@ }),
            final(self)@.valid(),
            call@ == PlayerCallView::SetRate(final(self)@.speed),
    {
        proof {
            use_type_invariant(&*self);
        }
        self.speed = clamp_speed_exec(speed);
        PlayerCall::SetRate(self.speed)
    }

    /// Raises the speed by one step, up to the maximum.
    pub fn speed_up(&mut self) -> (call: PlayerCall)
        ensures
            final(self)@ == (GStreamerView {
                speed: clamp_speed(old(self)@.speed + SPEED_STEP),
                ..old(self)@
            }),
            final(self)@.valid(),
            call@ == PlayerCallView::SetRate(final(self)@.speed),
    {
        proof {
            use_type_invariant(&*self);
        }
        let s: i32 = self.speed + SPEED_STEP;
        self.set_speed(s)
    }

    /// Lowers the speed by one step, down to the minimum.
    pub fn speed_down(&mut self) -> (call: PlayerCall)
        ensures
            final(self)@ == (GStreamerView {
                speed: clamp_speed(old(self)@.speed - SPEED_STEP),
                ..old(self)@
            }),
            final(self)@.valid(),
            call@ == PlayerCallView::SetRate(final(self)@.speed),
    {
        proof {
            use_type_invariant(&*self);
        }
        let s: i32 = self.speed - SPEED_STEP;
        self.set_speed(s)
    }

    /// Forgets what was pre-loaded to follow.
    pub fn clear_enqueued(&mut self)
        ensures
            final(self)@ == (GStreamerView { enqueued: None, ..old(self)@ }),
            final(self)@.valid(),
    {
        proof {
            use_type_invariant(&*self);
        }
        self.enqueued = None;
    }

    /// Records that the native engine is gone: nothing is loaded any more
    /// and nothing can be played with it.
    pub fn fail(&mut self)
        ensures
            final(self)@ == (GStreamerView { ready: false, ..old(self)@.stopped() }),
            final(self)@.valid(),
    {
        proof {
            use_type_invariant(&*self);
        }
        self.ready = false;
        self.paused = false;
        self.position = 0;
        self.duration = 0;
        self.media = None;
        self.enqueued = None;
    }

    /// Halts playback and drops the loaded media.
    pub fn stop(&mut self) -> (call: PlayerCall)
        ensures
            final(self)@ == old(self)@.stopped(),
            final(self)@.valid(),
            call@ == PlayerCallView::Stop,
    {
        proof {
            use_type_invariant(&*self);
        }
        self.paused = false;
        self.position = 0;
        self.duration = 0;
        self.media = None;
        self.enqueued = None;
        PlayerCall::Stop
    }
}

/// A message from the engine's side to the owner of the queue.
#[derive(Clone, Debug, PartialEq, Eq)]
pub enum PlayerMsg {
    /// The loaded media has played to its end.
    EndOfStream,
    /// The clock was read.
    PositionChanged(ProgressSample),
    /// An operation failed; the text is for the user.
    EngineError(PlayerError, String),
}

/// `volume` brought into the volume range.
pub fn clamp_volume_exec(volume: i32) -> (r: i32)
    ensures
        r == clamp_volume(volume as int),
        MIN_VOLUME <= r <= MAX_VOLUME,
{
    if volume > MAX_VOLUME {
        MAX_VOLUME
    } else if volume < MIN_VOLUME {
        MIN_VOLUME
    } else {
        volume
    }
}

/// `speed` brought into the speed range.
pub fn clamp_speed_exec(speed: i32) -> (r: i32)
    ensures
        r == clamp_speed(speed as int),
        MIN_SPEED <= r <= MAX_SPEED,
{
    if speed > MAX_SPEED {
        MAX_SPEED
    } else if speed < MIN_SPEED {
        MIN_SPEED
    } else {
        speed
    }
}

/// The whole seconds that a clock reading stands for.
pub fn clock_seconds_exec(reading: Option<u64>) -> (r: i64)
    ensures
        r == clock_seconds(reading),
        r >= 0,
{
    match reading {
        Some(s) => if s <= i64::MAX as u64 {
            s as i64
        } else {
            0
        },
        None => 0,
    }
}

/// The whole percent that `position` is of `duration`.
pub fn percent_exec(position: i64, duration: i64) -> (r: i64)
    requires
        position >= 0,
        duration >= 0,
    ensures
        r == progress_percent(position as int, duration as int),
        0 <= r <= 100,
{
    if duration == 0 {
        return 0;
    }
    let scaled: i128 = position as i128 * 100;
    let ratio: i128 = scaled / (duration as i128);
    assert(ratio >= 0) by (nonlinear_arith)
        requires
            scaled >= 0,
            duration > 0,
            ratio == (scaled as int) / (duration as int),
    ;
    if ratio > 100 {
        100
    } else {
        ratio as i64
    }
}

} // verus!
