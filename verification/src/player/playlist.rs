//! The play queue and the policy that picks what plays next.

use vstd::prelude::*;
use crate::text::{clone_opt_string, opt_text};

verus! {

/// What is played once the current track has finished.
#[derive(Clone, Copy, Debug, PartialEq, Eq, Structural)]
pub enum LoopMode {
    /// Repeat the current track.
    Single,
    /// Go through the queue once and stop after the last track.
    Sequential,
    /// Pick another track at random.
    Shuffle,
    /// Go through the queue and start over after the last track.
    PlaylistRepeat,
}

impl LoopMode {
    /// The mode that follows `self` in the fixed cycle
    /// Single, Sequential, Shuffle, PlaylistRepeat, Single, ...
    pub open spec fn spec_next(self) -> LoopMode {
        match self {
            LoopMode::Single => LoopMode::Sequential,
            LoopMode::Sequential => LoopMode::Shuffle,
            LoopMode::Shuffle => LoopMode::PlaylistRepeat,
            LoopMode::PlaylistRepeat => LoopMode::Single,
        }
    }

    /// Advances to the next mode of the cycle.
    pub fn next(self) -> (r: LoopMode)
        ensures
            r == self.spec_next(),
    {
        match self {
            LoopMode::Single => LoopMode::Sequential,
            LoopMode::Sequential => LoopMode::Shuffle,
            LoopMode::Shuffle => LoopMode::PlaylistRepeat,
            LoopMode::PlaylistRepeat => LoopMode::Single,
        }
    }
}

/// Four steps of the cycle lead back to the start, and no shorter run does:
/// the cycle visits every mode.
pub proof fn lemma_loop_mode_cycle(m: LoopMode)
    ensures
        m.spec_next().spec_next().spec_next().spec_next() == m,
        m.spec_next() != m,
        m.spec_next().spec_next() != m,
        m.spec_next().spec_next().spec_next() != m,
{
}

/// The kind of media a track holds.
#[derive(Clone, Copy, Debug, PartialEq, Eq, Structural)]
pub enum MediaType {
    Music,
    Podcast,
    LiveRadio,
}

/// What a [`Track`] stands for.
pub struct TrackView {
    /// Path of the local file, or address of the stream.
    pub file: Seq<char>,
    /// The name that the track goes by, where it has one.
    pub name: Option<Seq<char>>,
    pub title: Option<Seq<char>>,
    /// Length in seconds, where known.
    pub duration: Option<u64>,
    pub media_type: MediaType,
}

/// One piece of playable media. It does not change once it is made.
#[derive(Debug, PartialEq, Eq)]
pub struct Track {
    file: String,
    name: Option<String>,
    title: Option<String>,
    duration: Option<u64>,
    media_type: MediaType,
}

impl View for Track {
    type V = TrackView;

    closed spec fn view(&self) -> TrackView {
        TrackView {
            file: self.file@,
            name: opt_text(self.name),
            title: opt_text(self.title),
            duration: self.duration,
            media_type: self.media_type,
        }
    }
}

impl Clone for Track {
    fn clone(&self) -> (r: Track)
        ensures
            r@ == self@,
    {
        Track {
            file: self.file.clone(),
            name: clone_opt_string(&self.name),
            title: clone_opt_string(&self.title),
            duration: self.duration,
            media_type: self.media_type,
        }
    }
}

impl Track {
    /// A track for the media at `file`.
    pub fn new(
        file: String,
        name: Option<String>,
        title: Option<String>,
        duration: Option<u64>,
        media_type: MediaType,
    ) -> (r: Track)
        ensures
            r@ == (TrackView {
                file: file@,
                name: opt_text(name),
                title: opt_text(title),
                duration,
                media_type,
            }),
    {
        Track { file, name, title, duration, media_type }
    }

    /// Path of the local file, or address of the stream.
    pub fn file(&self) -> (r: &str)
        ensures
            r@ == self@.file,
    {
        self.file.as_str()
    }

    /// The name that the track goes by, where it has one.
    pub fn name(&self) -> (r: Option<&str>)
        ensures
            r is Some == self@.name is Some,
            r matches Some(s) ==> self@.name == Some(s@),
    {
        match &self.name {
            Some(s) => Some(s.as_str()),
            None => None,
        }
    }

    pub fn title(&self) -> (r: Option<&str>)
        ensures
            r is Some == self@.title is Some,
            r matches Some(s) ==> self@.title == Some(s@),
    {
        match &self.title {
            Some(s) => Some(s.as_str()),
            None => None,
        }
    }

    /// Length in seconds, where known.
    pub fn duration(&self) -> (r: Option<u64>)
        ensures
            r == self@.duration,
    {
        self.duration
    }

    pub fn media_type(&self) -> (r: MediaType)
        ensures
            r == self@.media_type,
    {
        self.media_type
    }
}

/// What a list of tracks stands for, track by track.
pub open spec fn tracks_view(tracks: Seq<Track>) -> Seq<TrackView> {
    Seq::new(tracks.len(), |i: int| tracks[i]@)
}

/// The index that a random `pick` selects among the `len` tracks when the
/// track at `current` has finished: with more than one track, any track but
/// the current one, each for the same number of picks.
pub open spec fn shuffle_target(len: int, current: int, pick: int) -> int {
    if len <= 1 {
        current
    } else if pick % (len - 1) < current {
        pick % (len - 1)
    } else {
        pick % (len - 1) + 1
    }
}

/// The index that follows `current` in a queue of `len` tracks when the
/// current track has finished, `None` where playback ends.
pub open spec fn resolve_next(mode: LoopMode, len: int, current: int, pick: int) -> Option<int> {
    match mode {
        LoopMode::Single => Some(current),
        LoopMode::Sequential => if current + 1 < len {
            Some(current + 1)
        } else {
            None
        },
        LoopMode::PlaylistRepeat => if current + 1 < len {
            Some(current + 1)
        } else {
            Some(0)
        },
        LoopMode::Shuffle => Some(shuffle_target(len, current, pick)),
    }
}

/// The index that a forced skip leads to: as [`resolve_next`], but a single
/// track is not repeated.
pub open spec fn resolve_skip(mode: LoopMode, len: int, current: int, pick: int) -> Option<int> {
    match mode {
        LoopMode::Single => resolve_next(LoopMode::Sequential, len, current, pick),
        _ => resolve_next(mode, len, current, pick),
    }
}

/// The index before `current`, not before the first.
pub open spec fn resolve_previous(current: int) -> int {
    if current > 0 {
        current - 1
    } else {
        0
    }
}

/// Where the current position points after the track at `index` was taken
/// out of the queue: nowhere if it was the current track, else at the same
/// track as before.
pub open spec fn current_after_remove(current: Option<int>, index: int) -> Option<int> {
    match current {
        Some(c) => if index == c {
            None
        } else if index < c {
            Some(c - 1)
        } else {
            Some(c)
        },
        None => None,
    }
}

/// Where the current position points after the tracks at `i` and `i + 1`
/// changed places: at the same track as before.
pub open spec fn current_after_swap(current: Option<int>, i: int) -> Option<int> {
    match current {
        Some(c) => if c == i {
            Some(i + 1)
        } else if c == i + 1 {
            Some(i)
        } else {
            Some(c)
        },
        None => None,
    }
}

/// `tracks` with the entries at `i` and `i + 1` exchanged.
pub open spec fn swap_adjacent(tracks: Seq<TrackView>, i: int) -> Seq<TrackView> {
    tracks.update(i, tracks[i + 1]).update(i + 1, tracks[i])
}

/// The tracks that the random `picks` select from `library`, at most
/// `max_count` of them, in the order of the picks.
pub open spec fn random_selection(library: Seq<TrackView>, picks: Seq<usize>, max_count: int) -> Seq<
    TrackView,
> {
    if library.len() == 0 {
        Seq::<TrackView>::empty()
    } else {
        Seq::new(
            if picks.len() <= max_count {
                picks.len()
            } else if max_count < 0 {
                0nat
            } else {
                max_count as nat
            },
            |k: int| library[picks[k] as int % library.len() as int],
        )
    }
}

/// What a [`Playlist`] stands for.
pub struct PlaylistView {
    pub tracks: Seq<TrackView>,
    /// Index of the current track, `None` when nothing is playing.
    pub current: Option<int>,
    pub loop_mode: LoopMode,
}

impl PlaylistView {
    /// The current position, if any, points at a track.
    pub open spec fn valid(self) -> bool {
        self.current matches Some(c) ==> 0 <= c < self.tracks.len()
    }
}

/// The queue of tracks, the position of the current one and the loop mode.
pub struct Playlist {
    tracks: Vec<Track>,
    current: Option<usize>,
    loop_mode: LoopMode,
}

impl View for Playlist {
    type V = PlaylistView;

    closed spec fn view(&self) -> PlaylistView {
        PlaylistView {
            tracks: tracks_view(self.tracks@),
            current: match self.current {
                Some(c) => Some(c as int),
                None => None,
            },
            loop_mode: self.loop_mode,
        }
    }
}

impl Playlist {
    #[verifier::type_invariant]
    spec fn inv(self) -> bool {
        self.current matches Some(c) ==> c < self.tracks.len()
    }

    /// Takes the tracks out, leaving an empty queue with nothing current.
    fn take_tracks(&mut self) -> (r: Vec<Track>)
        ensures
            r == old(self).tracks,
            final(self).tracks@.len() == 0,
            final(self).current is None,
            final(self).loop_mode == old(self).loop_mode,
    {
        self.current = None;
        let mut tracks: Vec<Track> = Vec::new();
        std::mem::swap(&mut self.tracks, &mut tracks);
        tracks
    }

    /// Puts `tracks` in place of the queue, with `current` as the position.
    fn put_tracks(&mut self, tracks: Vec<Track>, current: Option<usize>)
        requires
            current matches Some(c) ==> c < tracks.len(),
        ensures
            final(self).tracks == tracks,
            final(self).current == current,
            final(self).loop_mode == old(self).loop_mode,
    {
        self.current = None;
        let mut tracks = tracks;
        std::mem::swap(&mut self.tracks, &mut tracks);
        self.current = current;
    }

    /// An empty queue.
    pub fn new(loop_mode: LoopMode) -> (r: Playlist)
        ensures
            r@ == (PlaylistView { tracks: Seq::<TrackView>::empty(), current: None, loop_mode }),
            r@.valid(),
    {
        let r = Playlist { tracks: Vec::new(), current: None, loop_mode };
        assert(r@.tracks =~= Seq::<TrackView>::empty());
        r
    }

    pub fn len(&self) -> (r: usize)
        ensures
            r == self@.tracks.len(),
    {
        self.tracks.len()
    }

    pub fn is_empty(&self) -> (r: bool)
        ensures
            r == (self@.tracks.len() == 0),
    {
        self.tracks.len() == 0
    }

    pub fn loop_mode(&self) -> (r: LoopMode)
        ensures
            r == self@.loop_mode,
    {
        self.loop_mode
    }

    /// Index of the current track.
    pub fn current_index(&self) -> (r: Option<usize>)
        ensures
            self@.valid(),
            r is Some == self@.current is Some,
            r matches Some(c) ==> self@.current == Some(c as int) && c < self@.tracks.len(),
    {
        proof {
            use_type_invariant(self);
        }
        self.current
    }

    /// The track at `index`, if there is one.
    pub fn track(&self, index: usize) -> (r: Option<&Track>)
        ensures
            r is Some == (index < self@.tracks.len()),
            r matches Some(t) ==> t@ == self@.tracks[index as int],
    {
        if index < self.tracks.len() {
            Some(&self.tracks[index])
        } else {
            None
        }
    }

    /// The current track, if there is one.
    pub fn current_track(&self) -> (r: Option<&Track>)
        ensures
            self@.valid(),
            r is Some == self@.current is Some,
            r matches Some(t) ==> t@ == self@.tracks[self@.current->0],
    {
        proof {
            use_type_invariant(self);
        }
        match self.current {
            Some(c) => Some(&self.tracks[c]),
            None => None,
        }
    }

    /// Index of the first track whose media is `file`.
    pub fn position_of(&self, file: &str) -> (r: Option<usize>)
        ensures
            r matches Some(i) ==> i < self@.tracks.len() && self@.tracks[i as int].file == file@
                && forall|j: int| 0 <= j < i ==> (#[trigger] self@.tracks[j]).file != file@,
            r is None ==> forall|j: int|
                0 <= j < self@.tracks.len() ==> (#[trigger] self@.tracks[j]).file != file@,
    {
        let mut i: usize = 0;
        while i < self.tracks.len()
            invariant
                i <= self.tracks.len(),
                forall|j: int| 0 <= j < i ==> (#[trigger] self@.tracks[j]).file != file@,
            decreases self.tracks.len() - i,
        {
            if crate::text::str_eq(self.tracks[i].file.as_str(), file) {
                return Some(i);
            }
            i += 1;
        }
        None
    }

    /// Makes the track at `index` the current one, or none where `index` is
    /// `None` or points at no track.
    pub fn set_current(&mut self, index: Option<usize>)
        ensures
            final(self)@ == (PlaylistView {
                current: match index {
                    Some(i) => if i < old(self)@.tracks.len() {
                        Some(i as int)
                    } else {
                        None
                    },
                    None => None,
                },
                ..old(self)@
            }),
            final(self)@.valid(),
    {
        self.current = match index {
            Some(i) => if i < self.tracks.len() {
                Some(i)
            } else {
                None
            },
            None => None,
        };
    }

    /// Adds `track` at the end. The current position stays.
    pub fn append(&mut self, track: Track)
        ensures
            final(self)@ == (PlaylistView {
                tracks: old(self)@.tracks.push(track@),
                ..old(self)@
            }),
            final(self)@.valid(),
    {
        proof {
            use_type_invariant(&*self);
        }
        let current = self.current;
        let mut tracks = self.take_tracks();
        tracks.push(track);
        self.put_tracks(tracks, current);
        assert(self@.tracks =~= old(self)@.tracks.push(track@));
    }

    /// Empties the queue. Nothing is current then.
    pub fn clear(&mut self)
        ensures
            final(self)@ == (PlaylistView {
                tracks: Seq::<TrackView>::empty(),
                current: None,
                ..old(self)@
            }),
            final(self)@.valid(),
    {
        let _ = self.take_tracks();
        assert(self@.tracks =~= Seq::<TrackView>::empty());
    }

    /// Takes the track at `index` out of the queue and hands it back. If it
    /// was the current track nothing is current afterwards; otherwise the
    /// current track stays the current track. Where `index` points at no
    /// track nothing is changed.
    pub fn remove(&mut self, index: usize) -> (r: Option<Track>)
        ensures
            final(self)@.valid(),
            index < old(self)@.tracks.len() ==> final(self)@ == (PlaylistView {
                tracks: old(self)@.tracks.remove(index as int),
                current: current_after_remove(old(self)@.current, index as int),
                ..old(self)@
            }) && (r matches Some(t) && t@ == old(self)@.tracks[index as int]),
            index >= old(self)@.tracks.len() ==> final(self)@ == old(self)@ && r is None,
    {
        proof {
            use_type_invariant(&*self);
        }
        if index >= self.tracks.len() {
            return None;
        }
        let current = match self.current {
            Some(c) => if index == c {
                None
            } else if index < c {
                Some(c - 1)
            } else {
                Some(c)
            },
            None => None,
        };
        let mut tracks = self.take_tracks();
        let t = tracks.remove(index);
        self.put_tracks(tracks, current);
        assert(self@.tracks =~= old(self)@.tracks.remove(index as int));
        Some(t)
    }

    /// Moves the track at `index` one place towards the end. The current
    /// track stays the current track. Nothing is done for the last track or
    /// where `index` points at no track.
    pub fn swap_down(&mut self, index: usize)
        ensures
            final(self)@.valid(),
            index + 1 < old(self)@.tracks.len() ==> final(self)@ == (PlaylistView {
                tracks: swap_adjacent(old(self)@.tracks, index as int),
                current: current_after_swap(old(self)@.current, index as int),
                ..old(self)@
            }),
            index + 1 >= old(self)@.tracks.len() ==> final(self)@ == old(self)@,
    {
        proof {
            use_type_invariant(&*self);
        }
        if index >= self.tracks.len() || index + 1 >= self.tracks.len() {
            return ;
        }
        let current = match self.current {
            Some(c) => if c == index {
                Some(index + 1)
            } else if c == index + 1 {
                Some(index)
            } else {
                Some(c)
            },
            None => None,
        };
        let mut tracks = self.take_tracks();
        let t = tracks.remove(index);
        tracks.insert(index + 1, t);
        self.put_tracks(tracks, current);
        assert(self@.tracks =~= swap_adjacent(old(self)@.tracks, index as int));
    }

    /// Moves the track at `index` one place towards the front. The current
    /// track stays the current track. Nothing is done for the first track or
    /// where `index` points at no track.
    pub fn swap_up(&mut self, index: usize)
        ensures
            final(self)@.valid(),
            0 < index < old(self)@.tracks.len() ==> final(self)@ == (PlaylistView {
                tracks: swap_adjacent(old(self)@.tracks, index - 1),
                current: current_after_swap(old(self)@.current, index - 1),
                ..old(self)@
            }),
            !(0 < index < old(self)@.tracks.len()) ==> final(self)@ == old(self)@,
    {
        proof {
            use_type_invariant(&*self);
        }
        if index == 0 || index >= self.tracks.len() {
            return ;
        }
        self.swap_down(index - 1);
    }

    /// Advances the loop mode to the next of its cycle and returns it.
    pub fn cycle_loop_mode(&mut self) -> (r: LoopMode)
        ensures
            final(self)@ == (PlaylistView {
                loop_mode: old(self)@.loop_mode.spec_next(),
                ..old(self)@
            }),
            final(self)@.valid(),
            r == old(self)@.loop_mode.spec_next(),
    {
        proof {
            use_type_invariant(&*self);
        }
        self.loop_mode = self.loop_mode.next();
        self.loop_mode
    }

    /// The index of the track to play once the current one has finished,
    /// by the loop mode; `pick` is a random number, read in `Shuffle` mode
    /// only. `None` where playback ends, or where nothing is current.
    pub fn next_index(&self, pick: usize) -> (r: Option<usize>)
        ensures
            self@.valid(),
            self@.current is None ==> r is None,
            self@.current matches Some(c) ==> option_index(r) == resolve_next(
                self@.loop_mode,
                self@.tracks.len() as int,
                c,
                pick as int,
            ),
            r matches Some(i) ==> i < self@.tracks.len(),
    {
        proof {
            use_type_invariant(self);
        }
        match self.current {
            Some(c) => resolve_next_exec(self.loop_mode, self.tracks.len(), c, pick),
            None => None,
        }
    }

    /// The index of the track that a forced skip leads to: as
    /// [`Playlist::next_index`], but a single track is not repeated.
    pub fn skip_index(&self, pick: usize) -> (r: Option<usize>)
        ensures
            self@.valid(),
            self@.current is None ==> r is None,
            self@.current matches Some(c) ==> option_index(r) == resolve_skip(
                self@.loop_mode,
                self@.tracks.len() as int,
                c,
                pick as int,
            ),
            r matches Some(i) ==> i < self@.tracks.len(),
    {
        proof {
            use_type_invariant(self);
        }
        let mode = match self.loop_mode {
            LoopMode::Single => LoopMode::Sequential,
            m => m,
        };
        match self.current {
            Some(c) => resolve_next_exec(mode, self.tracks.len(), c, pick),
            None => None,
        }
    }

    /// The index one before the current one, not before the first. `None`
    /// where nothing is current.
    pub fn previous_index(&self) -> (r: Option<usize>)
        ensures
            self@.valid(),
            self@.current is None ==> r is None,
            self@.current matches Some(c) ==> option_index(r) == Some(resolve_previous(c)),
            r matches Some(i) ==> i < self@.tracks.len(),
    {
        proof {
            use_type_invariant(self);
        }
        match self.current {
            Some(c) => if c > 0 {
                Some(c - 1)
            } else {
                Some(0)
            },
            None => None,
        }
    }

    /// Adds tracks of `library` at the end, one for each of the random
    /// `picks`, but no more than `max_count`. An empty library gives
    /// nothing. The current position stays.
    pub fn add_random_tracks(&mut self, library: &Vec<Track>, picks: &Vec<usize>, max_count: usize)
        ensures
            final(self)@ == (PlaylistView {
                tracks: old(self)@.tracks + random_selection(
                    tracks_view(library@),
                    picks@,
                    max_count as int,
                ),
                ..old(self)@
            }),
            final(self)@.valid(),
    {
        proof {
            use_type_invariant(&*self);
        }
        let ghost lib = tracks_view(library@);
        let ghost sel = random_selection(lib, picks@, max_count as int);
        if library.len() == 0 {
            assert(self@.tracks =~= old(self)@.tracks + sel);
            return ;
        }
        let count: usize = if picks.len() <= max_count {
            picks.len()
        } else {
            max_count
        };
        let current = self.current;
        let mut tracks = self.take_tracks();
        let ghost before = tracks@;
        let mut k: usize = 0;
        while k < count
            invariant
                k <= count,
                count <= picks.len(),
                count == sel.len(),
                library.len() > 0,
                lib == tracks_view(library@),
                sel == random_selection(lib, picks@, max_count as int),
                tracks@.len() == before.len() + k,
                tracks_view(tracks@) =~= tracks_view(before) + sel.subrange(0, k as int),
            decreases count - k,
        {
            let idx: usize = picks[k] % library.len();
            let t = library[idx].clone();
            let ghost shown = tracks_view(tracks@);
            tracks.push(t);
            assert(t@ == lib[idx as int]);
            assert(sel[k as int] == lib[idx as int]);
            assert(tracks_view(tracks@) =~= shown.push(t@));
            assert(sel.subrange(0, k + 1) =~= sel.subrange(0, k as int).push(sel[k as int]));
            k += 1;
        }
        self.put_tracks(tracks, current);
        assert(sel.subrange(0, count as int) =~= sel);
    }
}

/// An optional index as a plain value.
pub open spec fn option_index(i: Option<usize>) -> Option<int> {
    match i {
        Some(v) => Some(v as int),
        None => None,
    }
}

/// The index that follows `current` in a queue of `len` tracks when the
/// current track has finished, `None` where playback ends.
pub fn resolve_next_exec(mode: LoopMode, len: usize, current: usize, pick: usize) -> (r: Option<usize>)
    requires
        current < len,
    ensures
        option_index(r) == resolve_next(mode, len as int, current as int, pick as int),
        r matches Some(i) ==> i < len,
{
    match mode {
        LoopMode::Single => Some(current),
        LoopMode::Sequential => if current + 1 < len {
            Some(current + 1)
        } else {
            None
        },
        LoopMode::PlaylistRepeat => if current + 1 < len {
            Some(current + 1)
        } else {
            Some(0)
        },
        LoopMode::Shuffle => {
            if len <= 1 {
                Some(current)
            } else {
                let r: usize = pick % (len - 1);
                if r < current {
                    Some(r)
                } else {
                    Some(r + 1)
                }
            }
        },
    }
}

/// With more than one track a shuffle never repeats the current track, and
/// every other track is chosen by exactly one pick below `len - 1`.
pub proof fn lemma_shuffle_excludes_current(len: int, current: int, pick: int)
    requires
        0 <= current < len,
        0 <= pick,
    ensures
        0 <= shuffle_target(len, current, pick) < len,
        len > 1 ==> shuffle_target(len, current, pick) != current,
        len == 1 ==> shuffle_target(len, current, pick) == current,
{
}

/// Every track but the current one is the target of exactly one pick below
/// `len - 1`: picks drawn evenly give every other track the same chance.
pub proof fn lemma_shuffle_is_even(len: int, current: int, target: int)
    requires
        0 <= current < len,
        0 <= target < len,
        target != current,
    ensures
        ({
            let pick = if target < current {
                target
            } else {
                target - 1
            };
            &&& 0 <= pick < len - 1
            &&& shuffle_target(len, current, pick) == target
            &&& forall|other: int|
                0 <= other < len - 1 && shuffle_target(len, current, other) == target ==> other
                    == pick
        }),
{
    let pick = if target < current {
        target
    } else {
        target - 1
    };
    assert(pick % (len - 1) == pick) by (nonlinear_arith)
        requires
            0 <= pick < len - 1,
    ;
    assert forall|other: int|
        0 <= other < len - 1 && shuffle_target(len, current, other) == target implies other
        == pick by {
        assert(other % (len - 1) == other) by (nonlinear_arith)
            requires
                0 <= other < len - 1,
        ;
    }
}

/// In `Single` mode the finished track is resolved to itself, whatever the
/// pick and however often.
pub proof fn lemma_single_repeats(len: int, current: int, pick: int)
    ensures
        resolve_next(LoopMode::Single, len, current, pick) == Some(current),
{
}

/// After the last track `PlaylistRepeat` starts over at the first, and
/// `Sequential` ends playback.
pub proof fn lemma_end_of_queue(len: int, pick: int)
    requires
        len > 0,
    ensures
        resolve_next(LoopMode::PlaylistRepeat, len, len - 1, pick) == Some(0int),
        resolve_next(LoopMode::Sequential, len, len - 1, pick) == None::<int>,
{
}

/// Whatever the mode, a resolved index points at a track.
pub proof fn lemma_resolved_in_range(mode: LoopMode, len: int, current: int, pick: int)
    requires
        0 <= current < len,
        0 <= pick,
    ensures
        resolve_next(mode, len, current, pick) matches Some(i) ==> 0 <= i < len,
        resolve_skip(mode, len, current, pick) matches Some(i) ==> 0 <= i < len,
        0 <= resolve_previous(current) < len,
{
    lemma_shuffle_excludes_current(len, current, pick);
}

/// Taking a track out or exchanging two neighbours leaves the current
/// position, if any, pointing at a track: at the one it pointed at before,
/// unless that one was taken out.
pub proof fn lemma_reorder_keeps_current(p: PlaylistView, index: int)
    requires
        p.valid(),
        0 <= index < p.tracks.len(),
    ensures
        (PlaylistView {
            tracks: p.tracks.remove(index),
            current: current_after_remove(p.current, index),
            ..p
        }).valid(),
        current_after_remove(p.current, index) matches Some(c) ==> p.tracks.remove(index)[c]
            == p.tracks[p.current->0],
        current_after_remove(p.current, index) is None <==> (p.current is None || p.current
            == Some(index)),
        index + 1 < p.tracks.len() ==> (PlaylistView {
            tracks: swap_adjacent(p.tracks, index),
            current: current_after_swap(p.current, index),
            ..p
        }).valid() && (p.current matches Some(c) ==> swap_adjacent(
            p.tracks,
            index,
        )[current_after_swap(p.current, index)->0] == p.tracks[c]),
{
}

} // verus!
