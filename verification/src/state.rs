use crate::error::ApplicationError;
use crate::model::{clone_tracks, has_bvid, PlayMode, Playlist, Track};
use crate::rng::random_index_below;
use crate::text::str_eq;
use vstd::prelude::*;

verus! {

/// The authoritative, persisted playback state: the active subset of the
/// catalog, the position inside it, the cached current track, the volume
/// and the play mode.
///
/// The invariant [`CurrentPlayInfo::wf`] ties the pieces together: the
/// index is in range whenever the active set is non-empty, the cached
/// track always equals the track at the index, and an empty active set
/// forces index `0` with no cached track.
#[derive(Debug)]
pub struct CurrentPlayInfo {
    pub index: usize,
    pub volume: usize,
    pub play_mode: PlayMode,
    pub track: Option<Track>,
    pub playing_sid: Option<String>,
    pub current_tracks: Vec<Track>,
}

/// The index after one sequential step forward, wrapping at the end.
pub open spec fn loop_next(i: int, len: int) -> int {
    if i + 1 >= len {
        0
    } else {
        i + 1
    }
}

/// The index after one sequential step backward, wrapping at the start.
pub open spec fn loop_prev(i: int, len: int) -> int {
    if i == 0 {
        len - 1
    } else {
        i - 1
    }
}

/// What a forward move may produce: sequential successor in `Loop`, any
/// in-range index in `Shuffle`, the same index in `Repeat`.
pub open spec fn advance_ok(mode: PlayMode, old_i: int, new_i: int, len: int) -> bool {
    match mode {
        PlayMode::Loop => new_i == loop_next(old_i, len),
        PlayMode::Shuffle => 0 <= new_i < len,
        PlayMode::Repeat => new_i == old_i,
    }
}

/// What a backward move may produce.
pub open spec fn retreat_ok(mode: PlayMode, old_i: int, new_i: int, len: int) -> bool {
    match mode {
        PlayMode::Loop => new_i == loop_prev(old_i, len),
        PlayMode::Shuffle => 0 <= new_i < len,
        PlayMode::Repeat => new_i == old_i,
    }
}

/// The old index if it still fits the refreshed set, else the last index.
pub open spec fn clamped_index(old_i: int, len: int) -> int {
    if old_i < len {
        old_i
    } else {
        len - 1
    }
}

/// How `reconcile_after_reload` retargets the position: the first track
/// carrying the previously-current identity if one exists, the clamped old
/// index otherwise, and the empty state when the refreshed set is empty.
pub open spec fn reconciled_position(
    old_index: int,
    old_track: Option<Track>,
    fresh: Seq<Track>,
    new_index: int,
    new_track: Option<Track>,
) -> bool {
    if fresh.len() == 0 {
        new_index == 0 && new_track is None
    } else {
        &&& 0 <= new_index < fresh.len()
        &&& new_track == Some(fresh[new_index])
        &&& match old_track {
            Some(t) => if has_bvid(fresh, t.bvid@) {
                fresh[new_index].bvid@ == t.bvid@ && (forall|j: int|
                    0 <= j < new_index ==> fresh[j].bvid@ != t.bvid@)
            } else {
                new_index == clamped_index(old_index, fresh.len() as int)
            },
            None => new_index == clamped_index(old_index, fresh.len() as int),
        }
    }
}

/// `s` with only the play mode replaced.
pub open spec fn with_play_mode(s: CurrentPlayInfo, mode: PlayMode) -> CurrentPlayInfo {
    CurrentPlayInfo { play_mode: mode, ..s }
}

/// `s` with only the volume replaced.
pub open spec fn with_volume(s: CurrentPlayInfo, volume: usize) -> CurrentPlayInfo {
    CurrentPlayInfo { volume: volume, ..s }
}

impl CurrentPlayInfo {
    /// The structural invariant of the playback state.
    pub open spec fn wf(self) -> bool {
        &&& self.volume <= 100
        &&& (self.current_tracks@.len() == 0 ==> self.index == 0 && self.track is None)
        &&& (self.current_tracks@.len() > 0 ==> self.index < self.current_tracks@.len()
            && self.track == Some(self.current_tracks@[self.index as int]))
    }

    /// The state of a first run: nothing active, full volume, sequential
    /// play.
    pub fn new() -> (r: Self)
        ensures
            r.wf(),
            r.index == 0,
            r.volume == 100,
            r.play_mode == PlayMode::Loop,
            r.track is None,
            r.playing_sid is None,
            r.current_tracks@ == Seq::<Track>::empty(),
    {
        CurrentPlayInfo {
            index: 0,
            volume: 100,
            play_mode: PlayMode::Loop,
            track: None,
            playing_sid: None,
            current_tracks: Vec::new(),
        }
    }

    /// The cached current track: the track at `index`, or nothing when the
    /// index is out of range (in particular when the active set is empty).
    pub fn get_current_track(&self) -> (r: Option<Track>)
        ensures
            match r {
                Some(t) => self.index < self.current_tracks@.len() && t
                    == self.current_tracks@[self.index as int],
                None => self.index >= self.current_tracks@.len(),
            },
    {
        if self.index < self.current_tracks.len() {
            Some(self.current_tracks[self.index].clone())
        } else {
            None
        }
    }

    /// The position of the first active track carrying the identity
    /// `bvid`, if any.
    pub fn find_track_index(&self, bvid: &str) -> (r: Option<usize>)
        ensures
            match r {
                Some(i) => {
                    &&& i < self.current_tracks@.len()
                    &&& self.current_tracks@[i as int].bvid@ == bvid@
                    &&& forall|j: int| 0 <= j < i ==> self.current_tracks@[j].bvid@ != bvid@
                },
                None => forall|j: int|
                    0 <= j < self.current_tracks@.len() ==> self.current_tracks@[j].bvid@ != bvid@,
            },
    {
        let n = self.current_tracks.len();
        for i in 0..n
            invariant
                n == self.current_tracks@.len(),
                forall|j: int| 0 <= j < i ==> self.current_tracks@[j].bvid@ != bvid@,
        {
            if str_eq(self.current_tracks[i].bvid.as_str(), bvid) {
                return Some(i);
            }
        }
        None
    }

    /// Steps forward by one move in `play_mode`.  In `Loop` the index wraps
    /// past the end; in `Shuffle` a fresh random index is drawn; in
    /// `Repeat` the index is kept.  Fails, leaving the state untouched,
    /// when the active set is empty.
    pub fn move_to_next_track(&mut self, play_mode: PlayMode) -> (r: Result<(), ApplicationError>)
        requires
            old(self).wf(),
        ensures
            final(self).wf(),
            final(self).volume == old(self).volume,
            final(self).play_mode == old(self).play_mode,
            final(self).playing_sid == old(self).playing_sid,
            final(self).current_tracks == old(self).current_tracks,
            old(self).current_tracks@.len() == 0 ==> *final(self) == *old(self) && r == Err::<
                (),
                ApplicationError,
            >(ApplicationError::EmptyActiveSet),
            old(self).current_tracks@.len() > 0 ==> r == Ok::<(), ApplicationError>(())
                && advance_ok(
                play_mode,
                old(self).index as int,
                final(self).index as int,
                old(self).current_tracks@.len() as int,
            ),
    {
        let len = self.current_tracks.len();
        if len == 0 {
            return Err(ApplicationError::EmptyActiveSet);
        }
        let new_index: usize = match play_mode {
            PlayMode::Loop => if self.index + 1 >= len {
                0
            } else {
                self.index + 1
            },
            PlayMode::Shuffle => random_index_below(len),
            PlayMode::Repeat => self.index,
        };
        self.index = new_index;
        self.track = Some(self.current_tracks[new_index].clone());
        Ok(())
    }

    /// Steps backward by one move in `play_mode`; the mirror image of
    /// [`Self::move_to_next_track`].
    pub fn move_to_previous_track(&mut self, play_mode: PlayMode) -> (r: Result<
        (),
        ApplicationError,
    >)
        requires
            old(self).wf(),
        ensures
            final(self).wf(),
            final(self).volume == old(self).volume,
            final(self).play_mode == old(self).play_mode,
            final(self).playing_sid == old(self).playing_sid,
            final(self).current_tracks == old(self).current_tracks,
            old(self).current_tracks@.len() == 0 ==> *final(self) == *old(self) && r == Err::<
                (),
                ApplicationError,
            >(ApplicationError::EmptyActiveSet),
            old(self).current_tracks@.len() > 0 ==> r == Ok::<(), ApplicationError>(())
                && retreat_ok(
                play_mode,
                old(self).index as int,
                final(self).index as int,
                old(self).current_tracks@.len() as int,
            ),
    {
        let len = self.current_tracks.len();
        if len == 0 {
            return Err(ApplicationError::EmptyActiveSet);
        }
        let new_index: usize = match play_mode {
            PlayMode::Loop => if self.index == 0 {
                len - 1
            } else {
                self.index - 1
            },
            PlayMode::Shuffle => random_index_below(len),
            PlayMode::Repeat => self.index,
        };
        self.index = new_index;
        self.track = Some(self.current_tracks[new_index].clone());
        Ok(())
    }

    /// Jumps to a known position.  Fails with `IndexOutOfRange`, leaving
    /// the state untouched, when `index` is past the end of the active set.
    pub fn set_current(&mut self, index: usize) -> (r: Result<(), ApplicationError>)
        requires
            old(self).wf(),
        ensures
            final(self).wf(),
            index < old(self).current_tracks@.len() ==> {
                &&& r == Ok::<(), ApplicationError>(())
                &&& final(self).index == index
                &&& final(self).track == Some(old(self).current_tracks@[index as int])
                &&& final(self).volume == old(self).volume
                &&& final(self).play_mode == old(self).play_mode
                &&& final(self).playing_sid == old(self).playing_sid
                &&& final(self).current_tracks == old(self).current_tracks
            },
            index >= old(self).current_tracks@.len() ==> *final(self) == *old(self) && r == Err::<
                (),
                ApplicationError,
            >(ApplicationError::IndexOutOfRange),
    {
        if index >= self.current_tracks.len() {
            return Err(ApplicationError::IndexOutOfRange);
        }
        self.index = index;
        self.track = Some(self.current_tracks[index].clone());
        Ok(())
    }

    /// Records a new play mode; nothing else changes.
    pub fn set_play_mode(&mut self, mode: PlayMode)
        ensures
            *final(self) == with_play_mode(*old(self), mode),
            old(self).wf() ==> final(self).wf(),
    {
        self.play_mode = mode;
    }

    /// Records a new volume; nothing else changes.
    pub fn set_volume(&mut self, volume: usize)
        requires
            volume <= 100,
        ensures
            *final(self) == with_volume(*old(self), volume),
            old(self).wf() ==> final(self).wf(),
    {
        self.volume = volume;
    }

    /// Atomically swaps the active scope: the given tracks become the
    /// active set under the given season scope.  The old index is
    /// meaningless against a structurally different sequence, so it is
    /// reset — to `0`, or to a fresh random position in `Shuffle` mode —
    /// and the cached track is recomputed.
    pub fn update_current_play_tracks(&mut self, sid: Option<String>, tracks: Vec<Track>)
        requires
            old(self).volume <= 100,
        ensures
            final(self).wf(),
            final(self).volume == old(self).volume,
            final(self).play_mode == old(self).play_mode,
            final(self).playing_sid == sid,
            final(self).current_tracks == tracks,
            tracks@.len() == 0 ==> final(self).index == 0 && final(self).track is None,
            tracks@.len() > 0 ==> final(self).index < tracks@.len() && final(self).track == Some(
                tracks@[final(self).index as int],
            ),
            tracks@.len() > 0 && old(self).play_mode != PlayMode::Shuffle ==> final(self).index == 0,
    {
        let new_index: usize = match self.play_mode {
            PlayMode::Shuffle => if tracks.len() == 0 {
                0
            } else {
                random_index_below(tracks.len())
            },
            _ => 0,
        };
        self.index = new_index;
        self.playing_sid = sid;
        if tracks.len() == 0 {
            self.current_tracks = tracks;
            self.track = None;
        } else {
            self.track = Some(tracks[new_index].clone());
            self.current_tracks = tracks;
        }
    }

    /// Retargets the position after the active scope was reloaded from a
    /// changed catalog: if the previously-current track's identity is
    /// still present, the index moves to its (first) new position; if it
    /// is gone, the old index is kept, clamped to the new length; an empty
    /// refreshed set empties the state.
    pub fn reconcile_after_reload(&mut self, fresh: Vec<Track>)
        requires
            old(self).volume <= 100,
        ensures
            final(self).wf(),
            final(self).volume == old(self).volume,
            final(self).play_mode == old(self).play_mode,
            final(self).playing_sid == old(self).playing_sid,
            final(self).current_tracks == fresh,
            reconciled_position(
                old(self).index as int,
                old(self).track,
                fresh@,
                final(self).index as int,
                final(self).track,
            ),
    {
        let old_bvid: Option<String> = match &self.track {
            Some(t) => Some(t.bvid.clone()),
            None => None,
        };
        self.current_tracks = fresh;
        let len = self.current_tracks.len();
        if len == 0 {
            self.index = 0;
            self.track = None;
            return;
        }
        let new_index: usize = match &old_bvid {
            Some(b) => match self.find_track_index(b.as_str()) {
                Some(i) => i,
                None => if self.index < len {
                    self.index
                } else {
                    len - 1
                },
            },
            None => if self.index < len {
                self.index
            } else {
                len - 1
            },
        };
        self.index = new_index;
        self.track = Some(self.current_tracks[new_index].clone());
    }

    /// Rebuilds the state against a freshly read catalog: the active set
    /// is recomputed for the current scope (a scoped season that lost all
    /// its tracks leaves it empty), the position is reconciled, and an
    /// over-range persisted volume is clamped to `100`.
    pub fn load(&mut self, playlist: &Playlist)
        ensures
            loaded(*old(self), *playlist, *final(self)),
    {
        if self.volume > 100 {
            self.volume = 100;
        }
        let fresh: Vec<Track> = match &self.playing_sid {
            Some(sid) => playlist.find_tracks_in_season(sid.as_str()),
            None => clone_tracks(&playlist.tracks),
        };
        self.reconcile_after_reload(fresh);
    }
}

/// The scope part of a reload: the scope is kept and the active set is
/// rebuilt from the fresh catalog for it — the scoped season's tracks,
/// or the full track list when no season is scoped.  A season that lost
/// all its tracks leaves the active set empty; it does not widen the
/// scope.
pub open spec fn loaded_scope(pre: CurrentPlayInfo, catalog: Playlist, post: CurrentPlayInfo) -> bool {
    &&& post.playing_sid == pre.playing_sid
    &&& post.current_tracks@ == match pre.playing_sid {
        Some(sid) => catalog.spec_tracks_in_season(sid@),
        None => catalog.tracks@,
    }
}

/// What [`CurrentPlayInfo::load`] establishes: a well-formed state whose
/// scope follows the fresh catalog, whose position is reconciled against
/// the previous one, and whose persisted volume is clamped into range.
pub open spec fn loaded(pre: CurrentPlayInfo, catalog: Playlist, post: CurrentPlayInfo) -> bool {
    &&& post.wf()
    &&& post.play_mode == pre.play_mode
    &&& post.volume == if pre.volume <= 100 {
        pre.volume as int
    } else {
        100
    }
    &&& loaded_scope(pre, catalog, post)
    &&& reconciled_position(
        pre.index as int,
        pre.track,
        post.current_tracks@,
        post.index as int,
        post.track,
    )
}

impl Clone for CurrentPlayInfo {
    fn clone(&self) -> (r: Self)
        ensures
            r.index == self.index,
            r.volume == self.volume,
            r.play_mode == self.play_mode,
            r.track == self.track,
            r.playing_sid == self.playing_sid,
            r.current_tracks@ == self.current_tracks@,
            r.wf() == self.wf(),
    {
        CurrentPlayInfo {
            index: self.index,
            volume: self.volume,
            play_mode: self.play_mode,
            track: match &self.track {
                Some(t) => Some(t.clone()),
                None => None,
            },
            playing_sid: match &self.playing_sid {
                Some(s) => Some(s.clone()),
                None => None,
            },
            current_tracks: clone_tracks(&self.current_tracks),
        }
    }
}

impl Default for CurrentPlayInfo {
    /// The state of a first run, as [`CurrentPlayInfo::new`] builds it.
    fn default() -> (r: Self)
        ensures
            r.wf(),
            r.index == 0,
            r.volume == 100,
            r.play_mode == PlayMode::Loop,
            r.track is None,
            r.playing_sid is None,
            r.current_tracks@ == Seq::<Track>::empty(),
    {
        CurrentPlayInfo::new()
    }
}

/// One step of sequential (Loop-mode) navigation.
#[derive(Clone, Copy, Debug, PartialEq, Eq, Structural)]
pub enum NavStep {
    Forward,
    Backward,
}

/// The index reached from `start` after performing `steps` in Loop mode.
pub open spec fn loop_nav_index(start: int, len: int, steps: Seq<NavStep>) -> int
    decreases steps.len(),
{
    if steps.len() == 0 {
        start
    } else {
        let prev = loop_nav_index(start, len, steps.drop_last());
        match steps.last() {
            NavStep::Forward => loop_next(prev, len),
            NavStep::Backward => loop_prev(prev, len),
        }
    }
}

/// Law: starting in range, any sequence of Loop-mode forward and backward
/// moves keeps the index in `[0, len)`; each single move wraps exactly at
/// the boundary, as [`loop_next`] and [`loop_prev`] state.
pub proof fn lemma_loop_navigation_stays_in_range(start: int, len: int, steps: Seq<NavStep>)
    requires
        0 <= start < len,
    ensures
        0 <= loop_nav_index(start, len, steps) < len,
    decreases steps.len(),
{
    if steps.len() > 0 {
        lemma_loop_navigation_stays_in_range(start, len, steps.drop_last());
    }
}

/// Law: a Loop-mode move wraps exactly at the boundary — one step forward
/// from the last index lands on the first, and one step backward from the
/// first lands on the last.
pub proof fn lemma_loop_wraps_at_boundary(len: int)
    requires
        len > 0,
    ensures
        loop_next(len - 1, len) == 0,
        loop_prev(0, len) == len - 1,
{
}

/// Law: recording the play mode already in force leaves the whole state
/// unchanged (the daemon still persists it, but nothing moves).
pub proof fn lemma_set_play_mode_same_noop(s: CurrentPlayInfo, mode: PlayMode)
    requires
        s.play_mode == mode,
    ensures
        with_play_mode(s, mode) == s,
{
}

} // verus!
