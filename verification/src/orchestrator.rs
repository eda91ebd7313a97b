use crate::error::ApplicationError;
use crate::model::{clone_tracks, find_bvid_index, has_bvid, PlayMode, Playlist};
use crate::state::{loaded, loaded_scope, loop_next, with_volume, CurrentPlayInfo};
use crate::text::str_eq;
use vstd::prelude::*;

verus! {

/// A volume request: a relative nudge or an absolute target.
#[derive(Clone, Copy, Debug, PartialEq, Eq, Structural)]
pub enum VolumeSpec {
    /// Five points louder, clamped at 100.
    Up,
    /// Five points quieter, clamped at 0.
    Down,
    /// This value, clamped at 100.
    Absolute(u8),
}

/// A command sent to the orchestrator by the control process (or
/// synthesized internally, as the end-of-stream auto-advance is).
#[derive(Debug)]
pub enum Command {
    Play,
    PlayBvid(String),
    PlaySid(String),
    PlayAll,
    Pause,
    Next,
    Previous,
    Stop,
    SetVolume(VolumeSpec),
    SetPlayMode(PlayMode),
    ReloadPlaylist,
    PlaylistIsEmpty,
}

/// A plain state change requested of the media engine.
#[derive(Clone, Copy, Debug, PartialEq, Eq, Structural)]
pub enum EngineOp {
    /// Resume playback of whatever is loaded.
    Resume,
    /// Pause playback.
    Pause,
    /// Stop and unload.
    Stop,
}

/// What the caller owes the engine after a command was applied to the
/// state: nothing, a plain engine state change, a fresh resolve-and-play
/// of the current track, or a new engine volume (in points, `0..=100`).
#[derive(Clone, Copy, Debug, PartialEq, Eq, Structural)]
pub enum CommandEffect {
    NoEffect,
    Engine(EngineOp),
    ResolveAndPlay,
    ApplyVolume(usize),
}

/// An event reported by the media engine's bus.
#[derive(Clone, Copy, Debug, PartialEq, Eq, Structural)]
pub enum EngineEvent {
    /// The current track finished.
    EndOfStream,
    /// The engine failed on the current track.
    Error,
}

/// The mode a manually requested skip moves by: a user asking for the
/// next or previous track expects to actually move, so `Repeat` is
/// treated as `Loop`; the other modes keep their meaning.
pub open spec fn manual_move_mode(mode: PlayMode) -> PlayMode {
    if mode == PlayMode::Repeat {
        PlayMode::Loop
    } else {
        mode
    }
}

/// The volume that results from applying `vs` to `cur` (both in points).
pub open spec fn apply_volume(cur: int, vs: VolumeSpec) -> int {
    match vs {
        VolumeSpec::Up => if cur + 5 <= 100 {
            cur + 5
        } else {
            100
        },
        VolumeSpec::Down => if cur >= 5 {
            cur - 5
        } else {
            0
        },
        VolumeSpec::Absolute(v) => if v <= 100 {
            v as int
        } else {
            100
        },
    }
}

/// Law: applying the same absolute volume twice equals applying it once —
/// so repeating `SetVolume(v)` is idempotent on the state.
pub proof fn lemma_absolute_volume_idempotent(cur: int, v: u8)
    ensures
        apply_volume(apply_volume(cur, VolumeSpec::Absolute(v)), VolumeSpec::Absolute(v))
            == apply_volume(cur, VolumeSpec::Absolute(v)),
{
}

/// What a successful `PlayBvid` establishes: if the identity is already in
/// the active scope the scope is kept and the index moves to its first
/// position there; otherwise, if the catalog has it, the scope switches to
/// "all tracks" and the index moves to its first catalog position; a state
/// asked for an unknown identity is left untouched.
pub open spec fn play_bvid_post(
    pre: CurrentPlayInfo,
    catalog: Playlist,
    bvid: Seq<char>,
    post: CurrentPlayInfo,
    ok: bool,
) -> bool {
    &&& post.wf()
    &&& post.play_mode == pre.play_mode
    &&& post.volume == pre.volume
    &&& if has_bvid(pre.current_tracks@, bvid) {
        &&& ok
        &&& post.playing_sid == pre.playing_sid
        &&& post.current_tracks == pre.current_tracks
        &&& post.index < post.current_tracks@.len()
        &&& post.current_tracks@[post.index as int].bvid@ == bvid
        &&& forall|j: int| 0 <= j < post.index ==> post.current_tracks@[j].bvid@ != bvid
    } else if has_bvid(catalog.tracks@, bvid) {
        &&& ok
        &&& post.playing_sid is None
        &&& post.current_tracks@ == catalog.tracks@
        &&& post.index < post.current_tracks@.len()
        &&& post.current_tracks@[post.index as int].bvid@ == bvid
        &&& forall|j: int| 0 <= j < post.index ==> post.current_tracks@[j].bvid@ != bvid
    } else {
        !ok && post == pre
    }
}

/// Jumps to the track identified by `bvid`: inside the active scope if it
/// is there, else inside the full catalog (switching the scope to "all
/// tracks"), else fails with `TrackNotFound`.
pub fn handle_play_bvid(state: &mut CurrentPlayInfo, catalog: &Playlist, bvid: &str) -> (r: Result<
    (),
    ApplicationError,
>)
    requires
        old(state).wf(),
    ensures
        play_bvid_post(*old(state), *catalog, bvid@, *final(state), r is Ok),
        r is Err ==> r == Err::<(), ApplicationError>(ApplicationError::TrackNotFound),
{
    match state.find_track_index(bvid) {
        Some(i) => {
            let _ = state.set_current(i);
            Ok(())
        },
        None => {
            match find_bvid_index(&catalog.tracks, bvid) {
                Some(g) => {
                    let all = clone_tracks(&catalog.tracks);
                    state.update_current_play_tracks(None, all);
                    let _ = state.set_current(g);
                    Ok(())
                },
                None => Err(ApplicationError::TrackNotFound),
            }
        },
    }
}

/// What a successful `PlaySid` establishes: the season's tracks become the
/// active set under that scope, with the index reset (randomly under
/// `Shuffle`); a state asked for a season without tracks is left
/// untouched.
pub open spec fn play_sid_post(
    pre: CurrentPlayInfo,
    catalog: Playlist,
    sid: Seq<char>,
    post: CurrentPlayInfo,
    ok: bool,
) -> bool {
    &&& post.wf()
    &&& post.play_mode == pre.play_mode
    &&& post.volume == pre.volume
    &&& if catalog.spec_tracks_in_season(sid).len() > 0 {
        &&& ok
        &&& post.playing_sid matches Some(s) && s@ == sid
        &&& post.current_tracks@ == catalog.spec_tracks_in_season(sid)
        &&& post.index < post.current_tracks@.len()
        &&& (pre.play_mode != PlayMode::Shuffle ==> post.index == 0)
    } else {
        !ok && post == pre
    }
}

/// Switches the active scope to the season `sid`; fails with
/// `SeasonNotFound` when the catalog has no tracks for it.
pub fn handle_play_sid(state: &mut CurrentPlayInfo, catalog: &Playlist, sid: &str) -> (r: Result<
    (),
    ApplicationError,
>)
    requires
        old(state).wf(),
    ensures
        play_sid_post(*old(state), *catalog, sid@, *final(state), r is Ok),
        r is Err ==> r == Err::<(), ApplicationError>(ApplicationError::SeasonNotFound),
{
    let season_tracks = catalog.find_tracks_in_season(sid);
    if season_tracks.len() == 0 {
        return Err(ApplicationError::SeasonNotFound);
    }
    state.update_current_play_tracks(Some(String::from_str(sid)), season_tracks);
    Ok(())
}

/// What `PlayAll` establishes: the full track list becomes the active set
/// with no season scope; if the previously-current track is in it, the
/// index moves to its first position there and nothing needs replaying
/// (`play` is false); otherwise a fresh resolve-and-play is owed.
pub open spec fn play_all_post(
    pre: CurrentPlayInfo,
    catalog: Playlist,
    post: CurrentPlayInfo,
    play: bool,
) -> bool {
    &&& post.wf()
    &&& post.play_mode == pre.play_mode
    &&& post.volume == pre.volume
    &&& post.playing_sid is None
    &&& post.current_tracks@ == catalog.tracks@
    &&& match pre.track {
        Some(t) => if has_bvid(catalog.tracks@, t.bvid@) {
            &&& !play
            &&& post.index < post.current_tracks@.len()
            &&& post.current_tracks@[post.index as int].bvid@ == t.bvid@
            &&& forall|j: int| 0 <= j < post.index ==> post.current_tracks@[j].bvid@ != t.bvid@
        } else {
            play
        },
        None => play,
    }
}

/// Widens the active scope to the full track list, keeping the current
/// track's position when its identity is still present.  Returns whether
/// a fresh resolve-and-play is owed.
pub fn handle_play_all(state: &mut CurrentPlayInfo, catalog: &Playlist) -> (play: bool)
    requires
        old(state).wf(),
    ensures
        play_all_post(*old(state), *catalog, *final(state), play),
{
    let old_bvid: Option<String> = match &state.track {
        Some(t) => Some(t.bvid.clone()),
        None => None,
    };
    let all = clone_tracks(&catalog.tracks);
    state.update_current_play_tracks(None, all);
    match &old_bvid {
        Some(b) => {
            match state.find_track_index(b.as_str()) {
                Some(i) => {
                    let _ = state.set_current(i);
                    false
                },
                None => true,
            }
        },
        None => true,
    }
}

/// Applies a volume request to the state and returns the new volume for
/// the caller to hand to the engine.
pub fn handle_volume_change(state: &mut CurrentPlayInfo, vs: &VolumeSpec) -> (nv: usize)
    requires
        old(state).wf(),
    ensures
        final(state).wf(),
        nv == apply_volume(old(state).volume as int, *vs),
        *final(state) == with_volume(*old(state), nv),
{
    let cur = state.volume;
    let nv: usize = match vs {
        VolumeSpec::Up => if cur + 5 <= 100 {
            cur + 5
        } else {
            100
        },
        VolumeSpec::Down => if cur >= 5 {
            cur - 5
        } else {
            0
        },
        VolumeSpec::Absolute(v) => if *v <= 100 {
            *v as usize
        } else {
            100
        },
    };
    state.set_volume(nv);
    nv
}

/// Parses the transport's volume argument: `up`, `down`, or a decimal
/// value (an unparsable value falls back to full volume, as the player
/// always has).  Validation happens here, at the boundary; the core only
/// ever sees the closed [`VolumeSpec`] type.
pub open spec fn volume_spec_of(s: Seq<char>) -> VolumeSpec {
    if s == "up"@ {
        VolumeSpec::Up
    } else if s == "down"@ {
        VolumeSpec::Down
    } else if s.len() > 0 && crate::text::all_dec_digits(s) && crate::text::dec_val(s) <= 255 {
        VolumeSpec::Absolute(crate::text::dec_val(s) as u8)
    } else {
        VolumeSpec::Absolute(100)
    }
}

/// Parses a volume string into a [`VolumeSpec`], as [`volume_spec_of`]
/// describes.
pub fn parse_volume_spec(s: &str) -> (r: VolumeSpec)
    ensures
        r == volume_spec_of(s@),
{
    if str_eq(s, "up") {
        return VolumeSpec::Up;
    }
    if str_eq(s, "down") {
        return VolumeSpec::Down;
    }
    match crate::text::parse_dec_u8(s) {
        Some(v) => VolumeSpec::Absolute(v),
        None => VolumeSpec::Absolute(100),
    }
}

/// Reports a track skip or replay after an engine event.  Both
/// end-of-stream and an engine error follow one dead-track policy: while
/// a track is current, move on by the current mode — so `Repeat` replays
/// the same track — and ask for a fresh resolve-and-play; with nothing
/// current the event is ignored.
pub fn on_engine_event(state: &mut CurrentPlayInfo, _event: &EngineEvent) -> (r: Result<
    bool,
    ApplicationError,
>)
    requires
        old(state).wf(),
    ensures
        final(state).wf(),
        final(state).volume == old(state).volume,
        final(state).play_mode == old(state).play_mode,
        final(state).playing_sid == old(state).playing_sid,
        final(state).current_tracks == old(state).current_tracks,
        old(state).current_tracks@.len() == 0 ==> r == Ok::<bool, ApplicationError>(false)
            && *final(state) == *old(state),
        old(state).current_tracks@.len() > 0 ==> r == Ok::<bool, ApplicationError>(true)
            && crate::state::advance_ok(
            old(state).play_mode,
            old(state).index as int,
            final(state).index as int,
            old(state).current_tracks@.len() as int,
        ),
{
    if state.current_tracks.len() == 0 {
        return Ok(false);
    }
    let mode = state.play_mode;
    state.move_to_next_track(mode)?;
    Ok(true)
}

/// The number of resolve attempts a single playback request may spend
/// skipping dead tracks before giving up.
pub const PLAY_RETRY_LIMIT: u8 = 5;

/// The dead-track-skip budget of one resolve-and-play action.  The caller
/// resolves the current track; on failure it reports the failure here,
/// which skips forward sequentially (never `Repeat`, which would retry
/// the same dead track forever) and says whether budget remains.
#[derive(Clone, Copy, Debug, PartialEq, Eq, Structural)]
pub struct PlayAttempts {
    pub retries_left: u8,
}

impl PlayAttempts {
    /// A fresh budget of [`PLAY_RETRY_LIMIT`] attempts.
    pub fn new() -> (s: Self)
        ensures
            s.retries_left == PLAY_RETRY_LIMIT,
    {
        PlayAttempts { retries_left: PLAY_RETRY_LIMIT }
    }

    /// Records that resolving the current track failed: the track is
    /// skipped with a sequential step and one attempt is spent.  Returns
    /// `Ok(true)` when the caller should try the new current track,
    /// `Ok(false)` when the budget is exhausted (the caller then surfaces
    /// `MaxRetriesExceeded`), and `EmptyActiveSet` when there is nothing
    /// to skip to.
    pub fn after_resolve_failure(&mut self, state: &mut CurrentPlayInfo) -> (r: Result<
        bool,
        ApplicationError,
    >)
        requires
            old(state).wf(),
            old(self).retries_left > 0,
        ensures
            final(state).wf(),
            final(state).volume == old(state).volume,
            final(state).play_mode == old(state).play_mode,
            final(state).playing_sid == old(state).playing_sid,
            final(state).current_tracks == old(state).current_tracks,
            old(state).current_tracks@.len() == 0 ==> {
                &&& r == Err::<bool, ApplicationError>(ApplicationError::EmptyActiveSet)
                &&& *final(state) == *old(state)
                &&& *final(self) == *old(self)
            },
            old(state).current_tracks@.len() > 0 ==> {
                &&& final(self).retries_left == old(self).retries_left - 1
                &&& final(state).index as int == loop_next(
                    old(state).index as int,
                    old(state).current_tracks@.len() as int,
                )
                &&& r == Ok::<bool, ApplicationError>(final(self).retries_left > 0)
            },
    {
        state.move_to_next_track(PlayMode::Loop)?;
        self.retries_left = self.retries_left - 1;
        Ok(self.retries_left > 0)
    }
}

/// The generation counter that makes an in-flight resolve-and-play
/// cancellable: every newly started playback action draws a fresh
/// generation, and a resolved URL (or a dead-track skip) is applied only
/// while its generation is still the current one.  A newer command thus
/// silently invalidates whatever an older resolution would have done.
#[derive(Clone, Copy, Debug, PartialEq, Eq, Structural)]
pub struct PlayGeneration {
    pub counter: u64,
}

impl PlayGeneration {
    /// The counter before any playback action was started.
    pub fn new() -> (s: Self)
        ensures
            s.counter == 0,
    {
        PlayGeneration { counter: 0 }
    }

    /// Starts a new playback action: every generation drawn earlier
    /// stops being current.
    pub fn begin(&mut self) -> (g: u64)
        requires
            old(self).counter < u64::MAX,
        ensures
            final(self).counter == old(self).counter + 1,
            g == final(self).counter,
    {
        self.counter = self.counter + 1;
        self.counter
    }

    /// Whether the action that drew `g` is still the one playback
    /// belongs to.
    pub fn is_current(&self, g: u64) -> (r: bool)
        ensures
            r == (g == self.counter),
    {
        g == self.counter
    }
}

/// Law: beginning a new playback action invalidates every generation
/// drawn before it — the old generation is never current again.
pub proof fn lemma_new_generation_cancels_older(counter: int, g: int)
    requires
        g <= counter,
    ensures
        g != counter + 1,
{
}

/// Which follow-up a catalog reload requires: stop the engine because
/// nothing is active any more, keep playing because the current track
/// survived the reload, or resolve and play the reconciled position.
#[derive(Clone, Copy, Debug, PartialEq, Eq, Structural)]
pub enum ReloadAction {
    StopPlayback,
    KeepCurrent,
    PlayCurrent,
}

/// Re-reads the active scope from a freshly loaded catalog and decides
/// the follow-up: an empty result stops playback; a surviving current
/// track keeps playing at its retargeted index; anything else owes a
/// fresh resolve-and-play.
pub fn handle_reload_playlist(state: &mut CurrentPlayInfo, catalog: &Playlist) -> (r: ReloadAction)
    requires
        old(state).wf(),
    ensures
        loaded(*old(state), *catalog, *final(state)),
        final(state).current_tracks@.len() == 0 ==> r == ReloadAction::StopPlayback,
        final(state).current_tracks@.len() > 0 ==> r == match old(state).track {
            Some(t) => if has_bvid(final(state).current_tracks@, t.bvid@) {
                ReloadAction::KeepCurrent
            } else {
                ReloadAction::PlayCurrent
            },
            None => ReloadAction::KeepCurrent,
        },
{
    let had_bvid: Option<String> = match &state.track {
        Some(t) => Some(t.bvid.clone()),
        None => None,
    };
    state.load(catalog);
    if state.current_tracks.len() == 0 {
        return ReloadAction::StopPlayback;
    }
    match &had_bvid {
        Some(b) => match state.find_track_index(b.as_str()) {
            Some(_) => ReloadAction::KeepCurrent,
            None => ReloadAction::PlayCurrent,
        },
        None => ReloadAction::KeepCurrent,
    }
}

/// Restarts playback after the catalog went from empty to populated:
/// reload the scope from the catalog and start from the first track.
/// Fails with `EmptyActiveSet` when the current scope still yields no
/// tracks.
pub fn handle_playlist_is_empty(state: &mut CurrentPlayInfo, catalog: &Playlist) -> (r: Result<
    (),
    ApplicationError,
>)
    requires
        old(state).wf(),
    ensures
        final(state).wf(),
        final(state).play_mode == old(state).play_mode,
        final(state).volume == old(state).volume,
        loaded_scope(*old(state), *catalog, *final(state)),
        final(state).current_tracks@.len() == 0 ==> r == Err::<(), ApplicationError>(
            ApplicationError::EmptyActiveSet,
        ),
        final(state).current_tracks@.len() > 0 ==> {
            &&& r == Ok::<(), ApplicationError>(())
            &&& final(state).index == 0
            &&& final(state).track == Some(final(state).current_tracks@[0])
        },
{
    state.load(catalog);
    if state.current_tracks.len() == 0 {
        return Err(ApplicationError::EmptyActiveSet);
    }
    let _ = state.set_current(0);
    Ok(())
}

/// Applies one command to the state and reports what the caller owes the
/// engine.  This is the single-writer command step of the orchestrator:
/// the daemon's loop feeds it commands one at a time, performs the
/// returned effect, and persists the state.
pub fn handle_command(state: &mut CurrentPlayInfo, catalog: &Playlist, cmd: &Command) -> (r: Result<
    CommandEffect,
    ApplicationError,
>)
    requires
        old(state).wf(),
    ensures
        final(state).wf(),
        match cmd {
            Command::Play => r == Ok::<CommandEffect, ApplicationError>(
                CommandEffect::Engine(EngineOp::Resume),
            ) && *final(state) == *old(state),
            Command::Pause => r == Ok::<CommandEffect, ApplicationError>(
                CommandEffect::Engine(EngineOp::Pause),
            ) && *final(state) == *old(state),
            Command::Stop => r == Ok::<CommandEffect, ApplicationError>(
                CommandEffect::Engine(EngineOp::Stop),
            ) && *final(state) == *old(state),
            Command::PlayBvid(b) => {
                &&& play_bvid_post(*old(state), *catalog, b@, *final(state), r is Ok)
                &&& (r is Ok ==> r == Ok::<CommandEffect, ApplicationError>(
                    CommandEffect::ResolveAndPlay,
                ))
                &&& (r is Err ==> r == Err::<CommandEffect, ApplicationError>(
                    ApplicationError::TrackNotFound,
                ))
            },
            Command::PlaySid(s) => {
                &&& play_sid_post(*old(state), *catalog, s@, *final(state), r is Ok)
                &&& (r is Ok ==> r == Ok::<CommandEffect, ApplicationError>(
                    CommandEffect::ResolveAndPlay,
                ))
                &&& (r is Err ==> r == Err::<CommandEffect, ApplicationError>(
                    ApplicationError::SeasonNotFound,
                ))
            },
            Command::PlayAll => {
                &&& r is Ok
                &&& play_all_post(
                    *old(state),
                    *catalog,
                    *final(state),
                    r == Ok::<CommandEffect, ApplicationError>(CommandEffect::ResolveAndPlay),
                )
                &&& (r == Ok::<CommandEffect, ApplicationError>(CommandEffect::ResolveAndPlay) || r
                    == Ok::<CommandEffect, ApplicationError>(CommandEffect::NoEffect))
            },
            Command::Next => {
                &&& final(state).volume == old(state).volume
                &&& final(state).play_mode == old(state).play_mode
                &&& final(state).playing_sid == old(state).playing_sid
                &&& final(state).current_tracks == old(state).current_tracks
                &&& old(state).current_tracks@.len() == 0 ==> r == Err::<
                    CommandEffect,
                    ApplicationError,
                >(ApplicationError::EmptyActiveSet) && *final(state) == *old(state)
                &&& old(state).current_tracks@.len() > 0 ==> {
                    &&& r == Ok::<CommandEffect, ApplicationError>(CommandEffect::ResolveAndPlay)
                    &&& crate::state::advance_ok(
                        manual_move_mode(old(state).play_mode),
                        old(state).index as int,
                        final(state).index as int,
                        old(state).current_tracks@.len() as int,
                    )
                }
            },
            Command::Previous => {
                &&& final(state).volume == old(state).volume
                &&& final(state).play_mode == old(state).play_mode
                &&& final(state).playing_sid == old(state).playing_sid
                &&& final(state).current_tracks == old(state).current_tracks
                &&& old(state).current_tracks@.len() == 0 ==> r == Err::<
                    CommandEffect,
                    ApplicationError,
                >(ApplicationError::EmptyActiveSet) && *final(state) == *old(state)
                &&& old(state).current_tracks@.len() > 0 ==> {
                    &&& r == Ok::<CommandEffect, ApplicationError>(CommandEffect::ResolveAndPlay)
                    &&& crate::state::retreat_ok(
                        manual_move_mode(old(state).play_mode),
                        old(state).index as int,
                        final(state).index as int,
                        old(state).current_tracks@.len() as int,
                    )
                }
            },
            Command::SetVolume(vs) => {
                &&& r == Ok::<CommandEffect, ApplicationError>(
                    CommandEffect::ApplyVolume(
                        apply_volume(old(state).volume as int, *vs) as usize,
                    ),
                )
                &&& *final(state) == with_volume(
                    *old(state),
                    apply_volume(old(state).volume as int, *vs) as usize,
                )
            },
            Command::SetPlayMode(m) => {
                &&& r == Ok::<CommandEffect, ApplicationError>(CommandEffect::NoEffect)
                &&& *final(state) == crate::state::with_play_mode(*old(state), *m)
            },
            Command::ReloadPlaylist => {
                &&& loaded(*old(state), *catalog, *final(state))
                &&& final(state).current_tracks@.len() == 0 ==> r == Ok::<
                    CommandEffect,
                    ApplicationError,
                >(CommandEffect::Engine(EngineOp::Stop))
                &&& final(state).current_tracks@.len() > 0 ==> r == Ok::<
                    CommandEffect,
                    ApplicationError,
                >(
                    match old(state).track {
                        Some(t) => if has_bvid(final(state).current_tracks@, t.bvid@) {
                            CommandEffect::NoEffect
                        } else {
                            CommandEffect::ResolveAndPlay
                        },
                        None => CommandEffect::NoEffect,
                    },
                )
            },
            Command::PlaylistIsEmpty => {
                &&& final(state).play_mode == old(state).play_mode
                &&& final(state).volume == old(state).volume
                &&& loaded_scope(*old(state), *catalog, *final(state))
                &&& final(state).current_tracks@.len() == 0 ==> r == Err::<
                    CommandEffect,
                    ApplicationError,
                >(ApplicationError::EmptyActiveSet)
                &&& final(state).current_tracks@.len() > 0 ==> {
                    &&& r == Ok::<CommandEffect, ApplicationError>(CommandEffect::ResolveAndPlay)
                    &&& final(state).index == 0
                    &&& final(state).track == Some(final(state).current_tracks@[0])
                }
            },
        },
{
    match cmd {
        Command::Play => Ok(CommandEffect::Engine(EngineOp::Resume)),
        Command::Pause => Ok(CommandEffect::Engine(EngineOp::Pause)),
        Command::Stop => Ok(CommandEffect::Engine(EngineOp::Stop)),
        Command::PlayBvid(b) => {
            handle_play_bvid(state, catalog, b.as_str())?;
            Ok(CommandEffect::ResolveAndPlay)
        },
        Command::PlaySid(s) => {
            handle_play_sid(state, catalog, s.as_str())?;
            Ok(CommandEffect::ResolveAndPlay)
        },
        Command::PlayAll => {
            if handle_play_all(state, catalog) {
                Ok(CommandEffect::ResolveAndPlay)
            } else {
                Ok(CommandEffect::NoEffect)
            }
        },
        Command::Next => {
            let mode = effective_manual_mode(state.play_mode);
            state.move_to_next_track(mode)?;
            Ok(CommandEffect::ResolveAndPlay)
        },
        Command::Previous => {
            let mode = effective_manual_mode(state.play_mode);
            state.move_to_previous_track(mode)?;
            Ok(CommandEffect::ResolveAndPlay)
        },
        Command::SetVolume(vs) => {
            let nv = handle_volume_change(state, vs);
            Ok(CommandEffect::ApplyVolume(nv))
        },
        Command::SetPlayMode(m) => {
            state.set_play_mode(*m);
            Ok(CommandEffect::NoEffect)
        },
        Command::ReloadPlaylist => {
            match handle_reload_playlist(state, catalog) {
                ReloadAction::StopPlayback => Ok(CommandEffect::Engine(EngineOp::Stop)),
                ReloadAction::KeepCurrent => Ok(CommandEffect::NoEffect),
                ReloadAction::PlayCurrent => Ok(CommandEffect::ResolveAndPlay),
            }
        },
        Command::PlaylistIsEmpty => {
            handle_playlist_is_empty(state, catalog)?;
            Ok(CommandEffect::ResolveAndPlay)
        },
    }
}

/// The mode a manually requested skip moves by; see [`manual_move_mode`].
pub fn effective_manual_mode(mode: PlayMode) -> (r: PlayMode)
    ensures
        r == manual_move_mode(mode),
{
    if mode == PlayMode::Repeat {
        PlayMode::Loop
    } else {
        mode
    }
}

} // verus!
