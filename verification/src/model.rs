use crate::text::str_eq;
use vstd::prelude::*;

verus! {

/// How the next track is chosen when playback moves on.
#[derive(Clone, Copy, Debug, PartialEq, Eq, Structural)]
pub enum PlayMode {
    /// Sequential order with wraparound.
    Loop,
    /// A uniformly random position on every move.
    Shuffle,
    /// The current position is kept (the track is replayed).
    Repeat,
}

/// `c` lowered to its ASCII lowercase form; other characters unchanged.
pub open spec fn lower_char(c: char) -> char {
    if 'A' <= c && c <= 'Z' {
        ((c as u8) + 32) as char
    } else {
        c
    }
}

/// `s` with every character ASCII-lowercased.
pub open spec fn lower_seq(s: Seq<char>) -> Seq<char> {
    s.map_values(|c: char| lower_char(c))
}

/// Which play mode a transport-level mode string denotes: `shuffle` and
/// `repeat` (in any ASCII case), with everything else — `loop` included —
/// falling back to sequential play.
pub open spec fn play_mode_of(s: Seq<char>) -> PlayMode {
    if lower_seq(s) == "shuffle"@ {
        PlayMode::Shuffle
    } else if lower_seq(s) == "repeat"@ {
        PlayMode::Repeat
    } else {
        PlayMode::Loop
    }
}

/// `c` lowered to its ASCII lowercase form.
fn lower_char_exec(c: char) -> (r: char)
    ensures
        r == lower_char(c),
{
    if 'A' <= c && c <= 'Z' {
        ((c as u8) + 32) as char
    } else {
        c
    }
}

/// Whether `s`, ASCII-lowercased, equals `t`.
fn eq_lowered(s: &str, t: &str) -> (b: bool)
    ensures
        b == (lower_seq(s@) == t@),
{
    let n = s.unicode_len();
    let m = t.unicode_len();
    if n != m {
        proof {
            assert(lower_seq(s@).len() == s@.len());
        }
        return false;
    }
    for i in 0..n
        invariant
            n == s@.len(),
            n == t@.len(),
            forall|j: int| 0 <= j < i ==> lower_seq(s@)[j] == t@[j],
    {
        let c = lower_char_exec(s.get_char(i));
        if c != t.get_char(i) {
            proof {
                assert(lower_seq(s@)[i as int] != t@[i as int]);
            }
            return false;
        }
    }
    proof {
        assert(lower_seq(s@) =~= t@);
    }
    true
}

impl PlayMode {
    /// Parses the transport's mode string, as [`play_mode_of`] describes.
    /// Validation happens here, at the boundary; the core only ever sees
    /// the closed [`PlayMode`] type.
    pub fn parse(s: &str) -> (m: PlayMode)
        ensures
            m == play_mode_of(s@),
    {
        if eq_lowered(s, "shuffle") {
            PlayMode::Shuffle
        } else if eq_lowered(s, "repeat") {
            PlayMode::Repeat
        } else {
            PlayMode::Loop
        }
    }

    /// The mode's display name.
    pub fn describe(&self) -> (r: &'static str)
        ensures
            r@ == match self {
                PlayMode::Loop => "顺序循环"@,
                PlayMode::Shuffle => "随机"@,
                PlayMode::Repeat => "单曲循环"@,
            },
    {
        match self {
            PlayMode::Loop => "顺序循环",
            PlayMode::Shuffle => "随机",
            PlayMode::Repeat => "单曲循环",
        }
    }
}

/// One playable catalog entry.  `bvid` is its stable identity; `cid` is the
/// key the resolver turns into a stream URL; `sid` links it to a season.
#[derive(Debug)]
pub struct Track {
    pub bvid: String,
    pub cid: String,
    pub sid: Option<String>,
    pub title: String,
    pub owner: String,
}

impl Clone for Track {
    fn clone(&self) -> (r: Self)
        ensures
            r == *self,
    {
        Track {
            bvid: self.bvid.clone(),
            cid: self.cid.clone(),
            sid: match &self.sid {
                Some(s) => Some(s.clone()),
                None => None,
            },
            title: self.title.clone(),
            owner: self.owner.clone(),
        }
    }
}

/// A named, ordered subset of the catalog; tracks reference it by `sid`.
#[derive(Debug)]
pub struct Season {
    pub id: String,
    pub title: String,
    pub cover: Option<String>,
    pub intro: String,
    pub owner: String,
}

impl Clone for Season {
    fn clone(&self) -> (r: Self)
        ensures
            r == *self,
    {
        Season {
            id: self.id.clone(),
            title: self.title.clone(),
            cover: match &self.cover {
                Some(s) => Some(s.clone()),
                None => None,
            },
            intro: self.intro.clone(),
            owner: self.owner.clone(),
        }
    }
}

/// The full catalog: every track in display order, plus season metadata.
#[derive(Debug)]
pub struct Playlist {
    pub tracks: Vec<Track>,
    pub seasons: Vec<Season>,
}

/// Whether `t` belongs to the season identified by `sid`.
pub open spec fn track_in_season(t: Track, sid: Seq<char>) -> bool {
    match t.sid {
        Some(s) => s@ == sid,
        None => false,
    }
}

impl Playlist {
    /// The tracks of the season `sid`, in catalog order.
    pub open spec fn spec_tracks_in_season(self, sid: Seq<char>) -> Seq<Track> {
        self.tracks@.filter(|t: Track| track_in_season(t, sid))
    }

    /// An empty catalog.
    pub fn new() -> (r: Self)
        ensures
            r.tracks@ == Seq::<Track>::empty(),
            r.seasons@ == Seq::<Season>::empty(),
    {
        Playlist { tracks: Vec::new(), seasons: Vec::new() }
    }

    /// The tracks of the season `sid`, in catalog order.
    pub fn find_tracks_in_season(&self, sid: &str) -> (r: Vec<Track>)
        ensures
            r@ == self.spec_tracks_in_season(sid@),
    {
        broadcast use vstd::seq_lib::group_seq_properties;

        let ghost pred = |t: Track| track_in_season(t, sid@);
        let mut out: Vec<Track> = Vec::new();
        let n = self.tracks.len();
        for i in 0..n
            invariant
                n == self.tracks@.len(),
                pred == (|t: Track| track_in_season(t, sid@)),
                out@ == self.tracks@.take(i as int).filter(pred),
        {
            let t = &self.tracks[i];
            let in_season = match &t.sid {
                Some(s) => str_eq(s.as_str(), sid),
                None => false,
            };
            proof {
                Seq::lemma_filter_push(self.tracks@.take(i as int), self.tracks@[i as int], pred);
                assert(self.tracks@.take(i + 1) =~= self.tracks@.take(i as int).push(
                    self.tracks@[i as int],
                ));
            }
            if in_season {
                out.push(t.clone());
            }
        }
        proof {
            assert(self.tracks@.take(n as int) =~= self.tracks@);
        }
        out
    }
}

/// Whether some track of `s` carries the identity `bvid`.
pub open spec fn has_bvid(s: Seq<Track>, bvid: Seq<char>) -> bool {
    exists|i: int| 0 <= i < s.len() && s[i].bvid@ == bvid
}

/// The position of the first track of `tracks` carrying the identity
/// `bvid`, if any.
pub fn find_bvid_index(tracks: &Vec<Track>, bvid: &str) -> (r: Option<usize>)
    ensures
        match r {
            Some(i) => {
                &&& i < tracks@.len()
                &&& tracks@[i as int].bvid@ == bvid@
                &&& forall|j: int| 0 <= j < i ==> tracks@[j].bvid@ != bvid@
            },
            None => forall|j: int| 0 <= j < tracks@.len() ==> tracks@[j].bvid@ != bvid@,
        },
{
    let n = tracks.len();
    for i in 0..n
        invariant
            n == tracks@.len(),
            forall|j: int| 0 <= j < i ==> tracks@[j].bvid@ != bvid@,
    {
        if str_eq(tracks[i].bvid.as_str(), bvid) {
            return Some(i);
        }
    }
    None
}

/// A copy of `v` whose view is the same sequence of tracks.
pub fn clone_tracks(v: &Vec<Track>) -> (r: Vec<Track>)
    ensures
        r@ == v@,
{
    let r = v.clone();
    proof {
        assert forall|i: int| 0 <= i < v@.len() implies r@[i] == v@[i] by {
            assert(cloned::<Track>(v@[i], r@[i]));
        }
        assert(r@ =~= v@);
    }
    r
}

} // verus!
