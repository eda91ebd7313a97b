use crate::model::{Season, Track};
use crate::text::{dec_int, i64_to_dec_string};
use vstd::prelude::*;

verus! {

/// The uploader of a video.
#[derive(Debug)]
pub struct Owner {
    pub name: String,
}

/// One episode inside a season section of the content provider's feed.
#[derive(Debug)]
pub struct Episode {
    pub cid: i64,
    pub bvid: String,
    pub title: String,
}

/// One section of a season: the episodes sharing a season identifier.
#[derive(Debug)]
pub struct Section {
    pub season_id: i64,
    pub episodes: Vec<Episode>,
}

/// Season metadata as the content provider's feed carries it.
#[derive(Debug)]
pub struct UgcSeason {
    pub id: i64,
    pub title: String,
    pub cover: String,
    pub intro: String,
    pub sections: Vec<Section>,
}

/// The feed record for one video: the data the catalog importer turns
/// into [`Track`] and [`Season`] values.
#[derive(Debug)]
pub struct VideoData {
    pub bvid: String,
    pub title: String,
    pub cid: i64,
    pub owner: Owner,
    pub season_id: Option<i64>,
    pub ugc_season: Option<UgcSeason>,
}

/// Whether `t` is the track the episode `e` (of the season `sid`, by the
/// uploader `owner`) converts to: identifiers are rendered in decimal.
pub open spec fn track_matches_episode(t: Track, owner: Seq<char>, sid: int, e: Episode) -> bool {
    &&& t.bvid@ == e.bvid@
    &&& t.cid@ == dec_int(e.cid as int)
    &&& t.sid matches Some(s) && s@ == dec_int(sid)
    &&& t.title@ == e.title@
    &&& t.owner@ == owner
}

/// The episodes of all sections, flattened in order, each paired with its
/// section's season identifier.
pub open spec fn flat_episodes(sections: Seq<Section>) -> Seq<(int, Episode)>
    decreases sections.len(),
{
    if sections.len() == 0 {
        Seq::empty()
    } else {
        flat_episodes(sections.drop_last()) + Seq::new(
            sections.last().episodes@.len(),
            |j: int| (sections.last().season_id as int, sections.last().episodes@[j]),
        )
    }
}

impl VideoData {
    /// The season metadata of this video, if its feed record carries any.
    pub fn to_season(&self) -> (r: Option<Season>)
        ensures
            match self.ugc_season {
                Some(u) => r matches Some(s) && {
                    &&& s.id@ == dec_int(u.id as int)
                    &&& s.title@ == u.title@
                    &&& s.cover matches Some(c) && c@ == u.cover@
                    &&& s.intro@ == u.intro@
                    &&& s.owner@ == self.owner.name@
                },
                None => r is None,
            },
    {
        match &self.ugc_season {
            Some(u) => Some(
                Season {
                    id: i64_to_dec_string(u.id),
                    title: u.title.clone(),
                    cover: Some(u.cover.clone()),
                    intro: u.intro.clone(),
                    owner: self.owner.name.clone(),
                },
            ),
            None => None,
        }
    }

    /// This video as a standalone track, outside any season.
    pub fn to_track(&self) -> (r: Track)
        ensures
            r.bvid@ == self.bvid@,
            r.cid@ == dec_int(self.cid as int),
            r.sid is None,
            r.title@ == self.title@,
            r.owner@ == self.owner.name@,
    {
        Track {
            bvid: self.bvid.clone(),
            cid: i64_to_dec_string(self.cid),
            sid: None,
            title: self.title.clone(),
            owner: self.owner.name.clone(),
        }
    }

    /// Every episode of this video's season as a track, in feed order; a
    /// record without season data yields nothing.
    pub fn to_tracks_by_season(&self) -> (r: Vec<Track>)
        ensures
            match self.ugc_season {
                Some(u) => {
                    &&& r@.len() == flat_episodes(u.sections@).len()
                    &&& forall|k: int|
                        0 <= k < r@.len() ==> track_matches_episode(
                            r@[k],
                            self.owner.name@,
                            flat_episodes(u.sections@)[k].0,
                            flat_episodes(u.sections@)[k].1,
                        )
                },
                None => r@.len() == 0,
            },
    {
        let mut tracks: Vec<Track> = Vec::new();
        match &self.ugc_season {
            Some(u) => {
                let ns = u.sections.len();
                for i in 0..ns
                    invariant
                        ns == u.sections@.len(),
                        tracks@.len() == flat_episodes(u.sections@.take(i as int)).len(),
                        forall|k: int|
                            0 <= k < tracks@.len() ==> track_matches_episode(
                                tracks@[k],
                                self.owner.name@,
                                flat_episodes(u.sections@.take(i as int))[k].0,
                                flat_episodes(u.sections@.take(i as int))[k].1,
                            ),
                {
                    let section = &u.sections[i];
                    let ne = section.episodes.len();
                    let ghost before = tracks@;
                    for j in 0..ne
                        invariant
                            ns == u.sections@.len(),
                            i < ns,
                            ne == section.episodes@.len(),
                            section == &u.sections@[i as int],
                            before.len() == flat_episodes(u.sections@.take(i as int)).len(),
                            forall|k: int|
                                0 <= k < before.len() ==> track_matches_episode(
                                    before[k],
                                    self.owner.name@,
                                    flat_episodes(u.sections@.take(i as int))[k].0,
                                    flat_episodes(u.sections@.take(i as int))[k].1,
                                ),
                            tracks@.len() == before.len() + j,
                            forall|k: int| 0 <= k < before.len() ==> tracks@[k] == before[k],
                            forall|k: int|
                                0 <= k < j ==> track_matches_episode(
                                    tracks@[before.len() + k],
                                    self.owner.name@,
                                    u.sections@[i as int].season_id as int,
                                    u.sections@[i as int].episodes@[k],
                                ),
                    {
                        let episode = &section.episodes[j];
                        tracks.push(
                            Track {
                                bvid: episode.bvid.clone(),
                                cid: i64_to_dec_string(episode.cid),
                                sid: Some(i64_to_dec_string(section.season_id)),
                                title: episode.title.clone(),
                                owner: self.owner.name.clone(),
                            },
                        );
                    }
                    proof {
                        assert(u.sections@.take(i + 1).drop_last() =~= u.sections@.take(i as int));
                        assert(u.sections@.take(i + 1).last() == u.sections@[i as int]);
                        assert(flat_episodes(u.sections@.take(i + 1)) == flat_episodes(
                            u.sections@.take(i as int),
                        ) + Seq::new(
                            u.sections@[i as int].episodes@.len(),
                            |j: int|
                                (
                                    u.sections@[i as int].season_id as int,
                                    u.sections@[i as int].episodes@[j],
                                ),
                        ));
                        assert forall|k: int| 0 <= k < tracks@.len() implies track_matches_episode(
                            tracks@[k],
                            self.owner.name@,
                            flat_episodes(u.sections@.take(i + 1))[k].0,
                            flat_episodes(u.sections@.take(i + 1))[k].1,
                        ) by {
                            if k < before.len() {
                                assert(tracks@[k] == before[k]);
                                assert(flat_episodes(u.sections@.take(i + 1))[k] == flat_episodes(
                                    u.sections@.take(i as int),
                                )[k]);
                            } else {
                                let kk = k - before.len();
                                assert(flat_episodes(u.sections@.take(i + 1))[k] == (
                                    u.sections@[i as int].season_id as int,
                                    u.sections@[i as int].episodes@[kk],
                                ));
                            }
                        }
                    }
                }
                proof {
                    assert(u.sections@.take(ns as int) =~= u.sections@);
                }
            },
            None => {},
        }
        tracks
    }
}

} // verus!
