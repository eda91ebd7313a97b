use rosesong::model::{PlayMode, Playlist, Season, Track};
use rosesong::state::CurrentPlayInfo;

fn rec_track(bvid: &str, sid: Option<&str>) -> Track {
    Track {
        bvid: bvid.to_string(),
        cid: format!("cid_{bvid}"),
        sid: sid.map(|s| s.to_string()),
        title: format!("title_{bvid}"),
        owner: "someone".to_string(),
    }
}

fn rec_state(bvids: &[&str], index: usize, mode: PlayMode) -> CurrentPlayInfo {
    let tracks: Vec<Track> = bvids.iter().map(|b| rec_track(b, None)).collect();
    let track = tracks.get(index).cloned();
    CurrentPlayInfo {
        index,
        volume: 100,
        play_mode: mode,
        track,
        playing_sid: None,
        current_tracks: tracks,
    }
}

#[test]
fn reconcile_retargets_surviving_track() {
    // B was playing; after the reload B sits at another position.
    let mut s = rec_state(&["A", "B", "C"], 1, PlayMode::Loop);
    let fresh = vec![rec_track("C", None), rec_track("B", None)];
    s.reconcile_after_reload(fresh);
    assert_eq!(s.index, 1);
    assert_eq!(s.track.as_ref().unwrap().bvid, "B");
    assert_eq!(s.current_tracks.len(), 2);
}

#[test]
fn reconcile_clamps_when_track_gone() {
    // C (index 2) was playing; it is gone and the new set has two tracks,
    // so the index falls back to min(2, 2 - 1) = 1.
    let mut s = rec_state(&["A", "B", "C"], 2, PlayMode::Loop);
    let fresh = vec![rec_track("X", None), rec_track("Y", None)];
    s.reconcile_after_reload(fresh);
    assert_eq!(s.index, 1);
    assert_eq!(s.track.as_ref().unwrap().bvid, "Y");
}

#[test]
fn reconcile_keeps_old_index_when_track_gone_but_index_fits() {
    let mut s = rec_state(&["A", "B", "C"], 1, PlayMode::Loop);
    let fresh = vec![rec_track("X", None), rec_track("Y", None), rec_track("Z", None)];
    s.reconcile_after_reload(fresh);
    assert_eq!(s.index, 1);
    assert_eq!(s.track.as_ref().unwrap().bvid, "Y");
}

#[test]
fn reconcile_empties_on_empty_reload() {
    let mut s = rec_state(&["A", "B"], 1, PlayMode::Loop);
    s.reconcile_after_reload(Vec::new());
    assert_eq!(s.index, 0);
    assert!(s.track.is_none());
    assert!(s.current_tracks.is_empty());
}

#[test]
fn replace_scope_resets_index_sequential() {
    let mut s = rec_state(&["A", "B", "C"], 2, PlayMode::Loop);
    let new_tracks = vec![rec_track("X", Some("7")), rec_track("Y", Some("7"))];
    s.update_current_play_tracks(Some("7".to_string()), new_tracks);
    assert_eq!(s.index, 0);
    assert_eq!(s.track.as_ref().unwrap().bvid, "X");
    assert_eq!(s.playing_sid.as_deref(), Some("7"));
}

#[test]
fn replace_scope_shuffle_lands_in_range() {
    // The random starting index is always within the new set.
    for _ in 0..30 {
        let mut s = rec_state(&["A", "B", "C"], 2, PlayMode::Shuffle);
        let new_tracks = vec![
            rec_track("X", Some("7")),
            rec_track("Y", Some("7")),
            rec_track("Z", Some("7")),
        ];
        s.update_current_play_tracks(Some("7".to_string()), new_tracks);
        assert!(s.index < 3);
        assert_eq!(s.track.as_ref().unwrap().bvid, s.current_tracks[s.index].bvid);
    }
}

#[test]
fn replace_scope_with_empty_clears() {
    let mut s = rec_state(&["A", "B"], 1, PlayMode::Shuffle);
    s.update_current_play_tracks(None, Vec::new());
    assert_eq!(s.index, 0);
    assert!(s.track.is_none());
    assert!(s.current_tracks.is_empty());
    assert!(s.playing_sid.is_none());
}

fn rec_catalog() -> Playlist {
    Playlist {
        tracks: vec![
            rec_track("A", None),
            rec_track("B", Some("9")),
            rec_track("C", None),
            rec_track("D", Some("9")),
        ],
        seasons: vec![Season {
            id: "9".to_string(),
            title: "a season".to_string(),
            cover: None,
            intro: "about it".to_string(),
            owner: "someone".to_string(),
        }],
    }
}

#[test]
fn find_tracks_in_season_filters_in_order() {
    let catalog = rec_catalog();
    let tracks = catalog.find_tracks_in_season("9");
    let bvids: Vec<&str> = tracks.iter().map(|t| t.bvid.as_str()).collect();
    assert_eq!(bvids, ["B", "D"]);
    assert!(catalog.find_tracks_in_season("8").is_empty());
}

#[test]
fn load_scoped_season_keeps_scope() {
    let catalog = rec_catalog();
    let mut s = rec_state(&["B", "D"], 0, PlayMode::Loop);
    s.playing_sid = Some("9".to_string());
    s.load(&catalog);
    assert_eq!(s.playing_sid.as_deref(), Some("9"));
    let bvids: Vec<&str> = s.current_tracks.iter().map(|t| t.bvid.as_str()).collect();
    assert_eq!(bvids, ["B", "D"]);
    assert_eq!(s.track.as_ref().unwrap().bvid, "B");
}

#[test]
fn load_empties_when_scoped_season_gone() {
    // The scoped season has no tracks in the fresh catalog: the scope is
    // kept and the active set is treated as empty, not widened to all.
    let catalog = rec_catalog();
    let mut s = rec_state(&["B", "D"], 0, PlayMode::Loop);
    s.playing_sid = Some("555".to_string());
    s.load(&catalog);
    assert_eq!(s.playing_sid.as_deref(), Some("555"));
    assert!(s.current_tracks.is_empty());
    assert_eq!(s.index, 0);
    assert!(s.track.is_none());
}

#[test]
fn load_clamps_persisted_volume() {
    let catalog = rec_catalog();
    let mut s = rec_state(&["A"], 0, PlayMode::Loop);
    s.volume = 250;
    s.load(&catalog);
    assert_eq!(s.volume, 100);
}

#[test]
fn load_empty_catalog_empties_state() {
    let catalog = Playlist::new();
    let mut s = rec_state(&["A", "B"], 1, PlayMode::Loop);
    s.load(&catalog);
    assert!(s.current_tracks.is_empty());
    assert_eq!(s.index, 0);
    assert!(s.track.is_none());
}
