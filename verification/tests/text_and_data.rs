use rosesong::error::ApplicationError;
use rosesong::model::{PlayMode, Track};
use rosesong::paths::{app_dir, current_play_info_file, logs_dir, playlist_dir, playlist_file};
use rosesong::text::{i64_to_dec_string, parse_dec_u8, str_eq, u64_to_dec_string};
use rosesong::video_data::{Episode, Owner, Section, UgcSeason, VideoData};

#[test]
fn decimal_rendering_matches_expected() {
    assert_eq!(u64_to_dec_string(0), "0");
    assert_eq!(u64_to_dec_string(7), "7");
    assert_eq!(u64_to_dec_string(10), "10");
    assert_eq!(u64_to_dec_string(90871), "90871");
    assert_eq!(u64_to_dec_string(u64::MAX), "18446744073709551615");
    assert_eq!(i64_to_dec_string(0), "0");
    assert_eq!(i64_to_dec_string(12345), "12345");
    assert_eq!(i64_to_dec_string(-1), "-1");
    assert_eq!(i64_to_dec_string(-98765), "-98765");
    assert_eq!(i64_to_dec_string(i64::MIN), "-9223372036854775808");
    assert_eq!(i64_to_dec_string(i64::MAX), "9223372036854775807");
}

#[test]
fn parse_dec_u8_bounds() {
    assert_eq!(parse_dec_u8("0"), Some(0));
    assert_eq!(parse_dec_u8("042"), Some(42));
    assert_eq!(parse_dec_u8("255"), Some(255));
    assert_eq!(parse_dec_u8("256"), None);
    assert_eq!(parse_dec_u8("99999999999999999999"), None);
    assert_eq!(parse_dec_u8(""), None);
    assert_eq!(parse_dec_u8("1a"), None);
    assert_eq!(parse_dec_u8("-1"), None);
}

#[test]
fn str_eq_compares_contents() {
    assert!(str_eq("abc", "abc"));
    assert!(!str_eq("abc", "abd"));
    assert!(!str_eq("abc", "abcd"));
    assert!(str_eq("", ""));
}

#[test]
fn config_paths_join_home() {
    assert_eq!(app_dir("/home/u"), "/home/u/.config/rosesong");
    assert_eq!(logs_dir("/home/u"), "/home/u/.config/rosesong/logs");
    assert_eq!(playlist_dir("/home/u"), "/home/u/.config/rosesong/playlists");
    assert_eq!(
        playlist_file("/home/u"),
        "/home/u/.config/rosesong/playlists/playlist.toml"
    );
    assert_eq!(
        current_play_info_file("/home/u"),
        "/home/u/.config/rosesong/current.toml"
    );
}

#[test]
fn play_mode_parse_is_case_insensitive() {
    assert_eq!(PlayMode::parse("shuffle"), PlayMode::Shuffle);
    assert_eq!(PlayMode::parse("Shuffle"), PlayMode::Shuffle);
    assert_eq!(PlayMode::parse("SHUFFLE"), PlayMode::Shuffle);
    assert_eq!(PlayMode::parse("repeat"), PlayMode::Repeat);
    assert_eq!(PlayMode::parse("Repeat"), PlayMode::Repeat);
    assert_eq!(PlayMode::parse("loop"), PlayMode::Loop);
    assert_eq!(PlayMode::parse("Loop"), PlayMode::Loop);
    assert_eq!(PlayMode::parse("whatever"), PlayMode::Loop);
    assert_eq!(PlayMode::parse(""), PlayMode::Loop);
}

#[test]
fn play_mode_describe_names() {
    assert_eq!(PlayMode::Loop.describe(), "顺序循环");
    assert_eq!(PlayMode::Shuffle.describe(), "随机");
    assert_eq!(PlayMode::Repeat.describe(), "单曲循环");
}

#[test]
fn error_descriptions_cover_all_variants() {
    assert_eq!(
        ApplicationError::EmptyActiveSet.describe(),
        "no tracks in the active play list"
    );
    assert_eq!(
        ApplicationError::IndexOutOfRange.describe(),
        "track index out of range"
    );
    assert_eq!(
        ApplicationError::TrackNotFound.describe(),
        "track not found in the play list"
    );
    assert_eq!(
        ApplicationError::SeasonNotFound.describe(),
        "season not found in the play list"
    );
    assert_eq!(
        ApplicationError::MaxRetriesExceeded.describe(),
        "max retries reached for play next song"
    );
    assert_eq!(
        ApplicationError::PersistenceFailure.describe(),
        "failed to persist the play state"
    );
    assert_eq!(
        ApplicationError::EngineFailure.describe(),
        "the playback engine reported an error"
    );
}

fn feed_record() -> VideoData {
    VideoData {
        bvid: "BV1xx".to_string(),
        title: "a video".to_string(),
        cid: 4242,
        owner: Owner { name: "uploader".to_string() },
        season_id: Some(77),
        ugc_season: Some(UgcSeason {
            id: 77,
            title: "the season".to_string(),
            cover: "http://cover".to_string(),
            intro: "about".to_string(),
            sections: vec![
                Section {
                    season_id: 77,
                    episodes: vec![
                        Episode { cid: 1, bvid: "BVa".to_string(), title: "one".to_string() },
                        Episode { cid: 2, bvid: "BVb".to_string(), title: "two".to_string() },
                    ],
                },
                Section {
                    season_id: 78,
                    episodes: vec![Episode {
                        cid: 3,
                        bvid: "BVc".to_string(),
                        title: "three".to_string(),
                    }],
                },
            ],
        }),
    }
}

#[test]
fn video_data_to_track() {
    let v = feed_record();
    let t = v.to_track();
    assert_eq!(t.bvid, "BV1xx");
    assert_eq!(t.cid, "4242");
    assert_eq!(t.sid, None);
    assert_eq!(t.title, "a video");
    assert_eq!(t.owner, "uploader");
}

#[test]
fn video_data_to_season() {
    let v = feed_record();
    let s = v.to_season().unwrap();
    assert_eq!(s.id, "77");
    assert_eq!(s.title, "the season");
    assert_eq!(s.cover.as_deref(), Some("http://cover"));
    assert_eq!(s.intro, "about");
    assert_eq!(s.owner, "uploader");

    let mut plain = feed_record();
    plain.ugc_season = None;
    assert!(plain.to_season().is_none());
}

#[test]
fn video_data_to_tracks_by_season_flattens_sections() {
    let v = feed_record();
    let tracks = v.to_tracks_by_season();
    assert_eq!(tracks.len(), 3);
    assert_eq!(tracks[0].bvid, "BVa");
    assert_eq!(tracks[0].cid, "1");
    assert_eq!(tracks[0].sid.as_deref(), Some("77"));
    assert_eq!(tracks[0].title, "one");
    assert_eq!(tracks[0].owner, "uploader");
    assert_eq!(tracks[1].bvid, "BVb");
    assert_eq!(tracks[1].sid.as_deref(), Some("77"));
    assert_eq!(tracks[2].bvid, "BVc");
    assert_eq!(tracks[2].cid, "3");
    assert_eq!(tracks[2].sid.as_deref(), Some("78"));

    let mut plain = feed_record();
    plain.ugc_season = None;
    assert!(plain.to_tracks_by_season().is_empty());
}

#[test]
fn track_line_lists_the_fields() {
    colored::control::set_override(false);
    let t = Track {
        bvid: "BV1xx".to_string(),
        cid: "4242".to_string(),
        sid: None,
        title: "a video".to_string(),
        owner: "uploader".to_string(),
    };
    let line = t.to_println_string();
    assert_eq!(line, "bvid: BV1xx, cid: 4242, title: a video, owner: uploader");
    colored::control::unset_override();
}

#[test]
fn track_line_colored_still_carries_the_fields() {
    colored::control::set_override(true);
    let t = Track {
        bvid: "BV9zz".to_string(),
        cid: "777".to_string(),
        sid: None,
        title: "styled".to_string(),
        owner: "painter".to_string(),
    };
    let line = t.to_println_string();
    assert!(line.contains("BV9zz"));
    assert!(line.contains("777"));
    assert!(line.contains("styled"));
    assert!(line.contains("painter"));
    assert!(line.contains('\u{1b}'));
    colored::control::unset_override();
}
