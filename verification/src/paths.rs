use vstd::prelude::*;

verus! {

/// The daemon's configuration directory under the given home directory.
pub fn app_dir(home: &str) -> (r: String)
    ensures
        r@ == home@ + "/.config/rosesong"@,
{
    let mut s = String::from_str(home);
    s.append("/.config/rosesong");
    s
}

/// The directory the daemon's log files go to.
pub fn logs_dir(home: &str) -> (r: String)
    ensures
        r@ == home@ + "/.config/rosesong/logs"@,
{
    let mut s = app_dir(home);
    s.append("/logs");
    proof {
        reveal_strlit("/.config/rosesong");
        reveal_strlit("/logs");
        reveal_strlit("/.config/rosesong/logs");
        assert(s@ =~= home@ + "/.config/rosesong/logs"@);
    }
    s
}

/// The directory the catalog document lives in.
pub fn playlist_dir(home: &str) -> (r: String)
    ensures
        r@ == home@ + "/.config/rosesong/playlists"@,
{
    let mut s = app_dir(home);
    s.append("/playlists");
    proof {
        reveal_strlit("/.config/rosesong");
        reveal_strlit("/playlists");
        reveal_strlit("/.config/rosesong/playlists");
        assert(s@ =~= home@ + "/.config/rosesong/playlists"@);
    }
    s
}

/// The catalog document itself.
pub fn playlist_file(home: &str) -> (r: String)
    ensures
        r@ == home@ + "/.config/rosesong/playlists/playlist.toml"@,
{
    let mut s = playlist_dir(home);
    s.append("/playlist.toml");
    proof {
        reveal_strlit("/.config/rosesong/playlists");
        reveal_strlit("/playlist.toml");
        reveal_strlit("/.config/rosesong/playlists/playlist.toml");
        assert(s@ =~= home@ + "/.config/rosesong/playlists/playlist.toml"@);
    }
    s
}

/// The persisted playback-state document.
pub fn current_play_info_file(home: &str) -> (r: String)
    ensures
        r@ == home@ + "/.config/rosesong/current.toml"@,
{
    let mut s = app_dir(home);
    s.append("/current.toml");
    proof {
        reveal_strlit("/.config/rosesong");
        reveal_strlit("/current.toml");
        reveal_strlit("/.config/rosesong/current.toml");
        assert(s@ =~= home@ + "/.config/rosesong/current.toml"@);
    }
    s
}

} // verus!
