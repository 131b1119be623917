use mpd_shuffler::config::{get_files, keep_last_from, Config, SongFilter};
use mpd_shuffler::library::update_files;
use mpd_shuffler::options::options_change;
use mpd_shuffler::player::{pair_entries, retention_cut, PlayerState, PlayerStep, Selection, Snapshot};
use mpd_shuffler::protocol::{dispatch, startup_handlers, Command, Handler, SessionError};
use mpd_shuffler::supervisor::{after_session, signal_while_connected, signal_while_disconnected, Decision, Signal};
use mpd_shuffler::text::lookup_last;

fn pairs(items: &[(&str, &str)]) -> Vec<(String, String)> {
    items.iter().map(|(k, v)| (k.to_string(), v.to_string())).collect()
}

fn strings(items: &[&str]) -> Vec<String> {
    items.iter().map(|s| s.to_string()).collect()
}

fn config(disable_repeat: bool, lock_volume: bool, disable_crossfade: bool) -> Config {
    Config {
        mpd_address: "localhost:6600".to_string(),
        database: "/tmp/store".to_string(),
        song_regex: None,
        keep_last: None,
        disable_repeat,
        lock_volume,
        disable_crossfade,
        mpd_timeout: 30,
    }
}

fn playing(song: &str, song_id: &str, next_song_id: &str, playlist: &[(&str, &str)]) -> PlayerState {
    let mut ps = PlayerState::new();
    ps.state = "play".to_string();
    ps.song = song.to_string();
    ps.song_id = song_id.to_string();
    ps.next_song_id = next_song_id.to_string();
    ps.playlist = pairs(playlist);
    ps
}

#[test]
fn player_change_twice_is_quiet_the_second_time() {
    let status = pairs(&[("state", "play"), ("song", "3"), ("songid", "12"), ("volume", "80")]);
    let mut ps = PlayerState::new();
    assert_eq!(ps.player_change(&status), PlayerStep::SelectNext);
    assert_eq!(ps.song, "3");
    assert_eq!(ps.song_id, "12");
    assert_eq!(ps.next_song_id, "");
    assert_eq!(ps.player_change(&status), PlayerStep::Unchanged);
    assert_eq!(ps.state, "play");
}

#[test]
fn player_change_while_paused_selects_nothing() {
    let mut ps = PlayerState::new();
    let status = pairs(&[("state", "pause"), ("song", "1"), ("songid", "5")]);
    assert_eq!(ps.player_change(&status), PlayerStep::NotPlaying);
    assert_eq!(ps.state, "pause");
}

#[test]
fn player_change_on_empty_state_and_empty_status_is_unchanged() {
    let mut ps = PlayerState::new();
    assert_eq!(ps.player_change(&Vec::new()), PlayerStep::Unchanged);
}

#[test]
fn snapshot_takes_the_last_of_repeated_keys() {
    let status = pairs(&[("state", "stop"), ("state", "play"), ("nextsongid", "9")]);
    let snap = Snapshot::from_status(&status);
    assert_eq!(snap.state, "play");
    assert_eq!(snap.song, "");
    assert_eq!(snap.next_song_id, "9");
    assert_eq!(lookup_last(&status, "missing"), "");
}

#[test]
fn only_member_playing_has_no_alternative() {
    let ps = playing("0", "1", "", &[("a.mp3", "1")]);
    assert!(matches!(ps.maybe_add_next(&"a.mp3".to_string(), 1), Selection::NoAlternative));
}

#[test]
fn drawing_the_current_track_redraws() {
    let ps = playing("0", "1", "", &[("a.mp3", "1"), ("b.mp3", "2")]);
    assert!(matches!(ps.maybe_add_next(&"a.mp3".to_string(), 2), Selection::Redraw));
}

#[test]
fn candidate_queued_elsewhere_is_moved() {
    let ps = playing("4", "1", "", &[("a.mp3", "1"), ("b.mp3", "2")]);
    match ps.maybe_add_next(&"b.mp3".to_string(), 10) {
        Selection::MoveExisting { id, position } => {
            assert_eq!(id, "2");
            assert_eq!(position, "4");
        },
        other => panic!("expected a move, got {:?}", other),
    }
}

#[test]
fn candidate_not_queued_is_added() {
    let ps = playing("0", "1", "", &[("a.mp3", "1")]);
    match ps.maybe_add_next(&"c.mp3".to_string(), 10) {
        Selection::AddNew { file } => assert_eq!(file, "c.mp3"),
        other => panic!("expected an add, got {:?}", other),
    }
}

#[test]
fn nothing_is_selected_with_a_next_track_or_an_empty_store() {
    let ps = playing("0", "1", "2", &[]);
    assert!(!ps.wants_next(5));
    let ps = playing("0", "1", "", &[]);
    assert!(!ps.wants_next(0));
    assert!(ps.wants_next(1));
}

#[test]
fn retention_cut_values() {
    assert_eq!(retention_cut(10, 3), Some(7));
    assert_eq!(retention_cut(3, 3), None);
    assert_eq!(retention_cut(2, 5), None);
    assert_eq!(retention_cut(1, 0), Some(1));
    assert_eq!(retention_cut(0, 0), None);
}

#[test]
fn prune_after_deletes_the_played_prefix() {
    let ps = playing("10", "1", "", &[]);
    match ps.prune_after(true, Some(3)) {
        Ok(Some(Command::DeletePrefix { end })) => assert_eq!(end, 7),
        other => panic!("expected a delete, got {:?}", other),
    }
    let ps = playing("10", "1", "2", &[]);
    assert!(matches!(ps.prune_after(false, Some(3)), Ok(Some(Command::DeletePrefix { end: 7 }))));
    assert!(matches!(ps.prune_after(false, Some(10)), Ok(None)));
    assert!(matches!(ps.prune_after(false, None), Ok(None)));
}

#[test]
fn prune_after_needs_a_selection_or_a_next_track() {
    let ps = playing("10", "1", "", &[]);
    assert!(matches!(ps.prune_after(false, Some(3)), Ok(None)));
}

#[test]
fn prune_after_rejects_a_non_numeric_position() {
    let ps = playing("ten", "1", "2", &[]);
    assert!(matches!(ps.prune_after(false, Some(3)), Err(SessionError::ParseInt(_))));
    let ps = playing("", "1", "2", &[]);
    assert!(matches!(ps.prune_after(false, Some(3)), Err(SessionError::ParseInt(_))));
}

#[test]
fn reconciliation_loads_and_soft_removes_the_differences() {
    let server = strings(&["a", "b", "c", "a"]);
    let store = strings(&["b", "c", "d", "d"]);
    let r = update_files(&server, &store);
    assert_eq!(r.load, strings(&["a"]));
    assert_eq!(r.soft_remove, strings(&["d"]));
}

#[test]
fn reconciliation_of_equal_and_empty_sets() {
    let r = update_files(&strings(&["x", "y"]), &strings(&["y", "x"]));
    assert!(r.load.is_empty() && r.soft_remove.is_empty());
    let r = update_files(&Vec::new(), &strings(&["x"]));
    assert!(r.load.is_empty());
    assert_eq!(r.soft_remove, strings(&["x"]));
    let r = update_files(&strings(&["x"]), &Vec::new());
    assert_eq!(r.load, strings(&["x"]));
    assert!(r.soft_remove.is_empty());
}

#[test]
fn playlist_pairs_files_with_ids() {
    let listing = pairs(&[("file", "A"), ("Pos", "0"), ("Id", "1"), ("file", "B"), ("Id", "2")]);
    let entries = pair_entries(&listing).unwrap();
    assert_eq!(entries, pairs(&[("A", "1"), ("B", "2")]));
    let mut ps = PlayerState::new();
    assert!(matches!(ps.playlist_change(&listing), Ok(false)));
    assert_eq!(ps.playlist, pairs(&[("A", "1"), ("B", "2")]));
    assert_eq!(ps.queued_id(&"B".to_string()).map(|s| s.as_str()), Some("2"));
    assert_eq!(ps.queued_id(&"C".to_string()), None);
}

#[test]
fn playlist_with_an_id_before_its_file_pairs_too() {
    let listing = pairs(&[("Id", "7"), ("file", "A")]);
    assert_eq!(pair_entries(&listing).unwrap(), pairs(&[("A", "7")]));
}

#[test]
fn playlist_ending_with_an_unmatched_file_is_refused() {
    let listing = pairs(&[("file", "A"), ("Id", "1"), ("file", "B")]);
    assert!(matches!(pair_entries(&listing), Err(SessionError::UnpairedPlaylist)));
    let mut ps = playing("0", "1", "", &[("Z", "9")]);
    assert!(matches!(ps.playlist_change(&listing), Err(SessionError::UnpairedPlaylist)));
    assert_eq!(ps.playlist, pairs(&[("Z", "9")]));
}

#[test]
fn playlist_with_two_files_in_a_row_is_refused() {
    let listing = pairs(&[("file", "A"), ("file", "B"), ("Id", "1")]);
    assert!(matches!(pair_entries(&listing), Err(SessionError::UnpairedPlaylist)));
    let listing = pairs(&[("Id", "1"), ("Id", "2"), ("file", "B")]);
    assert!(matches!(pair_entries(&listing), Err(SessionError::UnpairedPlaylist)));
}

#[test]
fn empty_queue_and_store_with_members_adds_exactly_one() {
    let mut ps = PlayerState::new();
    assert!(matches!(ps.playlist_change(&Vec::new()), Ok(true)));
    assert!(ps.wants_next(3));
    match ps.maybe_add_next(&"song.flac".to_string(), 3) {
        Selection::AddNew { file } => assert_eq!(file, "song.flac"),
        other => panic!("expected an add, got {:?}", other),
    }
}

#[test]
fn idle_notification_dispatch() {
    let changed = pairs(&[
        ("changed", "player"),
        ("changed", "mixer"),
        ("changed", "sticker"),
        ("changed", "database"),
        ("changed", "playlist"),
        ("changed", "options"),
    ]);
    assert_eq!(
        dispatch(&changed),
        vec![Handler::Player, Handler::Options, Handler::Database, Handler::Playlist, Handler::Options]
    );
    assert!(dispatch(&Vec::new()).is_empty());
}

#[test]
fn options_policy_corrections() {
    let status = pairs(&[("volume", "40"), ("repeat", "1"), ("xfade", "5")]);
    let r = options_change(&status, &config(true, true, true));
    assert_eq!(r.len(), 3);
    assert!(matches!(r[0], Command::VolumeFull));
    assert!(matches!(r[1], Command::RepeatOff));
    assert!(matches!(r[2], Command::CrossfadeOff));
    assert!(options_change(&status, &config(false, false, false)).is_empty());
    let fine = pairs(&[("volume", "100"), ("repeat", "0"), ("xfade", "0")]);
    assert!(options_change(&fine, &config(true, true, true)).is_empty());
    let r = options_change(&status, &config(false, true, false));
    assert_eq!(r.len(), 1);
    assert!(matches!(r[0], Command::VolumeFull));
}

#[test]
fn file_listing_keeps_file_entries() {
    let listing = pairs(&[("file", "a.flac"), ("directory", "d"), ("file", "b.mp3")]);
    assert_eq!(get_files(&listing, None), strings(&["a.flac", "b.mp3"]));
}

#[test]
fn file_listing_applies_the_filter() {
    let filter = SongFilter::from_setting(&r"\.flac$".to_string()).unwrap().unwrap();
    assert_eq!(filter.pattern(), r"\.flac$");
    let listing = pairs(&[("file", "a.flac"), ("file", "b.mp3"), ("title", "c.flac")]);
    assert_eq!(get_files(&listing, Some(&filter)), strings(&["a.flac"]));
    assert!(filter.accepts(&"x/y.flac".to_string()));
    assert!(!filter.accepts(&"x/y.flac.mp3".to_string()));
}

#[test]
fn filter_settings() {
    assert!(matches!(SongFilter::from_setting(&String::new()), Ok(None)));
    assert!(SongFilter::from_setting(&"(unclosed".to_string()).is_err());
}

#[test]
fn retention_settings() {
    assert_eq!(keep_last_from(-1), None);
    assert_eq!(keep_last_from(0), Some(0));
    assert_eq!(keep_last_from(25), Some(25));
}

#[test]
fn supervisor_policy() {
    assert_eq!(signal_while_connected(Signal::Maintenance), Decision::CompactStore);
    assert_eq!(signal_while_connected(Signal::Terminate), Decision::EndSession);
    assert_eq!(signal_while_disconnected(Signal::Maintenance), Decision::ReconnectNow);
    assert_eq!(signal_while_disconnected(Signal::Terminate), Decision::Exit);
    assert_eq!(after_session(true), Decision::Exit);
    assert_eq!(after_session(false), Decision::Backoff);
}

#[test]
fn session_startup_order() {
    assert_eq!(startup_handlers(), vec![Handler::Options, Handler::Playlist, Handler::Player]);
}

#[test]
fn prune_after_reads_positions_as_parse_does() {
    let ps = playing("+12", "1", "2", &[]);
    assert!(matches!(ps.prune_after(false, Some(2)), Ok(Some(Command::DeletePrefix { end: 10 }))));
    let ps = playing("-3", "1", "2", &[]);
    assert!(matches!(ps.prune_after(false, Some(2)), Err(SessionError::ParseInt(_))));
    let ps = playing("4294967296", "1", "2", &[]);
    assert!(matches!(ps.prune_after(false, Some(2)), Err(SessionError::ParseInt(_))));
    let ps = playing("4294967295", "1", "2", &[]);
    assert!(matches!(ps.prune_after(false, Some(5)), Ok(Some(Command::DeletePrefix { end: 4294967290 }))));
}
