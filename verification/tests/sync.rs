//! The synchronization engine: one tick's status and playlist decoding,
//! the empty-playlist and stopped-player display rules, the
//! encoding-agnostic numeric decode, and the whole selection scenario.

use lyra::app::App;
use lyra::app::AppState;
use lyra::config::Config;
use lyra::events::handle_events;
use lyra::events::EventOutcome;
use lyra::events::Key;
use lyra::lms::JsonField;
use lyra::lms::JsonValue;
use lyra::lms::LmsError;
use lyra::lms::PlaylistMode;
use lyra::lms::RepeatMode;
use lyra::lms::ShuffleMode;
use lyra::lms::LmsResponse;
use lyra::time::TrackTime;

fn field(key: &str, value: JsonValue) -> JsonField {
    JsonField { key: key.to_string(), value }
}

fn response(fields: Vec<JsonField>) -> LmsResponse {
    LmsResponse { result: fields }
}

fn text(s: &str) -> JsonValue {
    JsonValue::Str(s.to_string())
}

fn player_entry(name: &str, id: &str) -> JsonValue {
    JsonValue::Object(vec![field("name", text(name)), field("playerid", text(id))])
}

fn song_entry(index: u64, title: &str, artist: &str, album: &str, secs: u64) -> JsonValue {
    JsonValue::Object(vec![
        field("playlist index", JsonValue::UInt(index)),
        field("title", text(title)),
        field("artist", text(artist)),
        field("album", text(album)),
        field("duration", JsonValue::UInt(secs)),
    ])
}

fn status_response(tracks: u64, index: JsonValue, repeat: u64, shuffle: u64, mode: &str) -> LmsResponse {
    response(vec![
        field("player_name", text("Kitchen")),
        field("playlist_tracks", JsonValue::UInt(tracks)),
        field("playlist_cur_index", index),
        field("playlist repeat", JsonValue::UInt(repeat)),
        field("playlist shuffle", JsonValue::UInt(shuffle)),
        field("mode", text(mode)),
    ])
}

fn observing_app() -> App {
    let mut app = App::from(Config::default());
    let players = response(vec![field(
        "players_loop",
        JsonValue::Array(vec![player_entry("Kitchen", "p1")]),
    )]);
    app.update_player_list(&players).unwrap();
    let out = handle_events(Key::Enter, &mut app);
    assert_eq!(out, EventOutcome::PlayerSelected);
    app
}

#[test]
fn empty_playlist_pins_everything_to_zero() {
    // whatever else the server reports, zero tracks means index 0,
    // elapsed 0, an empty playlist, and no highlighted row
    let mut app = observing_app();
    let status = status_response(0, JsonValue::UInt(7), 1, 2, "play");
    let playlist = response(vec![field(
        "playlist_loop",
        JsonValue::Array(vec![song_entry(0, "Ghost", "Nobody", "Void", 100)]),
    )]);
    app.update_playlist_info(&status, None, &playlist).unwrap();
    let st = app.status.as_ref().unwrap();
    assert_eq!(st.total_tracks, 0);
    assert_eq!(st.playlist_index, 0);
    assert_eq!(st.elapsed_duration, TrackTime { secs: 0, millis: 0 });
    assert!(app.playlist.as_ref().unwrap().tracks.is_empty());
    assert_eq!(app.playlist_state, None);
}

#[test]
fn stopped_player_shows_zero_elapsed() {
    // the server reports a nonzero position; the stopped mode wins
    let mut app = observing_app();
    let status = status_response(3, JsonValue::UInt(1), 0, 0, "stop");
    let time = response(vec![field("_time", JsonValue::Num(TrackTime { secs: 95, millis: 0 }))]);
    let playlist = response(vec![field(
        "playlist_loop",
        JsonValue::Array(vec![
            song_entry(0, "One", "A", "X", 100),
            song_entry(1, "Two", "B", "X", 110),
            song_entry(2, "Three", "C", "X", 120),
        ]),
    )]);
    app.update_playlist_info(&status, Some(&time), &playlist).unwrap();
    let st = app.status.as_ref().unwrap();
    assert_eq!(st.playlist_mode, PlaylistMode::STOP);
    assert_eq!(st.elapsed_duration, TrackTime { secs: 0, millis: 0 });
}

#[test]
fn numeric_decode_is_encoding_agnostic() {
    // the same logical status, once with native numbers, once with the
    // numeric strings the server sometimes sends
    let native = status_response(3, JsonValue::UInt(1), 1, 0, "play");
    let stringy = response(vec![
        field("player_name", text("Kitchen")),
        field("playlist_tracks", text("3")),
        field("playlist_cur_index", text("1")),
        field("playlist repeat", text("1")),
        field("playlist shuffle", text("0")),
        field("mode", text("play")),
    ]);
    let time = response(vec![field("_time", JsonValue::UInt(17))]);

    let mut app1 = observing_app();
    app1.get_current_status(&native, Some(&time)).unwrap();
    let mut app2 = observing_app();
    app2.get_current_status(&stringy, Some(&time)).unwrap();
    assert_eq!(app1.status.as_ref().unwrap(), app2.status.as_ref().unwrap());
}

#[test]
fn unparsable_numeric_string_is_a_hard_error() {
    let mut app = observing_app();
    let status = status_response(3, text("first"), 0, 0, "play");
    let time = response(vec![field("_time", JsonValue::UInt(17))]);
    let before = app.status.clone();
    let r = app.get_current_status(&status, Some(&time));
    assert!(matches!(r, Err(LmsError::FieldTypeMismatch(_))));
    // the failed pass left the previous snapshot alone
    assert_eq!(app.status, before);
}

#[test]
fn unknown_play_mode_is_an_enum_decode_error() {
    let mut app = observing_app();
    let status = status_response(3, JsonValue::UInt(0), 0, 0, "rewinding");
    let time = response(vec![field("_time", JsonValue::UInt(17))]);
    assert_eq!(
        app.get_current_status(&status, Some(&time)),
        Err(LmsError::EnumDecodeError)
    );
}

#[test]
fn out_of_range_index_is_clamped_into_the_playlist() {
    let mut app = observing_app();
    let status = status_response(3, JsonValue::UInt(9), 0, 0, "pause");
    let time = response(vec![field("_time", JsonValue::UInt(17))]);
    app.get_current_status(&status, Some(&time)).unwrap();
    assert_eq!(app.status.as_ref().unwrap().playlist_index, 2);
}

#[test]
fn player_list_refresh_keeps_cursor_unless_emptied() {
    let mut app = App::from(Config::default());
    let two = response(vec![field(
        "players_loop",
        JsonValue::Array(vec![player_entry("Kitchen", "p1"), player_entry("Attic", "p2")]),
    )]);
    app.update_player_list(&two).unwrap();
    assert_eq!(app.player_list.state, Some(0));
    assert_eq!(app.player_list.players.len(), 2);
    assert_eq!(app.player_list.players[1].name, "Attic");

    let none = response(vec![field("players_loop", JsonValue::Array(vec![]))]);
    app.update_player_list(&none).unwrap();
    assert!(app.player_list.is_empty());
    assert_eq!(app.player_list.state, None);
}

#[test]
fn player_list_without_loop_field_is_an_error() {
    let mut app = App::from(Config::default());
    assert_eq!(
        app.update_player_list(&response(vec![])),
        Err(LmsError::FieldMissing)
    );
}

#[test]
fn selection_clamps_a_stale_cursor() {
    let mut app = App::from(Config::default());
    let players = response(vec![field(
        "players_loop",
        JsonValue::Array(vec![player_entry("Kitchen", "p1"), player_entry("Attic", "p2")]),
    )]);
    app.update_player_list(&players).unwrap();
    // the cursor remembers a row the shrunken list no longer has
    app.player_list.state = Some(5);
    app.select_player();
    assert_eq!(app.player_list.players[1].playerid, app.player.as_ref().unwrap().playerid);
}

#[test]
fn status_wants_time_only_with_tracks_queued() {
    let some = status_response(3, JsonValue::UInt(0), 0, 0, "play");
    let none = status_response(0, JsonValue::UInt(0), 0, 0, "play");
    assert!(App::status_wants_time(&some));
    assert!(!App::status_wants_time(&none));
}

#[test]
fn missing_song_field_fails_the_playlist_pass() {
    let mut app = observing_app();
    let status = status_response(1, JsonValue::UInt(0), 0, 0, "pause");
    let time = response(vec![field("_time", JsonValue::UInt(0))]);
    let playlist = response(vec![field(
        "playlist_loop",
        JsonValue::Array(vec![JsonValue::Object(vec![
            field("playlist index", JsonValue::UInt(0)),
            field("artist", text("A")),
            field("album", text("X")),
            field("duration", JsonValue::UInt(100)),
        ])]),
    )]);
    let r = app.update_playlist_info(&status, Some(&time), &playlist);
    assert_eq!(r, Err(LmsError::FieldMissing));
    // the status part had already committed; the playlist did not
    assert!(app.status.is_some());
    assert!(app.playlist.is_none());
}

#[test]
fn current_track_follows_the_status_index() {
    let mut app = observing_app();
    assert!(app.current_track().is_none());

    let status = status_response(2, JsonValue::UInt(1), 0, 0, "pause");
    let time = response(vec![field("_time", JsonValue::UInt(3))]);
    let playlist = response(vec![field(
        "playlist_loop",
        JsonValue::Array(vec![
            song_entry(0, "One", "A", "X", 100),
            song_entry(1, "Two", "B", "X", 110),
        ]),
    )]);
    app.update_playlist_info(&status, Some(&time), &playlist).unwrap();
    assert_eq!(app.current_track().unwrap().title, "Two");
}

#[test]
fn whole_selection_scenario_decodes_one_tick() {
    // one player on the server, confirmed from the menu
    let mut app = observing_app();
    assert_eq!(app.player.as_ref().unwrap().playerid, "p1");
    assert_eq!(app.player.as_ref().unwrap().name, "Kitchen");

    // the refresh that follows the confirmation
    let status = status_response(3, text("1"), 1, 0, "play");
    assert!(App::status_wants_time(&status));
    let time = response(vec![field(
        "_time",
        JsonValue::Num(TrackTime { secs: 42, millis: 500 }),
    )]);
    let playlist = response(vec![field(
        "playlist_loop",
        JsonValue::Array(vec![
            song_entry(0, "One", "A", "X", 100),
            song_entry(1, "Two", "B", "X", 110),
            song_entry(2, "Three", "C", "X", 120),
        ]),
    )]);
    app.update_playlist_info(&status, Some(&time), &playlist).unwrap();
    app.change_state(AppState::Playlist);

    let st = app.status.as_ref().unwrap();
    assert_eq!(st.player_name, "Kitchen");
    assert_eq!(st.total_tracks, 3);
    assert_eq!(st.playlist_index, 1);
    assert_eq!(st.playlist_repeat, RepeatMode::TRACK);
    assert_eq!(st.playlist_shuffle, ShuffleMode::NONE);
    assert_eq!(st.playlist_mode, PlaylistMode::PLAY);
    // the elapsed time came from the time query, not forced to zero
    assert_eq!(st.elapsed_duration, TrackTime { secs: 42, millis: 500 });

    let pl = app.playlist.as_ref().unwrap();
    assert_eq!(pl.tracks.len(), 3);
    assert_eq!(pl.tracks[1].title, "Two");
    assert_eq!(pl.tracks[2].duration, TrackTime { secs: 120, millis: 0 });
    assert_eq!(app.playlist_state, Some(1));
}
