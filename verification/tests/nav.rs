//! List navigation: wraparound in both directions, no-ops on the empty
//! list, and the jump keys.

use lyra::app::App;
use lyra::app::AppState;
use lyra::config::Config;
use lyra::events::handle_events;
use lyra::events::EventOutcome;
use lyra::events::Key;
use lyra::lms::JsonField;
use lyra::lms::JsonValue;
use lyra::lms::LmsResponse;

fn field(key: &str, value: JsonValue) -> JsonField {
    JsonField { key: key.to_string(), value }
}

fn player_entry(name: &str, id: &str) -> JsonValue {
    JsonValue::Object(vec![
        field("name", JsonValue::Str(name.to_string())),
        field("playerid", JsonValue::Str(id.to_string())),
    ])
}

fn app_with_players(n: u64) -> App {
    let mut app = App::from(Config::default());
    let mut entries = Vec::new();
    for i in 0..n {
        entries.push(player_entry(&format!("Player{}", i), &format!("id{}", i)));
    }
    let res = LmsResponse { result: vec![field("players_loop", JsonValue::Array(entries))] };
    app.update_player_list(&res).unwrap();
    app
}

#[test]
fn move_down_wraps_from_last_to_first() {
    let mut app = app_with_players(3);
    app.player_list.state = Some(2);
    app.list_down();
    assert_eq!(app.player_list.state, Some(0));
}

#[test]
fn move_up_wraps_from_first_to_last() {
    let mut app = app_with_players(3);
    app.player_list.state = Some(0);
    app.list_up();
    assert_eq!(app.player_list.state, Some(2));
}

#[test]
fn moves_in_the_middle_step_one_row() {
    let mut app = app_with_players(3);
    app.player_list.state = Some(1);
    app.list_down();
    assert_eq!(app.player_list.state, Some(2));
    app.list_up();
    assert_eq!(app.player_list.state, Some(1));
}

#[test]
fn moves_on_an_empty_list_are_no_ops() {
    let mut app = app_with_players(0);
    assert_eq!(app.player_list.state, None);
    app.list_down();
    assert_eq!(app.player_list.state, None);
    app.list_up();
    assert_eq!(app.player_list.state, None);
}

#[test]
fn moves_with_no_selection_land_on_an_end() {
    let mut app = app_with_players(3);
    app.player_list.state = None;
    app.list_down();
    assert_eq!(app.player_list.state, Some(0));
    app.player_list.state = None;
    app.list_up();
    assert_eq!(app.player_list.state, Some(2));
}

#[test]
fn jumps_act_only_with_a_selection() {
    let mut app = app_with_players(3);
    app.player_list.state = Some(1);
    app.jump_to_list_top();
    assert_eq!(app.player_list.state, Some(0));
    app.jump_to_list_bottom();
    assert_eq!(app.player_list.state, Some(2));
    app.player_list.state = None;
    app.jump_to_list_top();
    assert_eq!(app.player_list.state, None);
    app.jump_to_list_bottom();
    assert_eq!(app.player_list.state, None);
}

#[test]
fn menu_keys_drive_the_cursor() {
    let mut app = app_with_players(3);
    assert_eq!(handle_events(Key::Char('j'), &mut app), EventOutcome::Nothing);
    assert_eq!(app.player_list.state, Some(1));
    assert_eq!(handle_events(Key::Down, &mut app), EventOutcome::Nothing);
    assert_eq!(app.player_list.state, Some(2));
    assert_eq!(handle_events(Key::Char('k'), &mut app), EventOutcome::Nothing);
    assert_eq!(app.player_list.state, Some(1));
    assert_eq!(handle_events(Key::Char('g'), &mut app), EventOutcome::Nothing);
    assert_eq!(app.player_list.state, Some(0));
    assert_eq!(handle_events(Key::Char('G'), &mut app), EventOutcome::Nothing);
    assert_eq!(app.player_list.state, Some(2));
}

#[test]
fn quit_keys_raise_the_flag_in_both_states() {
    let mut app = app_with_players(1);
    assert!(!app.quit);
    handle_events(Key::Esc, &mut app);
    assert!(app.quit);

    let mut app2 = app_with_players(1);
    app2.change_state(AppState::Playlist);
    handle_events(Key::Char('q'), &mut app2);
    assert!(app2.quit);
}

#[test]
fn confirming_on_an_empty_list_does_nothing() {
    let mut app = app_with_players(0);
    let out = handle_events(Key::Enter, &mut app);
    assert_eq!(out, EventOutcome::Nothing);
    assert!(app.player.is_none());
    assert!(matches!(app.state, AppState::PlayerMenu));
}

#[test]
fn back_key_returns_to_the_player_menu() {
    let mut app = app_with_players(1);
    handle_events(Key::Enter, &mut app);
    app.change_state(AppState::Playlist);
    handle_events(Key::Char('p'), &mut app);
    assert!(matches!(app.state, AppState::PlayerMenu));
}

#[test]
fn unbound_keys_change_nothing() {
    let mut app = app_with_players(2);
    let cursor = app.player_list.state;
    assert_eq!(handle_events(Key::Char('x'), &mut app), EventOutcome::Nothing);
    assert_eq!(handle_events(Key::Other, &mut app), EventOutcome::Nothing);
    assert_eq!(app.player_list.state, cursor);
    assert!(!app.quit);
    assert!(app.player.is_none());
}
