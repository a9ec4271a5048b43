//! Input handling: the keys the dashboard understands and the exact step
//! each one makes on the engine.
//!
//! The terminal delivers raw key events outside this library; they reach
//! the engine as plain `Key` values. Confirming a selection cannot poll
//! the server from here, so the handler adopts the player and reports
//! `PlayerSelected`: the event loop then refreshes the snapshot and
//! enters the playlist view, in that order, so the first rendered frame
//! is never stale.

use vstd::prelude::*;

use crate::app::nav_bottom;
use crate::app::nav_down;
use crate::app::nav_top;
use crate::app::nav_up;
use crate::app::spec_selected_player;
use crate::app::App;
use crate::app::AppState;
use crate::app::PlayerList;

verus! {

/// A key press, as the engine understands it.
#[derive(Clone, Copy, Debug, PartialEq, Eq, Structural)]
pub enum Key {
    Char(char),
    Up,
    Down,
    Enter,
    Esc,
    Home,
    End,
    /// Any key the dashboard has no binding for.
    Other,
}

/// What the event loop must do after a key was handled.
#[derive(Clone, Copy, Debug, PartialEq, Eq, Structural)]
pub enum EventOutcome {
    Nothing,
    /// A player was adopted: refresh its status and playlist, then show
    /// the playlist view.
    PlayerSelected,
}

/// The engine with its player-list cursor moved.
pub open spec fn with_cursor(a: App, sel: Option<usize>) -> App {
    App { player_list: PlayerList { players: a.player_list.players, state: sel }, ..a }
}

/// The engine with the quit flag raised.
pub open spec fn with_quit(a: App) -> App {
    App { quit: true, ..a }
}

/// Confirming a selection: on a non-empty list, adopt the player under
/// the (clamped) cursor and ask for a refresh; an empty list confirms
/// nothing.
pub open spec fn confirm_selection(a: App) -> (App, EventOutcome) {
    if a.player_list.players@.len() == 0 {
        (a, EventOutcome::Nothing)
    } else {
        (
            App {
                player: (match spec_selected_player(a.player_list.players@, a.player_list.state) {
                    Some(p) => Some(p),
                    None => a.player,
                }),
                ..a
            },
            EventOutcome::PlayerSelected,
        )
    }
}

/// The exact step each key makes while browsing the player list.
pub open spec fn spec_player_menu_step(a: App, key: Key) -> (App, EventOutcome) {
    let len = a.player_list.players@.len() as int;
    let sel = a.player_list.state;
    match key {
        Key::Char(c) => if c == 'q' {
            (with_quit(a), EventOutcome::Nothing)
        } else if c == ' ' {
            confirm_selection(a)
        } else if c == 'j' {
            (with_cursor(a, nav_down(sel, len)), EventOutcome::Nothing)
        } else if c == 'k' {
            (with_cursor(a, nav_up(sel, len)), EventOutcome::Nothing)
        } else if c == 'g' {
            (with_cursor(a, nav_top(sel)), EventOutcome::Nothing)
        } else if c == 'G' {
            (with_cursor(a, nav_bottom(sel, len)), EventOutcome::Nothing)
        } else {
            (a, EventOutcome::Nothing)
        },
        Key::Esc => (with_quit(a), EventOutcome::Nothing),
        Key::Enter => confirm_selection(a),
        Key::Down => (with_cursor(a, nav_down(sel, len)), EventOutcome::Nothing),
        Key::Up => (with_cursor(a, nav_up(sel, len)), EventOutcome::Nothing),
        Key::Home => (with_cursor(a, nav_top(sel)), EventOutcome::Nothing),
        Key::End => (with_cursor(a, nav_bottom(sel, len)), EventOutcome::Nothing),
        Key::Other => (a, EventOutcome::Nothing),
    }
}

/// The exact step each key makes while viewing a playlist.
pub open spec fn spec_playlist_step(a: App, key: Key) -> App {
    match key {
        Key::Char(c) => if c == 'q' {
            with_quit(a)
        } else if c == 'p' {
            App { state: AppState::PlayerMenu, ..a }
        } else {
            a
        },
        _ => a,
    }
}

/// Handles one key in the player menu.
pub fn handle_player_menu_events(key: Key, app: &mut App) -> (out: EventOutcome)
    ensures
        (*final(app), out) == spec_player_menu_step(*old(app), key),
{
    let mut out = EventOutcome::Nothing;
    match key {
        Key::Char(c) => {
            if c == 'q' {
                app.quit = true;
            } else if c == ' ' {
                if !app.player_list.is_empty() {
                    app.select_player();
                    out = EventOutcome::PlayerSelected;
                }
            } else if c == 'j' {
                app.list_down();
            } else if c == 'k' {
                app.list_up();
            } else if c == 'g' {
                app.jump_to_list_top();
            } else if c == 'G' {
                app.jump_to_list_bottom();
            }
        },
        Key::Esc => {
            app.quit = true;
        },
        Key::Enter => {
            if !app.player_list.is_empty() {
                app.select_player();
                out = EventOutcome::PlayerSelected;
            }
        },
        Key::Down => app.list_down(),
        Key::Up => app.list_up(),
        Key::Home => app.jump_to_list_top(),
        Key::End => app.jump_to_list_bottom(),
        Key::Other => {},
    }
    out
}

/// Handles one key in the playlist view.
pub fn handle_playlist_events(key: Key, app: &mut App)
    ensures
        *final(app) == spec_playlist_step(*old(app), key),
{
    match key {
        Key::Char(c) => {
            if c == 'q' {
                app.quit = true;
            } else if c == 'p' {
                app.change_state(AppState::PlayerMenu);
            }
        },
        _ => {},
    }
}

/// Routes one key to the handler of the current state.
pub fn handle_events(key: Key, app: &mut App) -> (out: EventOutcome)
    ensures
        old(app).state == AppState::PlayerMenu ==> (*final(app), out) == spec_player_menu_step(
            *old(app),
            key,
        ),
        old(app).state == AppState::Playlist ==> *final(app) == spec_playlist_step(*old(app), key)
            && out == EventOutcome::Nothing,
{
    match app.state {
        AppState::PlayerMenu => handle_player_menu_events(key, app),
        AppState::Playlist => {
            handle_playlist_events(key, app);
            EventOutcome::Nothing
        },
    }
}

} // verus!
