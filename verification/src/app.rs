//! The synchronization engine: a state machine over two states —
//! browsing the player list, and observing one player's playlist — that
//! turns decoded responses into a consistent typed snapshot each tick.
//!
//! The engine never performs a network call itself: the event loop issues
//! the commands the engine names and hands every response back as a
//! decoded document. A decode failure leaves the previous snapshot in
//! place; nothing is partially committed.

use vstd::prelude::*;

use crate::config::Config;
use crate::lms::decode_players;
use crate::lms::decode_songs;
use crate::lms::spec_coerce_time;
use crate::lms::spec_coerce_u64;
use crate::lms::spec_get_array;
use crate::lms::spec_get_str;
use crate::lms::spec_lookup;
use crate::lms::spec_playlist_mode;
use crate::lms::spec_players_of;
use crate::lms::spec_repeat_mode;
use crate::lms::spec_shuffle_mode;
use crate::lms::spec_songs_of;
use crate::lms::JsonField;
use crate::lms::JsonValue;
use crate::lms::LmsError;
use crate::lms::LmsPlayer;
use crate::lms::LmsPlaylist;
use crate::lms::LmsResponse;
use crate::lms::LmsSong;
use crate::lms::LmsStatus;
use crate::lms::PlaylistMode;
use crate::lms::RepeatMode;
use crate::lms::ShuffleMode;
use crate::time::TrackTime;

verus! {

/// The enumerated players and the row the cursor rests on, if any.
#[derive(Debug)]
pub struct PlayerList {
    pub players: Vec<LmsPlayer>,
    /// The highlighted row; `None` when nothing is selectable.
    pub state: Option<usize>,
}

impl PlayerList {
    /// An empty list with the cursor parked on the first row, ready for
    /// the first enumeration to arrive.
    pub fn default() -> (p: PlayerList)
        ensures
            p.players@ == Seq::<LmsPlayer>::empty(),
            p.state == Some(0usize),
    {
        PlayerList { players: Vec::new(), state: Some(0) }
    }

    pub fn is_empty(&self) -> (b: bool)
        ensures
            b == (self.players@.len() == 0),
    {
        self.players.is_empty()
    }
}

/// The two states of the engine; quitting is a flag, not a state.
#[derive(Clone, Copy, Debug, PartialEq, Eq, Structural)]
pub enum AppState {
    PlayerMenu,
    Playlist,
}

/// The engine's whole state: the current snapshot (player, playlist,
/// status), the selection state that outlives snapshots, and the
/// configuration.
#[derive(Debug)]
pub struct App {
    pub state: AppState,
    pub quit: bool,
    pub player: Option<LmsPlayer>,
    pub playlist: Option<LmsPlaylist>,
    pub status: Option<LmsStatus>,
    /// The playlist row to highlight; always mirrors the status's current
    /// index, never navigated by the user.
    pub playlist_state: Option<usize>,
    pub player_list: PlayerList,
    pub config: Config,
}

// Contract shorthand: the parts of the engine a step leaves untouched.
pub open spec fn eq_except_status(a: App, b: App) -> bool {
    &&& a.state == b.state
    &&& a.quit == b.quit
    &&& a.player == b.player
    &&& a.playlist == b.playlist
    &&& a.playlist_state == b.playlist_state
    &&& a.player_list == b.player_list
    &&& a.config == b.config
}

pub open spec fn eq_except_playlist(a: App, b: App) -> bool {
    &&& a.state == b.state
    &&& a.quit == b.quit
    &&& a.player == b.player
    &&& a.status == b.status
    &&& a.playlist_state == b.playlist_state
    &&& a.player_list == b.player_list
    &&& a.config == b.config
}

pub open spec fn eq_except_player_list(a: App, b: App) -> bool {
    &&& a.state == b.state
    &&& a.quit == b.quit
    &&& a.player == b.player
    &&& a.playlist == b.playlist
    &&& a.status == b.status
    &&& a.playlist_state == b.playlist_state
    &&& a.config == b.config
}

pub open spec fn eq_except_cursor(a: App, b: App) -> bool {
    &&& a.state == b.state
    &&& a.quit == b.quit
    &&& a.player == b.player
    &&& a.playlist == b.playlist
    &&& a.status == b.status
    &&& a.playlist_state == b.playlist_state
    &&& a.player_list.players == b.player_list.players
    &&& a.config == b.config
}

pub open spec fn eq_except_playlist_cursor(a: App, b: App) -> bool {
    &&& a.state == b.state
    &&& a.quit == b.quit
    &&& a.player == b.player
    &&& a.playlist == b.playlist
    &&& a.status == b.status
    &&& a.player_list == b.player_list
    &&& a.config == b.config
}

pub open spec fn eq_except_player(a: App, b: App) -> bool {
    &&& a.state == b.state
    &&& a.quit == b.quit
    &&& a.playlist == b.playlist
    &&& a.status == b.status
    &&& a.playlist_state == b.playlist_state
    &&& a.player_list == b.player_list
    &&& a.config == b.config
}

/// Wraparound cursor movement down a list of `len` rows.
pub open spec fn nav_down(sel: Option<usize>, len: int) -> Option<usize> {
    if len == 0 {
        sel
    } else {
        Some(
            (match sel {
                Some(i) => if i as int >= len - 1 {
                    0usize
                } else {
                    (i + 1) as usize
                },
                None => 0usize,
            }),
        )
    }
}

/// Wraparound cursor movement up a list of `len` rows.
pub open spec fn nav_up(sel: Option<usize>, len: int) -> Option<usize> {
    if len == 0 {
        sel
    } else {
        Some(
            (match sel {
                Some(i) => if i == 0 {
                    (len - 1) as usize
                } else {
                    (i - 1) as usize
                },
                None => (len - 1) as usize,
            }),
        )
    }
}

/// Jump to the first row, only when a selection exists.
pub open spec fn nav_top(sel: Option<usize>) -> Option<usize> {
    match sel {
        Some(_) => Some(0usize),
        None => None,
    }
}

/// Jump to the last row, only when a selection exists; an empty list has
/// no last row, so the selection clears.
pub open spec fn nav_bottom(sel: Option<usize>, len: int) -> Option<usize> {
    match sel {
        Some(_) => if len == 0 {
            None
        } else {
            Some((len - 1) as usize)
        },
        None => None,
    }
}

/// Wraparound, spelled out: on a list of `len` rows, moving down from
/// the last row lands on the first and moving up from the first lands on
/// the last, while on an empty list both moves leave the cursor alone.
pub proof fn lemma_nav_wraparound(len: int)
    requires
        0 <= len <= usize::MAX,
    ensures
        len > 0 ==> nav_down(Some((len - 1) as usize), len) == Some(0usize),
        len > 0 ==> nav_up(Some(0usize), len) == Some((len - 1) as usize),
        nav_down(None, 0) == None::<usize>,
        nav_up(None, 0) == None::<usize>,
{
}

/// The player the cursor points at, clamped into the list.
pub open spec fn spec_selected_player(ps: Seq<LmsPlayer>, sel: Option<usize>) -> Option<LmsPlayer> {
    match sel {
        Some(i) => if ps.len() == 0 {
            None
        } else if (i as int) < ps.len() {
            Some(ps[i as int])
        } else {
            Some(ps[ps.len() - 1])
        },
        None => None,
    }
}

impl App {
    /// A fresh engine in the player menu, with nothing polled yet.
    pub fn from(config: Config) -> (app: App)
        ensures
            app.state == AppState::PlayerMenu,
            app.quit == false,
            app.player is None,
            app.playlist is None,
            app.status is None,
            app.playlist_state is None,
            app.player_list.players@ == Seq::<LmsPlayer>::empty(),
            app.player_list.state == Some(0usize),
            app.config == config,
    {
        App {
            state: AppState::PlayerMenu,
            quit: false,
            player: None,
            playlist: None,
            status: None,
            playlist_state: None,
            player_list: PlayerList::default(),
            config,
        }
    }

    /// Switches between browsing players and observing a playlist.
    pub fn change_state(&mut self, new_state: AppState)
        ensures
            final(self).state == new_state,
            eq_except_state(*old(self), *final(self)),
    {
        self.state = new_state;
    }

    /// The id of the observed player, if one is selected.
    pub fn get_current_playerid(&self) -> (r: Option<String>)
        ensures
            r == (match self.player {
                Some(p) => Some(p.playerid),
                None => None::<String>,
            }),
    {
        if let Some(player) = &self.player {
            Some(player.playerid.clone())
        } else {
            None
        }
    }

    /// Adopts the player under the cursor as the one to observe. The
    /// server may have shrunk the list since the cursor moved, so the
    /// cursor is clamped to the list on use; with no cursor or no
    /// players, nothing changes.
    pub fn select_player(&mut self)
        ensures
            eq_except_player(*old(self), *final(self)),
            final(self).player == (match spec_selected_player(
                old(self).player_list.players@,
                old(self).player_list.state,
            ) {
                Some(p) => Some(p),
                None => old(self).player,
            }),
    {
        if let Some(index) = self.player_list.state {
            let len = self.player_list.players.len();
            if len > 0 {
                let k = if index < len {
                    index
                } else {
                    len - 1
                };
                let p: &LmsPlayer = &self.player_list.players[k];
                self.player = Some(p.clone());
            }
        }
    }

    /// Moves the player-list cursor down one row, wrapping from the last
    /// row to the first; a no-op on an empty list.
    pub fn list_down(&mut self)
        ensures
            eq_except_cursor(*old(self), *final(self)),
            final(self).player_list.state == nav_down(
                old(self).player_list.state,
                old(self).player_list.players@.len() as int,
            ),
    {
        if !self.player_list.is_empty() {
            let len = self.player_list.players.len();
            let i: usize = match self.player_list.state {
                Some(i) => if i >= len - 1 {
                    0
                } else {
                    i + 1
                },
                None => 0,
            };
            self.player_list.state = Some(i);
        }
    }

    /// Moves the player-list cursor up one row, wrapping from the first
    /// row to the last; a no-op on an empty list.
    pub fn list_up(&mut self)
        ensures
            eq_except_cursor(*old(self), *final(self)),
            final(self).player_list.state == nav_up(
                old(self).player_list.state,
                old(self).player_list.players@.len() as int,
            ),
    {
        if !self.player_list.is_empty() {
            let len = self.player_list.players.len();
            let i: usize = match self.player_list.state {
                Some(i) => if i == 0 {
                    len - 1
                } else {
                    i - 1
                },
                None => len - 1,
            };
            self.player_list.state = Some(i);
        }
    }

    /// Jumps to the first row, but only when a selection exists.
    pub fn jump_to_list_top(&mut self)
        ensures
            eq_except_cursor(*old(self), *final(self)),
            final(self).player_list.state == nav_top(old(self).player_list.state),
    {
        if let Some(_) = self.player_list.state {
            self.player_list.state = Some(0);
        }
    }

    /// Jumps to the last row, but only when a selection exists; an empty
    /// list has no last row to land on, so its selection clears.
    pub fn jump_to_list_bottom(&mut self)
        ensures
            eq_except_cursor(*old(self), *final(self)),
            final(self).player_list.state == nav_bottom(
                old(self).player_list.state,
                old(self).player_list.players@.len() as int,
            ),
    {
        if let Some(_) = self.player_list.state {
            let len = self.player_list.players.len();
            if len == 0 {
                self.player_list.state = None;
            } else {
                self.player_list.state = Some(len - 1);
            }
        }
    }
}

pub open spec fn eq_except_state(a: App, b: App) -> bool {
    &&& a.quit == b.quit
    &&& a.player == b.player
    &&& a.playlist == b.playlist
    &&& a.status == b.status
    &&& a.playlist_state == b.playlist_state
    &&& a.player_list == b.player_list
    &&& a.config == b.config
}

pub open spec fn eq_except_snapshot(a: App, b: App) -> bool {
    &&& a.state == b.state
    &&& a.quit == b.quit
    &&& a.player == b.player
    &&& a.player_list == b.player_list
    &&& a.config == b.config
}

/// The optional time response, as the document it carries.
pub open spec fn time_view(t: Option<&LmsResponse>) -> Option<Seq<JsonField>> {
    match t {
        Some(r) => Some(r@),
        None => None,
    }
}

/// The index the snapshot keeps: the reported one when it lies inside the
/// playlist, else pinned to the last slot — or zero when nothing is queued.
pub open spec fn clamp_index(total: u64, raw: u64) -> u64 {
    if total == 0 {
        0
    } else if raw < total {
        raw
    } else {
        (total - 1) as u64
    }
}

/// How one status snapshot reads out of the status response and the
/// (separately queried) time response. Field by field, in order:
/// the player's name; the track count; the current index (skipped and
/// zero when nothing is queued, clamped into the playlist otherwise);
/// the repeat and shuffle codes, totally; the play mode, strictly; and
/// the elapsed position, forced to zero for an empty playlist or a
/// stopped player without consulting the time response at all.
pub open spec fn spec_status_of(res: Seq<JsonField>, time: Option<Seq<JsonField>>) -> Result<
    LmsStatus,
    LmsError,
> {
    match spec_get_str(res, "player_name"@) {
        Err(e) => Err(e),
        Ok(player_name) => match spec_coerce_u64(res, "playlist_tracks"@) {
            Err(e) => Err(e),
            Ok(total_tracks) => match (if total_tracks == 0 {
                Ok(0u64)
            } else {
                spec_coerce_u64(res, "playlist_cur_index"@)
            }) {
                Err(e) => Err(e),
                Ok(raw_index) => match spec_coerce_u64(res, "playlist repeat"@) {
                    Err(e) => Err(e),
                    Ok(repeat_code) => match spec_coerce_u64(res, "playlist shuffle"@) {
                        Err(e) => Err(e),
                        Ok(shuffle_code) => match spec_get_str(res, "mode"@) {
                            Err(e) => Err(e),
                            Ok(mode_text) => match spec_playlist_mode(mode_text@) {
                                Err(e) => Err(e),
                                Ok(playlist_mode) => match (if total_tracks == 0 || playlist_mode
                                    is STOP {
                                    Ok(TrackTime { secs: 0, millis: 0 })
                                } else {
                                    match time {
                                        None => Err(LmsError::FieldMissing),
                                        Some(t) => spec_coerce_time(t, "_time"@),
                                    }
                                }) {
                                    Err(e) => Err(e),
                                    Ok(elapsed_duration) => Ok(
                                        LmsStatus {
                                            player_name,
                                            playlist_index: clamp_index(total_tracks, raw_index),
                                            playlist_repeat: spec_repeat_mode(repeat_code),
                                            playlist_shuffle: spec_shuffle_mode(shuffle_code),
                                            playlist_mode,
                                            total_tracks,
                                            elapsed_duration,
                                        },
                                    ),
                                },
                            },
                        },
                    },
                },
            },
        },
    }
}

/// How the playlist reads out of the playlist response: an absent or
/// ill-typed `playlist_loop` is an empty playlist, but a present one must
/// decode entry for entry.
pub open spec fn spec_playlist_of(res: Seq<JsonField>) -> Result<Seq<LmsSong>, LmsError> {
    match spec_get_array(res, "playlist_loop"@) {
        Err(_) => Ok(Seq::empty()),
        Ok(arr) => spec_songs_of(arr@),
    }
}

/// How the player list reads out of the enumeration response.
pub open spec fn spec_player_list_of(res: Seq<JsonField>) -> Result<Seq<LmsPlayer>, LmsError> {
    match spec_get_array(res, "players_loop"@) {
        Err(e) => Err(e),
        Ok(arr) => spec_players_of(arr@),
    }
}

/// The track under the status's current index, when the snapshot holds
/// one: what the playbar footer is about.
pub open spec fn spec_current_track(
    status: Option<LmsStatus>,
    playlist: Option<LmsPlaylist>,
) -> Option<LmsSong> {
    match (status, playlist) {
        (Some(st), Some(pl)) => if st.total_tracks != 0 && (st.playlist_index as int)
            < pl.tracks@.len() {
            Some(pl.tracks@[st.playlist_index as int])
        } else {
            None
        },
        _ => None,
    }
}

/// The playlist row the display highlights: the status's current index,
/// or nothing when no status is held or nothing is queued.
pub open spec fn spec_mirror_cursor(status: Option<LmsStatus>) -> Option<usize> {
    match status {
        None => None,
        Some(st) => if st.total_tracks == 0 {
            None
        } else if st.playlist_index <= usize::MAX as u64 {
            Some(st.playlist_index as usize)
        } else {
            Some(usize::MAX)
        },
    }
}

/// Every status the decoder hands out satisfies the display-correctness
/// invariant: an empty playlist pins index and position to zero, a
/// current index stays inside the playlist, and a stopped player shows a
/// zero position even when the server reported one.
pub proof fn lemma_status_of_wf(res: Seq<JsonField>, time: Option<Seq<JsonField>>)
    ensures
        spec_status_of(res, time) matches Ok(st) ==> st.wf(),
{
}

/// Status decoding depends on the responses only through their typed
/// field reads: two response pairs whose reads agree decode to the same
/// status. With the readers' own encoding-agnosticism, a numeric field
/// sent as a native integer or as its numeric string leaves the decoded
/// status identical.
pub proof fn lemma_status_decode_encoding_agnostic(
    r1: Seq<JsonField>,
    r2: Seq<JsonField>,
    t1: Option<Seq<JsonField>>,
    t2: Option<Seq<JsonField>>,
)
    requires
        spec_get_str(r1, "player_name"@) == spec_get_str(r2, "player_name"@),
        spec_coerce_u64(r1, "playlist_tracks"@) == spec_coerce_u64(r2, "playlist_tracks"@),
        spec_coerce_u64(r1, "playlist_cur_index"@) == spec_coerce_u64(r2, "playlist_cur_index"@),
        spec_coerce_u64(r1, "playlist repeat"@) == spec_coerce_u64(r2, "playlist repeat"@),
        spec_coerce_u64(r1, "playlist shuffle"@) == spec_coerce_u64(r2, "playlist shuffle"@),
        spec_get_str(r1, "mode"@) == spec_get_str(r2, "mode"@),
        t1 is None <==> t2 is None,
        t1 matches Some(x) ==> t2 matches Some(y) && spec_coerce_time(x, "_time"@)
            == spec_coerce_time(y, "_time"@),
    ensures
        spec_status_of(r1, t1) == spec_status_of(r2, t2),
{
}

/// Swapping one numeric status field between its native-integer and
/// numeric-string encodings — the inconsistency the server is known
/// for — leaves the decoded status identical, field for field.
pub proof fn lemma_status_encoding_swap(
    r1: Seq<JsonField>,
    r2: Seq<JsonField>,
    t: Option<Seq<JsonField>>,
    k: Seq<char>,
    n: u64,
    s: String,
)
    requires
        k == "playlist_tracks"@ || k == "playlist_cur_index"@ || k == "playlist repeat"@ || k
            == "playlist shuffle"@,
        crate::num::spec_parse_u64(s@) == Some(n),
        spec_lookup(r1, k) == Some(JsonValue::UInt(n)),
        spec_lookup(r2, k) == Some(JsonValue::Str(s)),
        forall|key: Seq<char>| key != k ==> spec_lookup(r1, key) == spec_lookup(r2, key),
    ensures
        spec_status_of(r1, t) == spec_status_of(r2, t),
{
    reveal_strlit("player_name");
    reveal_strlit("mode");
    reveal_strlit("playlist_tracks");
    reveal_strlit("playlist_cur_index");
    reveal_strlit("playlist repeat");
    reveal_strlit("playlist shuffle");
    assert("player_name"@.len() == 11);
    assert("mode"@.len() == 4);
    assert("playlist_tracks"@.len() == 15);
    assert("playlist_cur_index"@.len() == 18);
    assert("playlist repeat"@.len() == 15);
    assert("playlist shuffle"@.len() == 16);
    assert("player_name"@ != k && "mode"@ != k);
    assert(spec_lookup(r1, "player_name"@) == spec_lookup(r2, "player_name"@));
    assert(spec_lookup(r1, "mode"@) == spec_lookup(r2, "mode"@));
    crate::lms::lemma_coerce_u64_encoding_agnostic(n, s, r1, r2, k);
    assert forall|key: Seq<char>|
        key == "playlist_tracks"@ || key == "playlist_cur_index"@ || key == "playlist repeat"@
            || key == "playlist shuffle"@ implies spec_coerce_u64(r1, key) == spec_coerce_u64(
        r2,
        key,
    ) by {
        if key != k {
            assert(spec_lookup(r1, key) == spec_lookup(r2, key));
        }
    }
    lemma_status_decode_encoding_agnostic(r1, r2, t, t);
}

impl App {
    /// Whether the engine will need the elapsed-time response for this
    /// status response: only when tracks are queued. The caller may skip
    /// the would-be-meaningless time query otherwise.
    pub fn status_wants_time(res: &LmsResponse) -> (b: bool)
        ensures
            b == (spec_coerce_u64(res@, "playlist_tracks"@) matches Ok(n) && n > 0),
    {
        match res.coerce_u64("playlist_tracks") {
            Ok(n) => n > 0,
            Err(_) => false,
        }
    }

    /// Derives this tick's status snapshot from the status response and
    /// the separately queried time response, committing it only when the
    /// whole decode succeeds; a failure leaves the previous snapshot in
    /// place. With no player observed there is no status.
    pub fn get_current_status(&mut self, res: &LmsResponse, time_res: Option<&LmsResponse>) -> (r:
        Result<(), LmsError>)
        ensures
            eq_except_status(*old(self), *final(self)),
            old(self).player is None ==> r is Ok && final(self).status is None,
            old(self).player is Some ==> match spec_status_of(res@, time_view(time_res)) {
                Ok(st) => r is Ok && final(self).status == Some(st),
                Err(e) => r == Err::<(), LmsError>(e) && final(self).status == old(self).status,
            },
            r is Ok ==> (final(self).status matches Some(st) ==> st.wf()),
    {
        proof {
            lemma_status_of_wf(res@, time_view(time_res));
        }
        if self.player.is_none() {
            self.status = None;
            return Ok(());
        }
        let player_name = match res.get_str("player_name") {
            Ok(s) => s,
            Err(e) => {
                return Err(e);
            },
        };
        let total_tracks = match res.coerce_u64("playlist_tracks") {
            Ok(n) => n,
            Err(e) => {
                return Err(e);
            },
        };
        let raw_index: u64 = if total_tracks == 0 {
            0
        } else {
            match res.coerce_u64("playlist_cur_index") {
                Ok(n) => n,
                Err(e) => {
                    return Err(e);
                },
            }
        };
        let playlist_index: u64 = if total_tracks == 0 {
            0
        } else if raw_index < total_tracks {
            raw_index
        } else {
            total_tracks - 1
        };
        let repeat_code = match res.coerce_u64("playlist repeat") {
            Ok(n) => n,
            Err(e) => {
                return Err(e);
            },
        };
        let playlist_repeat = RepeatMode::from(repeat_code);
        let shuffle_code = match res.coerce_u64("playlist shuffle") {
            Ok(n) => n,
            Err(e) => {
                return Err(e);
            },
        };
        let playlist_shuffle = ShuffleMode::from(shuffle_code);
        let mode_text = match res.get_str("mode") {
            Ok(s) => s,
            Err(e) => {
                return Err(e);
            },
        };
        let playlist_mode = match PlaylistMode::from(mode_text.as_str()) {
            Ok(m) => m,
            Err(e) => {
                return Err(e);
            },
        };
        let elapsed_duration: TrackTime = if total_tracks == 0 {
            TrackTime::zero()
        } else if playlist_mode == PlaylistMode::STOP {
            TrackTime::zero()
        } else {
            match time_res {
                None => {
                    return Err(LmsError::FieldMissing);
                },
                Some(t) => match t.coerce_time("_time") {
                    Ok(x) => x,
                    Err(e) => {
                        return Err(e);
                    },
                },
            }
        };
        self.status = Some(
            LmsStatus {
                player_name,
                playlist_index,
                playlist_repeat,
                playlist_shuffle,
                playlist_mode,
                total_tracks,
                elapsed_duration,
            },
        );
        Ok(())
    }

    /// Derives this tick's playlist from the playlist response. When the
    /// held status says nothing is queued, the playlist is empty no
    /// matter what the response carries; a decode failure leaves the
    /// previous playlist in place. With no player observed there is no
    /// playlist.
    pub fn get_current_playlist(&mut self, res: &LmsResponse) -> (r: Result<(), LmsError>)
        ensures
            eq_except_playlist(*old(self), *final(self)),
            old(self).player is None ==> r is Ok && final(self).playlist is None,
            old(self).player is Some ==> (if old(self).status matches Some(st)
                && st.total_tracks == 0 {
                r is Ok && (final(self).playlist matches Some(pl) && pl.tracks@.len() == 0)
            } else {
                match spec_playlist_of(res@) {
                    Ok(ss) => r is Ok && (final(self).playlist matches Some(pl) && pl.tracks@
                        == ss),
                    Err(e) => r == Err::<(), LmsError>(e) && final(self).playlist == old(self).playlist,
                }
            }),
    {
        if self.player.is_none() {
            self.playlist = None;
            return Ok(());
        }
        let nothing_queued = match &self.status {
            Some(st) => st.total_tracks == 0,
            None => false,
        };
        if nothing_queued {
            self.playlist = Some(LmsPlaylist::from(Vec::new()));
            return Ok(());
        }
        let songs: Vec<LmsSong> = match res.get_array("playlist_loop") {
            Err(_) => Vec::new(),
            Ok(arr) => match decode_songs(arr) {
                Ok(ss) => ss,
                Err(e) => {
                    return Err(e);
                },
            },
        };
        self.playlist = Some(LmsPlaylist::from(songs));
        Ok(())
    }

    /// Replaces the enumerated player list from the enumeration response.
    /// An emptied list clears the cursor; otherwise the cursor stays
    /// where it was, however the list moved underneath it.
    pub fn update_player_list(&mut self, res: &LmsResponse) -> (r: Result<(), LmsError>)
        ensures
            eq_except_player_list(*old(self), *final(self)),
            match spec_player_list_of(res@) {
                Ok(ps) => r is Ok && final(self).player_list.players@ == ps && final(self).player_list.state == (if ps.len() == 0 {
                    None::<usize>
                } else {
                    old(self).player_list.state
                }),
                Err(e) => r == Err::<(), LmsError>(e) && *final(self) == *old(self),
            },
    {
        let arr = match res.get_array("players_loop") {
            Ok(a) => a,
            Err(e) => {
                return Err(e);
            },
        };
        let players = match decode_players(arr) {
            Ok(ps) => ps,
            Err(e) => {
                return Err(e);
            },
        };
        let emptied = players.is_empty();
        self.player_list.players = players;
        if emptied {
            self.player_list.state = None;
        }
        Ok(())
    }

    /// The track the status says is current: the snapshot's song at the
    /// current index, or nothing when no track is playing or the
    /// playlist is shorter than the status claims.
    pub fn current_track(&self) -> (r: Option<LmsSong>)
        ensures
            r == spec_current_track(self.status, self.playlist),
    {
        match (&self.status, &self.playlist) {
            (Some(st), Some(pl)) => {
                if st.total_tracks != 0 && st.playlist_index < pl.tracks.len() as u64 {
                    let idx = st.playlist_index as usize;
                    Some(pl.tracks[idx].clone())
                } else {
                    None
                }
            },
            _ => None,
        }
    }

    /// Points the highlighted playlist row at the status's current index;
    /// the row is never navigated on its own.
    pub fn update_state(&mut self)
        ensures
            eq_except_playlist_cursor(*old(self), *final(self)),
            final(self).playlist_state == spec_mirror_cursor(old(self).status),
    {
        let mirror: Option<usize> = match &self.status {
            Some(status) => if status.total_tracks == 0 {
                None
            } else if status.playlist_index <= usize::MAX as u64 {
                Some(status.playlist_index as usize)
            } else {
                Some(usize::MAX)
            },
            None => None,
        };
        self.playlist_state = mirror;
    }

    /// One whole observing tick: status (with its time sub-query's
    /// response), then playlist, then the highlighted row. Each part
    /// commits as soon as it decodes; a later failure does not roll an
    /// earlier commit back, it only stops the pass.
    pub fn update_playlist_info(
        &mut self,
        status_res: &LmsResponse,
        time_res: Option<&LmsResponse>,
        playlist_res: &LmsResponse,
    ) -> (r: Result<(), LmsError>)
        ensures
            eq_except_snapshot(*old(self), *final(self)),
            old(self).player is None ==> r is Ok && final(self).status is None && final(self).playlist is None && final(self).playlist_state is None,
            old(self).player is Some ==> match spec_status_of(status_res@, time_view(time_res)) {
                Err(e) => r == Err::<(), LmsError>(e) && final(self).status == old(self).status
                    && final(self).playlist == old(self).playlist && final(self).playlist_state
                    == old(self).playlist_state,
                Ok(st) => final(self).status == Some(st) && (if st.total_tracks == 0 {
                    r is Ok && (final(self).playlist matches Some(pl) && pl.tracks@.len() == 0)
                        && final(self).playlist_state is None
                } else {
                    match spec_playlist_of(playlist_res@) {
                        Err(e) => r == Err::<(), LmsError>(e) && final(self).playlist == old(self).playlist && final(self).playlist_state == old(self).playlist_state,
                        Ok(ss) => r is Ok && (final(self).playlist matches Some(pl) && pl.tracks@
                            == ss) && final(self).playlist_state == spec_mirror_cursor(Some(st)),
                    }
                }),
            },
            r is Ok ==> (final(self).status matches Some(st) ==> st.wf()),
            r is Ok ==> (final(self).status matches Some(st) ==> (st.total_tracks == 0 ==> (
            final(self).playlist matches Some(pl) && pl.tracks@.len() == 0 && st.playlist_index
                == 0 && st.elapsed_duration == (TrackTime { secs: 0, millis: 0 }) && final(self).playlist_state is None))),
            r is Ok ==> (final(self).status matches Some(st) ==> (st.playlist_mode is STOP
                ==> st.elapsed_duration == (TrackTime { secs: 0, millis: 0 }))),
    {
        match self.get_current_status(status_res, time_res) {
            Ok(_) => (),
            Err(e) => {
                return Err(e);
            },
        }
        match self.get_current_playlist(playlist_res) {
            Ok(_) => (),
            Err(e) => {
                return Err(e);
            },
        }
        self.update_state();
        Ok(())
    }
}

} // verus!
