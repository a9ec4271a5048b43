//! The server protocol: generic response documents, the typed response
//! accessor, and the domain model one polling pass produces.
//!
//! A response is a flat mapping from field name to a generic value, as the
//! transport hands it over. Every typed read of a field either succeeds or
//! fails with an explicit error; nothing is coerced silently inside a
//! single read. The server is known to deliver some numeric fields as
//! numeric strings: the `coerce_*` readers state that fallback policy
//! openly, and they are the only place it lives.

use vstd::prelude::*;

use crate::num::parse_u64;
use crate::num::spec_parse_u64;
use crate::text::str_eq;
use crate::time::TrackTime;

verus! {

/// The kind of value a typed read expected.
#[derive(Clone, Copy, Debug, PartialEq, Eq, Structural)]
pub enum FieldKind {
    UnsignedInt,
    Fractional,
    Text,
    List,
    Record,
}

/// Why a polling pass failed to decode a response.
#[derive(Clone, Copy, Debug, PartialEq, Eq, Structural)]
pub enum LmsError {
    /// The field is absent from the response.
    FieldMissing,
    /// The field is present with a value of the wrong kind, or a numeric
    /// string that does not parse.
    FieldTypeMismatch(FieldKind),
    /// The server sent a play-mode string outside its documented set.
    EnumDecodeError,
}

/// One generic value of a decoded response document: exactly what the
/// engine ever reads out of the transport's JSON — unsigned integers,
/// fractional seconds, text, arrays, and flat records.
#[derive(Debug, PartialEq)]
pub enum JsonValue {
    /// A number the transport decoded as an unsigned integer.
    UInt(u64),
    /// A number the transport decoded as fractional seconds.
    Num(TrackTime),
    Str(String),
    Array(Vec<JsonValue>),
    Object(Vec<JsonField>),
    /// Anything the engine has no reading for (null, booleans, signed
    /// or oversized numbers).
    Other,
}

/// One named field of a response document or record.
#[derive(Debug, PartialEq)]
pub struct JsonField {
    pub key: String,
    pub value: JsonValue,
}

/// A response document: the flat `result` mapping of the server's reply
/// envelope.
#[derive(Debug)]
pub struct LmsResponse {
    pub result: Vec<JsonField>,
}

impl View for LmsResponse {
    type V = Seq<JsonField>;

    open spec fn view(&self) -> Seq<JsonField> {
        self.result@
    }
}

/// The value of the first field named `key`, if any.
pub open spec fn spec_lookup(fields: Seq<JsonField>, key: Seq<char>) -> Option<JsonValue>
    decreases fields.len(),
{
    if fields.len() == 0 {
        None
    } else if fields[0].key@ == key {
        Some(fields[0].value)
    } else {
        spec_lookup(fields.subrange(1, fields.len() as int), key)
    }
}

proof fn lemma_lookup_step(fields: Seq<JsonField>, key: Seq<char>, i: int)
    requires
        0 <= i < fields.len(),
    ensures
        spec_lookup(fields.subrange(i, fields.len() as int), key) == (if fields[i].key@ == key {
            Some(fields[i].value)
        } else {
            spec_lookup(fields.subrange(i + 1, fields.len() as int), key)
        }),
{
    let sub = fields.subrange(i, fields.len() as int);
    assert(sub[0] == fields[i]);
    assert(sub.subrange(1, sub.len() as int) =~= fields.subrange(i + 1, fields.len() as int));
}

/// Strict unsigned-integer read.
pub open spec fn spec_get_u64(fields: Seq<JsonField>, key: Seq<char>) -> Result<u64, LmsError> {
    match spec_lookup(fields, key) {
        None => Err(LmsError::FieldMissing),
        Some(v) => match v {
            JsonValue::UInt(n) => Ok(n),
            _ => Err(LmsError::FieldTypeMismatch(FieldKind::UnsignedInt)),
        },
    }
}

/// Strict fractional-seconds read.
pub open spec fn spec_get_time(fields: Seq<JsonField>, key: Seq<char>) -> Result<
    TrackTime,
    LmsError,
> {
    match spec_lookup(fields, key) {
        None => Err(LmsError::FieldMissing),
        Some(v) => match v {
            JsonValue::Num(t) => Ok(t),
            _ => Err(LmsError::FieldTypeMismatch(FieldKind::Fractional)),
        },
    }
}

/// Strict text read.
pub open spec fn spec_get_str(fields: Seq<JsonField>, key: Seq<char>) -> Result<String, LmsError> {
    match spec_lookup(fields, key) {
        None => Err(LmsError::FieldMissing),
        Some(v) => match v {
            JsonValue::Str(s) => Ok(s),
            _ => Err(LmsError::FieldTypeMismatch(FieldKind::Text)),
        },
    }
}

/// Strict array read.
pub open spec fn spec_get_array(fields: Seq<JsonField>, key: Seq<char>) -> Result<
    Vec<JsonValue>,
    LmsError,
> {
    match spec_lookup(fields, key) {
        None => Err(LmsError::FieldMissing),
        Some(v) => match v {
            JsonValue::Array(a) => Ok(a),
            _ => Err(LmsError::FieldTypeMismatch(FieldKind::List)),
        },
    }
}

/// Unsigned-integer read with the documented fallback: a native integer is
/// taken as is; on type mismatch only, a numeric string is parsed; a parse
/// failure is a hard decode error, and an absent field stays absent.
pub open spec fn spec_coerce_u64(fields: Seq<JsonField>, key: Seq<char>) -> Result<u64, LmsError> {
    match spec_lookup(fields, key) {
        None => Err(LmsError::FieldMissing),
        Some(v) => match v {
            JsonValue::UInt(n) => Ok(n),
            JsonValue::Str(s) => match spec_parse_u64(s@) {
                Some(n) => Ok(n),
                None => Err(LmsError::FieldTypeMismatch(FieldKind::UnsignedInt)),
            },
            _ => Err(LmsError::FieldTypeMismatch(FieldKind::UnsignedInt)),
        },
    }
}

/// Time read with the same fallback policy: fractional seconds are taken
/// as is; a native integer or a numeric string counts whole seconds.
pub open spec fn spec_coerce_time(fields: Seq<JsonField>, key: Seq<char>) -> Result<
    TrackTime,
    LmsError,
> {
    match spec_lookup(fields, key) {
        None => Err(LmsError::FieldMissing),
        Some(v) => match v {
            JsonValue::Num(t) => Ok(t),
            JsonValue::UInt(n) => Ok(TrackTime { secs: n, millis: 0 }),
            JsonValue::Str(s) => match spec_parse_u64(s@) {
                Some(n) => Ok(TrackTime { secs: n, millis: 0 }),
                None => Err(LmsError::FieldTypeMismatch(FieldKind::Fractional)),
            },
            _ => Err(LmsError::FieldTypeMismatch(FieldKind::Fractional)),
        },
    }
}

impl LmsResponse {
    /// Index of the first field named `key`.
    fn lookup_index(&self, key: &str) -> (r: Option<usize>)
        ensures
            match r {
                Some(i) => i < self@.len() && self@[i as int].key@ == key@ && spec_lookup(
                    self@,
                    key@,
                ) == Some(self@[i as int].value),
                None => spec_lookup(self@, key@) is None,
            },
    {
        let n = self.result.len();
        let mut i: usize = 0;
        proof {
            assert(self@.subrange(0, n as int) =~= self@);
        }
        while i < n
            invariant
                i <= n,
                n == self@.len(),
                spec_lookup(self@, key@) == spec_lookup(
                    self@.subrange(i as int, n as int),
                    key@,
                ),
            decreases n - i,
        {
            proof {
                lemma_lookup_step(self@, key@, i as int);
            }
            let f: &JsonField = &self.result[i];
            if str_eq(f.key.as_str(), key) {
                return Some(i);
            }
            i = i + 1;
        }
        proof {
            assert(self@.subrange(n as int, n as int) =~= Seq::<JsonField>::empty());
        }
        None
    }

    /// The field as an unsigned integer, exactly.
    pub fn get_u64(&self, key: &str) -> (r: Result<u64, LmsError>)
        ensures
            r == spec_get_u64(self@, key@),
    {
        match self.lookup_index(key) {
            None => Err(LmsError::FieldMissing),
            Some(i) => {
                let f: &JsonField = &self.result[i];
                match &f.value {
                    JsonValue::UInt(n) => Ok(*n),
                    _ => Err(LmsError::FieldTypeMismatch(FieldKind::UnsignedInt)),
                }
            },
        }
    }

    /// The field as fractional seconds, exactly.
    pub fn get_f64(&self, key: &str) -> (r: Result<TrackTime, LmsError>)
        ensures
            r == spec_get_time(self@, key@),
    {
        match self.lookup_index(key) {
            None => Err(LmsError::FieldMissing),
            Some(i) => {
                let f: &JsonField = &self.result[i];
                match &f.value {
                    JsonValue::Num(t) => Ok(*t),
                    _ => Err(LmsError::FieldTypeMismatch(FieldKind::Fractional)),
                }
            },
        }
    }

    /// The field as text, exactly.
    pub fn get_str(&self, key: &str) -> (r: Result<String, LmsError>)
        ensures
            r == spec_get_str(self@, key@),
    {
        match self.lookup_index(key) {
            None => Err(LmsError::FieldMissing),
            Some(i) => {
                let f: &JsonField = &self.result[i];
                match &f.value {
                    JsonValue::Str(s) => Ok(s.clone()),
                    _ => Err(LmsError::FieldTypeMismatch(FieldKind::Text)),
                }
            },
        }
    }

    /// The field as an array, exactly.
    pub fn get_array<'a>(&'a self, key: &str) -> (r: Result<&'a Vec<JsonValue>, LmsError>)
        ensures
            match spec_get_array(self@, key@) {
                Ok(v) => r matches Ok(a) && *a == v,
                Err(e) => r matches Err(e2) && e2 == e,
            },
    {
        match self.lookup_index(key) {
            None => Err(LmsError::FieldMissing),
            Some(i) => {
                let f: &JsonField = &self.result[i];
                match &f.value {
                    JsonValue::Array(a) => Ok(a),
                    _ => Err(LmsError::FieldTypeMismatch(FieldKind::List)),
                }
            },
        }
    }

    /// The field as an unsigned integer, falling back — on type mismatch
    /// only, never on absence — to parsing a numeric string.
    pub fn coerce_u64(&self, key: &str) -> (r: Result<u64, LmsError>)
        ensures
            r == spec_coerce_u64(self@, key@),
    {
        match self.lookup_index(key) {
            None => Err(LmsError::FieldMissing),
            Some(i) => {
                let f: &JsonField = &self.result[i];
                match &f.value {
                    JsonValue::UInt(n) => Ok(*n),
                    JsonValue::Str(s) => match parse_u64(s.as_str()) {
                        Some(n) => Ok(n),
                        None => Err(LmsError::FieldTypeMismatch(FieldKind::UnsignedInt)),
                    },
                    _ => Err(LmsError::FieldTypeMismatch(FieldKind::UnsignedInt)),
                }
            },
        }
    }

    /// The field as a time, falling back — on type mismatch only — to a
    /// native integer or a numeric string counted as whole seconds.
    pub fn coerce_time(&self, key: &str) -> (r: Result<TrackTime, LmsError>)
        ensures
            r == spec_coerce_time(self@, key@),
    {
        match self.lookup_index(key) {
            None => Err(LmsError::FieldMissing),
            Some(i) => {
                let f: &JsonField = &self.result[i];
                match &f.value {
                    JsonValue::Num(t) => Ok(*t),
                    JsonValue::UInt(n) => Ok(TrackTime { secs: *n, millis: 0 }),
                    JsonValue::Str(s) => match parse_u64(s.as_str()) {
                        Some(n) => Ok(TrackTime { secs: n, millis: 0 }),
                        None => Err(LmsError::FieldTypeMismatch(FieldKind::Fractional)),
                    },
                    _ => Err(LmsError::FieldTypeMismatch(FieldKind::Fractional)),
                }
            },
        }
    }
}

// ---------------------------------------------------------------------
// Reads scoped to one record of a response (a player or playlist entry).
// ---------------------------------------------------------------------
fn lookup_index_in(fields: &Vec<JsonField>, key: &str) -> (r: Option<usize>)
    ensures
        match r {
            Some(i) => i < fields@.len() && spec_lookup(fields@, key@) == Some(
                fields@[i as int].value,
            ),
            None => spec_lookup(fields@, key@) is None,
        },
{
    let n = fields.len();
    let mut i: usize = 0;
    proof {
        assert(fields@.subrange(0, n as int) =~= fields@);
    }
    while i < n
        invariant
            i <= n,
            n == fields@.len(),
            spec_lookup(fields@, key@) == spec_lookup(fields@.subrange(i as int, n as int), key@),
        decreases n - i,
    {
        proof {
            lemma_lookup_step(fields@, key@, i as int);
        }
        let f: &JsonField = &fields[i];
        if str_eq(f.key.as_str(), key) {
            return Some(i);
        }
        i = i + 1;
    }
    proof {
        assert(fields@.subrange(n as int, n as int) =~= Seq::<JsonField>::empty());
    }
    None
}

fn get_str_in(fields: &Vec<JsonField>, key: &str) -> (r: Result<String, LmsError>)
    ensures
        r == spec_get_str(fields@, key@),
{
    match lookup_index_in(fields, key) {
        None => Err(LmsError::FieldMissing),
        Some(i) => {
            let f: &JsonField = &fields[i];
            match &f.value {
                JsonValue::Str(s) => Ok(s.clone()),
                _ => Err(LmsError::FieldTypeMismatch(FieldKind::Text)),
            }
        },
    }
}

fn coerce_u64_in(fields: &Vec<JsonField>, key: &str) -> (r: Result<u64, LmsError>)
    ensures
        r == spec_coerce_u64(fields@, key@),
{
    match lookup_index_in(fields, key) {
        None => Err(LmsError::FieldMissing),
        Some(i) => {
            let f: &JsonField = &fields[i];
            match &f.value {
                JsonValue::UInt(n) => Ok(*n),
                JsonValue::Str(s) => match parse_u64(s.as_str()) {
                    Some(n) => Ok(n),
                    None => Err(LmsError::FieldTypeMismatch(FieldKind::UnsignedInt)),
                },
                _ => Err(LmsError::FieldTypeMismatch(FieldKind::UnsignedInt)),
            }
        },
    }
}

fn coerce_time_in(fields: &Vec<JsonField>, key: &str) -> (r: Result<TrackTime, LmsError>)
    ensures
        r == spec_coerce_time(fields@, key@),
{
    match lookup_index_in(fields, key) {
        None => Err(LmsError::FieldMissing),
        Some(i) => {
            let f: &JsonField = &fields[i];
            match &f.value {
                JsonValue::Num(t) => Ok(*t),
                JsonValue::UInt(n) => Ok(TrackTime { secs: *n, millis: 0 }),
                JsonValue::Str(s) => match parse_u64(s.as_str()) {
                    Some(n) => Ok(TrackTime { secs: n, millis: 0 }),
                    None => Err(LmsError::FieldTypeMismatch(FieldKind::Fractional)),
                },
                _ => Err(LmsError::FieldTypeMismatch(FieldKind::Fractional)),
            }
        },
    }
}

// ---------------------------------------------------------------------
// Domain model: one snapshot's worth of players, status, and playlist.
// ---------------------------------------------------------------------
/// A connected player, identified by `playerid`.
#[derive(Debug, PartialEq)]
pub struct LmsPlayer {
    pub name: String,
    pub playerid: String,
}

impl Clone for LmsPlayer {
    /// An equal copy, field for field, so contracts can speak of it.
    fn clone(&self) -> (r: LmsPlayer)
        ensures
            r == *self,
    {
        LmsPlayer { name: self.name.clone(), playerid: self.playerid.clone() }
    }
}

/// What the player is doing right now.
#[derive(Clone, Copy, Debug, PartialEq, Eq, Structural)]
pub enum PlaylistMode {
    STOP,
    PLAY,
    PAUSE,
}

/// The play-mode strings the server documents, and nothing else.
pub open spec fn spec_playlist_mode(s: Seq<char>) -> Result<PlaylistMode, LmsError> {
    if s == "play"@ {
        Ok(PlaylistMode::PLAY)
    } else if s == "stop"@ {
        Ok(PlaylistMode::STOP)
    } else if s == "pause"@ {
        Ok(PlaylistMode::PAUSE)
    } else {
        Err(LmsError::EnumDecodeError)
    }
}

impl PlaylistMode {
    /// Decodes the server's play-mode string. The three known strings are
    /// the server's documented set; anything else is a protocol break and
    /// surfaces as an error rather than being hidden behind a default.
    pub fn from(text: &str) -> (r: Result<PlaylistMode, LmsError>)
        ensures
            r == spec_playlist_mode(text@),
    {
        if str_eq(text, "play") {
            Ok(PlaylistMode::PLAY)
        } else if str_eq(text, "stop") {
            Ok(PlaylistMode::STOP)
        } else if str_eq(text, "pause") {
            Ok(PlaylistMode::PAUSE)
        } else {
            Err(LmsError::EnumDecodeError)
        }
    }

    /// The label the status line shows for this mode.
    pub fn label(&self) -> (s: &'static str)
        ensures
            self is STOP ==> s@ == "STOPPED"@,
            self is PLAY ==> s@ == "PLAYING"@,
            self is PAUSE ==> s@ == "PAUSED"@,
    {
        match self {
            PlaylistMode::STOP => "STOPPED",
            PlaylistMode::PLAY => "PLAYING",
            PlaylistMode::PAUSE => "PAUSED",
        }
    }
}

/// Whether the playlist repeats one track, the whole list, or nothing.
#[derive(Clone, Copy, Debug, PartialEq, Eq, Structural)]
pub enum RepeatMode {
    NONE,
    TRACK,
    PLAYLIST,
}

/// Total mapping from the server's repeat code: every code outside the
/// documented set reads as `NONE`.
pub open spec fn spec_repeat_mode(num: u64) -> RepeatMode {
    if num == 1 {
        RepeatMode::TRACK
    } else if num == 2 {
        RepeatMode::PLAYLIST
    } else {
        RepeatMode::NONE
    }
}

impl RepeatMode {
    /// Decodes the server's repeat code, totally: out-of-range codes mean
    /// no repeat.
    pub fn from(num: u64) -> (r: RepeatMode)
        ensures
            r == spec_repeat_mode(num),
    {
        match num {
            1 => RepeatMode::TRACK,
            2 => RepeatMode::PLAYLIST,
            _ => RepeatMode::NONE,
        }
    }

    /// The one-cell indicator the status line shows.
    pub fn indicator(&self) -> (s: &'static str)
        ensures
            self is NONE ==> s@ == "-"@,
            self is TRACK ==> s@ == "r"@,
            self is PLAYLIST ==> s@ == "R"@,
    {
        match self {
            RepeatMode::NONE => "-",
            RepeatMode::TRACK => "r",
            RepeatMode::PLAYLIST => "R",
        }
    }
}

/// Whether playback order shuffles tracks, albums, or nothing.
#[derive(Clone, Copy, Debug, PartialEq, Eq, Structural)]
pub enum ShuffleMode {
    NONE,
    TRACK,
    ALBUM,
}

/// Total mapping from the server's shuffle code: every code outside the
/// documented set reads as `NONE`.
pub open spec fn spec_shuffle_mode(num: u64) -> ShuffleMode {
    if num == 1 {
        ShuffleMode::TRACK
    } else if num == 2 {
        ShuffleMode::ALBUM
    } else {
        ShuffleMode::NONE
    }
}

impl ShuffleMode {
    /// Decodes the server's shuffle code, totally: out-of-range codes mean
    /// no shuffle.
    pub fn from(num: u64) -> (r: ShuffleMode)
        ensures
            r == spec_shuffle_mode(num),
    {
        match num {
            1 => ShuffleMode::TRACK,
            2 => ShuffleMode::ALBUM,
            _ => ShuffleMode::NONE,
        }
    }

    /// The one-cell indicator the status line shows.
    pub fn indicator(&self) -> (s: &'static str)
        ensures
            self is NONE ==> s@ == "-"@,
            self is TRACK ==> s@ == "z"@,
            self is ALBUM ==> s@ == "Z"@,
    {
        match self {
            ShuffleMode::NONE => "-",
            ShuffleMode::TRACK => "z",
            ShuffleMode::ALBUM => "Z",
        }
    }
}

/// Every decoded repeat or shuffle code outside the documented set reads
/// as `NONE`, and every play-mode string outside the documented set is an
/// `EnumDecodeError` — never a silently assumed mode.
pub proof fn lemma_enum_decode_totality(num: u64, s: Seq<char>)
    ensures
        num != 1 && num != 2 ==> spec_repeat_mode(num) == RepeatMode::NONE,
        num != 1 && num != 2 ==> spec_shuffle_mode(num) == ShuffleMode::NONE,
        s != "play"@ && s != "stop"@ && s != "pause"@ ==> spec_playlist_mode(s) == Err::<
            PlaylistMode,
            LmsError,
        >(LmsError::EnumDecodeError),
{
}

/// The status snapshot one polling pass derives; replaced as a whole,
/// never partially mutated.
#[derive(Debug, PartialEq)]
pub struct LmsStatus {
    pub player_name: String,
    pub playlist_index: u64,
    pub playlist_repeat: RepeatMode,
    pub playlist_shuffle: ShuffleMode,
    pub playlist_mode: PlaylistMode,
    pub total_tracks: u64,
    pub elapsed_duration: TrackTime,
}

impl Clone for LmsStatus {
    /// An equal copy, field for field, so contracts can speak of it.
    fn clone(&self) -> (r: LmsStatus)
        ensures
            r == *self,
    {
        LmsStatus {
            player_name: self.player_name.clone(),
            playlist_index: self.playlist_index,
            playlist_repeat: self.playlist_repeat,
            playlist_shuffle: self.playlist_shuffle,
            playlist_mode: self.playlist_mode,
            total_tracks: self.total_tracks,
            elapsed_duration: self.elapsed_duration,
        }
    }
}

impl LmsStatus {
    /// The display-correctness invariant of every committed status: an
    /// empty playlist pins the index and position to zero, a current index
    /// stays inside the playlist, and a stopped player shows no elapsed
    /// time no matter what the server reported.
    pub open spec fn wf(self) -> bool {
        &&& self.total_tracks == 0 ==> self.playlist_index == 0 && self.elapsed_duration
            == (TrackTime { secs: 0, millis: 0 })
        &&& self.total_tracks > 0 ==> self.playlist_index < self.total_tracks
        &&& self.playlist_mode is STOP ==> self.elapsed_duration == (TrackTime {
            secs: 0,
            millis: 0,
        })
    }
}

/// One playlist entry.
#[derive(Debug, PartialEq)]
pub struct LmsSong {
    pub index: u64,
    pub title: String,
    pub artist: String,
    pub album: String,
    pub duration: TrackTime,
}

impl Clone for LmsSong {
    /// An equal copy, field for field, so contracts can speak of it.
    fn clone(&self) -> (r: LmsSong)
        ensures
            r == *self,
    {
        LmsSong {
            index: self.index,
            title: self.title.clone(),
            artist: self.artist.clone(),
            album: self.album.clone(),
            duration: self.duration,
        }
    }
}

impl LmsSong {
    /// The placeholder shown when nothing is queued; a tenth of a second
    /// long so a progress ratio against it stays well defined.
    pub fn default() -> (s: LmsSong)
        ensures
            s.index == 0,
            s.title@ == Seq::<char>::empty(),
            s.artist@ == Seq::<char>::empty(),
            s.album@ == Seq::<char>::empty(),
            s.duration == (TrackTime { secs: 0, millis: 100 }),
    {
        LmsSong {
            index: 0,
            title: String::new(),
            artist: String::new(),
            album: String::new(),
            duration: TrackTime { secs: 0, millis: 100 },
        }
    }
}

/// The ordered playlist of one snapshot; entries are index-stable only
/// until the next poll replaces the whole list.
#[derive(Clone, Debug, PartialEq)]
pub struct LmsPlaylist {
    pub tracks: Vec<LmsSong>,
}

impl LmsPlaylist {
    pub fn from(tracks: Vec<LmsSong>) -> (p: LmsPlaylist)
        ensures
            p.tracks == tracks,
    {
        LmsPlaylist { tracks }
    }
}

// ---------------------------------------------------------------------
// Decoding records out of enumeration responses.
// ---------------------------------------------------------------------
/// How one entry of `players_loop` reads as a player.
pub open spec fn spec_player_of(v: JsonValue) -> Result<LmsPlayer, LmsError> {
    match v {
        JsonValue::Object(fields) => match spec_get_str(fields@, "name"@) {
            Err(e) => Err(e),
            Ok(name) => match spec_get_str(fields@, "playerid"@) {
                Err(e) => Err(e),
                Ok(playerid) => Ok(LmsPlayer { name, playerid }),
            },
        },
        _ => Err(LmsError::FieldTypeMismatch(FieldKind::Record)),
    }
}

/// Reads one `players_loop` entry.
pub fn decode_player(v: &JsonValue) -> (r: Result<LmsPlayer, LmsError>)
    ensures
        r == spec_player_of(*v),
{
    match v {
        JsonValue::Object(fields) => {
            let name = match get_str_in(fields, "name") {
                Ok(s) => s,
                Err(e) => {
                    return Err(e);
                },
            };
            let playerid = match get_str_in(fields, "playerid") {
                Ok(s) => s,
                Err(e) => {
                    return Err(e);
                },
            };
            Ok(LmsPlayer { name, playerid })
        },
        _ => Err(LmsError::FieldTypeMismatch(FieldKind::Record)),
    }
}

/// How one entry of `playlist_loop` reads as a song. Numeric fields take
/// the documented numeric-string fallback; text fields are strict.
pub open spec fn spec_song_of(v: JsonValue) -> Result<LmsSong, LmsError> {
    match v {
        JsonValue::Object(fields) => match spec_coerce_u64(fields@, "playlist index"@) {
            Err(e) => Err(e),
            Ok(index) => match spec_get_str(fields@, "title"@) {
                Err(e) => Err(e),
                Ok(title) => match spec_get_str(fields@, "artist"@) {
                    Err(e) => Err(e),
                    Ok(artist) => match spec_get_str(fields@, "album"@) {
                        Err(e) => Err(e),
                        Ok(album) => match spec_coerce_time(fields@, "duration"@) {
                            Err(e) => Err(e),
                            Ok(duration) => Ok(
                                LmsSong { index, title, artist, album, duration },
                            ),
                        },
                    },
                },
            },
        },
        _ => Err(LmsError::FieldTypeMismatch(FieldKind::Record)),
    }
}

/// Reads one `playlist_loop` entry.
pub fn decode_song(v: &JsonValue) -> (r: Result<LmsSong, LmsError>)
    ensures
        r == spec_song_of(*v),
{
    match v {
        JsonValue::Object(fields) => {
            let index = match coerce_u64_in(fields, "playlist index") {
                Ok(n) => n,
                Err(e) => {
                    return Err(e);
                },
            };
            let title = match get_str_in(fields, "title") {
                Ok(s) => s,
                Err(e) => {
                    return Err(e);
                },
            };
            let artist = match get_str_in(fields, "artist") {
                Ok(s) => s,
                Err(e) => {
                    return Err(e);
                },
            };
            let album = match get_str_in(fields, "album") {
                Ok(s) => s,
                Err(e) => {
                    return Err(e);
                },
            };
            let duration = match coerce_time_in(fields, "duration") {
                Ok(t) => t,
                Err(e) => {
                    return Err(e);
                },
            };
            Ok(LmsSong { index, title, artist, album, duration })
        },
        _ => Err(LmsError::FieldTypeMismatch(FieldKind::Record)),
    }
}

/// How a whole `players_loop` array reads: every entry in order, the
/// first failure winning.
pub open spec fn spec_players_of(vals: Seq<JsonValue>) -> Result<Seq<LmsPlayer>, LmsError>
    decreases vals.len(),
{
    if vals.len() == 0 {
        Ok(Seq::empty())
    } else {
        match spec_player_of(vals[0]) {
            Err(e) => Err(e),
            Ok(p) => match spec_players_of(vals.subrange(1, vals.len() as int)) {
                Err(e) => Err(e),
                Ok(ps) => Ok(seq![p] + ps),
            },
        }
    }
}

proof fn lemma_players_of_step(vals: Seq<JsonValue>, i: int, done: Seq<LmsPlayer>)
    requires
        0 <= i < vals.len(),
    ensures
        spec_players_of(vals.subrange(i, vals.len() as int)) == (match spec_player_of(vals[i]) {
            Err(e) => Err::<Seq<LmsPlayer>, LmsError>(e),
            Ok(p) => match spec_players_of(vals.subrange(i + 1, vals.len() as int)) {
                Err(e) => Err(e),
                Ok(ps) => Ok(seq![p] + ps),
            },
        }),
{
    let sub = vals.subrange(i, vals.len() as int);
    assert(sub[0] == vals[i]);
    assert(sub.subrange(1, sub.len() as int) =~= vals.subrange(i + 1, vals.len() as int));
}

/// Reads a whole `players_loop` array.
pub fn decode_players(vals: &Vec<JsonValue>) -> (r: Result<Vec<LmsPlayer>, LmsError>)
    ensures
        match r {
            Ok(ps) => spec_players_of(vals@) == Ok::<Seq<LmsPlayer>, LmsError>(ps@),
            Err(e) => spec_players_of(vals@) == Err::<Seq<LmsPlayer>, LmsError>(e),
        },
{
    let n = vals.len();
    let mut out: Vec<LmsPlayer> = Vec::new();
    let mut i: usize = 0;
    proof {
        assert(vals@.subrange(0, n as int) =~= vals@);
    }
    while i < n
        invariant
            i <= n,
            n == vals@.len(),
            spec_players_of(vals@) == (match spec_players_of(vals@.subrange(i as int, n as int)) {
                Err(e) => Err::<Seq<LmsPlayer>, LmsError>(e),
                Ok(ps) => Ok(out@ + ps),
            }),
        decreases n - i,
    {
        proof {
            lemma_players_of_step(vals@, i as int, out@);
        }
        match decode_player(&vals[i]) {
            Ok(p) => {
                let ghost out_old = out@;
                out.push(p);
                proof {
                    if spec_players_of(vals@.subrange(i + 1, n as int)) is Ok {
                        let tail = spec_players_of(vals@.subrange(i + 1, n as int)).unwrap();
                        assert(out_old + (seq![p] + tail) =~= out@ + tail);
                    }
                }
            },
            Err(e) => {
                return Err(e);
            },
        }
        i = i + 1;
    }
    proof {
        assert(vals@.subrange(n as int, n as int) =~= Seq::<JsonValue>::empty());
        assert(out@ + Seq::<LmsPlayer>::empty() =~= out@);
    }
    Ok(out)
}

/// How a whole `playlist_loop` array reads, in order, first failure wins.
pub open spec fn spec_songs_of(vals: Seq<JsonValue>) -> Result<Seq<LmsSong>, LmsError>
    decreases vals.len(),
{
    if vals.len() == 0 {
        Ok(Seq::empty())
    } else {
        match spec_song_of(vals[0]) {
            Err(e) => Err(e),
            Ok(s) => match spec_songs_of(vals.subrange(1, vals.len() as int)) {
                Err(e) => Err(e),
                Ok(ss) => Ok(seq![s] + ss),
            },
        }
    }
}

proof fn lemma_songs_of_step(vals: Seq<JsonValue>, i: int)
    requires
        0 <= i < vals.len(),
    ensures
        spec_songs_of(vals.subrange(i, vals.len() as int)) == (match spec_song_of(vals[i]) {
            Err(e) => Err::<Seq<LmsSong>, LmsError>(e),
            Ok(s) => match spec_songs_of(vals.subrange(i + 1, vals.len() as int)) {
                Err(e) => Err(e),
                Ok(ss) => Ok(seq![s] + ss),
            },
        }),
{
    let sub = vals.subrange(i, vals.len() as int);
    assert(sub[0] == vals[i]);
    assert(sub.subrange(1, sub.len() as int) =~= vals.subrange(i + 1, vals.len() as int));
}

/// Reads a whole `playlist_loop` array.
pub fn decode_songs(vals: &Vec<JsonValue>) -> (r: Result<Vec<LmsSong>, LmsError>)
    ensures
        match r {
            Ok(ss) => spec_songs_of(vals@) == Ok::<Seq<LmsSong>, LmsError>(ss@),
            Err(e) => spec_songs_of(vals@) == Err::<Seq<LmsSong>, LmsError>(e),
        },
{
    let n = vals.len();
    let mut out: Vec<LmsSong> = Vec::new();
    let mut i: usize = 0;
    proof {
        assert(vals@.subrange(0, n as int) =~= vals@);
    }
    while i < n
        invariant
            i <= n,
            n == vals@.len(),
            spec_songs_of(vals@) == (match spec_songs_of(vals@.subrange(i as int, n as int)) {
                Err(e) => Err::<Seq<LmsSong>, LmsError>(e),
                Ok(ss) => Ok(out@ + ss),
            }),
        decreases n - i,
    {
        proof {
            lemma_songs_of_step(vals@, i as int);
        }
        match decode_song(&vals[i]) {
            Ok(s) => {
                let ghost out_old = out@;
                out.push(s);
                proof {
                    if spec_songs_of(vals@.subrange(i + 1, n as int)) is Ok {
                        let tail = spec_songs_of(vals@.subrange(i + 1, n as int)).unwrap();
                        assert(out_old + (seq![s] + tail) =~= out@ + tail);
                    }
                }
            },
            Err(e) => {
                return Err(e);
            },
        }
        i = i + 1;
    }
    proof {
        assert(vals@.subrange(n as int, n as int) =~= Seq::<JsonValue>::empty());
        assert(out@ + Seq::<LmsSong>::empty() =~= out@);
    }
    Ok(out)
}

// ---------------------------------------------------------------------
// The commands the engine issues, as plain values for the transport.
// ---------------------------------------------------------------------
/// One positional argument of a server command.
#[derive(Clone, Debug, PartialEq)]
pub enum RpcArg {
    Text(String),
    Uint(u64),
}

/// A command for the gateway: a scope selector (a player id, or `-` for
/// the server itself) and the positional arguments.
#[derive(Clone, Debug, PartialEq)]
pub struct RpcCommand {
    pub scope: String,
    pub args: Vec<RpcArg>,
}

pub open spec fn arg_text(a: RpcArg, s: Seq<char>) -> bool {
    a matches RpcArg::Text(t) && t@ == s
}

pub open spec fn arg_uint(a: RpcArg, n: u64) -> bool {
    a == RpcArg::Uint(n)
}

/// The player-enumeration command.
pub fn serverstatus_command() -> (c: RpcCommand)
    ensures
        c.scope@ == "-"@,
        c.args@.len() == 2,
        arg_text(c.args@[0], "serverstatus"@),
        arg_uint(c.args@[1], 0),
{
    let mut args: Vec<RpcArg> = Vec::new();
    args.push(RpcArg::Text("serverstatus".to_owned()));
    args.push(RpcArg::Uint(0));
    RpcCommand { scope: "-".to_owned(), args }
}

/// The status command scoped to one player, without playlist contents.
pub fn status_command(playerid: &str) -> (c: RpcCommand)
    ensures
        c.scope@ == playerid@,
        c.args@.len() == 3,
        arg_text(c.args@[0], "status"@),
        arg_uint(c.args@[1], 0),
        arg_uint(c.args@[2], 9999),
{
    let mut args: Vec<RpcArg> = Vec::new();
    args.push(RpcArg::Text("status".to_owned()));
    args.push(RpcArg::Uint(0));
    args.push(RpcArg::Uint(9999));
    RpcCommand { scope: playerid.to_owned(), args }
}

/// The status command with the tag filter that includes playlist contents.
pub fn playlist_command(playerid: &str) -> (c: RpcCommand)
    ensures
        c.scope@ == playerid@,
        c.args@.len() == 4,
        arg_text(c.args@[0], "status"@),
        arg_uint(c.args@[1], 0),
        arg_uint(c.args@[2], 9999),
        arg_text(c.args@[3], "tags:adl"@),
{
    let mut args: Vec<RpcArg> = Vec::new();
    args.push(RpcArg::Text("status".to_owned()));
    args.push(RpcArg::Uint(0));
    args.push(RpcArg::Uint(9999));
    args.push(RpcArg::Text("tags:adl".to_owned()));
    RpcCommand { scope: playerid.to_owned(), args }
}

/// The elapsed-time query, an independent call on the server.
pub fn time_command(playerid: &str) -> (c: RpcCommand)
    ensures
        c.scope@ == playerid@,
        c.args@.len() == 2,
        arg_text(c.args@[0], "time"@),
        arg_text(c.args@[1], "?"@),
{
    let mut args: Vec<RpcArg> = Vec::new();
    args.push(RpcArg::Text("time".to_owned()));
    args.push(RpcArg::Text("?".to_owned()));
    RpcCommand { scope: playerid.to_owned(), args }
}

// ---------------------------------------------------------------------
// Encoding-agnosticism of the numeric readers.
// ---------------------------------------------------------------------
/// The same logical value reads identically whether the server encodes it
/// as a native integer or as the numeric string that parses to it.
pub proof fn lemma_coerce_u64_encoding_agnostic(
    n: u64,
    s: String,
    f1: Seq<JsonField>,
    f2: Seq<JsonField>,
    key: Seq<char>,
)
    requires
        spec_parse_u64(s@) == Some(n),
        spec_lookup(f1, key) == Some(JsonValue::UInt(n)),
        spec_lookup(f2, key) == Some(JsonValue::Str(s)),
    ensures
        spec_coerce_u64(f1, key) == spec_coerce_u64(f2, key),
        spec_coerce_u64(f1, key) == Ok::<u64, LmsError>(n),
{
}

/// The same, for times read with the whole-seconds fallback.
pub proof fn lemma_coerce_time_encoding_agnostic(
    n: u64,
    s: String,
    f1: Seq<JsonField>,
    f2: Seq<JsonField>,
    key: Seq<char>,
)
    requires
        spec_parse_u64(s@) == Some(n),
        spec_lookup(f1, key) == Some(JsonValue::UInt(n)),
        spec_lookup(f2, key) == Some(JsonValue::Str(s)),
    ensures
        spec_coerce_time(f1, key) == spec_coerce_time(f2, key),
        spec_coerce_time(f1, key) == Ok::<TrackTime, LmsError>(TrackTime { secs: n, millis: 0 }),
{
}

} // verus!
