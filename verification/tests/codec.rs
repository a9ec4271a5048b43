//! Decoding primitives: numeric-string parsing, typed field reads with
//! the documented numeric-string fallback, and total enum decoding.

use lyra::lms::FieldKind;
use lyra::lms::JsonField;
use lyra::lms::JsonValue;
use lyra::lms::LmsError;
use lyra::lms::LmsResponse;
use lyra::lms::PlaylistMode;
use lyra::lms::RepeatMode;
use lyra::lms::ShuffleMode;
use lyra::num::parse_u64;
use lyra::time::TrackTime;

fn field(key: &str, value: JsonValue) -> JsonField {
    JsonField { key: key.to_string(), value }
}

fn response(fields: Vec<JsonField>) -> LmsResponse {
    LmsResponse { result: fields }
}

#[test]
fn parse_u64_accepts_plain_digits() {
    assert_eq!(parse_u64("0"), Some(0));
    assert_eq!(parse_u64("42"), Some(42));
    assert_eq!(parse_u64("007"), Some(7));
    assert_eq!(parse_u64("18446744073709551615"), Some(u64::MAX));
}

#[test]
fn parse_u64_accepts_leading_plus() {
    assert_eq!(parse_u64("+42"), Some(42));
    assert_eq!(parse_u64("+0"), Some(0));
}

#[test]
fn parse_u64_rejects_junk() {
    assert_eq!(parse_u64(""), None);
    assert_eq!(parse_u64("+"), None);
    assert_eq!(parse_u64("-1"), None);
    assert_eq!(parse_u64("4.2"), None);
    assert_eq!(parse_u64("4 2"), None);
    assert_eq!(parse_u64("x12"), None);
    assert_eq!(parse_u64("12x"), None);
}

#[test]
fn parse_u64_rejects_overflow() {
    assert_eq!(parse_u64("18446744073709551616"), None);
    assert_eq!(parse_u64("99999999999999999999999"), None);
}

#[test]
fn strict_reads_report_missing_and_mismatched_fields() {
    let res = response(vec![
        field("count", JsonValue::UInt(7)),
        field("name", JsonValue::Str("Kitchen".to_string())),
    ]);
    assert_eq!(res.get_u64("count"), Ok(7));
    assert_eq!(res.get_u64("absent"), Err(LmsError::FieldMissing));
    assert_eq!(
        res.get_u64("name"),
        Err(LmsError::FieldTypeMismatch(FieldKind::UnsignedInt))
    );
    assert_eq!(res.get_str("name"), Ok("Kitchen".to_string()));
    assert_eq!(
        res.get_str("count"),
        Err(LmsError::FieldTypeMismatch(FieldKind::Text))
    );
}

#[test]
fn coerce_u64_falls_back_on_mismatch_only() {
    let res = response(vec![
        field("native", JsonValue::UInt(3)),
        field("stringy", JsonValue::Str("3".to_string())),
        field("garbled", JsonValue::Str("three".to_string())),
    ]);
    // native numbers pass through
    assert_eq!(res.coerce_u64("native"), Ok(3));
    // numeric strings parse to the same value
    assert_eq!(res.coerce_u64("stringy"), Ok(3));
    // a string that does not parse is a hard decode error, not a default
    assert_eq!(
        res.coerce_u64("garbled"),
        Err(LmsError::FieldTypeMismatch(FieldKind::UnsignedInt))
    );
    // absence never triggers the fallback
    assert_eq!(res.coerce_u64("absent"), Err(LmsError::FieldMissing));
}

#[test]
fn coerce_time_takes_fractions_integers_and_strings() {
    let res = response(vec![
        field("frac", JsonValue::Num(TrackTime { secs: 12, millis: 500 })),
        field("whole", JsonValue::UInt(42)),
        field("stringy", JsonValue::Str("42".to_string())),
    ]);
    assert_eq!(res.coerce_time("frac"), Ok(TrackTime { secs: 12, millis: 500 }));
    assert_eq!(res.coerce_time("whole"), Ok(TrackTime { secs: 42, millis: 0 }));
    assert_eq!(res.coerce_time("stringy"), Ok(TrackTime { secs: 42, millis: 0 }));
    assert_eq!(res.coerce_time("absent"), Err(LmsError::FieldMissing));
}

#[test]
fn repeat_codes_outside_the_set_mean_none() {
    assert_eq!(RepeatMode::from(0), RepeatMode::NONE);
    assert_eq!(RepeatMode::from(1), RepeatMode::TRACK);
    assert_eq!(RepeatMode::from(2), RepeatMode::PLAYLIST);
    assert_eq!(RepeatMode::from(3), RepeatMode::NONE);
    assert_eq!(RepeatMode::from(u64::MAX), RepeatMode::NONE);
}

#[test]
fn shuffle_codes_outside_the_set_mean_none() {
    assert_eq!(ShuffleMode::from(0), ShuffleMode::NONE);
    assert_eq!(ShuffleMode::from(1), ShuffleMode::TRACK);
    assert_eq!(ShuffleMode::from(2), ShuffleMode::ALBUM);
    assert_eq!(ShuffleMode::from(99), ShuffleMode::NONE);
}

#[test]
fn play_mode_strings_outside_the_set_are_errors() {
    assert_eq!(PlaylistMode::from("play"), Ok(PlaylistMode::PLAY));
    assert_eq!(PlaylistMode::from("stop"), Ok(PlaylistMode::STOP));
    assert_eq!(PlaylistMode::from("pause"), Ok(PlaylistMode::PAUSE));
    assert_eq!(PlaylistMode::from("Play"), Err(LmsError::EnumDecodeError));
    assert_eq!(PlaylistMode::from(""), Err(LmsError::EnumDecodeError));
    assert_eq!(PlaylistMode::from("paused"), Err(LmsError::EnumDecodeError));
}

#[test]
fn mode_labels_and_indicators() {
    assert_eq!(PlaylistMode::PLAY.label(), "PLAYING");
    assert_eq!(PlaylistMode::STOP.label(), "STOPPED");
    assert_eq!(PlaylistMode::PAUSE.label(), "PAUSED");
    assert_eq!(RepeatMode::NONE.indicator(), "-");
    assert_eq!(RepeatMode::TRACK.indicator(), "r");
    assert_eq!(RepeatMode::PLAYLIST.indicator(), "R");
    assert_eq!(ShuffleMode::NONE.indicator(), "-");
    assert_eq!(ShuffleMode::TRACK.indicator(), "z");
    assert_eq!(ShuffleMode::ALBUM.indicator(), "Z");
}
