//! The layout engine: clock formatting, bars, padded and truncated
//! columns, exact row widths, determinism, and wide-glyph accounting.

use lyra::lms::LmsPlaylist;
use lyra::lms::LmsSong;
use lyra::time::TrackTime;
use lyra::ui::construct_bar;
use lyra::ui::construct_text_column;
use lyra::ui::format_time;
use lyra::ui::layout_playlist;
use lyra::ui::now_playing_text;
use lyra::ui::total_playlist_millis;

/// Display width under the terminal-cell rule: ASCII one cell, two else.
fn dw(s: &str) -> usize {
    s.chars().map(|c| if c.is_ascii() { 1 } else { 2 }).sum()
}

fn song(index: u64, title: &str, artist: &str, album: &str, secs: u64) -> LmsSong {
    LmsSong {
        index,
        title: title.to_string(),
        artist: artist.to_string(),
        album: album.to_string(),
        duration: TrackTime { secs, millis: 0 },
    }
}

#[test]
fn clock_formats_minutes_and_seconds() {
    assert_eq!(format_time(0, false), "0:00");
    assert_eq!(format_time(59, false), "0:59");
    assert_eq!(format_time(61, false), "1:01");
    assert_eq!(format_time(185, false), "3:05");
    assert_eq!(format_time(3599, false), "59:59");
}

#[test]
fn clock_formats_hours_past_sixty_minutes() {
    assert_eq!(format_time(3600, false), "1:00:00");
    assert_eq!(format_time(3661, false), "1:01:01");
    assert_eq!(format_time(35999, false), "9:59:59");
    assert_eq!(format_time(36000, false), "10:00:00");
}

#[test]
fn full_width_clock_pads_the_leading_figure() {
    assert_eq!(format_time(61, true), " 1:01");
    assert_eq!(format_time(3599, true), "59:59");
    assert_eq!(format_time(3600, true), " 1:00:00");
    assert_eq!(format_time(359999, true), "99:59:59");
}

#[test]
fn bars_span_their_length() {
    assert_eq!(construct_bar(2), "├┤");
    assert_eq!(construct_bar(4), "├──┤");
    assert_eq!(construct_bar(10).chars().count(), 10);
}

#[test]
fn fitting_text_is_padded_to_its_budget() {
    let (text, spaces, advanced) = construct_text_column("Hello".to_string(), 10, 3);
    assert_eq!(text, "Hello");
    assert_eq!(spaces, "     ");
    assert_eq!(advanced, 13);
}

#[test]
fn overflowing_text_gets_an_ellipsis() {
    let (text, spaces, _) = construct_text_column("abcdefghij".to_string(), 8, 0);
    assert_eq!(text, "abcd...");
    assert_eq!(spaces, " ");
    assert_eq!(dw(&text) + spaces.len(), 8);
}

#[test]
fn wide_glyphs_truncate_against_display_width() {
    let (text, spaces, _) = construct_text_column("ああああ".to_string(), 8, 0);
    // two glyphs fill the four cells the marker leaves
    assert_eq!(text, "ああ...");
    assert_eq!(dw(&text), 7);
    assert_eq!(spaces, " ");
}

#[test]
fn row_segments_fill_the_width_exactly() {
    let playlist = LmsPlaylist::from(vec![
        song(0, "Song", "Artist", "Album", 185),
        song(1, "Another One", "Someone Else", "Elsewhere", 95),
    ]);
    let rows = layout_playlist(&playlist, 60).unwrap();
    assert_eq!(rows.len(), 2);
    for row in &rows {
        let total = dw(&row.index) + dw(&row.title) + dw(&row.artist) + dw(&row.album)
            + dw(&row.duration);
        assert_eq!(total, 60);
        // below 80 cells the album column is omitted entirely
        assert_eq!(row.album, "");
    }
    assert_eq!(rows[0].index, " 1 ");
    assert_eq!(rows[0].duration, " 3:05");
    assert_eq!(rows[0].title, format!("Song{}", " ".repeat(28)));
    assert_eq!(rows[0].artist, format!("Artist{}", " ".repeat(14)));
}

#[test]
fn album_column_appears_past_eighty_cells() {
    let playlist = LmsPlaylist::from(vec![song(0, "Song", "Artist", "Album", 185)]);
    let rows = layout_playlist(&playlist, 99).unwrap();
    // each side column gets (99 / 11) * 3 = 27 cells
    assert_eq!(dw(&rows[0].artist), 27);
    assert_eq!(dw(&rows[0].album), 27);
    let total = dw(&rows[0].index) + dw(&rows[0].title) + dw(&rows[0].artist)
        + dw(&rows[0].album) + dw(&rows[0].duration);
    assert_eq!(total, 99);
}

#[test]
fn one_long_track_widens_every_duration_cell() {
    let playlist = LmsPlaylist::from(vec![
        song(0, "Short", "A", "X", 185),
        song(1, "Long", "B", "X", 7200),
    ]);
    let rows = layout_playlist(&playlist, 60).unwrap();
    // one shape for the whole render, so the rows stay aligned
    assert_eq!(rows[0].duration, "    3:05");
    assert_eq!(rows[1].duration, " 2:00:00");
    for row in &rows {
        let total = dw(&row.index) + dw(&row.title) + dw(&row.artist) + dw(&row.album)
            + dw(&row.duration);
        assert_eq!(total, 60);
    }
}

#[test]
fn layout_is_deterministic() {
    let playlist = LmsPlaylist::from(vec![
        song(0, "Song", "Artist", "Album", 185),
        song(1, "日本語のタイトル", "アーティスト", "アルバム", 7200),
    ]);
    let first = layout_playlist(&playlist, 90).unwrap();
    let second = layout_playlist(&playlist, 90).unwrap();
    assert_eq!(first, second);
}

#[test]
fn wide_title_truncates_earlier_at_equal_byte_length() {
    // sixty bytes each: sixty ASCII characters against twenty three-byte
    // glyphs
    let ascii: String = "a".repeat(60);
    let wide: String = "あ".repeat(20);
    assert_eq!(ascii.len(), wide.len());

    let playlist = LmsPlaylist::from(vec![
        song(0, &ascii, "A", "X", 100),
        song(1, &wide, "B", "X", 100),
    ]);
    let rows = layout_playlist(&playlist, 60).unwrap();

    // both columns occupy the same display width
    assert_eq!(dw(&rows[0].title), dw(&rows[1].title));
    // but the wide title kept fewer characters before the marker
    let kept_ascii = rows[0].title.trim_end().trim_end_matches("...").chars().count();
    let kept_wide = rows[1].title.trim_end().trim_end_matches("...").chars().count();
    assert!(rows[0].title.contains("..."));
    assert!(rows[1].title.contains("..."));
    assert!(kept_wide < kept_ascii);
    assert_eq!(kept_ascii, 28);
    assert_eq!(kept_wide, 14);
}

#[test]
fn narrow_terminals_and_oversized_tracks_refuse_layout() {
    let fine = LmsPlaylist::from(vec![song(0, "Song", "A", "X", 100)]);
    assert!(layout_playlist(&fine, 19).is_none());
    assert!(layout_playlist(&fine, 20).is_some());

    let big_index = LmsPlaylist::from(vec![song(99, "Song", "A", "X", 100)]);
    assert!(layout_playlist(&big_index, 60).is_none());

    let too_long = LmsPlaylist::from(vec![song(0, "Song", "A", "X", 360000)]);
    assert!(layout_playlist(&too_long, 60).is_none());
}

#[test]
fn now_playing_shows_na_without_a_track() {
    let t = song(0, "Song", "Artist", "X", 100);
    assert_eq!(now_playing_text(&t, false, 100), "N/A");
}

#[test]
fn now_playing_truncates_into_the_footer() {
    let t = song(0, "Song", "Artist", "X", 100);
    assert_eq!(now_playing_text(&t, true, 100), "Song - Artist");
    // only seven cells left: the text is cut and marked
    assert_eq!(now_playing_text(&t, true, 40), "Song - ...");
}

#[test]
fn playlist_running_time_sums_millis() {
    let playlist = LmsPlaylist::from(vec![
        LmsSong {
            index: 0,
            title: "One".to_string(),
            artist: "A".to_string(),
            album: "X".to_string(),
            duration: TrackTime { secs: 100, millis: 0 },
        },
        LmsSong {
            index: 1,
            title: "Two".to_string(),
            artist: "B".to_string(),
            album: "X".to_string(),
            duration: TrackTime { secs: 110, millis: 500 },
        },
    ]);
    assert_eq!(total_playlist_millis(&playlist), 210_500);
}

#[test]
fn track_time_knows_about_hours() {
    assert!(!TrackTime { secs: 3599, millis: 999 }.has_hours());
    assert!(TrackTime { secs: 3600, millis: 0 }.has_hours());
    assert_eq!(TrackTime::zero(), TrackTime { secs: 0, millis: 0 });
    assert_eq!(TrackTime::from_secs(9), TrackTime { secs: 9, millis: 0 });
}

#[test]
fn placeholder_song_has_a_tenth_of_a_second() {
    let s = LmsSong::default();
    assert_eq!(s.title, "");
    assert_eq!(s.duration, TrackTime { secs: 0, millis: 100 });
}
