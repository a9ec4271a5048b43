//! The adaptive layout engine: a pure mapping from one song and a
//! terminal width to the five text segments of its playlist row —
//! index, title, artist, album, duration — padded and truncated so that
//! the segments exactly fill the width.
//!
//! Column accounting uses display width throughout: an ASCII character
//! fills one terminal cell, anything else two. The index and duration
//! columns are fixed-width; the duration column's shape is decided once
//! per render from the longest track, so rows stay aligned. The artist
//! column exists only beyond 50 cells, the album column only beyond 80;
//! below those widths the columns are omitted entirely. Whatever remains
//! belongs to the title.

use vstd::prelude::*;

use crate::lms::LmsPlaylist;
use crate::lms::LmsSong;
use crate::num::dec_str;
use crate::num::lemma_dec_str_ascii;
use crate::num::lemma_dec_str_len;
use crate::num::lemma_space_padded2_ascii;
use crate::num::lemma_two_dec_digits_ascii;
use crate::num::space_padded2;
use crate::num::two_dec_digits;
use crate::num::u64_to_dec;
use crate::num::u64_to_space_padded2;
use crate::num::u64_to_two_digits;
use crate::text::fit_len;
use crate::text::is_ascii_seq;
use crate::text::lemma_fit_len_props;
use crate::text::lemma_width_all_ascii;
use crate::text::lemma_width_concat;
use crate::text::make_spaces;
use crate::text::text_display_width;
use crate::text::truncate_to_width;
use crate::text::display_width_capped;

verus! {

// ---------------------------------------------------------------------
// Times for the display: `M:SS`, or `H:MM:SS` beyond an hour.
// ---------------------------------------------------------------------
/// The clock string for a track time: minutes and seconds, with an hours
/// figure once the time reaches one hour; `full_width` pads the leading
/// figure to two cells so columns align.
pub open spec fn spec_format_time(secs: int, full_width: bool) -> Seq<char> {
    let minutes = secs / 60;
    let s = secs % 60;
    if minutes >= 60 {
        let hours = minutes / 60;
        let m = minutes % 60;
        (if full_width {
            space_padded2(hours)
        } else {
            dec_str(hours)
        }) + seq![':'] + two_dec_digits(m) + seq![':'] + two_dec_digits(s)
    } else {
        (if full_width {
            space_padded2(minutes)
        } else {
            dec_str(minutes)
        }) + seq![':'] + two_dec_digits(s)
    }
}

pub fn format_time(secs: u64, full_width: bool) -> (out: String)
    ensures
        out@ == spec_format_time(secs as int, full_width),
{
    let seconds = secs % 60;
    let minutes = secs / 60;
    let mut out: String;
    if minutes >= 60 {
        let hours = minutes / 60;
        let mins = minutes % 60;
        out = if full_width {
            u64_to_space_padded2(hours)
        } else {
            u64_to_dec(hours)
        };
        out.append(":");
        let mm = u64_to_two_digits(mins);
        out.append(mm.as_str());
        out.append(":");
        let ss = u64_to_two_digits(seconds);
        out.append(ss.as_str());
    } else {
        out = if full_width {
            u64_to_space_padded2(minutes)
        } else {
            u64_to_dec(minutes)
        };
        out.append(":");
        let ss = u64_to_two_digits(seconds);
        out.append(ss.as_str());
    }
    proof {
        reveal_strlit(":");
        assert(":"@ =~= seq![':']);
        assert(out@ =~= spec_format_time(secs as int, full_width));
    }
    out
}

/// Clock strings are ASCII; with padding they are exactly 5 cells below
/// an hour and exactly 8 up to a hundred hours.
pub proof fn lemma_format_time_props(secs: int, full_width: bool)
    requires
        0 <= secs,
    ensures
        is_ascii_seq(spec_format_time(secs, full_width)),
        full_width && secs < 3600 ==> spec_format_time(secs, full_width).len() == 5,
        full_width && 3600 <= secs < 360000 ==> spec_format_time(secs, full_width).len() == 8,
{
    let minutes = secs / 60;
    let s = secs % 60;
    lemma_two_dec_digits_ascii(s);
    if minutes >= 60 {
        let hours = minutes / 60;
        let m = minutes % 60;
        lemma_space_padded2_ascii(hours);
        lemma_dec_str_ascii(hours);
        lemma_two_dec_digits_ascii(m);
        lemma_dec_str_len(hours);
        if hours >= 10 {
            lemma_dec_str_len(hours);
        }
        assert(is_ascii_seq(spec_format_time(secs, full_width)));
    } else {
        lemma_space_padded2_ascii(minutes);
        lemma_dec_str_ascii(minutes);
        lemma_dec_str_len(minutes);
        assert(is_ascii_seq(spec_format_time(secs, full_width)));
    }
}

// ---------------------------------------------------------------------
// Horizontal separator bars.
// ---------------------------------------------------------------------
/// A separator bar: a left tee, a run of horizontal line cells, a right
/// tee, spanning `length` cells.
pub fn construct_bar(length: u16) -> (s: String)
    requires
        length >= 2,
    ensures
        s@ == seq!['├'] + Seq::new((length - 2) as nat, |i: int| '─') + seq!['┤'],
{
    let mut bar = "├".to_owned();
    let n: usize = (length - 2) as usize;
    let mut i: usize = 0;
    proof {
        reveal_strlit("├");
        reveal_strlit("─");
        reveal_strlit("┤");
        assert(bar@ =~= seq!['├'] + Seq::new(0, |j: int| '─'));
    }
    while i < n
        invariant
            i <= n,
            bar@ == seq!['├'] + Seq::new(i as nat, |j: int| '─'),
        decreases n - i,
    {
        bar.append("─");
        proof {
            reveal_strlit("─");
            assert(bar@ =~= seq!['├'] + Seq::new((i + 1) as nat, |j: int| '─'));
        }
        i = i + 1;
    }
    bar.append("┤");
    proof {
        reveal_strlit("┤");
        assert(bar@ =~= seq!['├'] + Seq::new((length - 2) as nat, |j: int| '─') + seq!['┤']);
    }
    bar
}

// ---------------------------------------------------------------------
// One padded, possibly truncated text column.
// ---------------------------------------------------------------------
/// The text a column of budget `b` shows: the whole string when it fits
/// in `b - 1` cells (one cell always separates columns), else the widest
/// prefix that leaves room for the ellipsis marker.
pub open spec fn spec_column_text(s: Seq<char>, b: int) -> Seq<char> {
    if text_display_width(s) <= b - 1 {
        s
    } else {
        s.take(fit_len(s, b - 4)) + seq!['.', '.', '.']
    }
}

/// The spaces that pad the column out to exactly `b` cells.
pub open spec fn spec_column_pad_len(s: Seq<char>, b: int) -> int {
    b - text_display_width(spec_column_text(s, b))
}

/// A column's text leaves at least one cell of padding, and text plus
/// padding is exactly the budget.
pub proof fn lemma_column_text_width(s: Seq<char>, b: int)
    requires
        b >= 5,
    ensures
        text_display_width(spec_column_text(s, b)) <= b - 1,
        text_display_width(spec_column_text(s, b)) >= 0,
        1 <= spec_column_pad_len(s, b) <= b,
{
    crate::text::lemma_width_bounds(s);
    if text_display_width(s) <= b - 1 {
    } else {
        lemma_fit_len_props(s, b - 4);
        let p = s.take(fit_len(s, b - 4));
        lemma_width_concat(p, seq!['.', '.', '.']);
        assert(is_ascii_seq(seq!['.', '.', '.']));
        lemma_width_all_ascii(seq!['.', '.', '.']);
        crate::text::lemma_width_bounds(p);
    }
}

/// Builds one text column of budget `width_factor`: the (possibly
/// truncated) text, the padding that completes the budget, and the
/// running row width advanced by the whole budget.
pub fn construct_text_column(base_text: String, width_factor: usize, current_width: usize) -> (r: (
    String,
    String,
    usize,
))
    requires
        5 <= width_factor <= 65535,
        current_width <= usize::MAX - width_factor,
    ensures
        r.0@ == spec_column_text(base_text@, width_factor as int),
        r.1@ == Seq::new(spec_column_pad_len(base_text@, width_factor as int) as nat, |i: int| ' '),
        r.2 == current_width + width_factor,
{
    let b = width_factor;
    proof {
        lemma_column_text_width(base_text@, b as int);
    }
    let w = display_width_capped(base_text.as_str(), b - 1);
    if w <= b - 1 {
        let spaces = make_spaces(b - w);
        proof {
            assert(spaces@ =~= Seq::new(
                spec_column_pad_len(base_text@, b as int) as nat,
                |i: int| ' ',
            ));
        }
        (base_text, spaces, current_width + b)
    } else {
        let (p, wp) = truncate_to_width(base_text.as_str(), b - 4);
        let mut text = p.to_owned();
        text.append("...");
        proof {
            reveal_strlit("...");
            assert("..."@ =~= seq!['.', '.', '.']);
            assert(is_ascii_seq(seq!['.', '.', '.']));
            lemma_width_all_ascii(seq!['.', '.', '.']);
            lemma_width_concat(p@, seq!['.', '.', '.']);
            assert(text@ =~= spec_column_text(base_text@, b as int));
        }
        let spaces = make_spaces(b - 3 - wp);
        proof {
            assert(spaces@ =~= Seq::new(
                spec_column_pad_len(base_text@, b as int) as nat,
                |i: int| ' ',
            ));
        }
        (text, spaces, current_width + b)
    }
}

// ---------------------------------------------------------------------
// Column budgets across the terminal width.
// ---------------------------------------------------------------------
/// The share of the width a side column (artist or album) receives.
pub open spec fn col_width_factor(w: int) -> int {
    if w > 80 {
        (w / 11) * 3
    } else if w > 50 {
        w / 3
    } else {
        w / 4
    }
}

/// The artist column exists only beyond 50 cells.
pub open spec fn artist_budget(w: int) -> int {
    if w > 50 {
        col_width_factor(w)
    } else {
        0
    }
}

/// The album column exists only beyond 80 cells.
pub open spec fn album_budget(w: int) -> int {
    if w > 80 {
        col_width_factor(w)
    } else {
        0
    }
}

/// The fixed duration column: `H:MM:SS` when any track reaches an hour,
/// `M:SS` otherwise — one shape for the whole render, so rows align.
pub open spec fn duration_width(any_hour: bool) -> int {
    if any_hour {
        8
    } else {
        5
    }
}

/// Whatever the fixed and side columns leave goes to the title.
pub open spec fn title_budget(w: int, any_hour: bool) -> int {
    w - 3 - artist_budget(w) - album_budget(w) - duration_width(any_hour)
}

/// From 20 cells up, every active column keeps a workable budget.
pub proof fn lemma_budgets(w: int, any_hour: bool)
    requires
        20 <= w <= 65535,
    ensures
        5 <= title_budget(w, any_hour),
        w > 50 ==> 5 <= col_width_factor(w),
        0 <= col_width_factor(w),
        0 <= artist_budget(w),
        0 <= album_budget(w),
{
    if w > 80 {
        let q = w / 11;
        assert(11 * q <= w < 11 * (q + 1));
        assert(q >= 7);
    } else if w > 50 {
        let q = w / 3;
        assert(3 * q <= w < 3 * (q + 1));
        assert(q >= 17);
    }
}

// ---------------------------------------------------------------------
// One playlist row.
// ---------------------------------------------------------------------
/// The five segments of one playlist row, each already padded to its
/// column; their concatenation fills the terminal width exactly.
#[derive(Debug, PartialEq)]
pub struct TrackRow {
    /// Two cells of one-based track number and one separating space.
    pub index: String,
    pub title: String,
    /// Empty when the terminal is too narrow for the column.
    pub artist: String,
    /// Empty when the terminal is too narrow for the column.
    pub album: String,
    /// The fixed-width, right-aligned clock.
    pub duration: String,
}

/// The index column: the one-based number in two cells, then a space.
pub open spec fn spec_index_col(index: int) -> Seq<char> {
    space_padded2(index + 1) + seq![' ']
}

/// A whole column: its text and the padding completing the budget.
pub open spec fn spec_column(s: Seq<char>, b: int) -> Seq<char> {
    spec_column_text(s, b) + Seq::new(spec_column_pad_len(s, b) as nat, |i: int| ' ')
}

/// The duration column: spaces, then the clock, right-aligned.
pub open spec fn spec_duration_col(secs: int, any_hour: bool) -> Seq<char> {
    Seq::new(
        (duration_width(any_hour) - spec_format_time(secs, true).len()) as nat,
        |i: int| ' ',
    ) + spec_format_time(secs, true)
}

/// A padded column occupies exactly its budget.
pub proof fn lemma_column_width(s: Seq<char>, b: int)
    requires
        b >= 5,
    ensures
        text_display_width(spec_column(s, b)) == b,
{
    lemma_column_text_width(s, b);
    let pad = Seq::new(spec_column_pad_len(s, b) as nat, |i: int| ' ');
    assert(is_ascii_seq(pad));
    lemma_width_all_ascii(pad);
    lemma_width_concat(spec_column_text(s, b), pad);
}

/// What it means for `row` to lay `track` out at width `w`: every
/// segment equals its computed column, and the five display widths sum
/// to exactly `w`.
pub open spec fn spec_track_row_ok(row: TrackRow, track: LmsSong, w: int, any_hour: bool) -> bool {
    &&& row.index@ == spec_index_col(track.index as int)
    &&& row.title@ == spec_column(track.title@, title_budget(w, any_hour))
    &&& row.artist@ == (if w > 50 {
        spec_column(track.artist@, col_width_factor(w))
    } else {
        Seq::<char>::empty()
    })
    &&& row.album@ == (if w > 80 {
        spec_column(track.album@, col_width_factor(w))
    } else {
        Seq::<char>::empty()
    })
    &&& row.duration@ == spec_duration_col(track.duration.secs as int, any_hour)
    &&& text_display_width(row.index@) + text_display_width(row.title@) + text_display_width(
        row.artist@,
    ) + text_display_width(row.album@) + text_display_width(row.duration@) == w
}

/// Lays one song out into its row. The index stays within two cells and
/// durations within the `H:MM:SS` clock; `any_hour` is the
/// duration-column shape computed from the whole playlist.
pub fn track_span(track: &LmsSong, width: u16, any_hour: bool) -> (row: TrackRow)
    requires
        20 <= width,
        track.index <= 98,
        track.duration.secs < 360000,
        !any_hour ==> track.duration.secs < 3600,
    ensures
        spec_track_row_ok(row, *track, width as int, any_hour),
{
    proof {
        lemma_budgets(width as int, any_hour);
        crate::num::lemma_space_padded2_len(track.index as int + 1);
        crate::num::lemma_space_padded2_ascii(track.index as int + 1);
        lemma_format_time_props(track.duration.secs as int, true);
    }
    let w = width as usize;
    let mut index_col = u64_to_space_padded2(track.index + 1);
    index_col.append(" ");
    proof {
        reveal_strlit(" ");
        assert(index_col@ =~= spec_index_col(track.index as int));
        assert(is_ascii_seq(index_col@));
        lemma_width_all_ascii(index_col@);
    }
    let durw: usize = if any_hour {
        8
    } else {
        5
    };
    let wf: usize = if w > 80 {
        w / 11 * 3
    } else if w > 50 {
        w / 3
    } else {
        w / 4
    };
    let mut current: usize = 3;

    let mut artist_col = String::new();
    if w > 50 {
        let (text, spaces, cw) = construct_text_column(track.artist.clone(), wf, current);
        artist_col = text;
        artist_col.append(spaces.as_str());
        current = cw;
        proof {
            assert(artist_col@ =~= spec_column(track.artist@, col_width_factor(width as int)));
            lemma_column_width(track.artist@, col_width_factor(width as int));
        }
    }

    let mut album_col = String::new();
    if w > 80 {
        let (text, spaces, cw) = construct_text_column(track.album.clone(), wf, current);
        album_col = text;
        album_col.append(spaces.as_str());
        current = cw;
        proof {
            assert(album_col@ =~= spec_column(track.album@, col_width_factor(width as int)));
            lemma_column_width(track.album@, col_width_factor(width as int));
        }
    }

    let clock = format_time(track.duration.secs, true);
    let clock_len: usize = if track.duration.secs >= 3600 {
        8
    } else {
        5
    };
    let mut duration_col = make_spaces(durw - clock_len);
    duration_col.append(clock.as_str());
    proof {
        assert(duration_col@ =~= spec_duration_col(track.duration.secs as int, any_hour));
        assert(is_ascii_seq(duration_col@));
        lemma_width_all_ascii(duration_col@);
    }
    current = current + durw;

    let tb = w - current;
    let (text, spaces, _) = construct_text_column(track.title.clone(), tb, current);
    let mut title_col = text;
    title_col.append(spaces.as_str());
    proof {
        assert(title_col@ =~= spec_column(track.title@, title_budget(width as int, any_hour)));
        lemma_column_width(track.title@, title_budget(width as int, any_hour));
    }

    TrackRow {
        index: index_col,
        title: title_col,
        artist: artist_col,
        album: album_col,
        duration: duration_col,
    }
}

// ---------------------------------------------------------------------
// The whole playlist, laid out row by row.
// ---------------------------------------------------------------------
/// Whether any track reaches one hour: the worst case that fixes the
/// duration column's shape for the whole render.
pub open spec fn spec_any_hour(tracks: Seq<LmsSong>) -> bool {
    exists|i: int| 0 <= i < tracks.len() && (#[trigger] tracks[i]).duration.secs >= 3600
}

/// What the layout can render at width `w`: a wide-enough terminal,
/// two-cell indices, and durations inside the clock's hundred hours.
pub open spec fn spec_layout_fits(tracks: Seq<LmsSong>, w: int) -> bool {
    &&& w >= 20
    &&& forall|i: int|
        0 <= i < tracks.len() ==> (#[trigger] tracks[i]).index <= 98
            && tracks[i].duration.secs < 360000
}

/// Lays the whole playlist out: one row per track, all sharing one
/// duration-column shape. `None` exactly when the terminal is too
/// narrow or a track falls outside the fixed columns.
pub fn layout_playlist(playlist: &LmsPlaylist, width: u16) -> (r: Option<Vec<TrackRow>>)
    ensures
        match r {
            Some(rows) => spec_layout_fits(playlist.tracks@, width as int) && rows@.len()
                == playlist.tracks@.len() && forall|i: int|
                0 <= i < rows@.len() ==> spec_track_row_ok(
                    #[trigger] rows@[i],
                    playlist.tracks@[i],
                    width as int,
                    spec_any_hour(playlist.tracks@),
                ),
            None => !spec_layout_fits(playlist.tracks@, width as int),
        },
{
    if width < 20 {
        return None;
    }
    let n = playlist.tracks.len();
    let ghost tracks = playlist.tracks@;
    let mut any_hour = false;
    let mut i: usize = 0;
    while i < n
        invariant
            i <= n,
            n == tracks.len(),
            tracks == playlist.tracks@,
            any_hour == spec_any_hour(tracks.take(i as int)),
            forall|j: int|
                0 <= j < i ==> (#[trigger] tracks[j]).index <= 98 && tracks[j].duration.secs
                    < 360000,
        decreases n - i,
    {
        let t: &LmsSong = &playlist.tracks[i];
        if t.index > 98 || t.duration.secs >= 360000 {
            return None;
        }
        let ghost before = any_hour;
        if t.duration.secs >= 3600 {
            any_hour = true;
        }
        proof {
            let pre = tracks.take(i as int);
            let now = tracks.take(i + 1);
            assert(forall|j: int| 0 <= j < pre.len() ==> pre[j] == now[j]);
            assert(now[i as int] == tracks[i as int]);
            if any_hour {
                if tracks[i as int].duration.secs >= 3600 {
                    assert(spec_any_hour(now));
                } else {
                    let k = choose|k: int|
                        0 <= k < pre.len() && (#[trigger] pre[k]).duration.secs >= 3600;
                    assert(now[k] == pre[k]);
                    assert(spec_any_hour(now));
                }
            } else {
                assert forall|k: int| 0 <= k < now.len() implies (#[trigger] now[k]).duration.secs
                    < 3600 by {
                    if k < i as int {
                        assert(now[k] == pre[k]);
                        assert(!spec_any_hour(pre));
                        assert(pre[k] == tracks[k]);
                    }
                }
            }
        }
        i = i + 1;
    }
    proof {
        assert(tracks.take(n as int) =~= tracks);
    }
    let mut rows: Vec<TrackRow> = Vec::new();
    let mut k: usize = 0;
    while k < n
        invariant
            k <= n,
            n == tracks.len(),
            tracks == playlist.tracks@,
            width >= 20,
            any_hour == spec_any_hour(tracks),
            forall|j: int|
                0 <= j < n ==> (#[trigger] tracks[j]).index <= 98 && tracks[j].duration.secs
                    < 360000,
            rows@.len() == k,
            forall|j: int|
                0 <= j < k ==> spec_track_row_ok(
                    #[trigger] rows@[j],
                    tracks[j],
                    width as int,
                    any_hour,
                ),
        decreases n - k,
    {
        proof {
            if !any_hour {
                assert(!spec_any_hour(tracks));
                assert(tracks[k as int].duration.secs < 3600) by {
                    if tracks[k as int].duration.secs >= 3600 {
                        assert(spec_any_hour(tracks));
                    }
                }
            }
        }
        let row = track_span(&playlist.tracks[k], width, any_hour);
        rows.push(row);
        k = k + 1;
    }
    Some(rows)
}

// ---------------------------------------------------------------------
// The now-playing line and the playlist's total running time.
// ---------------------------------------------------------------------
/// The footer's now-playing text: `title - artist`, or `N/A` with
/// nothing queued; truncated against display width with an ellipsis
/// marker when it overruns the room the footer leaves it.
pub open spec fn spec_now_playing(title: Seq<char>, artist: Seq<char>, has_track: bool, w: int) -> Seq<
    char,
> {
    let base = if has_track {
        title + seq![' ', '-', ' '] + artist
    } else {
        seq!['N', '/', 'A']
    };
    if text_display_width(base) > w - 33 {
        base.take(fit_len(base, w - 33)) + seq!['.', '.', '.']
    } else {
        base
    }
}

/// Builds the now-playing text for the current track, truncating it to
/// the width the footer's fixed decorations leave over.
pub fn now_playing_text(track: &LmsSong, has_track: bool, width: u16) -> (s: String)
    requires
        width > 33,
    ensures
        s@ == spec_now_playing(track.title@, track.artist@, has_track, width as int),
{
    let mut base: String;
    if has_track {
        base = track.title.clone();
        base.append(" - ");
        base.append(track.artist.as_str());
        proof {
            reveal_strlit(" - ");
            assert(" - "@ =~= seq![' ', '-', ' ']);
        }
    } else {
        base = "N/A".to_owned();
        proof {
            reveal_strlit("N/A");
            assert("N/A"@ =~= seq!['N', '/', 'A']);
        }
    }
    let room = (width as usize) - 33;
    let bw = display_width_capped(base.as_str(), room);
    if bw > room {
        let (kept, _) = truncate_to_width(base.as_str(), room);
        let mut out = kept.to_owned();
        out.append("...");
        proof {
            reveal_strlit("...");
            assert("..."@ =~= seq!['.', '.', '.']);
            assert(out@ =~= spec_now_playing(track.title@, track.artist@, has_track, width as int));
        }
        out
    } else {
        base
    }
}

/// The playlist's running time in milliseconds.
pub open spec fn spec_total_millis(tracks: Seq<LmsSong>) -> int
    decreases tracks.len(),
{
    if tracks.len() == 0 {
        0
    } else {
        spec_total_millis(tracks.drop_last()) + tracks.last().duration.secs * 1000
            + tracks.last().duration.millis
    }
}

proof fn lemma_total_millis_nonneg(tracks: Seq<LmsSong>)
    ensures
        spec_total_millis(tracks) >= 0,
    decreases tracks.len(),
{
    if tracks.len() > 0 {
        lemma_total_millis_nonneg(tracks.drop_last());
    }
}

/// Sums the playlist's running time, saturating at the largest
/// representable count — far beyond any real playlist.
pub fn total_playlist_millis(playlist: &LmsPlaylist) -> (r: u64)
    ensures
        r as int == (if spec_total_millis(playlist.tracks@) <= u64::MAX as int {
            spec_total_millis(playlist.tracks@)
        } else {
            u64::MAX as int
        }),
{
    let n = playlist.tracks.len();
    let mut acc: u64 = 0;
    let mut i: usize = 0;
    proof {
        assert(playlist.tracks@.take(0) =~= Seq::<LmsSong>::empty());
    }
    while i < n
        invariant
            i <= n,
            n == playlist.tracks@.len(),
            acc as int == (if spec_total_millis(playlist.tracks@.take(i as int)) <= u64::MAX as int {
                spec_total_millis(playlist.tracks@.take(i as int))
            } else {
                u64::MAX as int
            }),
        decreases n - i,
    {
        let t: &LmsSong = &playlist.tracks[i];
        let step: u64 = if t.duration.secs > (u64::MAX - t.duration.millis as u64) / 1000 {
            u64::MAX
        } else {
            t.duration.secs * 1000 + t.duration.millis as u64
        };
        let next: u64 = if acc > u64::MAX - step {
            u64::MAX
        } else {
            acc + step
        };
        proof {
            let pre = playlist.tracks@.take(i as int);
            let now = playlist.tracks@.take(i + 1);
            assert(now.drop_last() =~= pre);
            assert(now.last() == playlist.tracks@[i as int]);
            lemma_total_millis_nonneg(pre);
        }
        acc = next;
        i = i + 1;
    }
    proof {
        assert(playlist.tracks@.take(n as int) =~= playlist.tracks@);
    }
    acc
}

/// Laying out the same song at the same width and column shape twice
/// yields character-for-character identical segments, and the five
/// segment widths always sum to exactly the terminal width: layout is a
/// pure function with no hidden state.
pub proof fn lemma_layout_deterministic_exact(
    r1: TrackRow,
    r2: TrackRow,
    track: LmsSong,
    w: int,
    any_hour: bool,
)
    requires
        spec_track_row_ok(r1, track, w, any_hour),
        spec_track_row_ok(r2, track, w, any_hour),
    ensures
        r1.index@ == r2.index@,
        r1.title@ == r2.title@,
        r1.artist@ == r2.artist@,
        r1.album@ == r2.album@,
        r1.duration@ == r2.duration@,
        text_display_width(r1.index@) + text_display_width(r1.title@) + text_display_width(
            r1.artist@,
        ) + text_display_width(r1.album@) + text_display_width(r1.duration@) == w,
{
}

/// Under one column budget, a title of nothing but wide glyphs is cut
/// after half as many characters as an ASCII title of the same length,
/// yet both columns come out at exactly the budget's display width.
pub proof fn lemma_wide_title_truncates_earlier(a: Seq<char>, wide: Seq<char>, b: int)
    requires
        b >= 5,
        crate::text::is_ascii_seq(a),
        crate::text::is_wide_seq(wide),
        a.len() == wide.len(),
        text_display_width(a) > b - 1,
    ensures
        text_display_width(spec_column(a, b)) == b,
        text_display_width(spec_column(wide, b)) == b,
        fit_len(a, b - 4) == b - 4,
        fit_len(wide, b - 4) == (b - 4) / 2,
        fit_len(wide, b - 4) <= fit_len(a, b - 4),
{
    lemma_width_all_ascii(a);
    crate::text::lemma_width_all_wide(wide);
    lemma_column_width(a, b);
    lemma_column_width(wide, b);
    crate::text::lemma_fit_len_ascii(a, b - 4);
    crate::text::lemma_fit_len_wide(wide, b - 4);
}

} // verus!
