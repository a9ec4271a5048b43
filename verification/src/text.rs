//! Text measurement for a terminal: display widths, prefix truncation,
//! and plain string comparison.
//!
//! A character occupies one terminal cell when it is ASCII and two cells
//! otherwise; a string's display width is the sum over its characters.
//! Column layout is computed against display width, never character count.

use vstd::prelude::*;

verus! {

/// Terminal cells taken by one character: 1 for ASCII, 2 for anything wider.
pub open spec fn char_display_width(c: char) -> int {
    if c as u32 <= 127 {
        1
    } else {
        2
    }
}

/// Terminal cells taken by a string: the sum of its characters' widths.
pub open spec fn text_display_width(s: Seq<char>) -> int
    decreases s.len(),
{
    if s.len() == 0 {
        0
    } else {
        char_display_width(s[0]) + text_display_width(s.subrange(1, s.len() as int))
    }
}

pub proof fn lemma_width_concat(a: Seq<char>, b: Seq<char>)
    ensures
        text_display_width(a + b) == text_display_width(a) + text_display_width(b),
    decreases a.len(),
{
    if a.len() == 0 {
        assert(a + b =~= b);
    } else {
        assert((a + b).subrange(1, (a + b).len() as int) =~= a.subrange(1, a.len() as int) + b);
        lemma_width_concat(a.subrange(1, a.len() as int), b);
    }
}

/// Every character is at least one and at most two cells wide.
pub proof fn lemma_width_bounds(s: Seq<char>)
    ensures
        s.len() <= text_display_width(s) <= 2 * s.len(),
    decreases s.len(),
{
    if s.len() > 0 {
        lemma_width_bounds(s.subrange(1, s.len() as int));
    }
}

pub proof fn lemma_width_singleton(c: char)
    ensures
        text_display_width(seq![c]) == char_display_width(c),
{
    reveal_with_fuel(text_display_width, 2);
    assert(seq![c].subrange(1, 1) =~= Seq::<char>::empty());
}

/// Extending a prefix by one character adds that character's width.
pub proof fn lemma_width_take_step(s: Seq<char>, i: int)
    requires
        0 <= i < s.len(),
    ensures
        text_display_width(s.take(i + 1)) == text_display_width(s.take(i)) + char_display_width(
            s[i],
        ),
{
    assert(s.take(i + 1) =~= s.take(i) + seq![s[i]]);
    lemma_width_concat(s.take(i), seq![s[i]]);
    lemma_width_singleton(s[i]);
}

/// How many leading characters of `s` fit in `budget` cells: the length of
/// the longest prefix whose display width does not exceed the budget.
pub open spec fn fit_len(s: Seq<char>, budget: int) -> int
    decreases s.len(),
{
    if s.len() == 0 {
        0
    } else if char_display_width(s[0]) > budget {
        0
    } else {
        1 + fit_len(s.subrange(1, s.len() as int), budget - char_display_width(s[0]))
    }
}

/// `fit_len` is the unique cut `i` whose prefix fits while the next
/// character would overflow.
pub proof fn lemma_fit_len_characterization(s: Seq<char>, budget: int, i: int)
    requires
        0 <= i <= s.len(),
        text_display_width(s.take(i)) <= budget,
        i < s.len() ==> text_display_width(s.take(i)) + char_display_width(s[i]) > budget,
    ensures
        fit_len(s, budget) == i,
    decreases s.len(),
{
    if i == 0 {
        assert(s.take(0) =~= Seq::<char>::empty());
    } else {
        let tail = s.subrange(1, s.len() as int);
        assert(s.take(i) =~= seq![s[0]] + tail.take(i - 1));
        lemma_width_concat(seq![s[0]], tail.take(i - 1));
        lemma_width_singleton(s[0]);
        lemma_width_bounds(tail.take(i - 1));
        if i < s.len() {
            assert(s[i] == tail[i - 1]);
        }
        lemma_fit_len_characterization(tail, budget - char_display_width(s[0]), i - 1);
    }
}

/// The fitting prefix fits, and is maximal.
pub proof fn lemma_fit_len_props(s: Seq<char>, budget: int)
    requires
        budget >= 0,
    ensures
        0 <= fit_len(s, budget) <= s.len(),
        text_display_width(s.take(fit_len(s, budget))) <= budget,
        fit_len(s, budget) < s.len() ==> text_display_width(s.take(fit_len(s, budget)))
            + char_display_width(s[fit_len(s, budget)]) > budget,
    decreases s.len(),
{
    if s.len() == 0 {
        assert(s.take(0) =~= Seq::<char>::empty());
    } else if char_display_width(s[0]) > budget {
        assert(s.take(0) =~= Seq::<char>::empty());
    } else {
        let tail = s.subrange(1, s.len() as int);
        let w0 = char_display_width(s[0]);
        lemma_fit_len_props(tail, budget - w0);
        let k = fit_len(tail, budget - w0);
        assert(s.take(1 + k) =~= seq![s[0]] + tail.take(k));
        lemma_width_concat(seq![s[0]], tail.take(k));
        lemma_width_singleton(s[0]);
        if 1 + k < s.len() {
            assert(s[1 + k] == tail[k]);
        }
    }
}

/// One cell per character for ASCII, two for anything else.
pub fn exec_char_width(c: char) -> (w: usize)
    ensures
        w == char_display_width(c),
{
    if (c as u32) <= 127 {
        1
    } else {
        2
    }
}

/// The longest prefix of `s` that fits in `budget` cells, together with the
/// display width that prefix actually occupies.
pub fn truncate_to_width<'a>(s: &'a str, budget: usize) -> (r: (&'a str, usize))
    ensures
        r.0@ == s@.take(fit_len(s@, budget as int)),
        r.1 == text_display_width(r.0@),
        r.1 <= budget,
{
    let n = s.unicode_len();
    let mut i: usize = 0;
    let mut w: usize = 0;
    while i < n
        invariant
            i <= n,
            n == s@.len(),
            w == text_display_width(s@.take(i as int)),
            w <= budget,
        decreases n - i,
    {
        let c = s.get_char(i);
        let cw = exec_char_width(c);
        if cw > budget - w {
            proof {
                lemma_fit_len_characterization(s@, budget as int, i as int);
            }
            let pre = s.substring_char(0, i);
            assert(pre@ =~= s@.take(i as int));
            return (pre, w);
        }
        proof {
            lemma_width_take_step(s@, i as int);
        }
        w = w + cw;
        i = i + 1;
    }
    proof {
        lemma_fit_len_characterization(s@, budget as int, n as int);
        assert(s@.take(n as int) =~= s@);
    }
    (s, w)
}

/// The display width of the whole of `s`, capped at `cap`: the exact width
/// when it is at most `cap`, and `cap + 1` or `cap + 2` when it overflows.
pub fn display_width_capped(s: &str, cap: usize) -> (w: usize)
    requires
        cap <= usize::MAX - 2,
    ensures
        text_display_width(s@) <= cap ==> w == text_display_width(s@),
        text_display_width(s@) > cap ==> w > cap,
{
    let n = s.unicode_len();
    let mut i: usize = 0;
    let mut w: usize = 0;
    while i < n
        invariant
            i <= n,
            n == s@.len(),
            w == text_display_width(s@.take(i as int)),
            w <= cap + 2,
            cap <= usize::MAX - 2,
        decreases n - i,
    {
        if w > cap {
            proof {
                lemma_width_mono_prefix(s@, i as int, n as int);
                assert(s@.take(n as int) =~= s@);
            }
            return w;
        }
        let c = s.get_char(i);
        let cw = exec_char_width(c);
        proof {
            lemma_width_take_step(s@, i as int);
        }
        w = w + cw;
        i = i + 1;
    }
    proof {
        assert(s@.take(n as int) =~= s@);
    }
    w
}

/// A longer prefix is at least as wide.
pub proof fn lemma_width_mono_prefix(s: Seq<char>, i: int, j: int)
    requires
        0 <= i <= j <= s.len(),
    ensures
        text_display_width(s.take(i)) <= text_display_width(s.take(j)),
{
    assert(s.take(j) =~= s.take(i) + s.take(j).subrange(i, j));
    lemma_width_concat(s.take(i), s.take(j).subrange(i, j));
    lemma_width_bounds(s.take(j).subrange(i, j));
}

/// Every character fits one terminal cell.
pub open spec fn is_ascii_seq(s: Seq<char>) -> bool {
    forall|i: int| 0 <= i < s.len() ==> (#[trigger] s[i]) as u32 <= 127
}

/// Every character needs two terminal cells.
pub open spec fn is_wide_seq(s: Seq<char>) -> bool {
    forall|i: int| 0 <= i < s.len() ==> (#[trigger] s[i]) as u32 > 127
}

/// ASCII text is as wide as it is long.
pub proof fn lemma_width_all_ascii(s: Seq<char>)
    requires
        is_ascii_seq(s),
    ensures
        text_display_width(s) == s.len(),
    decreases s.len(),
{
    if s.len() > 0 {
        let tail = s.subrange(1, s.len() as int);
        assert(forall|i: int| 0 <= i < tail.len() ==> tail[i] == s[i + 1]);
        lemma_width_all_ascii(tail);
    }
}

/// Wide text is twice as wide as it is long.
pub proof fn lemma_width_all_wide(s: Seq<char>)
    requires
        is_wide_seq(s),
    ensures
        text_display_width(s) == 2 * s.len(),
    decreases s.len(),
{
    if s.len() > 0 {
        let tail = s.subrange(1, s.len() as int);
        assert(forall|i: int| 0 <= i < tail.len() ==> tail[i] == s[i + 1]);
        lemma_width_all_wide(tail);
    }
}

/// In a budget of `b` cells, ASCII text keeps `b` characters (or all of
/// them), while text of nothing but wide glyphs keeps only `b / 2`: the
/// wide title is cut earlier, counted in characters, yet neither prefix
/// exceeds the same display budget.
pub proof fn lemma_fit_len_ascii(s: Seq<char>, budget: int)
    requires
        budget >= 0,
        is_ascii_seq(s),
    ensures
        fit_len(s, budget) == if s.len() <= budget {
            s.len() as int
        } else {
            budget
        },
    decreases s.len(),
{
    if s.len() > 0 && budget >= 1 {
        let tail = s.subrange(1, s.len() as int);
        assert(forall|i: int| 0 <= i < tail.len() ==> tail[i] == s[i + 1]);
        lemma_fit_len_ascii(tail, budget - 1);
    }
}

pub proof fn lemma_fit_len_wide(s: Seq<char>, budget: int)
    requires
        budget >= 0,
        is_wide_seq(s),
    ensures
        fit_len(s, budget) == if s.len() <= budget / 2 {
            s.len() as int
        } else {
            budget / 2
        },
    decreases s.len(),
{
    if s.len() > 0 && budget >= 2 {
        let tail = s.subrange(1, s.len() as int);
        assert(forall|i: int| 0 <= i < tail.len() ==> tail[i] == s[i + 1]);
        lemma_fit_len_wide(tail, budget - 2);
    }
}

/// Character-for-character string equality.
pub fn str_eq(a: &str, b: &str) -> (r: bool)
    ensures
        r == (a@ == b@),
{
    let na = a.unicode_len();
    let nb = b.unicode_len();
    if na != nb {
        return false;
    }
    let mut i: usize = 0;
    while i < na
        invariant
            i <= na,
            na == a@.len(),
            na == b@.len(),
            forall|j: int| 0 <= j < i ==> a@[j] == b@[j],
        decreases na - i,
    {
        if a.get_char(i) != b.get_char(i) {
            return false;
        }
        i = i + 1;
    }
    proof {
        assert(a@ =~= b@);
    }
    true
}

/// `n` spaces.
pub fn make_spaces(n: usize) -> (s: String)
    ensures
        s@ == Seq::new(n as nat, |i: int| ' '),
{
    let mut s = String::new();
    let mut i: usize = 0;
    while i < n
        invariant
            i <= n,
            s@ == Seq::new(i as nat, |j: int| ' '),
        decreases n - i,
    {
        s.append(" ");
        proof {
            reveal_strlit(" ");
            assert(s@ =~= Seq::new((i + 1) as nat, |j: int| ' '));
        }
        i = i + 1;
    }
    s
}

} // verus!
