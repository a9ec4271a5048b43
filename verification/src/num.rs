//! Decimal numerals: rendering unsigned integers for the display, and
//! parsing the numeric strings the server sometimes sends where a native
//! number is expected.

use vstd::prelude::*;

verus! {

/// The decimal digit character for a value below ten.
pub open spec fn dec_digit(d: int) -> char {
    if d == 0 {
        '0'
    } else if d == 1 {
        '1'
    } else if d == 2 {
        '2'
    } else if d == 3 {
        '3'
    } else if d == 4 {
        '4'
    } else if d == 5 {
        '5'
    } else if d == 6 {
        '6'
    } else if d == 7 {
        '7'
    } else if d == 8 {
        '8'
    } else {
        '9'
    }
}

/// The decimal numeral of `n`, most significant digit first, no padding.
pub open spec fn dec_str(n: int) -> Seq<char>
    recommends
        n >= 0,
    decreases n,
{
    if n < 10 {
        seq![dec_digit(n)]
    } else {
        dec_str(n / 10).push(dec_digit(n % 10))
    }
}

/// Exactly two digits, zero-padded; the shape `{:02}` gives a count below 100.
pub open spec fn two_dec_digits(n: int) -> Seq<char> {
    seq![dec_digit(n / 10), dec_digit(n % 10)]
}

/// At least two cells, space-padded on the left; the shape `{:2}` gives.
pub open spec fn space_padded2(n: int) -> Seq<char> {
    if n < 10 {
        seq![' ', dec_digit(n)]
    } else {
        dec_str(n)
    }
}

/// A numeral's length: one digit below ten, two below one hundred.
pub proof fn lemma_dec_str_len(n: int)
    requires
        0 <= n,
    ensures
        n < 10 ==> dec_str(n).len() == 1,
        10 <= n < 100 ==> dec_str(n).len() == 2,
        dec_str(n).len() >= 1,
    decreases n,
{
    if n >= 10 {
        lemma_dec_str_len(n / 10);
    }
}

fn digit_str(d: u64) -> (s: &'static str)
    requires
        d < 10,
    ensures
        s@ == seq![dec_digit(d as int)],
{
    let s: &'static str = if d == 0 {
        "0"
    } else if d == 1 {
        "1"
    } else if d == 2 {
        "2"
    } else if d == 3 {
        "3"
    } else if d == 4 {
        "4"
    } else if d == 5 {
        "5"
    } else if d == 6 {
        "6"
    } else if d == 7 {
        "7"
    } else if d == 8 {
        "8"
    } else {
        "9"
    };
    proof {
        reveal_strlit("0");
        reveal_strlit("1");
        reveal_strlit("2");
        reveal_strlit("3");
        reveal_strlit("4");
        reveal_strlit("5");
        reveal_strlit("6");
        reveal_strlit("7");
        reveal_strlit("8");
        reveal_strlit("9");
        assert(s@ =~= seq![dec_digit(d as int)]);
    }
    s
}

/// The collected low-order-first digits, read back most significant first.
pub open spec fn rev_digit_seq(ds: Seq<u8>) -> Seq<char> {
    Seq::new(ds.len(), |i: int| dec_digit(ds[ds.len() - 1 - i] as int))
}

/// Renders `n` in decimal, as `{}` does.
pub fn u64_to_dec(n: u64) -> (s: String)
    ensures
        s@ == dec_str(n as int),
{
    let mut ds: Vec<u8> = Vec::new();
    let mut m: u64 = n;
    while m >= 10
        invariant
            dec_str(n as int) == dec_str(m as int) + rev_digit_seq(ds@),
            forall|k: int| 0 <= k < ds@.len() ==> ds@[k] < 10,
        decreases m,
    {
        let ghost ds_old = ds@;
        let d: u8 = (m % 10) as u8;
        ds.push(d);
        proof {
            assert(rev_digit_seq(ds_old.push(d)) =~= seq![dec_digit(d as int)] + rev_digit_seq(
                ds_old,
            ));
            assert(dec_str(m as int) == dec_str(m as int / 10).push(dec_digit(m as int % 10)));
            assert(dec_str((m / 10) as int) + rev_digit_seq(ds@) =~= dec_str(m as int)
                + rev_digit_seq(ds_old));
        }
        m = m / 10;
    }
    let ghost ds_old = ds@;
    let d: u8 = m as u8;
    ds.push(d);
    proof {
        assert(rev_digit_seq(ds_old.push(d)) =~= seq![dec_digit(d as int)] + rev_digit_seq(ds_old));
        assert(dec_str(m as int) == seq![dec_digit(m as int)]);
        assert(dec_str(n as int) =~= rev_digit_seq(ds@));
    }
    let k = ds.len();
    let mut s = String::new();
    let mut j: usize = 0;
    while j < k
        invariant
            k == ds@.len(),
            j <= k,
            forall|t: int| 0 <= t < ds@.len() ==> ds@[t] < 10,
            s@ == rev_digit_seq(ds@).take(j as int),
            dec_str(n as int) == rev_digit_seq(ds@),
        decreases k - j,
    {
        let d = ds[k - 1 - j];
        s.append(digit_str(d as u64));
        proof {
            assert(s@ =~= rev_digit_seq(ds@).take(j + 1));
        }
        j = j + 1;
    }
    proof {
        assert(rev_digit_seq(ds@).take(k as int) =~= rev_digit_seq(ds@));
    }
    s
}

/// Renders `n` as exactly two digits, as `{:02}` does for counts below 100.
pub fn u64_to_two_digits(n: u64) -> (s: String)
    requires
        n < 100,
    ensures
        s@ == two_dec_digits(n as int),
        s@.len() == 2,
{
    let mut s = digit_str(n / 10).to_owned();
    s.append(digit_str(n % 10));
    proof {
        assert(s@ =~= two_dec_digits(n as int));
    }
    s
}

/// Renders `n` space-padded to at least two cells, as `{:2}` does.
pub fn u64_to_space_padded2(n: u64) -> (s: String)
    ensures
        s@ == space_padded2(n as int),
{
    if n < 10 {
        let mut s = " ".to_owned();
        s.append(digit_str(n));
        proof {
            reveal_strlit(" ");
            assert(s@ =~= space_padded2(n as int));
        }
        s
    } else {
        u64_to_dec(n)
    }
}

/// Below one hundred, the space-padded form is exactly two cells.
pub proof fn lemma_space_padded2_len(n: int)
    requires
        0 <= n < 100,
    ensures
        space_padded2(n).len() == 2,
{
    lemma_dec_str_len(n);
}

/// Digit characters occupy one terminal cell each.
pub proof fn lemma_dec_digit_ascii(d: int)
    ensures
        dec_digit(d) as u32 <= 127,
{
}

pub proof fn lemma_dec_str_ascii(n: int)
    requires
        0 <= n,
    ensures
        crate::text::is_ascii_seq(dec_str(n)),
    decreases n,
{
    if n < 10 {
        lemma_dec_digit_ascii(n);
    } else {
        lemma_dec_str_ascii(n / 10);
        lemma_dec_digit_ascii(n % 10);
        assert forall|i: int| 0 <= i < dec_str(n).len() implies (#[trigger] dec_str(n)[i]) as u32
            <= 127 by {
            if i < dec_str(n / 10).len() {
                assert(dec_str(n)[i] == dec_str(n / 10)[i]);
            }
        }
    }
}

pub proof fn lemma_two_dec_digits_ascii(n: int)
    ensures
        crate::text::is_ascii_seq(two_dec_digits(n)),
{
    lemma_dec_digit_ascii(n / 10);
    lemma_dec_digit_ascii(n % 10);
}

pub proof fn lemma_space_padded2_ascii(n: int)
    requires
        0 <= n,
    ensures
        crate::text::is_ascii_seq(space_padded2(n)),
{
    if n < 10 {
        lemma_dec_digit_ascii(n);
    } else {
        lemma_dec_str_ascii(n);
    }
}

/// Whether `c` is one of the ten decimal digit characters.
pub open spec fn is_dec_digit_char(c: char) -> bool {
    48 <= c as u32 <= 57
}

/// The numeric value of a decimal digit character.
pub open spec fn dec_digit_val(c: char) -> int {
    c as u32 - 48
}

pub open spec fn all_dec_digits(s: Seq<char>) -> bool {
    forall|i: int| 0 <= i < s.len() ==> is_dec_digit_char(s[i])
}

/// The value of a digit string, most significant digit first.
pub open spec fn digits_val(s: Seq<char>) -> int
    decreases s.len(),
{
    if s.len() == 0 {
        0
    } else {
        digits_val(s.drop_last()) * 10 + dec_digit_val(s.last())
    }
}

/// What `str::parse::<u64>` accepts: an optional leading `+`, then one or
/// more decimal digits whose value fits in a `u64`.
pub open spec fn spec_parse_u64(s: Seq<char>) -> Option<u64> {
    let body = if s.len() > 0 && s[0] == '+' {
        s.subrange(1, s.len() as int)
    } else {
        s
    };
    if body.len() > 0 && all_dec_digits(body) && digits_val(body) <= u64::MAX as int {
        Some(digits_val(body) as u64)
    } else {
        None
    }
}

pub proof fn lemma_digits_val_nonneg(s: Seq<char>)
    requires
        all_dec_digits(s),
    ensures
        digits_val(s) >= 0,
    decreases s.len(),
{
    if s.len() > 0 {
        assert(all_dec_digits(s.drop_last()));
        lemma_digits_val_nonneg(s.drop_last());
    }
}

/// One more digit multiplies the prefix value by ten and adds the digit.
pub proof fn lemma_digits_val_take_step(s: Seq<char>, j: int)
    requires
        0 <= j < s.len(),
    ensures
        digits_val(s.take(j + 1)) == digits_val(s.take(j)) * 10 + dec_digit_val(s[j]),
{
    assert(s.take(j + 1).drop_last() =~= s.take(j));
    assert(s.take(j + 1).last() == s[j]);
}

/// A digit string is worth at least any of its prefixes.
pub proof fn lemma_digits_val_prefix_mono(s: Seq<char>, i: int)
    requires
        all_dec_digits(s),
        0 <= i <= s.len(),
    ensures
        digits_val(s.take(i)) <= digits_val(s),
    decreases s.len() - i,
{
    if i < s.len() {
        lemma_digits_val_take_step(s, i);
        assert(all_dec_digits(s.take(i)));
        lemma_digits_val_nonneg(s.take(i));
        lemma_digits_val_prefix_mono(s, i + 1);
    } else {
        assert(s.take(i) =~= s);
    }
}

/// Each digit character is a digit and carries its value.
proof fn lemma_digit_char_value(d: int)
    requires
        0 <= d < 10,
    ensures
        is_dec_digit_char(dec_digit(d)),
        dec_digit_val(dec_digit(d)) == d,
{
}

/// A rendered numeral is nothing but digits, and is worth its number.
pub proof fn lemma_dec_str_digits(n: int)
    requires
        0 <= n,
    ensures
        all_dec_digits(dec_str(n)),
        digits_val(dec_str(n)) == n,
        dec_str(n).len() > 0,
    decreases n,
{
    if n < 10 {
        lemma_digit_char_value(n);
        assert(dec_str(n).drop_last() =~= Seq::<char>::empty());
        assert(digits_val(Seq::<char>::empty()) == 0);
    } else {
        lemma_dec_str_digits(n / 10);
        lemma_digit_char_value(n % 10);
        let x = dec_str(n / 10);
        let d = dec_digit(n % 10);
        assert(x.push(d).drop_last() =~= x);
        assert(forall|i: int|
            0 <= i < x.push(d).len() ==> #[trigger] x.push(d)[i] == (if i < x.len() {
                x[i]
            } else {
                d
            }));
    }
}

/// Round trip: the decimal numeral of any value parses back to exactly
/// that value, so a server that stringifies a number loses nothing.
pub proof fn lemma_parse_round_trip(n: u64)
    ensures
        spec_parse_u64(dec_str(n as int)) == Some(n),
{
    lemma_dec_str_digits(n as int);
    assert(!is_dec_digit_char('+'));
    assert(dec_str(n as int)[0] != '+');
}

/// Parses a decimal `u64`, accepting exactly what `str::parse::<u64>` does.
pub fn parse_u64(s: &str) -> (r: Option<u64>)
    ensures
        r == spec_parse_u64(s@),
{
    let n = s.unicode_len();
    if n == 0 {
        return None;
    }
    let first = s.get_char(0);
    let off: usize = if first == '+' {
        1
    } else {
        0
    };
    let ghost body = if off == 1 {
        s@.subrange(1, s@.len() as int)
    } else {
        s@
    };
    if n == off {
        return None;
    }
    let mut i: usize = off;
    let mut val: u64 = 0;
    while i < n
        invariant
            off <= i <= n,
            n == s@.len(),
            off <= 1,
            n > off,
            off == 1 <==> (s@.len() > 0 && s@[0] == '+'),
            body == (if s@.len() > 0 && s@[0] == '+' {
                s@.subrange(1, s@.len() as int)
            } else {
                s@
            }),
            body.len() == n - off,
            forall|j: int| 0 <= j < body.len() ==> body[j] == s@[j + off],
            all_dec_digits(body.take(i - off)),
            val == digits_val(body.take(i - off)),
        decreases n - i,
    {
        let c = s.get_char(i);
        let u = c as u32;
        if u < 48 || u > 57 {
            proof {
                assert(!is_dec_digit_char(body[i - off]));
            }
            return None;
        }
        let d: u64 = (u - 48) as u64;
        proof {
            lemma_digits_val_take_step(body, i - off);
        }
        let overflowed: bool = match val.checked_mul(10) {
            Some(v10) => match v10.checked_add(d) {
                Some(v) => {
                    val = v;
                    false
                },
                None => true,
            },
            None => true,
        };
        if overflowed {
            proof {
                if all_dec_digits(body) {
                    lemma_digits_val_nonneg(body.take(i - off));
                    lemma_digits_val_prefix_mono(body, i + 1 - off);
                }
            }
            return None;
        }
        proof {
            assert(body.take(i + 1 - off) =~= body.take(i - off).push(body[i - off]));
        }
        i = i + 1;
    }
    proof {
        assert(body.take(i - off) =~= body);
    }
    Some(val)
}

} // verus!
