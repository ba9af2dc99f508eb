//! Text building blocks of the status line: decimal rendering of counters,
//! `MM:SS` time formatting, and display-width-aware truncation.

use vstd::prelude::*;

use crate::width::{
    char_display_width, char_width, fit_len, lemma_fit_len_width, lemma_seq_width_concat,
    lemma_seq_width_singleton, seq_width, width_exceeds,
};
use vstd::string::StrSliceExecFns;
use vstd::string::StringExecFns;

verus! {

/// The decimal digit character for `d` (`0 <= d <= 9`).
pub open spec fn digit_char(d: int) -> char {
    if d == 0 {
        '0'
    } else if d == 1 {
        '1'
    } else if d == 2 {
        '2'
    } else if d == 3 {
        '3'
    } else if d == 4 {
        '4'
    } else if d == 5 {
        '5'
    } else if d == 6 {
        '6'
    } else if d == 7 {
        '7'
    } else if d == 8 {
        '8'
    } else {
        '9'
    }
}

/// The decimal representation of `n`, most significant digit first, without
/// leading zeros (except for `n == 0` itself).
pub open spec fn dec_rep(n: nat) -> Seq<char>
    decreases n,
{
    if n < 10 {
        seq![digit_char(n as int)]
    } else {
        dec_rep(n / 10).push(digit_char((n % 10) as int))
    }
}

/// `n` in decimal, left-padded with a zero to at least two digits.
pub open spec fn padded2(n: nat) -> Seq<char> {
    if n < 10 {
        seq!['0'].push(digit_char(n as int))
    } else {
        dec_rep(n)
    }
}

/// The `MM:SS` clock text for `secs` seconds of play time; a placeholder
/// when no duration is known (zero seconds).
pub open spec fn duration_text(secs: nat) -> Seq<char> {
    if secs > 0 {
        padded2(secs / 60) + seq![':'] + padded2(secs % 60)
    } else {
        seq!['?', '?', ':', '?', '?']
    }
}

fn digit_str(d: u64) -> (r: &'static str)
    requires
        d < 10,
    ensures
        r@ =~= seq![digit_char(d as int)],
{
    proof {
        reveal_strlit("0");
        reveal_strlit("1");
        reveal_strlit("2");
        reveal_strlit("3");
        reveal_strlit("4");
        reveal_strlit("5");
        reveal_strlit("6");
        reveal_strlit("7");
        reveal_strlit("8");
        reveal_strlit("9");
    }
    match d {
        0 => "0",
        1 => "1",
        2 => "2",
        3 => "3",
        4 => "4",
        5 => "5",
        6 => "6",
        7 => "7",
        8 => "8",
        _ => "9",
    }
}

/// `n` rendered in decimal.
pub fn decimal_string(n: u64) -> (s: String)
    ensures
        s@ == dec_rep(n as nat),
    decreases n,
{
    if n < 10 {
        let s = digit_str(n).to_owned();
        proof {
            assert(s@ =~= dec_rep(n as nat));
        }
        s
    } else {
        let mut s = decimal_string(n / 10);
        s.append(digit_str(n % 10));
        proof {
            assert(s@ =~= dec_rep(n as nat));
        }
        s
    }
}

/// `n` rendered in decimal with at least two digits.
pub fn two_digit_string(n: u64) -> (s: String)
    ensures
        s@ == padded2(n as nat),
{
    if n < 10 {
        proof {
            reveal_strlit("0");
        }
        let mut s = "0".to_owned();
        s.append(digit_str(n));
        proof {
            assert(s@ =~= padded2(n as nat));
        }
        s
    } else {
        decimal_string(n)
    }
}

/// Formats a number of seconds as `MM:SS` (minutes may take more than two
/// digits); zero seconds means the duration is unknown and renders as the
/// `??:??` placeholder.
pub fn format_duration(secs: u64) -> (s: String)
    ensures
        s@ == duration_text(secs as nat),
{
    if secs > 0 {
        let mut s = two_digit_string(secs / 60);
        proof {
            reveal_strlit(":");
        }
        s.append(":");
        let tail = two_digit_string(secs % 60);
        s.append(tail.as_str());
        proof {
            assert(s@ =~= duration_text(secs as nat));
        }
        s
    } else {
        proof {
            reveal_strlit("??:??");
        }
        let s = "??:??".to_owned();
        proof {
            assert(s@ =~= duration_text(secs as nat));
        }
        s
    }
}

/// What `str::to_uppercase` returns for a given character sequence: the
/// Unicode uppercase mapping, a function of the characters alone; opaque to
/// this library.
pub uninterp spec fn upper_of(s: Seq<char>) -> Seq<char>;

/// Relies on `str::to_uppercase`: the Unicode uppercase mapping of the
/// string, depending on its characters alone.
#[verifier::external_body]
fn to_uppercase_string(s: &str) -> (r: String)
    ensures
        r@ == upper_of(s@),
{
    s.to_uppercase()
}

/// The position right after the last `.` in `s`; the start of `s` when it
/// has none.
pub open spec fn ext_start(s: Seq<char>) -> int
    decreases s.len(),
{
    if s.len() == 0 {
        0
    } else if s[s.len() - 1] == '.' {
        s.len() as int
    } else {
        ext_start(s.drop_last())
    }
}

/// The file-type tag shown in the status line: whatever follows the last
/// `.` of the locator — the whole locator when it has no dot — uppercased.
pub fn file_ext_tag(path: &str) -> (r: String)
    ensures
        r@ == upper_of(path@.skip(ext_start(path@))),
{
    let n = path.unicode_len();
    let mut i: usize = n;
    proof {
        assert(path@.take(n as int) =~= path@);
    }
    while i > 0
        invariant_except_break
            0 <= i <= n,
            n == path@.len(),
            ext_start(path@) == ext_start(path@.take(i as int)),
        ensures
            0 <= i <= n,
            n == path@.len(),
            i as int == ext_start(path@),
        decreases i,
    {
        let c = path.get_char(i - 1);
        proof {
            assert(path@.take(i as int)[i - 1] == path@[i - 1]);
        }
        if c == '.' {
            break;
        }
        proof {
            assert(path@.take(i as int).drop_last() =~= path@.take(i as int - 1));
        }
        i = i - 1;
    }
    let ext = path.substring_char(i, n);
    proof {
        assert(ext@ =~= path@.skip(ext_start(path@)));
    }
    to_uppercase_string(ext)
}

/// Whether two strings hold exactly the same characters.
pub fn str_eq(a: &str, b: &str) -> (r: bool)
    ensures
        r == (a@ == b@),
{
    let na = a.unicode_len();
    let nb = b.unicode_len();
    if na != nb {
        return false;
    }
    let mut i: usize = 0;
    while i < na
        invariant
            0 <= i <= na,
            na == a@.len(),
            na == b@.len(),
            forall|j: int| 0 <= j < i ==> a@[j] == b@[j],
        decreases na - i,
    {
        if a.get_char(i) != b.get_char(i) {
            return false;
        }
        i = i + 1;
    }
    proof {
        assert(a@ =~= b@);
    }
    true
}

/// The three-dot ellipsis appended when a string had to be cut.
pub open spec fn ellipsis() -> Seq<char> {
    seq!['.', '.', '.']
}

/// What `truncate_string` returns: the input itself when it already fits in
/// `max_width` columns; otherwise the prefix taken greedily, character by
/// character, while it fits in `max_width - 3` columns, with an ellipsis
/// appended; nothing at all when not even the ellipsis would fit.
pub open spec fn truncated(s: Seq<char>, max_width: nat) -> Seq<char> {
    if max_width < 3 {
        Seq::<char>::empty()
    } else if seq_width(s) <= max_width {
        s
    } else {
        s.take(fit_len(s, (max_width - 3) as nat) as int) + ellipsis()
    }
}

/// Cuts `s` to at most `max_width` terminal columns, ending with `...` when
/// a cut was made. Whole characters are kept: a two-column glyph is never
/// split in half.
pub fn truncate_string(s: &str, max_width: usize) -> (r: String)
    ensures
        r@ == truncated(s@, max_width as nat),
{
    if max_width < 3 {
        let r = String::new();
        return r;
    }
    if !width_exceeds(s, max_width) {
        return s.to_owned();
    }
    let budget = max_width - 3;
    let k = fit_prefix_len(s, budget);
    let prefix = s.substring_char(0, k);
    let mut r = prefix.to_owned();
    proof {
        reveal_strlit("...");
    }
    r.append("...");
    proof {
        assert("..."@ =~= ellipsis());
        assert(s@.subrange(0, k as int) =~= s@.take(k as int));
        assert(r@ =~= truncated(s@, max_width as nat));
    }
    r
}

/// Truncation never yields text wider than the width it was given: for
/// every string and every column budget, what `truncate_string` returns
/// occupies at most that many columns.
pub proof fn lemma_truncated_fits(s: Seq<char>, max_width: nat)
    ensures
        seq_width(truncated(s, max_width)) <= max_width,
{
    if max_width < 3 {
        assert(seq_width(Seq::<char>::empty()) == 0);
    } else if seq_width(s) <= max_width {
    } else {
        let budget = (max_width - 3) as nat;
        lemma_fit_len_width(s, budget);
        let prefix = s.take(fit_len(s, budget) as int);
        lemma_seq_width_concat(prefix, ellipsis());
        assert(seq_width(ellipsis()) == 3) by {
            assert(char_width('.') == 1);
            lemma_seq_width_singleton('.');
            assert(seq!['.', '.'].drop_first() =~= seq!['.']);
            assert(seq_width(seq!['.', '.']) == 2);
            assert(ellipsis().drop_first() =~= seq!['.', '.']);
        };
    }
}

/// The number of leading characters of `s` that fit in `budget` columns,
/// stopping at the first character that does not fit.
fn fit_prefix_len(s: &str, budget: usize) -> (k: usize)
    ensures
        k == fit_len(s@, budget as nat),
        k <= s@.len(),
{
    let n = s.unicode_len();
    let mut k: usize = 0;
    let mut rem: usize = budget;
    proof {
        assert(s@.skip(0) =~= s@);
    }
    while k < n
        invariant_except_break
            0 <= k <= n,
            n == s@.len(),
            rem <= budget,
            fit_len(s@, budget as nat) == k + fit_len(s@.skip(k as int), rem as nat),
        ensures
            k == fit_len(s@, budget as nat),
            k <= n,
        decreases n - k,
    {
        let c = s.get_char(k);
        let cw = char_display_width(c);
        proof {
            assert(s@.skip(k as int)[0] == s@[k as int]);
        }
        if cw > rem {
            break;
        }
        proof {
            assert(s@.skip(k as int).drop_first() =~= s@.skip(k as int + 1));
        }
        rem = rem - cw;
        k = k + 1;
    }
    k
}

} // verus!
