//! Terminal display-width model.
//!
//! The status line is budgeted in terminal columns, not bytes or characters.
//! One character occupies `char_width` columns; a string occupies the sum of
//! its characters' widths. The widths themselves come from the
//! `unicode_width` crate behind one trusted wrapper.

use vstd::prelude::*;

verus! {

/// Display width that `unicode_width` assigns to characters outside the
/// ASCII and Latin-1 control ranges. A fixed table of the Unicode standard;
/// opaque to this library.
pub uninterp spec fn ext_char_width(c: char) -> nat;

/// Terminal display width of one character, in columns: printable ASCII is
/// one column wide, control characters take none, and everything else is
/// what the Unicode width tables say.
pub open spec fn char_width(c: char) -> nat {
    if 0x20 <= c as u32 && (c as u32) < 0x7f {
        1
    } else if (c as u32) < 0xa0 {
        0
    } else {
        ext_char_width(c)
    }
}

/// Display width of a character sequence: the sum of its characters' widths.
pub open spec fn seq_width(s: Seq<char>) -> nat
    decreases s.len(),
{
    if s.len() == 0 {
        0
    } else {
        char_width(s[0]) + seq_width(s.drop_first())
    }
}

/// Relies on `unicode_width::UnicodeWidthChar::width`: printable ASCII
/// (U+0020..U+007F) is `Some(1)`; control characters (below U+0020 and in
/// U+007F..U+00A0) are `None`, mapped to zero columns here; every other
/// character comes from the crate's width tables, whose entries never
/// exceed three columns.
#[verifier::external_body]
pub(crate) fn char_display_width(c: char) -> (w: usize)
    ensures
        w == char_width(c),
        c as u32 >= 0xa0 ==> w == ext_char_width(c),
        w <= 3,
{
    unicode_width::UnicodeWidthChar::width(c).unwrap_or(0)
}

pub proof fn lemma_seq_width_concat(a: Seq<char>, b: Seq<char>)
    ensures
        seq_width(a + b) == seq_width(a) + seq_width(b),
    decreases a.len(),
{
    if a.len() == 0 {
        assert(a + b =~= b);
    } else {
        assert((a + b).drop_first() =~= a.drop_first() + b);
        lemma_seq_width_concat(a.drop_first(), b);
    }
}

pub proof fn lemma_seq_width_singleton(c: char)
    ensures
        seq_width(seq![c]) == char_width(c),
{
    assert(seq![c].drop_first() =~= Seq::<char>::empty());
    assert(seq_width(Seq::<char>::empty()) == 0);
}

pub proof fn lemma_seq_width_take_step(s: Seq<char>, i: int)
    requires
        0 <= i < s.len(),
    ensures
        seq_width(s.take(i + 1)) == seq_width(s.take(i)) + char_width(s[i]),
{
    assert(s.take(i + 1) =~= s.take(i) + seq![s[i]]);
    lemma_seq_width_concat(s.take(i), seq![s[i]]);
    assert(seq_width(seq![s[i]]) == char_width(s[i]) + seq_width(seq![s[i]].drop_first()));
    assert(seq![s[i]].drop_first() =~= Seq::<char>::empty());
}

/// A prefix is never wider than the whole sequence.
pub proof fn lemma_seq_width_prefix_le(s: Seq<char>, i: int)
    requires
        0 <= i <= s.len(),
    ensures
        seq_width(s.take(i)) <= seq_width(s),
{
    assert(s =~= s.take(i) + s.skip(i));
    lemma_seq_width_concat(s.take(i), s.skip(i));
}

/// How many leading characters of `s` fit in `budget` columns, taking
/// characters greedily and stopping at the first one that does not fit.
pub open spec fn fit_len(s: Seq<char>, budget: nat) -> nat
    decreases s.len(),
{
    if s.len() == 0 {
        0
    } else if char_width(s[0]) > budget {
        0
    } else {
        1 + fit_len(s.drop_first(), (budget - char_width(s[0])) as nat)
    }
}

/// The greedy prefix really fits: it is a prefix, and its width stays
/// within the budget.
pub proof fn lemma_fit_len_width(s: Seq<char>, budget: nat)
    ensures
        fit_len(s, budget) <= s.len(),
        seq_width(s.take(fit_len(s, budget) as int)) <= budget,
    decreases s.len(),
{
    if s.len() == 0 || char_width(s[0]) > budget {
        assert(s.take(0) =~= Seq::<char>::empty());
        assert(seq_width(Seq::<char>::empty()) == 0);
    } else {
        let b2 = (budget - char_width(s[0])) as nat;
        lemma_fit_len_width(s.drop_first(), b2);
        let f = fit_len(s.drop_first(), b2);
        assert(fit_len(s, budget) == 1 + f);
        assert(s.take(1 + f as int) =~= seq![s[0]] + s.drop_first().take(f as int));
        lemma_seq_width_concat(seq![s[0]], s.drop_first().take(f as int));
        lemma_seq_width_singleton(s[0]);
    }
}

/// Whether the display width of `s` exceeds `budget` columns.
///
/// Runs without ever computing the full width, so no length bound on `s`
/// is needed.
pub fn width_exceeds(s: &str, budget: usize) -> (r: bool)
    ensures
        r == (seq_width(s@) > budget),
{
    let n = s.unicode_len();
    let mut i: usize = 0;
    let mut w: usize = 0;
    while i < n
        invariant
            0 <= i <= n,
            n == s@.len(),
            w == seq_width(s@.take(i as int)),
            w <= budget,
        decreases n - i,
    {
        let c = s.get_char(i);
        let cw = char_display_width(c);
        proof {
            lemma_seq_width_take_step(s@, i as int);
        }
        if cw > budget - w {
            proof {
                lemma_seq_width_prefix_le(s@, i + 1);
            }
            return true;
        }
        w = w + cw;
        i = i + 1;
    }
    proof {
        assert(s@.take(n as int) =~= s@);
    }
    false
}

/// The display width of `s`, capped at `cap` columns.
pub fn width_up_to(s: &str, cap: usize) -> (w: usize)
    ensures
        seq_width(s@) > cap ==> w == cap,
        seq_width(s@) <= cap ==> w == seq_width(s@),
{
    let n = s.unicode_len();
    let mut i: usize = 0;
    let mut w: usize = 0;
    while i < n
        invariant
            0 <= i <= n,
            n == s@.len(),
            w == seq_width(s@.take(i as int)),
            w <= cap,
        decreases n - i,
    {
        let c = s.get_char(i);
        let cw = char_display_width(c);
        proof {
            lemma_seq_width_take_step(s@, i as int);
        }
        if cw > cap - w {
            proof {
                lemma_seq_width_prefix_le(s@, i + 1);
            }
            return cap;
        }
        w = w + cw;
        i = i + 1;
    }
    proof {
        assert(s@.take(n as int) =~= s@);
    }
    w
}

} // verus!
