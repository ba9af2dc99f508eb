//! Status and error line formatting.
//!
//! One line, rewritten in place each refresh: track counter, play-mode
//! glyphs, file-type tag, a width-budgeted title–artist field, elapsed and
//! total time, and the volume. The title–artist field is the only
//! variable-width part: it gets whatever columns the rest of the line
//! leaves free, and the finished line is padded with spaces to the full
//! terminal width so it completely overwrites its predecessor.

use vstd::prelude::*;

use crate::text::{
    dec_rep, decimal_string, duration_text, format_duration, truncate_string, truncated,
};
use crate::width::{
    lemma_seq_width_concat, lemma_seq_width_singleton, seq_width, width_up_to,
};
use vstd::string::StrSliceExecFns;
use vstd::string::StringExecFns;

verus! {

/// Free columns left of `total` once `s` is shown; zero when `s` alone
/// already overflows.
pub open spec fn avail_width(s: Seq<char>, total: nat) -> nat {
    if seq_width(s) > total {
        0
    } else {
        (total - seq_width(s)) as nat
    }
}

/// `s` in square brackets.
pub open spec fn bracketed(s: Seq<char>) -> Seq<char> {
    seq!['['] + s + seq![']']
}

/// The `[position/count]` counter, one-based.
pub open spec fn counter_text(index: nat, total: nat) -> Seq<char> {
    bracketed(dec_rep(index + 1) + seq!['/'] + dec_rep(total))
}

/// The `[S|L]` play-mode tag: `S` when the list was shuffled, `L` when it
/// loops, `-` otherwise.
pub open spec fn mode_text(shuffled: bool, loop_enabled: bool) -> Seq<char> {
    bracketed(
        seq![if shuffled { 'S' } else { '-' }] + seq!['|'] + seq![
            if loop_enabled {
                'L'
            } else {
                '-'
            },
        ],
    )
}

/// Everything left of the title–artist field.
pub open spec fn left_text(
    index: nat,
    total: nat,
    shuffled: bool,
    loop_enabled: bool,
    ext: Seq<char>,
) -> Seq<char> {
    counter_text(index, total) + mode_text(shuffled, loop_enabled) + bracketed(ext)
}

/// Everything right of the title–artist field: the elapsed/total clock and
/// the volume percentage.
pub open spec fn right_text(elapsed_secs: nat, total_secs: nat, volume: nat) -> Seq<char> {
    bracketed(duration_text(elapsed_secs) + seq!['/'] + duration_text(total_secs)) + bracketed(
        dec_rep(volume) + seq!['%'],
    )
}

/// The title–artist field: when the free columns run short (below 15) the
/// title alone is shown, otherwise `title-artist`; either way truncated to
/// the budget.
pub open spec fn info_field(title: Seq<char>, artist: Seq<char>, budget: nat) -> Seq<char> {
    if budget < 15 {
        truncated(title, budget)
    } else {
        truncated(title + seq!['-'] + artist, budget)
    }
}

/// `n` spaces.
pub open spec fn spaces(n: nat) -> Seq<char> {
    Seq::new(n, |i: int| ' ')
}

/// The whole status line for one refresh: the fixed fields, the
/// title–artist field cut to the columns they leave free, and space padding
/// out to the full terminal width.
pub open spec fn spec_status_line(
    index: nat,
    total: nat,
    shuffled: bool,
    loop_enabled: bool,
    ext: Seq<char>,
    title: Seq<char>,
    artist: Seq<char>,
    elapsed_secs: nat,
    total_secs: nat,
    volume: nat,
    terminal_width: nat,
) -> Seq<char> {
    let l = left_text(index, total, shuffled, loop_enabled, ext);
    let r = right_text(elapsed_secs, total_secs, volume);
    let budget = avail_width(l + bracketed(Seq::<char>::empty()) + r, terminal_width);
    let line = l + bracketed(info_field(title, artist, budget)) + r;
    line + spaces(avail_width(line, terminal_width))
}

/// The error line shown when a track fails to load: counter, error tag, the
/// track's display name cut to the columns the rest leaves free, and the
/// reason.
pub open spec fn spec_error_line(
    index: nat,
    total: nat,
    reason: Seq<char>,
    name: Seq<char>,
    terminal_width: nat,
) -> Seq<char> {
    let head = counter_text(index, total) + bracketed(seq!['e', 'r', 'r', 'o', 'r']);
    let budget = avail_width(head + reason, terminal_width);
    head + truncated(name, budget) + reason
}

pub proof fn lemma_bracketed_width(s: Seq<char>)
    ensures
        seq_width(bracketed(s)) == 2 + seq_width(s),
{
    lemma_seq_width_concat(seq!['['] + s, seq![']']);
    lemma_seq_width_concat(seq!['['], s);
    lemma_seq_width_singleton('[');
    lemma_seq_width_singleton(']');
}

/// Renders the status line. The returned text is exactly
/// `spec_status_line` of the inputs: fixed fields, budgeted title–artist
/// field, space padding to the terminal width.
#[verifier::rlimit(50)]
pub fn render_status_line(
    index: usize,
    total: usize,
    shuffled: bool,
    loop_enabled: bool,
    ext: &str,
    title: &str,
    artist: &str,
    elapsed_secs: u64,
    total_secs: u64,
    volume: u8,
    terminal_width: u16,
) -> (r: String)
    requires
        index < total,
    ensures
        r@ == spec_status_line(
            index as nat,
            total as nat,
            shuffled,
            loop_enabled,
            ext@,
            title@,
            artist@,
            elapsed_secs as nat,
            total_secs as nat,
            volume as nat,
            terminal_width as nat,
        ),
{
    proof {
        reveal_strlit("[");
        reveal_strlit("/");
        reveal_strlit("]");
        reveal_strlit("[S|");
        reveal_strlit("[-|");
        reveal_strlit("L]");
        reveal_strlit("-]");
        reveal_strlit("][");
        reveal_strlit("%]");
        reveal_strlit("-");
        reveal_strlit("[]");
        reveal_strlit(" ");
    }
    let ghost l_spec = left_text(index as nat, total as nat, shuffled, loop_enabled, ext@);
    let ghost r_spec = right_text(elapsed_secs as nat, total_secs as nat, volume as nat);

    // The fields left of the title–artist slot.
    let mut left = String::new();
    left.append("[");
    let counter_hi = decimal_string(index as u64 + 1);
    left.append(counter_hi.as_str());
    left.append("/");
    let counter_lo = decimal_string(total as u64);
    left.append(counter_lo.as_str());
    left.append("]");
    if shuffled {
        left.append("[S|");
    } else {
        left.append("[-|");
    }
    if loop_enabled {
        left.append("L]");
    } else {
        left.append("-]");
    }
    left.append("[");
    left.append(ext);
    left.append("]");
    proof {
        assert(left@ =~= l_spec);
    }

    // The fields right of the title–artist slot.
    let mut right = String::new();
    right.append("[");
    let elapsed_text = format_duration(elapsed_secs);
    right.append(elapsed_text.as_str());
    right.append("/");
    let total_text = format_duration(total_secs);
    right.append(total_text.as_str());
    right.append("][");
    let volume_text = decimal_string(volume as u64);
    right.append(volume_text.as_str());
    right.append("%]");
    proof {
        assert(right@ =~= r_spec);
    }

    // Columns left for the title–artist field.
    let cap = terminal_width as usize;
    let wl = width_up_to(left.as_str(), cap);
    let wr = width_up_to(right.as_str(), cap);
    proof {
        let fixed = l_spec + bracketed(Seq::<char>::empty()) + r_spec;
        lemma_seq_width_concat(l_spec + bracketed(Seq::<char>::empty()), r_spec);
        lemma_seq_width_concat(l_spec, bracketed(Seq::<char>::empty()));
        lemma_bracketed_width(Seq::<char>::empty());
        assert(seq_width(Seq::<char>::empty()) == 0);
        assert(seq_width(fixed) == seq_width(l_spec) + 2 + seq_width(r_spec));
    }
    let fixed_w = wl + 2 + wr;
    let budget = if fixed_w > cap {
        0
    } else {
        cap - fixed_w
    };
    proof {
        assert(budget == avail_width(
            l_spec + bracketed(Seq::<char>::empty()) + r_spec,
            terminal_width as nat,
        ));
    }

    // The title–artist field itself.
    let info = if budget < 15 {
        truncate_string(title, budget)
    } else {
        let mut both = title.to_owned();
        both.append("-");
        both.append(artist);
        proof {
            assert(both@ =~= title@ + seq!['-'] + artist@);
        }
        truncate_string(both.as_str(), budget)
    };
    proof {
        assert(info@ == info_field(title@, artist@, budget as nat));
    }

    // Assemble and pad to the full width.
    let w_info = width_up_to(info.as_str(), cap);
    let mut line = left;
    line.append("[");
    line.append(info.as_str());
    line.append("]");
    line.append(right.as_str());
    let ghost line_spec = l_spec + bracketed(info@) + r_spec;
    proof {
        assert(line@ =~= line_spec);
        lemma_seq_width_concat(l_spec + bracketed(info@), r_spec);
        lemma_seq_width_concat(l_spec, bracketed(info@));
        lemma_bracketed_width(info@);
        assert(seq_width(line_spec) == seq_width(l_spec) + 2 + seq_width(info@) + seq_width(
            r_spec,
        ));
    }
    let line_w = wl + 2 + w_info + wr;
    let pad = if line_w > cap {
        0
    } else {
        cap - line_w
    };
    proof {
        assert(pad == avail_width(line_spec, terminal_width as nat));
    }
    let mut k: usize = 0;
    while k < pad
        invariant
            0 <= k <= pad,
            line@ == line_spec + spaces(k as nat),
        decreases pad - k,
    {
        line.append(" ");
        proof {
            reveal_strlit(" ");
            assert(line_spec + spaces(k as nat) + " "@ =~= line_spec + spaces(k as nat + 1));
        }
        k = k + 1;
    }
    proof {
        assert(line@ =~= spec_status_line(
            index as nat,
            total as nat,
            shuffled,
            loop_enabled,
            ext@,
            title@,
            artist@,
            elapsed_secs as nat,
            total_secs as nat,
            volume as nat,
            terminal_width as nat,
        ));
    }
    line
}

/// Renders the error line for a track that failed to load.
pub fn format_error_line(
    index: usize,
    total: usize,
    reason: &str,
    name: &str,
    terminal_width: u16,
) -> (r: String)
    requires
        index < total,
    ensures
        r@ == spec_error_line(
            index as nat,
            total as nat,
            reason@,
            name@,
            terminal_width as nat,
        ),
{
    proof {
        reveal_strlit("[");
        reveal_strlit("/");
        reveal_strlit("]");
        reveal_strlit("][error]");
    }
    let ghost head_spec = counter_text(index as nat, total as nat) + bracketed(
        seq!['e', 'r', 'r', 'o', 'r'],
    );
    let mut head = String::new();
    head.append("[");
    let counter_hi = decimal_string(index as u64 + 1);
    head.append(counter_hi.as_str());
    head.append("/");
    let counter_lo = decimal_string(total as u64);
    head.append(counter_lo.as_str());
    head.append("][error]");
    proof {
        assert(head@ =~= head_spec);
    }
    let cap = terminal_width as usize;
    let wh = width_up_to(head.as_str(), cap);
    let wr = width_up_to(reason, cap);
    proof {
        lemma_seq_width_concat(head_spec, reason@);
    }
    let head_w = wh + wr;
    let budget = if head_w > cap {
        0
    } else {
        cap - head_w
    };
    proof {
        assert(budget == avail_width(head_spec + reason@, terminal_width as nat));
    }
    let cut_name = truncate_string(name, budget);
    let mut line = head;
    line.append(cut_name.as_str());
    line.append(reason);
    proof {
        assert(line@ =~= spec_error_line(
            index as nat,
            total as nat,
            reason@,
            name@,
            terminal_width as nat,
        ));
    }
    line
}

} // verus!
