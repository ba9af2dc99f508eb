//! Formatting behaviour: truncation, time and counter rendering, the
//! assembled status and error lines.

use tplayer::status::{format_error_line, render_status_line};
use tplayer::text::{
    decimal_string, file_ext_tag, format_duration, str_eq, truncate_string, two_digit_string,
};
use tplayer::width::{width_exceeds, width_up_to};

/// Sum of character display widths: the width model the library budgets by.
fn char_sum_width(s: &str) -> usize {
    s.chars()
        .map(|c| unicode_width::UnicodeWidthChar::width(c).unwrap_or(0))
        .sum()
}

#[test]
fn truncate_returns_input_when_it_fits() {
    assert_eq!(truncate_string("hello", 10), "hello");
    assert_eq!(truncate_string("hello", 5), "hello");
    assert_eq!(truncate_string("", 3), "");
}

#[test]
fn truncate_cuts_with_ellipsis() {
    assert_eq!(truncate_string("hello world", 8), "hello...");
    assert_eq!(truncate_string("abcdefgh", 7), "abcd...");
}

#[test]
fn truncate_below_ellipsis_width_is_empty() {
    assert_eq!(truncate_string("anything", 2), "");
    assert_eq!(truncate_string("anything", 0), "");
}

#[test]
fn truncate_keeps_whole_wide_glyphs() {
    // Each CJK glyph is two columns wide; the cut never splits one.
    assert_eq!(truncate_string("日本語テスト", 10), "日本語...");
    // A budget of 7 columns holds three glyphs (6) but not four.
    assert_eq!(truncate_string("日本語テスト", 10), "日本語...");
    assert_eq!(char_sum_width("日本語テスト"), 12);
}

#[test]
fn truncate_never_exceeds_given_width() {
    let samples = ["hello world", "日本語のタイトル", "mix 混合 text", "", "x"];
    for s in samples {
        for w in 3..25 {
            let out = truncate_string(s, w);
            assert!(
                char_sum_width(&out) <= w,
                "width {} exceeded by {:?}",
                w,
                out
            );
        }
    }
}

#[test]
fn width_queries_match_char_sum() {
    assert!(width_exceeds("日本", 3));
    assert!(!width_exceeds("日本", 4));
    assert_eq!(width_up_to("日本", 3), 3);
    assert_eq!(width_up_to("ab", 10), 2);
    assert_eq!(width_up_to("", 10), 0);
}

#[test]
fn format_duration_renders_mm_ss() {
    assert_eq!(format_duration(75), "01:15");
    assert_eq!(format_duration(59), "00:59");
    assert_eq!(format_duration(600), "10:00");
    assert_eq!(format_duration(3600), "60:00");
    assert_eq!(format_duration(6000), "100:00");
}

#[test]
fn format_duration_placeholder_for_unknown() {
    assert_eq!(format_duration(0), "??:??");
}

#[test]
fn decimal_rendering() {
    assert_eq!(decimal_string(0), "0");
    assert_eq!(decimal_string(7), "7");
    assert_eq!(decimal_string(42), "42");
    assert_eq!(decimal_string(1000), "1000");
}

#[test]
fn two_digit_rendering_pads_single_digits() {
    assert_eq!(two_digit_string(0), "00");
    assert_eq!(two_digit_string(9), "09");
    assert_eq!(two_digit_string(10), "10");
    assert_eq!(two_digit_string(123), "123");
}

#[test]
fn file_ext_tag_takes_last_dot() {
    assert_eq!(file_ext_tag("music/song.mp3"), "MP3");
    assert_eq!(file_ext_tag("a.b.flac"), "FLAC");
    assert_eq!(file_ext_tag("noext"), "NOEXT");
    assert_eq!(file_ext_tag("trailing."), "");
    assert_eq!(file_ext_tag("曲目.wav"), "WAV");
}

#[test]
fn str_eq_compares_characters() {
    assert!(str_eq("abc", "abc"));
    assert!(!str_eq("abc", "abd"));
    assert!(!str_eq("abc", "ab"));
    assert!(str_eq("", ""));
}

#[test]
fn status_line_layout_wide_terminal() {
    let line = render_status_line(
        0, 3, false, false, "MP3", "Song", "Band", 65, 130, 50, 60,
    );
    assert_eq!(
        line,
        format!(
            "[1/3][-|-][MP3][Song-Band][01:05/02:10][50%]{}",
            " ".repeat(16)
        )
    );
    assert_eq!(char_sum_width(&line), 60);
}

#[test]
fn status_line_narrow_terminal_drops_artist() {
    // 40 columns leave a 5-column budget, below the 15-column threshold:
    // only the title is shown.
    let line = render_status_line(
        0, 3, false, false, "MP3", "Song", "Band", 65, 130, 50, 40,
    );
    assert_eq!(line, "[1/3][-|-][MP3][Song][01:05/02:10][50%] ");
    assert_eq!(char_sum_width(&line), 40);
}

#[test]
fn status_line_mode_glyphs() {
    let line = render_status_line(
        1, 9, true, true, "OGG", "T", "A", 0, 0, 100, 50,
    );
    // 50 columns leave a 14-column budget for the field, just under the
    // 15-column threshold: only the title appears.
    assert!(line.starts_with("[2/9][S|L][OGG][T][??:??/??:??][100%]"));
}

#[test]
fn status_line_never_wider_than_terminal_when_fields_fit() {
    for w in [30u16, 40, 50, 60, 80] {
        let line = render_status_line(
            0,
            3,
            false,
            false,
            "MP3",
            "A rather long track title here",
            "Some artist",
            65,
            130,
            50,
            w,
        );
        if char_sum_width(&line) > w as usize {
            // Only the fixed fields can overflow; the title-artist field
            // never makes an overflow worse.
            let fixed = render_status_line(0, 3, false, false, "MP3", "", "", 65, 130, 50, w);
            assert!(char_sum_width(&fixed) > w as usize);
        }
    }
}

#[test]
fn error_line_layout() {
    let line = format_error_line(1, 3, "decode failed", "badfile.ogg", 80);
    assert_eq!(line, "[2/3][error]badfile.oggdecode failed");
}

#[test]
fn error_line_truncates_long_names() {
    let line = format_error_line(0, 1, "cannot open", "averyveryverylongfilename.mp3", 30);
    // head "[1/1][error]" is 12 columns, reason 11: 7 columns remain for
    // the name, so it is cut to 4 columns plus the ellipsis.
    assert_eq!(line, "[1/1][error]aver...cannot open");
}
