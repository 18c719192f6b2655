use statusbar::text::{failure_notice, first_line_of};

#[test]
fn first_line_stops_at_the_first_line_feed() {
    assert_eq!(first_line_of("abc\ndef"), "abc");
    assert_eq!(first_line_of("abc\ndef\nghi"), "abc");
}

#[test]
fn first_line_drops_a_trailing_line_feed() {
    assert_eq!(first_line_of("Mon Jan  1 00:00:00 UTC 2024\n"), "Mon Jan  1 00:00:00 UTC 2024");
}

#[test]
fn first_line_of_empty_output_is_empty() {
    assert_eq!(first_line_of(""), "");
}

#[test]
fn first_line_without_line_feed_is_unchanged() {
    assert_eq!(first_line_of("no line feed here"), "no line feed here");
}

#[test]
fn first_line_of_leading_line_feed_is_empty() {
    assert_eq!(first_line_of("\nsecond"), "");
    assert_eq!(first_line_of("\n"), "");
}

#[test]
fn first_line_keeps_a_carriage_return() {
    assert_eq!(first_line_of("a\r\nb"), "a\r");
}

#[test]
fn first_line_counts_characters_not_bytes() {
    assert_eq!(first_line_of("héllo wörld ✓\nnext"), "héllo wörld ✓");
    assert_eq!(first_line_of("日本語"), "日本語");
    assert_eq!(first_line_of("日本\n語"), "日本");
}

#[test]
fn failure_notice_names_the_command() {
    assert_eq!(failure_notice("exit 1"), "Command exit 1 was not successful!");
    assert_eq!(failure_notice(""), "Command  was not successful!");
}
