use ec2_list::text::{push_blanks, push_left_aligned, push_right_aligned};

#[test]
fn blanks_are_appended() {
    let mut out = "ab".to_string();
    push_blanks(&mut out, 3);
    assert_eq!(out, "ab   ");
    push_blanks(&mut out, 0);
    assert_eq!(out, "ab   ");
}

#[test]
fn short_text_is_padded_on_the_left() {
    let mut out = String::new();
    push_right_aligned(&mut out, "Type", 11);
    assert_eq!(out, "       Type");
    assert_eq!(out, format!("{0:>11}", "Type"));
}

#[test]
fn short_text_is_padded_on_the_right() {
    let mut out = String::new();
    push_left_aligned(&mut out, "VPC", 21);
    assert_eq!(out, "VPC                  ");
    assert_eq!(out, format!("{0:<21}", "VPC"));
}

#[test]
fn text_of_column_width_is_kept() {
    let mut out = String::new();
    push_right_aligned(&mut out, "abc", 3);
    push_left_aligned(&mut out, "def", 3);
    assert_eq!(out, "abcdef");
}

#[test]
fn long_text_is_never_cut() {
    let mut out = String::new();
    push_right_aligned(&mut out, "38/01/19 03:07", 13);
    assert_eq!(out, "38/01/19 03:07");
    let mut out = String::new();
    push_left_aligned(&mut out, "stopped", 1);
    assert_eq!(out, "stopped");
    let mut out = String::new();
    push_right_aligned(&mut out, "x", 0);
    assert_eq!(out, "x");
}

#[test]
fn empty_text_fills_the_column_with_blanks() {
    let mut out = String::new();
    push_right_aligned(&mut out, "", 4);
    assert_eq!(out, "    ");
    let mut out = String::new();
    push_left_aligned(&mut out, "", 1);
    assert_eq!(out, " ");
}

#[test]
fn width_counts_characters_not_bytes() {
    let mut out = String::new();
    push_right_aligned(&mut out, "h\u{e9}llo", 7);
    assert_eq!(out, "  h\u{e9}llo");
    assert_eq!(out, format!("{0:>7}", "h\u{e9}llo"));
    let mut out = String::new();
    push_left_aligned(&mut out, "\u{65e5}\u{672c}", 4);
    assert_eq!(out, "\u{65e5}\u{672c}  ");
}

#[test]
fn text_is_appended_after_what_is_there() {
    let mut out = "Name".to_string();
    push_blanks(&mut out, 1);
    push_right_aligned(&mut out, "R", 3);
    assert_eq!(out, "Name   R");
}
