use aegis::logbox::LogBox;

fn boxed() -> LogBox {
    LogBox::new("Log".to_string())
}

#[test]
fn escapes_are_removed() {
    let mut b = boxed();
    b.write_log("\x1b[32mfoo\x1b[m bar");
    assert_eq!(b.line_buf, vec!["foo bar"]);
    assert!(!b.last_pushed_blank);
}

#[test]
fn runs_of_blank_lines_show_as_one() {
    let mut b = boxed();
    b.write_log("one");
    b.write_log("   ");
    b.write_log("");
    b.write_log("\x1b[0m");
    b.write_log("two");
    b.write_log("");
    assert_eq!(b.line_buf, vec!["one", "", "two", ""]);
    assert!(b.last_pushed_blank);
}

#[test]
fn text_with_line_feeds_gives_several_lines() {
    let mut b = boxed();
    b.write_log("a\nb");
    assert_eq!(b.line_buf, vec!["a", "b"]);
}

#[test]
fn only_the_last_thousand_lines_are_kept() {
    let mut b = boxed();
    for i in 0..1005 {
        b.write_log(&format!("line {i}"));
    }
    assert_eq!(b.line_buf.len(), 1000);
    assert_eq!(b.line_buf[0], "line 5");
    assert_eq!(b.line_buf[999], "line 1004");
}

#[test]
fn lines_read_from_the_file_lose_their_line_feed() {
    let mut b = boxed();
    b.take_log_line("installing base  \n");
    b.take_log_line("\n");
    b.take_log_line("\r\n");
    assert_eq!(b.line_buf, vec!["installing base", ""]);
}

#[test]
fn focus_moves() {
    let mut b = boxed();
    assert!(!b.is_focused());
    b.focus();
    assert!(b.is_focused());
    b.unfocus();
    assert!(!b.is_focused());
}
