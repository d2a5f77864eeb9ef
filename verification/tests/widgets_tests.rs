use aegis::widgets::{
    glitch_char, leet_map, Button, CheckBox, Key, LineEditor, OptimizedStrList, ProgressBar, StrList, TableRow,
    TableWidget,
};

fn strings(v: &[&str]) -> Vec<String> {
    v.iter().map(|s| s.to_string()).collect()
}

fn visible(l: &StrList) -> Vec<String> {
    l.filtered_items.iter().map(|r| l.items[r.idx].clone()).collect()
}

#[test]
fn check_box_toggles() {
    let mut c = CheckBox::new("Encrypt".to_string(), false);
    assert!(!c.is_checked());
    c.toggle();
    assert!(c.is_checked());
    c.handle_key(Key::Char(' '));
    assert!(!c.is_checked());
    c.handle_key(Key::Enter);
    assert!(c.is_checked());
    c.handle_key(Key::Char('x'));
    assert!(c.is_checked());
    // toggling twice gives the box back
    c.toggle();
    c.toggle();
    assert!(c.is_checked());
    c.focus();
    assert!(c.is_focused());
    c.unfocus();
    assert!(!c.is_focused());
}

#[test]
fn button_starts_unfocused() {
    let mut b = Button::new("Back".to_string());
    assert_eq!(b.label, "Back");
    assert!(!b.is_focused());
    b.focus();
    assert!(b.is_focused());
}

#[test]
fn progress_is_capped() {
    let mut p = ProgressBar::new("Installing".to_string(), 10);
    assert_eq!(p.progress(), 10);
    p.set_progress(250);
    assert_eq!(p.progress(), 100);
    p.set_progress(42);
    assert_eq!(p.progress(), 42);
    p.set_message("Done".to_string());
    assert_eq!(p.message(), "Done");
    assert_eq!(ProgressBar::new("x".to_string(), 150).progress(), 100);
}

#[test]
fn table_row_lookup_ignores_case() {
    let row = TableRow { headers: strings(&["Device", "Size", "Mount"]), fields: strings(&["sda1", "1 GiB"]) };
    assert_eq!(row.get_field("device"), Some(&"sda1".to_string()));
    assert_eq!(row.get_field("SIZE"), Some(&"1 GiB".to_string()));
    assert_eq!(row.get_field("mount"), None);
    assert_eq!(row.get_field("label"), None);
}

#[test]
fn line_editor_edits_by_key() {
    let mut e = LineEditor::new("Name".to_string(), Some("type here".to_string()));
    assert_eq!(e.cursor, 0);
    for c in "helo".chars() {
        e.handle_key(Key::Char(c));
    }
    assert_eq!(e.value, "helo");
    e.handle_key(Key::Left);
    e.handle_key(Key::Char('l'));
    assert_eq!(e.value, "hello");
    assert_eq!(e.cursor, 4);
    e.handle_key(Key::End);
    assert_eq!(e.cursor, 5);
    e.handle_key(Key::Backspace);
    assert_eq!(e.value, "hell");
    e.handle_key(Key::Home);
    e.handle_key(Key::Delete);
    assert_eq!(e.value, "ell");
    assert_eq!(e.cursor, 0);
    e.handle_key(Key::Left);
    assert_eq!(e.cursor, 0);
    e.handle_key(Key::Backspace);
    assert_eq!(e.value, "ell");
    // typing then Backspace gives the text back
    e.handle_key(Key::Right);
    e.handle_key(Key::Char('x'));
    e.handle_key(Key::Backspace);
    assert_eq!(e.value, "ell");
    assert_eq!(e.cursor, 1);
}

#[test]
fn line_editor_cursor_counts_bytes() {
    let mut e = LineEditor::new("Name".to_string(), None);
    e.handle_key(Key::Char('é'));
    assert_eq!(e.value, "é");
    assert_eq!(e.cursor, 1);
    e.handle_key(Key::End);
    assert_eq!(e.cursor, 2);
    e.handle_key(Key::Char('a'));
    assert_eq!(e.value, "éa");
    assert_eq!(e.cursor, 3);
    e.handle_key(Key::Backspace);
    assert_eq!(e.value, "é");
    assert_eq!(e.cursor, 2);
    e.set_value("é".to_string());
    assert_eq!(e.cursor, 2);
    e.handle_key(Key::Left);
    assert_eq!(e.cursor, 1);
    e.handle_key(Key::Right);
    assert_eq!(e.cursor, 2);
    e.handle_key(Key::Right);
    assert_eq!(e.cursor, 2);
    e.handle_key(Key::Home);
    e.handle_key(Key::Delete);
    assert_eq!(e.value, "");
    assert_eq!(e.cursor, 0);
    e.cursor = 5;
    e.set_value("ü!".to_string());
    assert_eq!(e.cursor, 3);
    e.cursor = 9;
    e.focus();
    assert_eq!(e.cursor, 3);
}

#[test]
fn line_editor_errors() {
    let mut e = LineEditor::new("Name".to_string(), None).secret(true);
    assert!(e.is_secret);
    e.set_value("secret".to_string());
    assert_eq!(e.cursor, 0);
    e.handle_key(Key::End);
    e.set_error("bad".to_string());
    assert_eq!(e.error.as_deref(), Some("bad"));
    assert_eq!(e.value, "secret");
    e.clear_error();
    assert!(e.error.is_none());
    e.set_value("ab".to_string());
    assert_eq!(e.cursor, 2);
    e.error("wrong".to_string());
    assert_eq!(e.value, "");
    assert_eq!(e.cursor, 0);
    assert_eq!(e.error.as_deref(), Some("wrong"));
    e.set_value("x".to_string());
    assert!(e.error.is_none());
    e.clear();
    assert_eq!(e.value, "");
}

#[test]
fn str_list_navigation() {
    let mut l = StrList::new("Shells".to_string(), strings(&["bash", "zsh", "fish"]));
    assert_eq!(l.len(), 3);
    assert!(!l.is_empty());
    assert_eq!(l.selected_item(), Some(&"bash".to_string()));
    assert!(l.next_item());
    assert!(l.next_item());
    assert!(!l.next_item());
    assert_eq!(l.selected_item(), Some(&"fish".to_string()));
    assert!(l.previous_item());
    assert_eq!(l.selected_idx, 1);
    l.first_item();
    assert!(!l.previous_item());
    l.last_item();
    assert_eq!(l.selected_idx, 2);
    l.handle_key(Key::Char('k'));
    assert_eq!(l.selected_idx, 1);
    l.handle_key(Key::Enter);
    assert_eq!(l.committed.as_deref(), Some("zsh"));
    assert_eq!(l.committed_idx, Some(1));
    l.handle_key(Key::Down);
    l.handle_key(Key::Down);
    assert_eq!(l.selected_idx, 2);
}

#[test]
fn str_list_sorting_and_uniqueness() {
    let mut l = StrList::new("Items".to_string(), strings(&["pear", "apple", "fig"]));
    l.sort();
    assert_eq!(l.items, strings(&["apple", "fig", "pear"]));
    assert!(l.push_sort_unique("banana".to_string()));
    assert_eq!(l.items, strings(&["apple", "banana", "fig", "pear"]));
    assert!(!l.push_sort_unique("fig".to_string()));
    assert!(!l.push_unique("apple".to_string()));
    assert!(l.push_unique("kiwi".to_string()));
    assert_eq!(l.len(), 5);
    l.push_sort("cherry".to_string());
    assert_eq!(l.items[2], "cherry");
    l.add_item("zz".to_string());
    assert_eq!(visible(&l).last().unwrap(), "zz");
}

#[test]
fn str_list_filter_ranks_matches() {
    let mut l = StrList::new("Packages".to_string(), strings(&["firefox", "fish", "vim", "fzf"]));
    l.set_filter(Some("fi".to_string()));
    let shown = visible(&l);
    assert!(shown.contains(&"firefox".to_string()));
    assert!(shown.contains(&"fish".to_string()));
    assert!(!shown.contains(&"vim".to_string()));
    l.set_filter(Some(String::new()));
    assert_eq!(visible(&l), strings(&["firefox", "fish", "vim", "fzf"]));
    l.set_filter(None);
    assert_eq!(visible(&l), strings(&["firefox", "fish", "vim", "fzf"]));
    assert_eq!(l.selected_idx, 0);
}

#[test]
fn str_list_removal() {
    let mut l = StrList::new("Items".to_string(), strings(&["a", "b", "c"]));
    assert_eq!(l.remove_item(1), Some("b".to_string()));
    assert_eq!(l.items, strings(&["a", "c"]));
    assert_eq!(l.remove_item(5), None);
    l.next_item();
    assert_eq!(l.remove_selected(), Some("c".to_string()));
    assert_eq!(l.items, strings(&["a"]));
    l.set_items(strings(&["x", "y"]));
    assert_eq!(visible(&l), strings(&["x", "y"]));
}

#[test]
fn optimized_list() {
    let mut l = OptimizedStrList::new("Big".to_string(), strings(&["a", "b"]));
    assert_eq!(l.selected_item(), Some(&"a".to_string()));
    assert!(l.next_item());
    assert!(!l.next_item());
    l.set_items(strings(&["only"]));
    assert_eq!(l.selected_idx, 0);
    assert!(!l.previous_item());
    assert_eq!(l.len(), 1);
    assert!(!l.is_empty());
    l.focus();
    assert!(l.is_focused());
    l.unfocus();
    assert!(!l.is_focused());
}

#[test]
fn leet_and_glitch() {
    assert_eq!(leet_map('a'), Some('4'));
    assert_eq!(leet_map('E'), Some('3'));
    assert_eq!(leet_map('t'), Some('7'));
    assert_eq!(leet_map('x'), None);
    assert_eq!(glitch_char('a', true, false), 'A');
    assert_eq!(glitch_char('A', true, false), 'a');
    assert_eq!(glitch_char('s', true, true), '5');
    assert_eq!(glitch_char('x', false, true), 'x');
    assert_eq!(glitch_char('7', true, true), '7');
}

fn table(n: usize) -> TableWidget {
    let rows: Vec<Vec<String>> = (0..n).map(|i| vec![format!("sd{i}"), format!("{i} GiB")]).collect();
    TableWidget::new("Disks".to_string(), vec![10, 10], vec!["Name".to_string(), "Size".to_string()], rows)
}

#[test]
fn table_navigation() {
    let mut t = table(3);
    assert_eq!(t.selected_row(), None);
    assert!(t.next_row());
    assert_eq!(t.selected_row(), Some(1));
    assert!(t.next_row());
    assert!(!t.next_row());
    assert_eq!(t.selected_row(), Some(2));
    assert!(t.previous_row());
    assert!(t.previous_row());
    assert!(!t.previous_row());
    assert_eq!(t.selected_row(), Some(0));
    t.last_row();
    assert_eq!(t.selected_row(), Some(2));
    t.first_row();
    assert_eq!(t.selected_row(), Some(0));
    // down then up comes back
    assert!(t.next_row());
    assert!(t.previous_row());
    assert_eq!(t.selected_row(), Some(0));
}

#[test]
fn table_keys_and_focus() {
    let mut t = table(3);
    t.handle_key(Key::Up);
    assert_eq!(t.selected_row(), Some(1));
    t.handle_key(Key::Char('j'));
    assert_eq!(t.selected_row(), Some(0));
    t.handle_key(Key::Enter);
    assert_eq!(t.selected_row(), Some(0));
    let mut u = table(2);
    u.focus();
    assert!(u.is_focused());
    assert_eq!(u.selected_row(), Some(0));
    u.unfocus();
    assert!(!u.is_focused());
}

#[test]
fn table_rows_and_selection_fixing() {
    let mut t = table(3);
    t.last_row();
    t.set_rows(vec![vec!["x".to_string(), "y".to_string()]]);
    assert_eq!(t.selected_row(), None);
    assert_eq!(t.len(), 1);
    t.fix_selection();
    assert_eq!(t.selected_row(), Some(0));
    let row = t.get_selected_row_info().unwrap();
    assert_eq!(row.get_field("SIZE"), Some(&"y".to_string()));
    assert!(t.get_row(5).is_none());
    let mut empty = table(0);
    assert!(empty.is_empty());
    empty.fix_selection();
    assert_eq!(empty.selected_row(), None);
    empty.last_row();
    assert_eq!(empty.selected_row(), None);
    // a selection past the rows of an empty table goes back to 0
    empty.selected_row = Some(4);
    empty.fix_selection();
    assert_eq!(empty.selected_row(), Some(0));
}

#[test]
fn sort_by_comparator() {
    let mut l = StrList::new("t".to_string(), strings(&["bbb", "a", "cc", "dd"]));
    l.sort_by(|a, b| a.len().cmp(&b.len()));
    assert_eq!(l.items, strings(&["a", "cc", "dd", "bbb"]));
    l.sort_by(|a, b| b.cmp(a));
    assert_eq!(l.items, strings(&["dd", "cc", "bbb", "a"]));
    l.set_filter(Some("d".to_string()));
    l.sort_by(|a, b| a.cmp(b));
    assert_eq!(l.items, strings(&["a", "bbb", "cc", "dd"]));
    assert_eq!(visible(&l), strings(&["dd"]));
}
