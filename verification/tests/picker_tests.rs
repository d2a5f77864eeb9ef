use aegis::picker::{ExtraPackages, PackagePicker, PackagesSignal};
use aegis::widgets::Key;

fn names(v: &[&str]) -> Vec<String> {
    v.iter().map(|s| s.to_string()).collect()
}

fn picker() -> PackagePicker {
    PackagePicker::new("Selected Packages", "Available Packages", names(&["vim"]), names(&["git", "vim", "htop", "curl"]))
}

#[test]
fn picker_starts_with_sorted_lists() {
    let p = picker();
    assert_eq!(p.available.items, names(&["curl", "git", "htop"]));
    assert_eq!(p.selected.items, names(&["vim"]));
    assert!(p.search_bar.focused);
    assert_eq!(p.get_selected_packages(), names(&["vim"]));
    assert_eq!(p.get_available_packages(), names(&["curl", "git", "htop"]));
}

#[test]
fn moving_packages_between_lists() {
    let mut p = picker();
    p.handle_key(Key::Tab);
    assert!(p.available.focused && !p.search_bar.focused);
    p.handle_key(Key::Down);
    p.handle_key(Key::Enter);
    assert_eq!(p.selected.items, names(&["git", "vim"]));
    assert_eq!(p.available.items, names(&["curl", "htop"]));
    assert_eq!(p.available.selected_idx, 1);
    p.handle_key(Key::Tab);
    assert!(p.selected.focused);
    p.handle_key(Key::Down);
    p.handle_key(Key::Enter);
    assert_eq!(p.selected.items, names(&["git"]));
    assert_eq!(p.available.items, names(&["curl", "htop", "vim"]));
    assert_eq!(p.selected.selected_idx, 0);
}

#[test]
fn searching_filters_the_available_list() {
    let mut p = picker();
    for c in "ht".chars() {
        p.handle_key(Key::Char(c));
    }
    assert_eq!(p.current_filter.as_deref(), Some("ht"));
    assert_eq!(p.available.items, names(&["htop"]));
    p.handle_key(Key::Esc);
    assert_eq!(p.current_filter, None);
    assert!(p.search_bar.value.is_empty());
    assert!(p.available.focused);
    assert_eq!(p.available.items, names(&["curl", "git", "htop"]));
}

#[test]
fn picker_panes_rotate() {
    let mut p = picker();
    p.handle_key(Key::Left);
    assert!(p.selected.focused);
    p.handle_key(Key::Left);
    assert!(p.search_bar.focused);
    p.handle_key(Key::Right);
    assert!(p.available.focused);
    p.handle_key(Key::Right);
    assert!(p.search_bar.focused);
    p.handle_key(Key::Tab);
    p.handle_key(Key::Up);
    assert!(p.search_bar.focused && !p.available.focused);
    p.handle_key(Key::Tab);
    p.handle_key(Key::Char('/'));
    assert!(p.search_bar.focused);
}

#[test]
fn extra_packages_page_stores_the_selection() {
    let mut page = ExtraPackages::new();
    assert!(page.picker.available.items.is_empty());
    page.picker = picker();
    let mut extra = Vec::new();
    assert_eq!(page.handle_key(&mut extra, Key::Char('?')), PackagesSignal::Wait);
    assert_eq!(page.handle_key(&mut extra, Key::Char('q')), PackagesSignal::Wait);
    assert_eq!(page.handle_key(&mut extra, Key::Esc), PackagesSignal::Wait);
    assert_eq!(page.handle_key(&mut extra, Key::Tab), PackagesSignal::Wait);
    page.handle_key(&mut extra, Key::Enter);
    assert_eq!(page.handle_key(&mut extra, Key::Char('h')), PackagesSignal::Pop);
    assert_eq!(extra, names(&["curl", "vim"]));
}
