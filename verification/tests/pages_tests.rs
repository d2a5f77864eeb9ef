use aegis::installer::PageSignal;
use aegis::pages::{
    keymap_id, parse_timezones, Hostname, KeyboardLayout, Keymap, Language, ListSignal, Locale, SearchList,
    Timezone,
};
use aegis::widgets::Key;

fn names(v: &[&str]) -> Vec<String> {
    v.iter().map(|s| s.to_string()).collect()
}

fn type_text(list: &mut SearchList, text: &str) {
    for c in text.chars() {
        assert_eq!(list.handle_key(Key::Char(c)), ListSignal::Wait);
    }
}

fn visible(list: &SearchList) -> Vec<String> {
    list.list.filtered_items.iter().map(|r| list.list.items[r.idx].clone()).collect()
}

#[test]
fn timezone_lines_are_trimmed_and_blank_ones_dropped() {
    let out = "Africa/Abidjan\n  Europe/Berlin \r\n\n   \nUTC\n";
    assert_eq!(parse_timezones(out), names(&["Africa/Abidjan", "Europe/Berlin", "UTC"]));
    assert!(parse_timezones("").is_empty());
}

#[test]
fn search_bar_filters_the_list() {
    let mut l = SearchList::new("Select Timezone", names(&["Europe/Berlin", "Asia/Tokyo", "Europe/Paris"]));
    assert!(l.search_focused && l.search.focused);
    type_text(&mut l, "paris");
    assert_eq!(l.list.filter.as_deref(), Some("paris"));
    assert_eq!(visible(&l), names(&["Europe/Paris"]));
    for _ in 0..5 {
        l.handle_key(Key::Backspace);
    }
    assert_eq!(l.list.filter, None);
    assert_eq!(visible(&l).len(), 3);
}

#[test]
fn search_list_keys_move_focus_and_wrap() {
    let mut l = SearchList::new("Select Locale", names(&["a", "b", "c"]));
    assert_eq!(l.handle_key(Key::Down), ListSignal::Wait);
    assert!(!l.search_focused && l.list.focused && !l.search.focused);
    assert_eq!(l.handle_key(Key::Up), ListSignal::Wait);
    assert_eq!(l.list.selected_idx, 2);
    assert_eq!(l.handle_key(Key::Down), ListSignal::Wait);
    assert_eq!(l.list.selected_idx, 0);
    assert_eq!(l.handle_key(Key::Char('j')), ListSignal::Wait);
    assert_eq!(l.list.selected_idx, 1);
    assert_eq!(l.handle_key(Key::Enter), ListSignal::Choose);
    assert_eq!(l.handle_key(Key::Char('/')), ListSignal::Wait);
    assert!(l.search_focused && l.search.value.is_empty());
    assert_eq!(l.handle_key(Key::Left), ListSignal::Pop);
}

#[test]
fn search_list_help_takes_keys() {
    let mut l = SearchList::new("Select Locale", names(&["a"]));
    assert_eq!(l.handle_key(Key::Char('?')), ListSignal::Wait);
    assert!(l.help_visible);
    assert_eq!(l.handle_key(Key::Char('x')), ListSignal::Wait);
    assert!(l.search.value.is_empty());
    assert_eq!(l.handle_key(Key::Esc), ListSignal::Wait);
    assert!(!l.help_visible);
    assert_eq!(l.handle_key(Key::Esc), ListSignal::Pop);
}

#[test]
fn timezone_enter_sets_the_highlighted_zone() {
    let mut page = Timezone::new(names(&["Europe/Berlin", "Asia/Tokyo"]));
    let mut tz = None;
    assert!(matches!(page.handle_key(&mut tz, Key::Tab), PageSignal::Wait));
    assert!(matches!(page.handle_key(&mut tz, Key::Down), PageSignal::Wait));
    assert!(matches!(page.handle_key(&mut tz, Key::Enter), PageSignal::Pop));
    assert_eq!(tz.as_deref(), Some("Asia/Tokyo"));
}

#[test]
fn timezone_enter_without_match_waits() {
    let mut page = Timezone::new(names(&["Europe/Berlin"]));
    let mut tz = Some("UTC".to_string());
    for c in "zzzz".chars() {
        page.handle_key(&mut tz, Key::Char(c));
    }
    assert!(matches!(page.handle_key(&mut tz, Key::Enter), PageSignal::Wait));
    assert!(matches!(page.handle_key(&mut tz, Key::Enter), PageSignal::Wait));
    assert_eq!(tz.as_deref(), Some("UTC"));
}

#[test]
fn locale_page_lists_the_supported_locales() {
    let page = Locale::new();
    let items = &page.locales.list.items;
    assert_eq!(items.len(), 148);
    assert_eq!(items[0], "aa_DJ.UTF-8 UTF-8");
    assert!(items.contains(&"en_US.UTF-8 UTF-8".to_string()));
    assert_eq!(items[147], "zu_ZA.UTF-8 UTF-8");
    assert_eq!(page.locales.list.title, "Select Locale");
}

#[test]
fn locale_search_then_enter() {
    let mut page = Locale::new();
    let mut loc = None;
    for c in "de_DE".chars() {
        page.handle_key(&mut loc, Key::Char(c));
    }
    page.handle_key(&mut loc, Key::Enter);
    assert!(loc.is_none());
    assert!(matches!(page.handle_key(&mut loc, Key::Enter), PageSignal::Pop));
    assert!(loc.as_deref().unwrap().starts_with("de_DE"));
}

fn keymaps() -> Vec<Keymap> {
    vec![
        Keymap { id: "us".to_string(), label: "English (US)".to_string() },
        Keymap { id: "de".to_string(), label: "German".to_string() },
        Keymap { id: "de-latin1".to_string(), label: "German".to_string() },
    ]
}

#[test]
fn keymap_lookup_takes_the_first_label() {
    assert_eq!(keymap_id(&keymaps(), "German").as_deref(), Some("de"));
    assert_eq!(keymap_id(&keymaps(), "French"), None);
}

#[test]
fn keyboard_layout_enter_sets_the_keymap_id() {
    let mut page = KeyboardLayout::new(keymaps());
    assert_eq!(page.layouts.list.items, names(&["English (US)", "German", "German"]));
    let mut layout = Some("fr".to_string());
    page.handle_key(&mut layout, Key::Enter);
    assert!(matches!(page.handle_key(&mut layout, Key::Char('j')), PageSignal::Wait));
    assert!(matches!(page.handle_key(&mut layout, Key::Enter), PageSignal::Pop));
    assert_eq!(layout.as_deref(), Some("de"));
}

#[test]
fn keyboard_layout_enter_on_empty_table_clears() {
    let mut page = KeyboardLayout::new(Vec::new());
    let mut layout = Some("fr".to_string());
    page.handle_key(&mut layout, Key::Tab);
    assert!(matches!(page.handle_key(&mut layout, Key::Enter), PageSignal::Pop));
    assert_eq!(layout, None);
}

#[test]
fn language_page() {
    let mut page = Language::new();
    let mut lang = None;
    assert!(matches!(page.handle_key(&mut lang, Key::Down), PageSignal::Wait));
    assert!(matches!(page.handle_key(&mut lang, Key::Enter), PageSignal::Pop));
    assert_eq!(lang.as_deref(), Some("English"));
    let mut other = None;
    assert!(matches!(page.handle_key(&mut other, Key::Left), PageSignal::Pop));
    assert_eq!(other, None);
}

#[test]
fn hostname_is_trimmed_and_empty_ignored() {
    let mut page = Hostname::new();
    let mut host = Some("old".to_string());
    for c in "  box-1 ".chars() {
        page.handle_key(&mut host, Key::Char(c));
    }
    assert!(matches!(page.handle_key(&mut host, Key::Enter), PageSignal::Pop));
    assert_eq!(host.as_deref(), Some("box-1"));
    let mut blank = Hostname::new();
    let mut host2 = Some("keep".to_string());
    blank.handle_key(&mut host2, Key::Char(' '));
    assert!(matches!(blank.handle_key(&mut host2, Key::Enter), PageSignal::Pop));
    assert_eq!(host2.as_deref(), Some("keep"));
    assert!(matches!(blank.handle_key(&mut host2, Key::Esc), PageSignal::Pop));
}
