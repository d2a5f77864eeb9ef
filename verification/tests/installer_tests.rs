use aegis::installer::{termbin_reply, ConfigStatus, InstallFailed, LogGenState, Menu, MenuPages, MenuSignal, PageSignal};
use aegis::widgets::Key;

#[test]
fn menu_pages_in_order() {
    let all = MenuPages::all_pages();
    assert_eq!(all.len(), 11);
    assert_eq!(all[0], MenuPages::BaseSys);
    assert_eq!(all[10], MenuPages::Design);
    let sup = MenuPages::supported_pages();
    assert_eq!(sup.len(), 12);
    assert_eq!(sup[11], MenuPages::ExtraPackages);
    assert_eq!(&sup[..11], &all[..]);
}

#[test]
fn menu_titles() {
    assert_eq!(MenuPages::BaseSys.title(), "Base System");
    assert_eq!(MenuPages::KeyboardLayout.title(), "Keyboard Layout");
    assert_eq!(MenuPages::ExtraPackages.title(), "Extra Packages");
}

#[test]
fn termbin_reply_is_trimmed() {
    assert_eq!(termbin_reply("https://termbin.com/abcd\n"), Ok("https://termbin.com/abcd".to_string()));
    assert_eq!(termbin_reply("  \n"), Err("No response from termbin".to_string()));
}

#[test]
fn failed_page_keys() {
    let mut page = InstallFailed::new("/tmp/aegis.log".to_string());
    assert_eq!(page.log_path(), "/tmp/aegis.log");
    assert!(matches!(page.handle_key(Key::Esc), (PageSignal::PopCount(2), false)));
    assert!(matches!(page.handle_key(Key::Char('q')), (PageSignal::PopCount(2), false)));
    assert!(matches!(page.handle_key(Key::Enter), (PageSignal::Quit, false)));
    assert!(matches!(page.handle_key(Key::Char('x')), (PageSignal::Wait, false)));
    assert!(matches!(page.state(), LogGenState::Idle));
}

#[test]
fn sharing_the_log_runs_once_until_it_ends() {
    let mut page = InstallFailed::new("log".to_string());
    assert!(matches!(page.handle_key(Key::Char('g')), (PageSignal::Wait, true)));
    assert!(matches!(page.state(), LogGenState::Running));
    // a second press while running starts nothing
    assert!(matches!(page.handle_key(Key::Char('G')), (PageSignal::Wait, false)));
    page.poll_generation(None);
    assert!(matches!(page.state(), LogGenState::Running));
    page.poll_generation(Some(Ok("https://termbin.com/x".to_string())));
    assert!(matches!(page.state(), LogGenState::Done(u) if u == "https://termbin.com/x"));
    // once done, no second upload
    assert!(!page.start_generation());
    assert!(matches!(page.state(), LogGenState::Done(_)));
}

#[test]
fn sharing_can_be_retried_after_a_failure() {
    let mut page = InstallFailed::new("log".to_string());
    assert!(page.start_generation());
    page.poll_generation(Some(Err("offline".to_string())));
    assert!(matches!(page.state(), LogGenState::Error(e) if e == "offline"));
    assert!(page.start_generation());
    assert!(matches!(page.state(), LogGenState::Running));
}

#[test]
fn replies_are_ignored_when_nothing_runs() {
    let mut page = InstallFailed::new("log".to_string());
    page.poll_generation(Some(Ok("late".to_string())));
    assert!(matches!(page.state(), LogGenState::Idle));
}

fn status(all: bool) -> ConfigStatus {
    ConfigStatus {
        basesystem: all,
        timezone: all,
        keyboard_layout: all,
        locale: all,
        drives_found: all,
        drive_config: all,
        hostname: all,
        root_password: all,
        users: all,
        desktop_environment: all,
        display_manager: all,
        design: all,
    }
}

#[test]
fn requirement_box_lines() {
    assert_eq!(status(true).remaining_requirements(), vec!["All required options have been configured!"]);
    assert!(status(true).has_all_requirements());
    let mut s = status(true);
    s.timezone = false;
    s.drives_found = false;
    assert_eq!(s.remaining_requirements(), vec![
        "The following required options are not yet configured:",
        " - Timezone",
        " - Drive Configuration",
        "Please configure them before proceeding."
    ]);
    // every listed option is needed to start
    s.drives_found = true;
    assert!(!s.has_all_requirements());
    s.timezone = true;
    assert!(s.has_all_requirements());
    let none = status(false);
    assert_eq!(none.remaining_requirements().len(), 13);
    assert!(!none.has_all_requirements());
}

#[test]
fn menu_navigation_and_pages() {
    let mut m = Menu::new();
    assert_eq!(m.menu_items.items.len(), 12);
    assert_eq!(m.menu_items.items[0], "Base System");
    let ready = status(true);
    assert_eq!(m.handle_key(&ready, Key::Enter), MenuSignal::Open(MenuPages::BaseSys));
    assert_eq!(m.handle_key(&ready, Key::Down), MenuSignal::Wait);
    assert_eq!(m.handle_key(&ready, Key::Char('l')), MenuSignal::Open(MenuPages::Timezone));
    // up from the first option moves to the buttons
    m.handle_key(&ready, Key::Char('k'));
    m.handle_key(&ready, Key::Up);
    assert!(m.buttons_focused);
    assert!(!m.menu_items.focused);
    assert_eq!(m.handle_key(&ready, Key::Right), MenuSignal::Wait);
    assert_eq!(m.button, 1);
    assert_eq!(m.handle_key(&ready, Key::Enter), MenuSignal::Quit);
    m.handle_key(&ready, Key::Left);
    assert_eq!(m.button, 0);
    assert_eq!(m.handle_key(&ready, Key::Enter), MenuSignal::Preview);
    // Home goes back to the first option
    m.handle_key(&ready, Key::Home);
    assert!(m.menu_items.focused && !m.buttons_focused);
    assert_eq!(m.menu_items.selected_idx, 0);
    assert_eq!(m.handle_key(&ready, Key::Char('q')), MenuSignal::Quit);
}

#[test]
fn done_without_requirements_flashes() {
    let mut m = Menu::new();
    let missing = status(false);
    m.handle_key(&missing, Key::End);
    assert!(m.buttons_focused);
    assert_eq!(m.handle_key(&missing, Key::Enter), MenuSignal::Wait);
    assert_eq!(m.border_flash_timer, 6);
}

#[test]
fn help_window_takes_the_keys() {
    let mut m = Menu::new();
    let ready = status(true);
    m.handle_key(&ready, Key::Char('?'));
    assert!(m.help_visible);
    assert_eq!(m.handle_key(&ready, Key::Char('q')), MenuSignal::Wait);
    assert_eq!(m.handle_key(&ready, Key::Enter), MenuSignal::Wait);
    m.handle_key(&ready, Key::Esc);
    assert!(!m.help_visible);
    m.handle_key(&ready, Key::Char('?'));
    m.handle_key(&ready, Key::Char('?'));
    assert!(!m.help_visible);
}
