use aegis::choicepages::{BaseSys, DesktopEnvironment, Design, DisplayManager};
use aegis::installer::PageSignal;
use aegis::selectpages::SelectFilesystem;
use aegis::widgets::{InfoPiece, Key, SpanStyle};

#[test]
fn base_system_choice_clears_packages() {
    let mut page = BaseSys::new();
    let mut base = None;
    let mut extra = vec!["vim".to_string()];
    assert!(matches!(page.handle_key(&mut base, &mut extra, Key::Up), PageSignal::Wait));
    assert_eq!(page.systems.list.selected_idx, 1);
    assert!(matches!(page.handle_key(&mut base, &mut extra, Key::Enter), PageSignal::Pop));
    assert_eq!(base.as_deref(), Some("Athena Nix"));
    assert!(extra.is_empty());
}

#[test]
fn desktops_follow_the_base() {
    let nix = DesktopEnvironment::new_for(Some("Athena Nix"));
    assert_eq!(nix.desktops.list.items, vec!["GNOME", "MATE", "Cinnamon", "None"]);
    let all = DesktopEnvironment::new_for(None);
    assert_eq!(all.desktops.list.items.len(), 8);
    let mut page = DesktopEnvironment::new();
    let mut de = None;
    page.handle_key(&mut de, Key::Char('j'));
    assert!(matches!(page.handle_key(&mut de, Key::Enter), PageSignal::Pop));
    assert_eq!(de.as_deref(), Some("KDE Plasma"));
}

#[test]
fn help_blocks_choice() {
    let mut page = Design::new();
    let mut d = Some("Sweet".to_string());
    page.handle_key(&mut d, Key::Char('?'));
    assert!(matches!(page.handle_key(&mut d, Key::Enter), PageSignal::Wait));
    assert_eq!(d.as_deref(), Some("Sweet"));
    page.handle_key(&mut d, Key::Esc);
    assert!(matches!(page.handle_key(&mut d, Key::Left), PageSignal::Pop));
}

#[test]
fn info_texts() {
    let dm = DisplayManager::get_displaymanager_info(0);
    assert_eq!(dm.title, "Astronaut");
    assert_eq!(dm.pieces[0], InfoPiece::Span(SpanStyle::Highlight, "Astronaut theme"));
    assert_eq!(DisplayManager::get_displaymanager_info(99).title, "Unknown Display Manager Theme");
    assert_eq!(SelectFilesystem::get_fs_info(0).title, "ext4");
    assert_eq!(Design::get_design_info(2).title, "HackTheBox");
    assert_eq!(DesktopEnvironment::get_desktop_info(1).title, "KDE Plasma");
    assert!(matches!(SelectFilesystem::get_fs_info(11).pieces.last(), Some(InfoPiece::Break)));
}
