use aegis::drives::{Disk, DiskItem, DiskLabel, PartStatus, Partition};
use aegis::passwords::{LuksSignal, PromptLuksPassword, RootPassword, RootSignal};
use aegis::widgets::Key;

fn typed_root(page: &mut RootPassword, text: &str) {
    for c in text.chars() {
        assert!(matches!(page.handle_key(Key::Char(c)), RootSignal::Wait));
    }
}

#[test]
fn root_password_flow() {
    let mut page = RootPassword::new();
    assert!(page.input.focused && page.input.is_secret);
    typed_root(&mut page, " secret ");
    assert!(matches!(page.handle_key(Key::Enter), RootSignal::Wait));
    assert!(page.confirm.focused && !page.input.focused);
    typed_root(&mut page, "secret");
    match page.handle_key(Key::Enter) {
        RootSignal::Hash(p) => assert_eq!(p, "secret"),
        other => panic!("unexpected {other:?}"),
    }
    assert_eq!(page.take_hash_result(Ok("$y$hash".to_string())), Some("$y$hash".to_string()));
}

#[test]
fn root_password_mismatch_and_errors() {
    let mut page = RootPassword::new();
    typed_root(&mut page, "a");
    page.handle_key(Key::Tab);
    typed_root(&mut page, "b");
    assert!(matches!(page.handle_key(Key::Enter), RootSignal::Wait));
    assert_eq!(page.input.error.as_deref(), Some("Passwords do not match"));
    assert!(page.input.focused && page.input.value.is_empty() && page.confirm.value.is_empty());
    // an empty password is ignored
    page.handle_key(Key::Tab);
    assert!(matches!(page.handle_key(Key::Enter), RootSignal::Wait));
    assert!(page.confirm.focused);
    assert_eq!(page.take_hash_result(Err("mkpasswd failed".to_string())), None);
    assert_eq!(page.input.error.as_deref(), Some("Error hashing password: mkpasswd failed"));
    assert!(page.input.focused);
    assert!(matches!(page.handle_key(Key::Esc), RootSignal::Pop));
}

fn disk() -> Option<Disk> {
    let p = Partition::new(4, 2048, 1000, 512, PartStatus::Create, None, Some("ext4".into()), None, None, false, vec![]);
    Some(Disk::new("sda".to_string(), 100_000, 512, vec![DiskItem::Partition(p)], DiskLabel::Gpt))
}

fn typed_luks(page: &mut PromptLuksPassword, d: &mut Option<Disk>, text: &str) {
    for c in text.chars() {
        assert!(matches!(page.handle_key(d, Key::Char(c)), LuksSignal::Wait));
    }
}

#[test]
fn luks_passphrase_flow() {
    let mut d = disk();
    let mut page = PromptLuksPassword::new(4).with_pop_count(2);
    assert!(matches!(page.handle_key(&mut d, Key::Enter), LuksSignal::Wait));
    assert_eq!(page.pass_input.error.as_deref(), Some("Passphrase cannot be empty"));
    typed_luks(&mut page, &mut d, "pw 1");
    page.handle_key(&mut d, Key::Enter);
    assert!(page.pass_confirm.focused);
    assert!(matches!(page.handle_key(&mut d, Key::Enter), LuksSignal::Wait));
    assert_eq!(page.pass_confirm.error.as_deref(), Some("Confirmation cannot be empty"));
    typed_luks(&mut page, &mut d, "pw 2");
    page.handle_key(&mut d, Key::Enter);
    assert_eq!(page.pass_confirm.error.as_deref(), Some("Passphrases do not match"));
    typed_luks(&mut page, &mut d, "pw 1");
    match page.handle_key(&mut d, Key::Enter) {
        LuksSignal::Store { passphrase, pop_count } => {
            assert_eq!(passphrase, "pw 1");
            assert_eq!(pop_count, 2);
        },
        other => panic!("unexpected {other:?}"),
    }
    let flags = d.as_ref().unwrap().partition_by_id(4).unwrap().flags().clone();
    assert_eq!(flags, vec!["encrypt".to_string()]);
}

#[test]
fn luks_tabs_and_help() {
    let mut d = disk();
    let mut page = PromptLuksPassword::new(4);
    page.handle_key(&mut d, Key::Tab);
    assert_eq!(page.pass_input.error.as_deref(), Some("Passphrase cannot be empty"));
    page.handle_key(&mut d, Key::BackTab);
    assert!(page.pass_confirm.focused && !page.pass_input.focused);
    page.handle_key(&mut d, Key::Char('?'));
    assert!(page.help_visible);
    assert!(matches!(page.handle_key(&mut d, Key::Char('x')), LuksSignal::Wait));
    assert!(page.pass_confirm.value.is_empty());
    page.handle_key(&mut d, Key::Esc);
    assert!(!page.help_visible);
    assert!(matches!(page.handle_key(&mut d, Key::Esc), LuksSignal::Pop));
}
