use aegis::userpages::{AddUser, AlterUser, UserAccounts, UserSignal};
use aegis::users::User;
use aegis::widgets::Key;

fn user(name: &str, groups: &[&str], shell: &str) -> User {
    User {
        username: name.to_string(),
        password_hash: "h".to_string(),
        groups: groups.iter().map(|g| g.to_string()).collect(),
        shell: shell.to_string(),
    }
}

fn typed(page: &mut AddUser, users: &Vec<User>, text: &str) {
    for c in text.chars() {
        assert!(matches!(page.handle_key(users, Key::Char(c)), UserSignal::Wait));
    }
}

#[test]
fn account_table_rows() {
    let users = vec![user("alice", &["wheel"], "zsh"), user("bob", &[], "bash")];
    let page = UserAccounts::new(&users);
    assert_eq!(page.user_table.rows[0], vec!["Add a new user", "", ""]);
    assert_eq!(page.user_table.rows[1], vec!["alice", "wheel", "zsh"]);
    assert_eq!(page.user_table.rows[2], vec!["bob", "<none>", "bash"]);
    assert_eq!(page.user_table.selected_row, Some(0));
    assert_eq!(page.buttons.labels, vec!["Back"]);
}

#[test]
fn account_table_navigation() {
    let users = vec![user("alice", &[], "bash")];
    let mut page = UserAccounts::new(&users);
    assert!(matches!(page.handle_key(Key::Enter), UserSignal::AddUser(_)));
    page.handle_key(Key::Down);
    match page.handle_key(Key::Char('l')) {
        UserSignal::AlterUser(p) => assert_eq!(p.selected_user, 0),
        _ => panic!("expected the account page"),
    }
    page.handle_key(Key::Down);
    assert!(!page.user_table.focused && page.buttons.focused);
    assert!(matches!(page.handle_key(Key::Enter), UserSignal::Pop));
    page.handle_key(Key::Up);
    assert!(page.user_table.focused);
    assert_eq!(page.user_table.selected_row, Some(1));
    assert!(matches!(page.handle_key(Key::Esc), UserSignal::Pop));
}

#[test]
fn adding_an_account() {
    let users = vec![user("alice", &[], "bash")];
    let mut page = AddUser::new();
    typed(&mut page, &users, " Alice ");
    page.handle_key(&users, Key::Enter);
    assert_eq!(page.name_input.error.as_deref(), Some("User already exists"));
    typed(&mut page, &users, "Bob");
    page.handle_key(&users, Key::Enter);
    assert_eq!(page.username.as_deref(), Some("bob"));
    assert!(page.pass_input.focused);
    page.handle_key(&users, Key::Enter);
    assert_eq!(page.pass_input.error.as_deref(), Some("Password cannot be empty"));
    typed(&mut page, &users, "pw");
    page.handle_key(&users, Key::Enter);
    assert!(page.pass_confirm.focused);
    typed(&mut page, &users, "px");
    page.handle_key(&users, Key::Enter);
    assert_eq!(page.pass_confirm.error.as_deref(), Some("Passwords do not match"));
    assert!(page.pass_confirm.value.is_empty());
    typed(&mut page, &users, "pw");
    page.handle_key(&users, Key::Enter);
    assert!(page.shell_list.focused);
    page.handle_key(&users, Key::Down);
    page.handle_key(&users, Key::Enter);
    assert_eq!(page.selected_shell, "fish");
    assert!(page.sudo_list.focused);
    match page.handle_key(&users, Key::Enter) {
        UserSignal::Hash(p) => assert_eq!(p, "pw"),
        _ => panic!("expected a password to hash"),
    }
    let mut list = users.clone();
    assert!(matches!(page.take_hash_result(&mut list, Ok("HASH".to_string())), UserSignal::Pop));
    let added = &list[1];
    assert_eq!(added.username, "bob");
    assert_eq!(added.password_hash, "HASH");
    assert_eq!(added.groups, vec!["wheel".to_string()]);
    assert_eq!(added.shell, "fish");
    assert!(matches!(page.handle_key(&list, Key::Char('x')), UserSignal::Pop));
}

#[test]
fn adding_checks_on_the_last_field() {
    let users = Vec::new();
    let mut page = AddUser::new();
    for _ in 0..4 {
        page.handle_key(&users, Key::BackTab);
    }
    assert!(page.pass_input.focused);
    page.handle_key(&users, Key::BackTab);
    page.handle_key(&users, Key::BackTab);
    assert!(page.sudo_list.focused);
    match page.handle_key(&users, Key::Enter) {
        UserSignal::Error(m) => assert_eq!(m, "Username cannot be empty"),
        _ => panic!("expected an error"),
    }
    let mut named = AddUser::new();
    typed(&mut named, &users, "carol");
    named.handle_key(&users, Key::Tab);
    assert_eq!(named.username.as_deref(), Some("carol"));
    for _ in 0..3 {
        named.handle_key(&users, Key::Tab);
    }
    named.handle_key(&users, Key::Down);
    match named.handle_key(&users, Key::Enter) {
        UserSignal::Error(m) => assert_eq!(m, "empty pass"),
        _ => panic!("expected an error"),
    }
    assert_eq!(named.pass_input.error.as_deref(), Some("Password cannot be empty"));
    let mut list = Vec::new();
    match named.take_hash_result(&mut list, Err("mkpasswd failed".to_string())) {
        UserSignal::Error(m) => assert_eq!(m, "mkpasswd failed"),
        _ => panic!("expected an error"),
    }
    assert!(list.is_empty());
}

#[test]
fn adding_help_and_escape() {
    let users = Vec::new();
    let mut page = AddUser::new();
    page.handle_key(&users, Key::Char('?'));
    assert!(page.help_visible);
    assert!(matches!(page.handle_key(&users, Key::Char('a')), UserSignal::Wait));
    assert!(page.name_input.value.is_empty());
    assert!(matches!(page.handle_key(&users, Key::Esc), UserSignal::Wait));
    assert!(!page.help_visible);
    assert!(matches!(page.handle_key(&users, Key::Esc), UserSignal::Pop));
}

#[test]
fn renaming_an_account() {
    let mut users = vec![user("alice", &[], "bash"), user("bob", &[], "bash")];
    let mut page = AlterUser::new(0);
    assert_eq!(page.buttons.labels[0], "Change username");
    page.handle_key(&mut users, Key::Enter);
    assert!(page.name_input.focused);
    for c in "BOB".chars() {
        page.handle_key(&mut users, Key::Char(c));
    }
    page.handle_key(&mut users, Key::Enter);
    assert_eq!(page.name_input.error.as_deref(), Some("User already exists"));
    for c in "carol".chars() {
        page.handle_key(&mut users, Key::Char(c));
    }
    page.handle_key(&mut users, Key::Enter);
    assert_eq!(users[0].username, "carol");
    assert!(page.buttons.focused);
}

#[test]
fn changing_password_shell_and_sudo() {
    let mut users = vec![user("alice", &[], "zsh")];
    let mut page = AlterUser::new(0);
    page.handle_key(&mut users, Key::Down);
    page.handle_key(&mut users, Key::Enter);
    assert!(page.pass_input.focused);
    for c in "new".chars() {
        page.handle_key(&mut users, Key::Char(c));
    }
    page.handle_key(&mut users, Key::Tab);
    for c in "new".chars() {
        page.handle_key(&mut users, Key::Char(c));
    }
    match page.handle_key(&mut users, Key::Enter) {
        UserSignal::Hash(p) => assert_eq!(p, "new"),
        _ => panic!("expected a password to hash"),
    }
    page.take_hash_result(&mut users, Ok("H2".to_string()));
    assert_eq!(users[0].password_hash, "H2");
    assert!(page.buttons.focused);
    match page.take_hash_result(&mut users, Err("boom".to_string())) {
        UserSignal::Error(m) => assert_eq!(m, "Failed to hash password: boom"),
        _ => panic!("expected an error"),
    }
    page.handle_key(&mut users, Key::Down);
    page.handle_key(&mut users, Key::Enter);
    assert!(page.shell_list.focused);
    assert_eq!(page.shell_list.selected_idx, 2);
    page.handle_key(&mut users, Key::Down);
    page.handle_key(&mut users, Key::Enter);
    assert_eq!(users[0].shell, "bash");
    page.handle_key(&mut users, Key::Down);
    page.handle_key(&mut users, Key::Enter);
    assert!(page.sudo_mode && page.sudo_list.focused);
    assert_eq!(page.sudo_list.selected_idx, 1);
    page.handle_key(&mut users, Key::Up);
    page.handle_key(&mut users, Key::Enter);
    assert_eq!(users[0].groups, vec!["wheel".to_string()]);
    assert!(!page.sudo_mode && page.buttons.focused);
}

#[test]
fn deleting_asks_first() {
    let mut users = vec![user("alice", &[], "bash"), user("bob", &[], "bash")];
    let mut page = AlterUser::new(1);
    page.handle_key(&mut users, Key::Up);
    assert_eq!(page.buttons.selected_child(), Some(4));
    page.handle_key(&mut users, Key::Enter);
    assert!(page.confirming_delete);
    assert_eq!(page.buttons.labels[4], "Really?");
    page.handle_key(&mut users, Key::Char('x'));
    assert!(!page.confirming_delete);
    assert_eq!(page.buttons.labels[4], "Delete user");
    page.handle_key(&mut users, Key::Enter);
    assert!(matches!(page.handle_key(&mut users, Key::Enter), UserSignal::Pop));
    assert_eq!(users.len(), 1);
    assert_eq!(users[0].username, "alice");
}
