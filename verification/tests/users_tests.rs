use aegis::users::{
    check_new_user, default_shell, normalize_and_validate_username, rename_user, without_exec, NewUserError,
    RenameOutcome, User,
};

fn user(name: &str, groups: &[&str]) -> User {
    User {
        username: name.to_string(),
        password_hash: "hash".to_string(),
        groups: groups.iter().map(|g| g.to_string()).collect(),
        shell: default_shell(),
    }
}

#[test]
fn usernames_are_trimmed_and_lowercased() {
    assert_eq!(normalize_and_validate_username("  Alice42 "), Ok("alice42".to_string()));
    // lower-casing goes through the unicode mapping of std
    assert_eq!(normalize_and_validate_username("BOB"), Ok("bob".to_string()));
}

#[test]
fn empty_usernames_are_refused() {
    assert_eq!(normalize_and_validate_username(""), Err("Username cannot be empty"));
    assert_eq!(normalize_and_validate_username("   "), Err("Username cannot be empty"));
}

#[test]
fn special_characters_are_refused() {
    let msg = "Special characters are not allowed (letters and digits only)";
    assert_eq!(normalize_and_validate_username("al ice"), Err(msg));
    assert_eq!(normalize_and_validate_username("bob_1"), Err(msg));
    assert_eq!(normalize_and_validate_username("émile"), Err(msg));
}

#[test]
fn normalizing_twice_changes_nothing() {
    let once = normalize_and_validate_username(" CaRoL ").unwrap();
    assert_eq!(normalize_and_validate_username(&once), Ok(once.clone()));
}

#[test]
fn default_shell_is_bash() {
    assert_eq!(default_shell(), "bash");
}

#[test]
fn table_row_shows_groups_or_marker() {
    assert_eq!(user("a", &[]).as_table_row(), vec!["a", "<none>", "bash"]);
    assert_eq!(user("a", &["wheel", "audio"]).as_table_row(), vec!["a", "wheel, audio", "bash"]);
}

#[test]
fn wheel_follows_the_setting() {
    let mut u = user("a", &["video", "audio"]);
    assert!(!u.has_wheel());
    u.set_wheel(true);
    assert!(u.has_wheel());
    assert_eq!(u.groups, vec!["audio", "video", "wheel"]);
    u.set_wheel(true);
    assert_eq!(u.groups, vec!["audio", "video", "wheel"]);
    u.set_wheel(false);
    assert!(!u.has_wheel());
    assert_eq!(u.groups, vec!["audio", "video"]);
}

#[test]
fn without_drops_every_copy() {
    let v: Vec<String> = vec!["a".into(), "b".into(), "a".into()];
    assert_eq!(without_exec(&v, "a"), vec!["b"]);
    assert_eq!(without_exec(&v, "c"), v);
}

#[test]
fn new_user_checks_in_order() {
    let users = vec![user("alice", &[])];
    assert!(matches!(
        check_new_user(&users, &None, "", "p", "p"),
        Err(NewUserError::InvalidName("Username cannot be empty"))
    ));
    assert!(matches!(check_new_user(&users, &None, "Alice", "p", "p"), Err(NewUserError::DuplicateName)));
    assert!(matches!(check_new_user(&users, &None, "bob", "", "p"), Err(NewUserError::EmptyPassword)));
    assert!(matches!(check_new_user(&users, &None, "bob", "p", ""), Err(NewUserError::EmptyConfirmation)));
    assert!(matches!(check_new_user(&users, &None, "bob", "p", "q"), Err(NewUserError::PasswordMismatch)));
    assert_eq!(check_new_user(&users, &None, " Bob ", "p", "p").unwrap(), "bob");
    // a name accepted earlier is used as it is
    assert_eq!(check_new_user(&users, &Some("carol".to_string()), "ignored!", "p", "p").unwrap(), "carol");
}

#[test]
fn rename_outcomes() {
    let mut users = vec![user("alice", &["wheel"]), user("bob", &[])];
    assert!(matches!(rename_user(&mut users, 0, "a b"), RenameOutcome::Invalid(_)));
    assert!(matches!(rename_user(&mut users, 0, "ALICE"), RenameOutcome::Unchanged));
    assert!(matches!(rename_user(&mut users, 0, "bob"), RenameOutcome::Taken));
    assert!(matches!(rename_user(&mut users, 0, "Carol"), RenameOutcome::Renamed));
    assert_eq!(users[0].username, "carol");
    assert_eq!(users[0].groups, vec!["wheel"]);
    assert_eq!(users[1].username, "bob");
}
