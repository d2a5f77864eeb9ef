//! The account pages: the table of accounts, the form that adds one and the
//! page that changes one. Hashing a password is left to the caller: a page
//! hands the password over and takes the outcome back.
use vstd::prelude::*;
use crate::passwords::{editor_ok, emptied, key_edited, refocused, showing_error};
use crate::text::{owned, str_eq, strings_view, to_chars};
use crate::users::{
    find_name, groups_cell, name_accepted, name_taken, normalize_and_validate_username, normalized_name,
    rename_user, renamed, wheel_set, RenameOutcome, User,
};
use crate::widgets::{
    row_indices, ButtonMenu, Key, LineEditor, StrList, TableWidget, next_row_spec, previous_row_spec,
};

verus! {

// ---------------------------------------------------------------------------
// Shared pieces
// ---------------------------------------------------------------------------

/// What an account page asks for after a key press.
pub enum UserSignal {
    Wait,
    Pop,
    Error(String),
    /// Hash this password and hand the outcome back to the page.
    Hash(String),
    AddUser(AddUser),
    AlterUser(AlterUser),
}

/// Up or `k`.
pub open spec fn is_up(k: Key) -> bool {
    k == Key::Up || k == Key::Char('k')
}

/// Down or `j`.
pub open spec fn is_down(k: Key) -> bool {
    k == Key::Down || k == Key::Char('j')
}

/// Enter, Right or `l`.
pub open spec fn is_enter(k: Key) -> bool {
    k == Key::Enter || k == Key::Right || k == Key::Char('l')
}

/// Esc or Left.
pub open spec fn is_back(k: Key) -> bool {
    k == Key::Esc || k == Key::Left
}

/// The message for a refused name.
pub open spec fn name_error(raw: Seq<char>) -> Seq<char> {
    if normalized_name(raw).len() == 0 {
        "Username cannot be empty"@
    } else {
        "Special characters are not allowed (letters and digits only)"@
    }
}

/// `b` is `a` without its error, with the focus set to `f`.
pub open spec fn error_cleared(a: LineEditor, b: LineEditor, f: bool) -> bool {
    b == LineEditor { error: None, focused: f, ..a }
}

/// A focused menu: a cursor missing or off the buttons goes to the first.
pub open spec fn menu_focused(m: ButtonMenu) -> ButtonMenu {
    ButtonMenu {
        focused: true,
        focused_child: match m.focused_child {
            Some(i) => if i < m.labels@.len() { Some(i) } else { Some(0usize) },
            None => Some(0usize),
        },
        ..m
    }
}

/// The cursor on the first button.
pub open spec fn menu_first(m: ButtonMenu) -> ButtonMenu {
    if m.labels@.len() > 0 { ButtonMenu { focused_child: Some(0usize), ..m } } else { m }
}

/// The cursor on the last button.
pub open spec fn menu_last(m: ButtonMenu) -> ButtonMenu {
    if m.labels@.len() > 0 { ButtonMenu { focused_child: Some((m.labels@.len() - 1) as usize), ..m } } else { m }
}

/// The cursor's button, the first when there is none.
pub open spec fn cursor_of(m: ButtonMenu) -> usize {
    match m.focused_child {
        Some(i) => i,
        None => 0usize,
    }
}

/// A focused table: without a selection the first row is selected.
pub open spec fn table_focused(t: TableWidget) -> TableWidget {
    TableWidget {
        focused: true,
        selected_row: match t.selected_row {
            Some(i) => Some(i),
            None => Some(0usize),
        },
        ..t
    }
}

/// The selection on the first row (none without rows).
pub open spec fn table_first(t: TableWidget) -> TableWidget {
    TableWidget { selected_row: if t.rows@.len() > 0 { Some(0usize) } else { None }, ..t }
}

/// The selection on the last row (none without rows).
pub open spec fn table_last(t: TableWidget) -> TableWidget {
    TableWidget { selected_row: if t.rows@.len() > 0 { Some((t.rows@.len() - 1) as usize) } else { None }, ..t }
}

/// The text of each row of a table.
pub open spec fn rows_view(rows: Seq<Vec<String>>) -> Seq<Seq<Seq<char>>> {
    rows.map_values(|r: Vec<String>| strings_view(r@))
}

/// An account's row: name, groups, shell.
pub open spec fn user_row(u: User) -> Seq<Seq<char>> {
    seq![u.username@, groups_cell(strings_view(u.groups@)), u.shell@]
}

/// The rows of the account table: the row that adds an account, then one per account.
pub open spec fn account_rows(users: Seq<User>) -> Seq<Seq<Seq<char>>> {
    seq![seq!["Add a new user"@, ""@, ""@]] + users.map_values(|u: User| user_row(u))
}

/// The item on the highlighted row of a list is `Yes`.
pub open spec fn chose_yes(l: StrList) -> bool {
    match l.selected_view() {
        Some(s) => s@ == "Yes"@,
        None => false,
    }
}

fn list_of(title: &str, items: Vec<&str>) -> (r: StrList)
    ensures
        r.title@ == title@,
        strings_view(r.items@) == items@.map_values(|s: &str| s@),
        r.filter is None,
        r.rows_ok(),
        r.selected_idx == 0,
        !r.focused,
        r.committed is None && r.committed_idx is None,
{
    StrList::new(owned(title), crate::text::owned_list(&items))
}

fn editor(title: &str, secret: bool) -> (r: LineEditor)
    ensures
        r.title@ == title@,
        r.placeholder is None,
        r.is_secret == secret,
        !r.focused,
        r.value@.len() == 0 && r.cursor == 0 && r.error is None,
{
    LineEditor::new(owned(title), None).secret(secret)
}

/// The item on the highlighted row, if it is a `Yes`.
fn selected_is_yes(l: &StrList) -> (r: bool)
    ensures
        r == chose_yes(*l),
{
    match l.selected_item() {
        Some(s) => str_eq(s.as_str(), "Yes"),
        None => false,
    }
}

// ---------------------------------------------------------------------------
// The account table
// ---------------------------------------------------------------------------

/// The accounts in a table above a Back button.
pub struct UserAccounts {
    pub user_table: TableWidget,
    pub buttons: ButtonMenu,
    pub help_visible: bool,
}

impl UserAccounts {
    /// The table of `users` after the row that adds one, focused on that row.
    pub fn new(users: &Vec<User>) -> (r: Self)
        ensures
            r.buttons.wf(),
            strings_view(r.buttons.labels@) == seq!["Back"@],
            !r.buttons.focused && r.buttons.focused_child == Some(0usize),
            r.user_table.title@ == "Users"@,
            strings_view(r.user_table.headers@) == seq!["Username"@, "Groups"@, "Shell"@],
            r.user_table.widths@ == seq![33u16, 33u16, 33u16],
            rows_view(r.user_table.rows@) == account_rows(users@),
            r.user_table.focused && r.user_table.selected_row == Some(0usize),
            !r.help_visible,
    {
        let mut rows: Vec<Vec<String>> = Vec::new();
        let first = vec![owned("Add a new user"), owned(""), owned("")];
        assert(strings_view(first@) =~= seq!["Add a new user"@, ""@, ""@]);
        rows.push(first);
        assert(rows_view(rows@) =~= seq![seq!["Add a new user"@, ""@, ""@]]);
        let mut i: usize = 0;
        while i < users.len()
            invariant
                i <= users@.len(),
                rows_view(rows@) == account_rows(users@.subrange(0, i as int)),
            decreases users@.len() - i,
        {
            let ghost before = rows@;
            let row = users[i].as_table_row();
            rows.push(row);
            assert(rows_view(rows@) =~= rows_view(before).push(user_row(users@[i as int])));
            assert(users@.subrange(0, i + 1) =~= users@.subrange(0, i as int).push(users@[i as int]));
            assert(account_rows(users@.subrange(0, i + 1)) =~= account_rows(users@.subrange(0, i as int)).push(
                user_row(users@[i as int]),
            ));
            i = i + 1;
        }
        assert(users@.subrange(0, users@.len() as int) =~= users@);
        let headers = vec![owned("Username"), owned("Groups"), owned("Shell")];
        assert(strings_view(headers@) =~= seq!["Username"@, "Groups"@, "Shell"@]);
        let widths: Vec<u16> = vec![33, 33, 33];
        assert(widths@ =~= seq![33u16, 33u16, 33u16]);
        let mut user_table = TableWidget::new(owned("Users"), widths, headers, rows);
        user_table.focus();
        let labels = vec![owned("Back")];
        assert(strings_view(labels@) =~= seq!["Back"@]);
        let buttons = ButtonMenu::button_menu(labels);
        UserAccounts { user_table, buttons, help_visible: false }
    }

    /// `?` shows or hides the help, which takes every key while shown (Esc
    /// hides it). On the table Up and Down move the selection, passing to
    /// the buttons beyond the first or last row, Enter opens the form for a
    /// new account (first row) or the page of the account on the row, and
    /// Esc or Left leaves; on the buttons Up and Down pass back to the table
    /// beyond the first or last button and Enter on Back or Esc leaves; with
    /// neither focused the buttons take the focus.
    pub fn handle_key(&mut self, key: Key) -> (r: UserSignal)
        requires
            old(self).buttons.wf(),
            old(self).buttons.labels@.len() > 0,
        ensures
            final(self).buttons.wf(),
            final(self).buttons.labels == old(self).buttons.labels,
            ({
                let a = *old(self);
                let b = *final(self);
                if key == Key::Char('?') {
                    b == (UserAccounts { help_visible: !a.help_visible, ..a }) && r is Wait
                } else if a.help_visible {
                    b == (UserAccounts { help_visible: key != Key::Esc, ..a }) && r is Wait
                } else if a.user_table.focused {
                    let t = a.user_table;
                    if is_down(key) {
                        let (s, moved) = next_row_spec(t.selected_row, t.rows@.len());
                        &&& r is Wait
                        &&& if moved {
                            b == (UserAccounts { user_table: TableWidget { selected_row: s, ..t }, ..a })
                        } else {
                            b == (UserAccounts {
                                user_table: TableWidget { selected_row: s, focused: false, ..t },
                                buttons: menu_first(menu_focused(a.buttons)),
                                ..a
                            })
                        }
                    } else if is_up(key) {
                        let (s, moved) = previous_row_spec(t.selected_row);
                        &&& r is Wait
                        &&& if moved {
                            b == (UserAccounts { user_table: TableWidget { selected_row: s, ..t }, ..a })
                        } else {
                            b == (UserAccounts {
                                user_table: TableWidget { selected_row: s, focused: false, ..t },
                                buttons: menu_last(menu_focused(a.buttons)),
                                ..a
                            })
                        }
                    } else if is_enter(key) {
                        &&& b == a
                        &&& match t.selected_row {
                            None => r matches UserSignal::Error(m) && m@ == "No user selected"@,
                            Some(0) => r matches UserSignal::AddUser(p) && p.wf() && p.fresh(),
                            Some(k) => r matches UserSignal::AlterUser(p) && p.wf()
                                && p.selected_user == k - 1 && p.fresh(),
                        }
                    } else if is_back(key) {
                        b == a && r is Pop
                    } else {
                        b == a && r is Wait
                    }
                } else if a.buttons.focused {
                    let m = a.buttons;
                    if is_down(key) {
                        &&& r is Wait
                        &&& if cursor_of(m) + 1 < m.labels@.len() {
                            b == (UserAccounts { buttons: ButtonMenu { focused_child: Some((cursor_of(m) + 1) as usize), ..m }, ..a })
                        } else {
                            b == (UserAccounts {
                                buttons: ButtonMenu { focused: false, ..m },
                                user_table: table_first(table_focused(a.user_table)),
                                ..a
                            })
                        }
                    } else if is_up(key) {
                        &&& r is Wait
                        &&& if cursor_of(m) > 0 {
                            b == (UserAccounts { buttons: ButtonMenu { focused_child: Some((cursor_of(m) - 1) as usize), ..m }, ..a })
                        } else {
                            b == (UserAccounts {
                                buttons: ButtonMenu { focused: false, ..m },
                                user_table: table_last(table_focused(a.user_table)),
                                ..a
                            })
                        }
                    } else if is_enter(key) {
                        b == a && if m.focused_child == Some(0usize) { r is Pop } else { r is Wait }
                    } else if is_back(key) {
                        b == a && r is Pop
                    } else {
                        b == a && r is Wait
                    }
                } else {
                    b == (UserAccounts { buttons: menu_focused(a.buttons), ..a }) && r is Wait
                }
            }),
    {
        if key == Key::Char('?') {
            self.help_visible = !self.help_visible;
            return UserSignal::Wait;
        }
        if self.help_visible {
            if key == Key::Esc {
                self.help_visible = false;
            }
            return UserSignal::Wait;
        }
        if self.user_table.is_focused() {
            match key {
                Key::Down | Key::Char('j') => {
                    if !self.user_table.next_row() {
                        self.user_table.unfocus();
                        self.buttons.focus();
                        self.buttons.first_child();
                    }
                    UserSignal::Wait
                },
                Key::Up | Key::Char('k') => {
                    if !self.user_table.previous_row() {
                        self.user_table.unfocus();
                        self.buttons.focus();
                        self.buttons.last_child();
                    }
                    UserSignal::Wait
                },
                Key::Enter | Key::Right | Key::Char('l') => match self.user_table.selected_row() {
                    None => UserSignal::Error(owned("No user selected")),
                    Some(k) => {
                        if k == 0 {
                            UserSignal::AddUser(AddUser::new())
                        } else {
                            UserSignal::AlterUser(AlterUser::new(k - 1))
                        }
                    },
                },
                Key::Esc | Key::Left => UserSignal::Pop,
                _ => UserSignal::Wait,
            }
        } else if self.buttons.is_focused() {
            match key {
                Key::Down | Key::Char('j') => {
                    if !self.buttons.next_child() {
                        self.buttons.unfocus();
                        self.user_table.focus();
                        self.user_table.first_row();
                    }
                    UserSignal::Wait
                },
                Key::Up | Key::Char('k') => {
                    if !self.buttons.prev_child() {
                        self.buttons.unfocus();
                        self.user_table.focus();
                        self.user_table.last_row();
                    }
                    UserSignal::Wait
                },
                Key::Enter | Key::Right | Key::Char('l') => {
                    if self.buttons.selected_child() == Some(0usize) {
                        UserSignal::Pop
                    } else {
                        UserSignal::Wait
                    }
                },
                Key::Esc | Key::Left => UserSignal::Pop,
                _ => UserSignal::Wait,
            }
        } else {
            self.buttons.focus();
            UserSignal::Wait
        }
    }
}

// ---------------------------------------------------------------------------
// Adding an account
// ---------------------------------------------------------------------------

/// The form that adds an account: name, password twice, shell and whether
/// the account may use sudo.
pub struct AddUser {
    pub name_input: LineEditor,
    pub pass_input: LineEditor,
    pub pass_confirm: LineEditor,
    pub shell_list: StrList,
    pub selected_shell: String,
    pub sudo_list: StrList,
    pub help_visible: bool,
    /// The name accepted so far, normalized.
    pub username: Option<String>,
    pub finished: bool,
}

/// The shells offered.
pub open spec fn shell_names() -> Seq<Seq<char>> {
    seq!["bash"@, "fish"@, "zsh"@]
}

/// The answers to the sudo question.
pub open spec fn yes_no() -> Seq<Seq<char>> {
    seq!["Yes"@, "No"@]
}

/// Which field of the form has the focus, in the order the form asks.
pub open spec fn add_field(a: AddUser) -> int {
    if a.name_input.focused {
        0
    } else if a.pass_input.focused {
        1
    } else if a.pass_confirm.focused {
        2
    } else if a.shell_list.focused {
        3
    } else if a.sudo_list.focused {
        4
    } else {
        5
    }
}

/// The form with the focus of field `f` (0 to 4) set to `v`.
pub open spec fn set_focus(a: AddUser, f: int, v: bool) -> AddUser {
    if f == 0 {
        AddUser { name_input: LineEditor { focused: v, ..a.name_input }, ..a }
    } else if f == 1 {
        AddUser { pass_input: LineEditor { focused: v, ..a.pass_input }, ..a }
    } else if f == 2 {
        AddUser { pass_confirm: LineEditor { focused: v, ..a.pass_confirm }, ..a }
    } else if f == 3 {
        AddUser { shell_list: StrList { focused: v, ..a.shell_list }, ..a }
    } else if f == 4 {
        AddUser { sudo_list: StrList { focused: v, ..a.sudo_list }, ..a }
    } else {
        a
    }
}

/// The focus moved from field `from` to field `to`.
pub open spec fn add_move(a: AddUser, from: int, to: int) -> AddUser {
    set_focus(set_focus(a, from, false), to, true)
}

/// The outcome of accepting the entered name: `b` has the name stored and
/// the password field focused, or the name field shows why it was refused.
pub open spec fn name_taken_into(a: AddUser, b: AddUser) -> bool {
    let raw = a.name_input.value@;
    if name_accepted(raw) {
        &&& b.username matches Some(u) && u@ == normalized_name(raw)
        &&& b == AddUser {
            username: b.username,
            name_input: LineEditor { error: None, focused: false, ..a.name_input },
            pass_input: LineEditor { focused: true, ..a.pass_input },
            ..a
        }
    } else {
        &&& showing_error(a.name_input, b.name_input, name_error(raw), a.name_input.focused)
        &&& b == AddUser { name_input: b.name_input, ..a }
    }
}

/// Tab: the next field, the name field only once its name is accepted.
pub open spec fn add_forward(a: AddUser, b: AddUser) -> bool {
    let f = add_field(a);
    if f == 0 {
        name_taken_into(a, b)
    } else if f < 5 {
        b == add_move(a, f, if f == 4 { 0 } else { f + 1 })
    } else {
        b == set_focus(a, 0, true)
    }
}

/// Shift+Tab: the previous field.
pub open spec fn add_backward(a: AddUser, b: AddUser) -> bool {
    let f = add_field(a);
    if f < 5 {
        b == add_move(a, f, if f == 0 { 4 } else { f - 1 })
    } else {
        b == set_focus(a, 0, true)
    }
}

/// Enter on the name field: an accepted name that no account has moves on
/// to the password.
pub open spec fn add_name_enter(a: AddUser, b: AddUser, users: Seq<User>) -> bool {
    let raw = a.name_input.value@;
    if name_accepted(raw) && name_taken(users, normalized_name(raw)) {
        &&& showing_error(a.name_input, b.name_input, "User already exists"@, a.name_input.focused)
        &&& b == AddUser { name_input: b.name_input, ..a }
    } else {
        name_taken_into(a, b)
    }
}

/// Enter on the last field: the checks before the account is added, as
/// `finalize` makes them.
pub open spec fn add_finalize(a: AddUser, b: AddUser, users: Seq<User>, r: UserSignal) -> bool {
    let raw = a.name_input.value@;
    let name = match a.username {
        Some(u) => u@,
        None => normalized_name(raw),
    };
    let pass = a.pass_input.value@;
    let conf = a.pass_confirm.value@;
    if a.username is None && !name_accepted(raw) {
        b == a && (r matches UserSignal::Error(m) && m@ == name_error(raw))
    } else if name_taken(users, name) {
        &&& showing_error(a.name_input, b.name_input, "User already exists"@, a.name_input.focused)
        &&& b == AddUser { name_input: b.name_input, ..a }
        &&& r matches UserSignal::Error(m) && m@ == "duplicate user"@
    } else {
        &&& b.username matches Some(u) && u@ == name
        &&& if pass.len() == 0 {
            &&& showing_error(a.pass_input, b.pass_input, "Password cannot be empty"@, a.pass_input.focused)
            &&& b == AddUser { pass_input: b.pass_input, username: b.username, ..a }
            &&& r matches UserSignal::Error(m) && m@ == "empty pass"@
        } else if conf.len() == 0 {
            &&& showing_error(a.pass_confirm, b.pass_confirm, "Password confirmation cannot be empty"@, a.pass_confirm.focused)
            &&& b == AddUser { pass_confirm: b.pass_confirm, username: b.username, ..a }
            &&& r matches UserSignal::Error(m) && m@ == "empty confirm"@
        } else if pass != conf {
            &&& showing_error(a.pass_confirm, b.pass_confirm, "Passwords do not match"@, a.pass_confirm.focused)
            &&& b == AddUser { pass_confirm: b.pass_confirm, username: b.username, ..a }
            &&& r matches UserSignal::Error(m) && m@ == "mismatch"@
        } else {
            &&& match a.shell_list.selected_view() {
                Some(s) => b.selected_shell == s,
                None => b.selected_shell == a.selected_shell,
            }
            &&& b == AddUser { selected_shell: b.selected_shell, username: b.username, ..a }
            &&& r matches UserSignal::Hash(p) && p@ == pass
        }
    }
}

/// The key, when it reaches one of the form's editors, can be taken there.
pub open spec fn add_takes(a: AddUser, key: Key) -> bool {
    let f = add_field(a);
    !a.finished && key != Key::Char('?') && key != Key::Esc && !a.help_visible && key != Key::Tab && key
        != Key::BackTab && key != Key::Enter ==> {
        &&& f == 0 ==> a.name_input.takes(key)
        &&& f == 1 ==> a.pass_input.takes(key)
        &&& f == 2 ==> a.pass_confirm.takes(key)
    }
}

/// The key, when it reaches one of the editors, can be taken there.
pub open spec fn alter_takes(a: AlterUser, key: Key) -> bool {
    let mode = alter_mode(a);
    key != Key::Char('?') && !a.help_visible && key != Key::Esc && key != Key::Enter ==> {
        &&& mode == 2 ==> a.name_input.takes(key)
        &&& mode == 3 && key != Key::Tab ==> if a.pass_input.focused {
            a.pass_input.takes(key)
        } else {
            a.pass_confirm.takes(key)
        }
    }
}

/// A key on the form (after the help and Esc are dealt with).
pub open spec fn add_step(a: AddUser, b: AddUser, users: Seq<User>, key: Key, r: UserSignal) -> bool {
    let f = add_field(a);
    if key == Key::Tab {
        add_forward(a, b) && r is Wait
    } else if key == Key::BackTab {
        add_backward(a, b) && r is Wait
    } else if f == 0 {
        if key == Key::Enter {
            add_name_enter(a, b, users) && r is Wait
        } else {
            key_edited(a.name_input, b.name_input, key) && b == AddUser { name_input: b.name_input, ..a } && r is Wait
        }
    } else if f == 1 {
        if key == Key::Enter {
            &&& r is Wait
            &&& if a.pass_input.value@.len() == 0 {
                showing_error(a.pass_input, b.pass_input, "Password cannot be empty"@, true)
                    && b == AddUser { pass_input: b.pass_input, ..a }
            } else {
                error_cleared(a.pass_input, b.pass_input, false) && b == AddUser {
                    pass_input: b.pass_input,
                    pass_confirm: LineEditor { focused: true, ..a.pass_confirm },
                    ..a
                }
            }
        } else {
            key_edited(a.pass_input, b.pass_input, key) && b == AddUser { pass_input: b.pass_input, ..a } && r is Wait
        }
    } else if f == 2 {
        if key == Key::Enter {
            &&& r is Wait
            &&& if a.pass_input.value@ != a.pass_confirm.value@ {
                showing_error(a.pass_confirm, b.pass_confirm, "Passwords do not match"@, true) && b == AddUser {
                    pass_input: LineEditor { focused: false, ..a.pass_input },
                    pass_confirm: b.pass_confirm,
                    ..a
                }
            } else {
                b == AddUser {
                    pass_input: LineEditor { error: None, ..a.pass_input },
                    pass_confirm: LineEditor { error: None, focused: false, ..a.pass_confirm },
                    shell_list: StrList { focused: true, ..a.shell_list },
                    ..a
                }
            }
        } else {
            key_edited(a.pass_confirm, b.pass_confirm, key) && b == AddUser { pass_confirm: b.pass_confirm, ..a }
                && r is Wait
        }
    } else if f == 3 {
        let l = a.shell_list;
        &&& r is Wait
        &&& if is_down(key) {
            b == AddUser {
                shell_list: StrList {
                    selected_idx: if l.selected_idx + 1 < l.filtered_items@.len() { (l.selected_idx + 1) as usize } else { l.selected_idx },
                    ..l
                },
                ..a
            }
        } else if is_up(key) {
            b == AddUser {
                shell_list: StrList { selected_idx: if l.selected_idx > 0 { (l.selected_idx - 1) as usize } else { l.selected_idx }, ..l },
                ..a
            }
        } else if key == Key::Enter {
            &&& match l.selected_view() {
                Some(s) => b.selected_shell == s,
                None => b.selected_shell == a.selected_shell,
            }
            &&& b == AddUser {
                selected_shell: b.selected_shell,
                shell_list: StrList { focused: false, ..l },
                sudo_list: StrList { focused: true, ..a.sudo_list },
                ..a
            }
        } else {
            b == a
        }
    } else if f == 4 {
        let l = a.sudo_list;
        if is_down(key) {
            r is Wait && b == AddUser {
                sudo_list: StrList {
                    selected_idx: if l.selected_idx + 1 < l.filtered_items@.len() { (l.selected_idx + 1) as usize } else { l.selected_idx },
                    ..l
                },
                ..a
            }
        } else if is_up(key) {
            r is Wait && b == AddUser {
                sudo_list: StrList { selected_idx: if l.selected_idx > 0 { (l.selected_idx - 1) as usize } else { l.selected_idx }, ..l },
                ..a
            }
        } else if key == Key::Enter {
            add_finalize(a, b, users, r)
        } else {
            b == a && r is Wait
        }
    } else {
        b == set_focus(a, 0, true) && r is Wait
    }
}

impl AddUser {
    /// The editors keep their cursors within their texts.
    pub open spec fn wf(&self) -> bool {
        editor_ok(self.name_input) && editor_ok(self.pass_input) && editor_ok(self.pass_confirm)
    }

    /// The form as it opens.
    pub open spec fn fresh(&self) -> bool {
        &&& self.name_input.title@ == "Username"@ && self.name_input.focused
        &&& self.name_input.value@.len() == 0 && self.name_input.error is None
        &&& self.pass_input.title@ == "Password"@ && self.pass_input.is_secret && !self.pass_input.focused
        &&& self.pass_input.value@.len() == 0 && self.pass_input.error is None
        &&& self.pass_confirm.title@ == "Confirm Password"@ && self.pass_confirm.is_secret
        &&& !self.pass_confirm.focused && self.pass_confirm.value@.len() == 0 && self.pass_confirm.error is None
        &&& self.shell_list.title@ == "Shell"@ && strings_view(self.shell_list.items@) == shell_names()
        &&& self.shell_list.rows_ok() && self.shell_list.filter is None && self.shell_list.selected_idx == 0
        &&& !self.shell_list.focused
        &&& self.selected_shell@ == "bash"@
        &&& self.sudo_list.title@ == "Administrative rights (sudo via wheel)"@
        &&& strings_view(self.sudo_list.items@) == yes_no() && self.sudo_list.rows_ok()
        &&& self.sudo_list.filter is None && self.sudo_list.selected_idx == 0 && !self.sudo_list.focused
        &&& !self.help_visible && self.username is None && !self.finished
    }

    pub fn new() -> (r: Self)
        ensures
            r.wf(),
            r.fresh(),
    {
        let mut name_input = editor("Username", false);
        name_input.focus();
        let shell_list = list_of("Shell", vec!["bash", "fish", "zsh"]);
        let sudo_list = list_of("Administrative rights (sudo via wheel)", vec!["Yes", "No"]);
        proof {
            reveal_strlit("bash");
            reveal_strlit("fish");
            reveal_strlit("zsh");
            reveal_strlit("Yes");
            reveal_strlit("No");
        }
        assert(strings_view(shell_list.items@) =~= shell_names());
        assert(strings_view(sudo_list.items@) =~= yes_no());
        AddUser {
            name_input,
            pass_input: editor("Password", true),
            pass_confirm: editor("Confirm Password", true),
            shell_list,
            selected_shell: owned("bash"),
            sudo_list,
            help_visible: false,
            username: None,
            finished: false,
        }
    }

    /// Accepts the entered name and moves on, or shows why it is refused.
    fn take_name(&mut self)
        requires
            old(self).wf(),
            old(self).name_input.focused,
        ensures
            final(self).wf(),
            name_taken_into(*old(self), *final(self)),
    {
        match normalize_and_validate_username(self.name_input.value.as_str()) {
            Ok(n) => {
                self.name_input.clear_error();
                self.username = Some(n);
                self.name_input.unfocus();
                self.pass_input.focus();
            },
            Err(m) => {
                self.name_input.error(owned(m));
            },
        }
    }

    fn set_field_focus(&mut self, f: usize, v: bool)
        requires
            old(self).wf(),
        ensures
            final(self).wf(),
            *final(self) == set_focus(*old(self), f as int, v),
    {
        if f == 0 {
            if v { self.name_input.focus() } else { self.name_input.unfocus() }
        } else if f == 1 {
            if v { self.pass_input.focus() } else { self.pass_input.unfocus() }
        } else if f == 2 {
            if v { self.pass_confirm.focus() } else { self.pass_confirm.unfocus() }
        } else if f == 3 {
            if v { self.shell_list.focus() } else { self.shell_list.unfocus() }
        } else if f == 4 {
            if v { self.sudo_list.focus() } else { self.sudo_list.unfocus() }
        }
    }

    fn field(&self) -> (r: usize)
        ensures
            r as int == add_field(*self),
    {
        if self.name_input.is_focused() {
            0
        } else if self.pass_input.is_focused() {
            1
        } else if self.pass_confirm.is_focused() {
            2
        } else if self.shell_list.is_focused() {
            3
        } else if self.sudo_list.is_focused() {
            4
        } else {
            5
        }
    }

    /// The checks before the account is added; on success the password to hash.
    fn finalize(&mut self, users: &Vec<User>) -> (r: UserSignal)
        requires
            old(self).wf(),
        ensures
            final(self).wf(),
            add_finalize(*old(self), *final(self), users@, r),
    {
        let name = match &self.username {
            Some(u) => u.clone(),
            None => {
                let n = match normalize_and_validate_username(self.name_input.value.as_str()) {
                    Ok(n) => n,
                    Err(m) => return UserSignal::Error(owned(m)),
                };
                if find_name(users, n.as_str()) {
                    self.name_input.error(owned("User already exists"));
                    return UserSignal::Error(owned("duplicate user"));
                }
                self.username = Some(n.clone());
                n
            },
        };
        if find_name(users, name.as_str()) {
            self.name_input.error(owned("User already exists"));
            return UserSignal::Error(owned("duplicate user"));
        }
        let pass = self.pass_input.value.clone();
        let conf = self.pass_confirm.value.clone();
        if to_chars(pass.as_str()).len() == 0 {
            self.pass_input.error(owned("Password cannot be empty"));
            return UserSignal::Error(owned("empty pass"));
        }
        if to_chars(conf.as_str()).len() == 0 {
            self.pass_confirm.error(owned("Password confirmation cannot be empty"));
            return UserSignal::Error(owned("empty confirm"));
        }
        if !str_eq(pass.as_str(), conf.as_str()) {
            self.pass_confirm.clear();
            self.pass_confirm.error(owned("Passwords do not match"));
            return UserSignal::Error(owned("mismatch"));
        }
        match self.shell_list.selected_item() {
            Some(s) => {
                self.selected_shell = s.clone();
            },
            None => {},
        }
        UserSignal::Hash(pass)
    }

    /// Once done, every key leaves. `?` shows or hides the help, which takes
    /// every key while shown (Esc hides it); Esc leaves; then the focused
    /// field takes the key (see `add_step`): Tab and Shift+Tab move between
    /// fields, Enter checks and moves on, and on the last field asks for the
    /// password to be hashed once every check passes.
    pub fn handle_key(&mut self, users: &Vec<User>, key: Key) -> (r: UserSignal)
        requires
            old(self).wf(),
            add_takes(*old(self), key),
        ensures
            final(self).wf(),
            ({
                let a = *old(self);
                let b = *final(self);
                if a.finished {
                    b == a && r is Pop
                } else if key == Key::Char('?') {
                    b == (AddUser { help_visible: !a.help_visible, ..a }) && r is Wait
                } else if a.help_visible && key == Key::Esc {
                    b == (AddUser { help_visible: false, ..a }) && r is Wait
                } else if key == Key::Esc {
                    b == a && r is Pop
                } else if a.help_visible {
                    b == a && r is Wait
                } else {
                    add_step(a, b, users@, key, r)
                }
            }),
    {
        if self.finished {
            return UserSignal::Pop;
        }
        if key == Key::Char('?') {
            self.help_visible = !self.help_visible;
            return UserSignal::Wait;
        }
        if self.help_visible && key == Key::Esc {
            self.help_visible = false;
            return UserSignal::Wait;
        }
        if key == Key::Esc {
            return UserSignal::Pop;
        }
        if self.help_visible {
            return UserSignal::Wait;
        }
        let f = self.field();
        if key == Key::Tab {
            if f == 0 {
                self.take_name();
            } else if f < 5 {
                self.set_field_focus(f, false);
                self.set_field_focus(if f == 4 { 0 } else { f + 1 }, true);
            } else {
                self.set_field_focus(0, true);
            }
            return UserSignal::Wait;
        }
        if key == Key::BackTab {
            if f < 5 {
                self.set_field_focus(f, false);
                self.set_field_focus(if f == 0 { 4 } else { f - 1 }, true);
            } else {
                self.set_field_focus(0, true);
            }
            return UserSignal::Wait;
        }
        if f == 0 {
            if key == Key::Enter {
                let taken = match normalize_and_validate_username(self.name_input.value.as_str()) {
                    Ok(n) => find_name(users, n.as_str()),
                    Err(_) => false,
                };
                if taken {
                    self.name_input.error(owned("User already exists"));
                } else {
                    self.take_name();
                }
            } else {
                self.name_input.handle_key(key);
            }
            UserSignal::Wait
        } else if f == 1 {
            if key == Key::Enter {
                if to_chars(self.pass_input.value.as_str()).len() == 0 {
                    self.pass_input.error(owned("Password cannot be empty"));
                } else {
                    self.pass_input.clear_error();
                    self.pass_input.unfocus();
                    self.pass_confirm.focus();
                }
            } else {
                self.pass_input.handle_key(key);
            }
            UserSignal::Wait
        } else if f == 2 {
            if key == Key::Enter {
                if !str_eq(self.pass_input.value.as_str(), self.pass_confirm.value.as_str()) {
                    self.pass_confirm.clear();
                    self.pass_confirm.error(owned("Passwords do not match"));
                    self.pass_input.unfocus();
                    self.pass_confirm.focus();
                } else {
                    self.pass_input.clear_error();
                    self.pass_confirm.clear_error();
                    self.pass_confirm.unfocus();
                    self.shell_list.focus();
                }
            } else {
                self.pass_confirm.handle_key(key);
            }
            UserSignal::Wait
        } else if f == 3 {
            match key {
                Key::Down | Key::Char('j') => {
                    self.shell_list.next_item();
                },
                Key::Up | Key::Char('k') => {
                    self.shell_list.previous_item();
                },
                Key::Enter => {
                    match self.shell_list.selected_item() {
                        Some(s) => {
                            self.selected_shell = s.clone();
                        },
                        None => {},
                    }
                    self.shell_list.unfocus();
                    self.sudo_list.focus();
                },
                _ => {},
            }
            UserSignal::Wait
        } else if f == 4 {
            match key {
                Key::Down | Key::Char('j') => {
                    self.sudo_list.next_item();
                    UserSignal::Wait
                },
                Key::Up | Key::Char('k') => {
                    self.sudo_list.previous_item();
                    UserSignal::Wait
                },
                Key::Enter => self.finalize(users),
                _ => UserSignal::Wait,
            }
        } else {
            self.set_field_focus(0, true);
            UserSignal::Wait
        }
    }

    /// Takes the outcome of hashing the password: the account is added (in
    /// the wheel group when sudo was chosen) and the form is done, or the
    /// failure is reported.
    pub fn take_hash_result(&mut self, users: &mut Vec<User>, hashed: Result<String, String>) -> (r: UserSignal)
        requires
            old(self).username is Some,
        ensures
            match hashed {
                Ok(h) => {
                    &&& r is Pop
                    &&& *final(self) == AddUser { finished: true, ..*old(self) }
                    &&& final(users)@.len() == old(users)@.len() + 1
                    &&& final(users)@.subrange(0, old(users)@.len() as int) == old(users)@
                    &&& ({
                        let u = final(users)@[old(users)@.len() as int];
                        &&& u.username == old(self).username->0
                        &&& u.password_hash == h
                        &&& strings_view(u.groups@) == (if chose_yes(old(self).sudo_list) { seq!["wheel"@] } else { Seq::empty() })
                        &&& u.shell == old(self).selected_shell
                    })
                },
                Err(e) => r matches UserSignal::Error(m) && m == e && *final(self) == *old(self)
                    && *final(users) == *old(users),
            },
    {
        match hashed {
            Ok(h) => {
                let sudo = selected_is_yes(&self.sudo_list);
                let mut groups: Vec<String> = Vec::new();
                if sudo {
                    groups.push(owned("wheel"));
                }
                assert(strings_view(groups@) =~= (if sudo { seq!["wheel"@] } else { Seq::<Seq<char>>::empty() }));
                let username = match &self.username {
                    Some(u) => u.clone(),
                    None => owned(""),
                };
                let ghost before = users@;
                users.push(User { username, password_hash: h, groups, shell: self.selected_shell.clone() });
                assert(users@.subrange(0, before.len() as int) =~= before);
                self.finished = true;
                UserSignal::Pop
            },
            Err(e) => UserSignal::Error(e),
        }
    }
}

// ---------------------------------------------------------------------------
// Changing an account
// ---------------------------------------------------------------------------

/// The buttons of the account page; Delete asks "Really?" while it awaits confirmation.
pub open spec fn alter_buttons(confirming: bool) -> Seq<Seq<char>> {
    seq![
        "Change username"@,
        "Change password"@,
        "Change shell"@,
        "Change sudo (wheel)"@,
        if confirming { "Really?"@ } else { "Delete user"@ },
    ]
}

/// The page that changes the account at `selected_user`: a menu of
/// changes, and the field or list of the change under way.
pub struct AlterUser {
    pub selected_user: usize,
    pub buttons: ButtonMenu,
    pub name_input: LineEditor,
    pub pass_input: LineEditor,
    pub pass_confirm: LineEditor,
    pub shell_list: StrList,
    pub sudo_list: StrList,
    pub sudo_mode: bool,
    pub confirming_delete: bool,
    pub help_visible: bool,
}

/// Which part of the page takes keys: 0 the sudo choice, 1 the menu, 2 the
/// name, 3 the passwords, 4 the shell list, 5 none.
pub open spec fn alter_mode(a: AlterUser) -> int {
    if a.sudo_mode && a.sudo_list.focused {
        0
    } else if a.buttons.focused {
        1
    } else if a.name_input.focused {
        2
    } else if a.pass_input.focused || a.pass_confirm.focused {
        3
    } else if a.shell_list.focused {
        4
    } else {
        5
    }
}

/// The row the shell list highlights when it opens on the shell `cur`: the
/// first row of `cur`, scanning at most sixteen rows and stopping on the last.
pub open spec fn shell_pos(items: Seq<Seq<char>>, cur: Seq<char>, k: nat) -> nat
    decreases items.len() - k,
{
    if k >= items.len() || items[k as int] == cur || k >= 16 || k + 1 >= items.len() {
        k
    } else {
        shell_pos(items, cur, k + 1)
    }
}

/// Back to the menu from a change.
pub open spec fn to_menu(a: AlterUser) -> AlterUser {
    AlterUser { buttons: menu_focused(a.buttons), ..a }
}

/// A key on the menu; a key other than Enter drops a pending deletion.
pub open spec fn alter_menu_step(a0: AlterUser, b: AlterUser, before: Seq<User>, after: Seq<User>, key: Key, r: UserSignal) -> bool {
    let a = if a0.confirming_delete && key != Key::Enter {
        AlterUser { confirming_delete: false, ..a0 }
    } else {
        a0
    };
    let m = a.buttons;
    let sel = a.selected_user;
    if is_down(key) {
        &&& after == before && r is Wait
        &&& strings_view(b.buttons.labels@) == alter_buttons(a.confirming_delete)
        &&& b == AlterUser {
            buttons: ButtonMenu {
                labels: b.buttons.labels,
                focused_child: if cursor_of(m) + 1 < m.labels@.len() { Some((cursor_of(m) + 1) as usize) } else { menu_first(m).focused_child },
                ..m
            },
            ..a
        }
    } else if is_up(key) {
        &&& after == before && r is Wait
        &&& strings_view(b.buttons.labels@) == alter_buttons(a.confirming_delete)
        &&& b == AlterUser {
            buttons: ButtonMenu {
                labels: b.buttons.labels,
                focused_child: if cursor_of(m) > 0 { Some((cursor_of(m) - 1) as usize) } else { menu_last(m).focused_child },
                ..m
            },
            ..a
        }
    } else if key == Key::Enter {
        match m.focused_child {
            Some(0) => after == before && r is Wait && b == AlterUser {
                buttons: ButtonMenu { focused: false, ..m },
                name_input: LineEditor { focused: true, ..a.name_input },
                ..a
            },
            Some(1) => after == before && r is Wait && b == AlterUser {
                buttons: ButtonMenu { focused: false, ..m },
                pass_input: LineEditor { focused: true, ..a.pass_input },
                ..a
            },
            Some(2) => after == before && r is Wait && b == AlterUser {
                buttons: ButtonMenu { focused: false, ..m },
                shell_list: StrList {
                    focused: true,
                    selected_idx: if sel < before.len() {
                        shell_pos(strings_view(a.shell_list.items@), before[sel as int].shell@, 0) as usize
                    } else {
                        a.shell_list.selected_idx
                    },
                    ..a.shell_list
                },
                ..a
            },
            Some(3) => after == before && r is Wait && b == AlterUser {
                buttons: ButtonMenu { focused: false, ..m },
                sudo_list: StrList {
                    focused: true,
                    selected_idx: if sel < before.len() {
                        if strings_view(before[sel as int].groups@).contains("wheel"@) { 0usize } else { 1usize }
                    } else {
                        a.sudo_list.selected_idx
                    },
                    ..a.sudo_list
                },
                sudo_mode: true,
                ..a
            },
            Some(4) => if !a.confirming_delete {
                &&& after == before && r is Wait
                &&& strings_view(b.buttons.labels@) == alter_buttons(true)
                &&& b == AlterUser { confirming_delete: true, buttons: ButtonMenu { labels: b.buttons.labels, ..m }, ..a }
            } else {
                &&& b == a && r is Pop
                &&& after == (if sel < before.len() { before.remove(sel as int) } else { before })
            },
            _ => b == a && after == before && r is Wait,
        }
    } else if is_back(key) {
        &&& after == before && r is Pop
        &&& strings_view(b.buttons.labels@) == alter_buttons(a.confirming_delete)
        &&& b == AlterUser { buttons: ButtonMenu { labels: b.buttons.labels, ..m }, ..a }
    } else {
        &&& after == before && r is Wait
        &&& strings_view(b.buttons.labels@) == alter_buttons(a.confirming_delete)
        &&& b == AlterUser { buttons: ButtonMenu { labels: b.buttons.labels, ..m }, ..a }
    }
}

/// A key on the name field.
pub open spec fn alter_name_step(a: AlterUser, b: AlterUser, before: Seq<User>, after: Seq<User>, key: Key, r: UserSignal) -> bool {
    &&& r is Wait
    &&& if key == Key::Enter {
        exists|o: RenameOutcome| #[trigger] renamed(before, after, a.selected_user, a.name_input.value@, o) && match o {
            RenameOutcome::Invalid(m) => showing_error(a.name_input, b.name_input, m@, true)
                && b == AlterUser { name_input: b.name_input, ..a },
            RenameOutcome::Taken => showing_error(a.name_input, b.name_input, "User already exists"@, true)
                && b == AlterUser { name_input: b.name_input, ..a },
            _ => b == to_menu(AlterUser { name_input: LineEditor { focused: false, ..a.name_input }, ..a }),
        }
    } else if key == Key::Esc {
        after == before && b == to_menu(AlterUser { name_input: LineEditor { focused: false, ..a.name_input }, ..a })
    } else {
        after == before && key_edited(a.name_input, b.name_input, key) && b == AlterUser { name_input: b.name_input, ..a }
    }
}

/// A key on the password fields.
pub open spec fn alter_pass_step(a: AlterUser, b: AlterUser, key: Key, r: UserSignal) -> bool {
    if a.pass_input.focused {
        &&& r is Wait
        &&& if key == Key::Tab {
            b == AlterUser {
                pass_input: LineEditor { error: None, focused: false, ..a.pass_input },
                pass_confirm: LineEditor { focused: true, ..a.pass_confirm },
                ..a
            }
        } else if key == Key::Enter {
            if a.pass_input.value@.len() == 0 {
                showing_error(a.pass_input, b.pass_input, "Password cannot be empty"@, true)
                    && b == AlterUser { pass_input: b.pass_input, ..a }
            } else {
                b == AlterUser {
                    pass_input: LineEditor { error: None, focused: false, ..a.pass_input },
                    pass_confirm: LineEditor { focused: true, ..a.pass_confirm },
                    ..a
                }
            }
        } else if key == Key::Esc {
            b == to_menu(AlterUser { pass_input: LineEditor { focused: false, ..a.pass_input }, ..a })
        } else {
            key_edited(a.pass_input, b.pass_input, key) && b == AlterUser { pass_input: b.pass_input, ..a }
        }
    } else {
        if key == Key::Tab {
            r is Wait && b == AlterUser {
                pass_confirm: LineEditor { focused: false, ..a.pass_confirm },
                pass_input: LineEditor { focused: true, ..a.pass_input },
                ..a
            }
        } else if key == Key::Esc {
            r is Wait && b == to_menu(AlterUser { pass_confirm: LineEditor { focused: false, ..a.pass_confirm }, ..a })
        } else if key == Key::Enter {
            if a.pass_input.value@ != a.pass_confirm.value@ {
                r is Wait && showing_error(a.pass_confirm, b.pass_confirm, "Passwords do not match"@, true)
                    && b == AlterUser {
                    pass_confirm: b.pass_confirm,
                    pass_input: LineEditor { focused: false, ..a.pass_input },
                    ..a
                }
            } else {
                b == a && (r matches UserSignal::Hash(p) && p@ == a.pass_input.value@)
            }
        } else {
            r is Wait && key_edited(a.pass_confirm, b.pass_confirm, key) && b == AlterUser { pass_confirm: b.pass_confirm, ..a }
        }
    }
}

impl AlterUser {
    /// The editors keep their cursors within their texts, the menu has its
    /// five buttons, and the shell list shows every shell.
    pub open spec fn wf(&self) -> bool {
        &&& editor_ok(self.name_input) && editor_ok(self.pass_input) && editor_ok(self.pass_confirm)
        &&& self.buttons.wf()
        &&& self.buttons.labels@.len() == 5
        &&& strings_view(self.buttons.labels@) == alter_buttons(self.confirming_delete)
        &&& self.shell_list.rows_ok() && self.shell_list.filter is None
    }

    /// The page as it opens.
    pub open spec fn fresh(&self) -> bool {
        &&& self.buttons.focused && self.buttons.focused_child == Some(0usize) && !self.confirming_delete
        &&& self.name_input.title@ == "New username"@ && !self.name_input.focused
        &&& self.name_input.value@.len() == 0 && self.name_input.error is None
        &&& self.pass_input.title@ == "New password"@ && self.pass_input.is_secret && !self.pass_input.focused
        &&& self.pass_input.value@.len() == 0 && self.pass_input.error is None
        &&& self.pass_confirm.title@ == "Confirm password"@ && self.pass_confirm.is_secret
        &&& !self.pass_confirm.focused && self.pass_confirm.value@.len() == 0 && self.pass_confirm.error is None
        &&& self.shell_list.title@ == "Shell"@ && strings_view(self.shell_list.items@) == shell_names()
        &&& self.shell_list.selected_idx == 0 && !self.shell_list.focused
        &&& self.sudo_list.title@ == "Administrative rights (sudo via wheel)"@
        &&& strings_view(self.sudo_list.items@) == yes_no() && self.sudo_list.rows_ok()
        &&& self.sudo_list.filter is None && self.sudo_list.selected_idx == 0 && !self.sudo_list.focused
        &&& !self.sudo_mode && !self.help_visible
    }

    fn menu_labels(confirming: bool) -> (r: Vec<String>)
        ensures
            strings_view(r@) == alter_buttons(confirming),
            r@.len() == 5,
    {
        let r = vec![
            owned("Change username"),
            owned("Change password"),
            owned("Change shell"),
            owned("Change sudo (wheel)"),
            owned(if confirming { "Really?" } else { "Delete user" }),
        ];
        assert(strings_view(r@) =~= alter_buttons(confirming));
        r
    }

    pub fn new(selected_user: usize) -> (r: Self)
        ensures
            r.wf(),
            r.fresh(),
            r.selected_user == selected_user,
    {
        let mut buttons = ButtonMenu::button_menu(Self::menu_labels(false));
        buttons.focus();
        let shell_list = list_of("Shell", vec!["bash", "fish", "zsh"]);
        let sudo_list = list_of("Administrative rights (sudo via wheel)", vec!["Yes", "No"]);
        proof {
            reveal_strlit("bash");
            reveal_strlit("fish");
            reveal_strlit("zsh");
            reveal_strlit("Yes");
            reveal_strlit("No");
        }
        assert(strings_view(shell_list.items@) =~= shell_names());
        assert(strings_view(sudo_list.items@) =~= yes_no());
        AlterUser {
            selected_user,
            buttons,
            name_input: editor("New username", false),
            pass_input: editor("New password", true),
            pass_confirm: editor("Confirm password", true),
            shell_list,
            sudo_list,
            sudo_mode: false,
            confirming_delete: false,
            help_visible: false,
        }
    }

    /// Highlights the shell `cur` in the shell list (see `shell_pos`).
    fn seek_shell(&mut self, cur: &str)
        requires
            old(self).shell_list.rows_ok(),
            old(self).shell_list.filter is None,
        ensures
            *final(self) == (AlterUser {
                shell_list: StrList {
                    selected_idx: shell_pos(strings_view(old(self).shell_list.items@), cur@, 0) as usize,
                    ..old(self).shell_list
                },
                ..*old(self)
            }),
    {
        let ghost items = strings_view(self.shell_list.items@);
        self.shell_list.first_item();
        let mut scanned: usize = 0;
        loop
            invariant
                self.shell_list.rows_ok(),
                self.shell_list.filter is None,
                items == strings_view(self.shell_list.items@),
                self.shell_list.selected_idx == scanned,
                scanned <= 16,
                scanned == 0 || scanned < items.len(),
                shell_pos(items, cur@, 0) == shell_pos(items, cur@, scanned as nat),
                *self == (AlterUser { shell_list: StrList { selected_idx: scanned, ..old(self).shell_list }, ..*old(self) }),
            ensures
                scanned as nat == shell_pos(items, cur@, 0),
                *self == (AlterUser { shell_list: StrList { selected_idx: scanned, ..old(self).shell_list }, ..*old(self) }),
            decreases 16 - scanned,
        {
            let ghost rows = self.shell_list.filtered_items@;
            assert(row_indices(rows).len() == rows.len());
            assert(rows.len() == items.len());
            assert(scanned < rows.len() ==> row_indices(rows)[scanned as int] == rows[scanned as int].idx);
            let hit = match self.shell_list.selected_item() {
                Some(s) => {
                    assert(scanned < items.len() ==> items[scanned as int] == s@);
                    str_eq(s.as_str(), cur)
                },
                None => false,
            };
            if hit || scanned >= 16 {
                assert(shell_pos(items, cur@, scanned as nat) == scanned as nat);
                break;
            }
            if !self.shell_list.next_item() {
                assert(shell_pos(items, cur@, scanned as nat) == scanned as nat);
                break;
            }
            assert(items[scanned as int] != cur@);
            assert(shell_pos(items, cur@, scanned as nat) == shell_pos(items, cur@, (scanned + 1) as nat));
            scanned = scanned + 1;
        }
    }

    /// `?` shows or hides the help, which takes every key while shown (Esc
    /// hides it). Then the part of the page that has the focus takes the
    /// key: the sudo choice, the menu (`alter_menu_step`), the name field
    /// (`alter_name_step`), the password fields (`alter_pass_step`) or the
    /// shell list; with none of them focused the menu takes the focus.
    pub fn handle_key(&mut self, users: &mut Vec<User>, key: Key) -> (r: UserSignal)
        requires
            old(self).wf(),
            alter_takes(*old(self), key),
        ensures
            final(self).wf(),
            ({
                let a = *old(self);
                let b = *final(self);
                let before = old(users)@;
                let after = final(users)@;
                let sel = a.selected_user;
                if key == Key::Char('?') {
                    b == (AlterUser { help_visible: !a.help_visible, ..a }) && after == before && r is Wait
                } else if a.help_visible {
                    b == (AlterUser { help_visible: key != Key::Esc, ..a }) && after == before && r is Wait
                } else {
                    let mode = alter_mode(a);
                    if mode == 0 {
                        let l = a.sudo_list;
                        &&& r is Wait
                        &&& if is_down(key) {
                            after == before && b == AlterUser {
                                sudo_list: StrList {
                                    selected_idx: if l.selected_idx + 1 < l.filtered_items@.len() { (l.selected_idx + 1) as usize } else { l.selected_idx },
                                    ..l
                                },
                                ..a
                            }
                        } else if is_up(key) {
                            after == before && b == AlterUser {
                                sudo_list: StrList { selected_idx: if l.selected_idx > 0 { (l.selected_idx - 1) as usize } else { l.selected_idx }, ..l },
                                ..a
                            }
                        } else if key == Key::Enter || key == Key::Esc {
                            &&& b == to_menu(AlterUser { sudo_list: StrList { focused: false, ..l }, sudo_mode: false, ..a })
                            &&& if key == Key::Enter && sel < before.len() {
                                &&& after.len() == before.len()
                                &&& wheel_set(before[sel as int], after[sel as int], chose_yes(l))
                                &&& forall|i: int| 0 <= i < before.len() && i != sel ==> after[i] == before[i]
                            } else {
                                after == before
                            }
                        } else {
                            b == a && after == before
                        }
                    } else if mode == 1 {
                        alter_menu_step(a, b, before, after, key, r)
                    } else if mode == 2 {
                        alter_name_step(a, b, before, after, key, r)
                    } else if mode == 3 {
                        after == before && alter_pass_step(a, b, key, r)
                    } else if mode == 4 {
                        let l = a.shell_list;
                        let n = l.filtered_items@.len();
                        &&& r is Wait
                        &&& if is_down(key) {
                            after == before && b == AlterUser {
                                shell_list: StrList { selected_idx: if l.selected_idx + 1 < n { (l.selected_idx + 1) as usize } else { 0usize }, ..l },
                                ..a
                            }
                        } else if is_up(key) {
                            after == before && b == AlterUser {
                                shell_list: StrList {
                                    selected_idx: if l.selected_idx > 0 {
                                        (l.selected_idx - 1) as usize
                                    } else if l.items@.len() > 0 {
                                        (l.items@.len() - 1) as usize
                                    } else {
                                        0usize
                                    },
                                    ..l
                                },
                                ..a
                            }
                        } else if key == Key::Esc || key == Key::Tab || key == Key::BackTab || key == Key::Enter {
                            &&& b == to_menu(AlterUser { shell_list: StrList { focused: false, ..l }, ..a })
                            &&& if key == Key::Enter && sel < before.len() && l.selected_view() is Some {
                                after == before.update(sel as int, User { shell: l.selected_view()->0, ..before[sel as int] })
                            } else {
                                after == before
                            }
                        } else {
                            b == a && after == before
                        }
                    } else {
                        b == to_menu(a) && after == before && r is Wait
                    }
                }
            }),
    {
        if key == Key::Char('?') {
            self.help_visible = !self.help_visible;
            return UserSignal::Wait;
        }
        if self.help_visible {
            if key == Key::Esc {
                self.help_visible = false;
            }
            return UserSignal::Wait;
        }
        if self.sudo_mode && self.sudo_list.is_focused() {
            return self.sudo_key(users, key);
        }
        if self.buttons.is_focused() {
            self.menu_key(users, key)
        } else if self.name_input.is_focused() {
            self.name_key(users, key)
        } else if self.pass_input.is_focused() || self.pass_confirm.is_focused() {
            self.pass_key(key)
        } else if self.shell_list.is_focused() {
            self.shell_key(users, key)
        } else {
            self.buttons.focus();
            UserSignal::Wait
        }
    }

    fn sudo_key(&mut self, users: &mut Vec<User>, key: Key) -> (r: UserSignal)
        requires
            old(self).wf(),
        ensures
            final(self).wf(),
            r is Wait,
            ({
                let a = *old(self);
                let b = *final(self);
                let before = old(users)@;
                let after = final(users)@;
                let sel = a.selected_user;
                let l = a.sudo_list;
                if is_down(key) {
                    after == before && b == AlterUser {
                        sudo_list: StrList {
                            selected_idx: if l.selected_idx + 1 < l.filtered_items@.len() { (l.selected_idx + 1) as usize } else { l.selected_idx },
                            ..l
                        },
                        ..a
                    }
                } else if is_up(key) {
                    after == before && b == AlterUser {
                        sudo_list: StrList { selected_idx: if l.selected_idx > 0 { (l.selected_idx - 1) as usize } else { l.selected_idx }, ..l },
                        ..a
                    }
                } else if key == Key::Enter || key == Key::Esc {
                    &&& b == to_menu(AlterUser { sudo_list: StrList { focused: false, ..l }, sudo_mode: false, ..a })
                    &&& if key == Key::Enter && sel < before.len() {
                        &&& after.len() == before.len()
                        &&& wheel_set(before[sel as int], after[sel as int], chose_yes(l))
                        &&& forall|i: int| 0 <= i < before.len() && i != sel ==> after[i] == before[i]
                    } else {
                        after == before
                    }
                } else {
                    b == a && after == before
                }
            }),
    {
        match key {
            Key::Down | Key::Char('j') => {
                self.sudo_list.next_item();
            },
            Key::Up | Key::Char('k') => {
                self.sudo_list.previous_item();
            },
            Key::Enter | Key::Esc => {
                if key == Key::Enter {
                    let yes = selected_is_yes(&self.sudo_list);
                    let sel = self.selected_user;
                    if sel < users.len() {
                        let mut u = users.remove(sel);
                        u.set_wheel(yes);
                        users.insert(sel, u);
                    }
                }
                self.sudo_list.unfocus();
                self.sudo_mode = false;
                self.buttons.focus();
            },
            _ => {},
        }
        UserSignal::Wait
    }

    fn menu_key(&mut self, users: &mut Vec<User>, key: Key) -> (r: UserSignal)
        requires
            old(self).wf(),
            old(self).buttons.focused,
        ensures
            final(self).wf(),
            alter_menu_step(*old(self), *final(self), old(users)@, final(users)@, key, r),
    {
        if self.confirming_delete && key != Key::Enter {
            self.confirming_delete = false;
            self.buttons.labels = Self::menu_labels(false);
        }
        match key {
            Key::Down | Key::Char('j') => {
                if !self.buttons.next_child() {
                    self.buttons.first_child();
                }
                UserSignal::Wait
            },
            Key::Up | Key::Char('k') => {
                if !self.buttons.prev_child() {
                    self.buttons.last_child();
                }
                UserSignal::Wait
            },
            Key::Enter => match self.buttons.selected_child() {
                Some(i) => {
                    if i == 0 {
                        self.buttons.unfocus();
                        self.name_input.focus();
                        UserSignal::Wait
                    } else if i == 1 {
                        self.buttons.unfocus();
                        self.pass_input.focus();
                        UserSignal::Wait
                    } else if i == 2 {
                        self.buttons.unfocus();
                        if self.selected_user < users.len() {
                            let cur = users[self.selected_user].shell.clone();
                            self.seek_shell(cur.as_str());
                        }
                        self.shell_list.focus();
                        UserSignal::Wait
                    } else if i == 3 {
                        if self.selected_user < users.len() {
                            let has = users[self.selected_user].has_wheel();
                            self.sudo_list.selected_idx = if has { 0 } else { 1 };
                        }
                        self.buttons.unfocus();
                        self.sudo_list.focus();
                        self.sudo_mode = true;
                        UserSignal::Wait
                    } else if i == 4 {
                        if !self.confirming_delete {
                            self.confirming_delete = true;
                            self.buttons.labels = Self::menu_labels(true);
                            UserSignal::Wait
                        } else {
                            if self.selected_user < users.len() {
                                users.remove(self.selected_user);
                            }
                            UserSignal::Pop
                        }
                    } else {
                        UserSignal::Wait
                    }
                },
                None => UserSignal::Wait,
            },
            Key::Esc | Key::Left => UserSignal::Pop,
            _ => UserSignal::Wait,
        }
    }

    fn name_key(&mut self, users: &mut Vec<User>, key: Key) -> (r: UserSignal)
        requires
            old(self).wf(),
            old(self).name_input.focused,
            key != Key::Esc && key != Key::Enter ==> old(self).name_input.takes(key),
        ensures
            final(self).wf(),
            alter_name_step(*old(self), *final(self), old(users)@, final(users)@, key, r),
    {
        match key {
            Key::Enter => {
                let o = rename_user(users, self.selected_user, self.name_input.value.as_str());
                match o {
                    RenameOutcome::Invalid(m) => {
                        self.name_input.error(owned(m));
                    },
                    RenameOutcome::Taken => {
                        self.name_input.error(owned("User already exists"));
                    },
                    _ => {
                        self.name_input.unfocus();
                        self.buttons.focus();
                    },
                }
                UserSignal::Wait
            },
            Key::Esc => {
                self.name_input.unfocus();
                self.buttons.focus();
                UserSignal::Wait
            },
            _ => {
                self.name_input.handle_key(key);
                UserSignal::Wait
            },
        }
    }

    fn pass_key(&mut self, key: Key) -> (r: UserSignal)
        requires
            old(self).wf(),
            old(self).pass_input.focused || old(self).pass_confirm.focused,
            key != Key::Esc && key != Key::Enter && key != Key::Tab ==> if old(self).pass_input.focused {
                old(self).pass_input.takes(key)
            } else {
                old(self).pass_confirm.takes(key)
            },
        ensures
            final(self).wf(),
            alter_pass_step(*old(self), *final(self), key, r),
    {
        if self.pass_input.is_focused() {
            match key {
                Key::Tab => {
                    self.pass_input.clear_error();
                    self.pass_input.unfocus();
                    self.pass_confirm.focus();
                },
                Key::Enter => {
                    if to_chars(self.pass_input.value.as_str()).len() == 0 {
                        self.pass_input.error(owned("Password cannot be empty"));
                    } else {
                        self.pass_input.clear_error();
                        self.pass_input.unfocus();
                        self.pass_confirm.focus();
                    }
                },
                Key::Esc => {
                    self.pass_input.unfocus();
                    self.buttons.focus();
                },
                _ => {
                    self.pass_input.handle_key(key);
                },
            }
            UserSignal::Wait
        } else {
            match key {
                Key::Tab => {
                    self.pass_confirm.unfocus();
                    self.pass_input.focus();
                    UserSignal::Wait
                },
                Key::Esc => {
                    self.pass_confirm.unfocus();
                    self.buttons.focus();
                    UserSignal::Wait
                },
                Key::Enter => {
                    if !str_eq(self.pass_input.value.as_str(), self.pass_confirm.value.as_str()) {
                        self.pass_confirm.clear();
                        self.pass_confirm.error(owned("Passwords do not match"));
                        self.pass_input.unfocus();
                        self.pass_confirm.focus();
                        UserSignal::Wait
                    } else {
                        UserSignal::Hash(self.pass_input.value.clone())
                    }
                },
                _ => {
                    self.pass_confirm.handle_key(key);
                    UserSignal::Wait
                },
            }
        }
    }

    fn shell_key(&mut self, users: &mut Vec<User>, key: Key) -> (r: UserSignal)
        requires
            old(self).wf(),
        ensures
            final(self).wf(),
            r is Wait,
            ({
                let a = *old(self);
                let b = *final(self);
                let before = old(users)@;
                let after = final(users)@;
                let sel = a.selected_user;
                let l = a.shell_list;
                let n = l.filtered_items@.len();
                if is_down(key) {
                    after == before && b == AlterUser {
                        shell_list: StrList { selected_idx: if l.selected_idx + 1 < n { (l.selected_idx + 1) as usize } else { 0usize }, ..l },
                        ..a
                    }
                } else if is_up(key) {
                    after == before && b == AlterUser {
                        shell_list: StrList {
                            selected_idx: if l.selected_idx > 0 {
                                (l.selected_idx - 1) as usize
                            } else if l.items@.len() > 0 {
                                (l.items@.len() - 1) as usize
                            } else {
                                0usize
                            },
                            ..l
                        },
                        ..a
                    }
                } else if key == Key::Esc || key == Key::Tab || key == Key::BackTab || key == Key::Enter {
                    &&& b == to_menu(AlterUser { shell_list: StrList { focused: false, ..l }, ..a })
                    &&& if key == Key::Enter && sel < before.len() && l.selected_view() is Some {
                        after == before.update(sel as int, User { shell: l.selected_view()->0, ..before[sel as int] })
                    } else {
                        after == before
                    }
                } else {
                    b == a && after == before
                }
            }),
    {
        match key {
            Key::Down | Key::Char('j') => {
                if !self.shell_list.next_item() {
                    self.shell_list.first_item();
                }
            },
            Key::Up | Key::Char('k') => {
                if !self.shell_list.previous_item() {
                    self.shell_list.last_item();
                }
            },
            Key::Esc | Key::Tab | Key::BackTab | Key::Enter => {
                if key == Key::Enter {
                    let sel = self.selected_user;
                    match self.shell_list.selected_item() {
                        Some(s) => {
                            if sel < users.len() {
                                let shell = s.clone();
                                let mut u = users.remove(sel);
                                u.shell = shell;
                                users.insert(sel, u);
                            }
                        },
                        None => {},
                    }
                }
                self.shell_list.unfocus();
                self.buttons.focus();
            },
            _ => {},
        }
        UserSignal::Wait
    }

    /// Takes the outcome of hashing the new password: the account's hash is
    /// replaced and the menu takes the focus, or the failure is reported.
    pub fn take_hash_result(&mut self, users: &mut Vec<User>, hashed: Result<String, String>) -> (r: UserSignal)
        requires
            old(self).wf(),
        ensures
            final(self).wf(),
            match hashed {
                Ok(h) => {
                    &&& r is Wait
                    &&& *final(self) == to_menu(AlterUser { pass_confirm: LineEditor { focused: false, ..old(self).pass_confirm }, ..*old(self) })
                    &&& final(users)@ == if old(self).selected_user < old(users)@.len() {
                        old(users)@.update(
                            old(self).selected_user as int,
                            User { password_hash: h, ..old(users)@[old(self).selected_user as int] },
                        )
                    } else {
                        old(users)@
                    }
                },
                Err(e) => r matches UserSignal::Error(m) && m@ == "Failed to hash password: "@ + e@
                    && *final(self) == *old(self) && *final(users) == *old(users),
            },
    {
        match hashed {
            Ok(h) => {
                let sel = self.selected_user;
                if sel < users.len() {
                    let mut u = users.remove(sel);
                    u.password_hash = h;
                    users.insert(sel, u);
                }
                self.pass_confirm.unfocus();
                self.buttons.focus();
                UserSignal::Wait
            },
            Err(e) => {
                let mut m = owned("Failed to hash password: ");
                m.append(e.as_str());
                UserSignal::Error(m)
            },
        }
    }
}

} // verus!
