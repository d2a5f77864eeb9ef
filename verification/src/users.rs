//! User accounts of the system being installed: names, groups and shells, and
//! the checks that a new or renamed account goes through.
use vstd::prelude::*;
use crate::drives::strings_contain;
use crate::text::{
    dedup_sorted, is_ascii_alnum, join, owned, seq_join, sort_strings, str_eq, strictly_sorted, strings_view,
    to_chars, to_lowercase, trim, trim_seq, unicode_lowercase,
};

verus! {

/// A user name as it is stored: trimmed, then lower-cased.
pub open spec fn normalized_name(raw: Seq<char>) -> Seq<char> {
    unicode_lowercase(trim_seq(raw))
}

/// Every character is an ASCII letter or digit.
pub open spec fn all_alnum(s: Seq<char>) -> bool {
    forall|i: int| 0 <= i < s.len() ==> is_ascii_alnum(#[trigger] s[i])
}

/// A name is accepted when, normalized, it is not empty and holds letters and digits only.
pub open spec fn name_accepted(raw: Seq<char>) -> bool {
    normalized_name(raw).len() > 0 && all_alnum(normalized_name(raw))
}

fn char_is_ascii_alnum(c: char) -> (r: bool)
    ensures
        r == is_ascii_alnum(c),
{
    ('a' <= c && c <= 'z') || ('A' <= c && c <= 'Z') || ('0' <= c && c <= '9')
}

/// Trims and lower-cases a user name; rejects an empty result and one with
/// anything but ASCII letters and digits.
pub fn normalize_and_validate_username(raw: &str) -> (r: Result<String, &'static str>)
    ensures
        r is Ok <==> name_accepted(raw@),
        match r {
            Ok(s) => s@ == normalized_name(raw@),
            Err(m) => if normalized_name(raw@).len() == 0 {
                m@ == "Username cannot be empty"@
            } else {
                m@ == "Special characters are not allowed (letters and digits only)"@
            },
        },
{
    let t = trim(raw);
    let s = to_lowercase(t.as_str());
    let chars = to_chars(s.as_str());
    if chars.len() == 0 {
        return Err("Username cannot be empty");
    }
    let mut i: usize = 0;
    while i < chars.len()
        invariant
            i <= chars@.len(),
            chars@ == s@,
            s@ == normalized_name(raw@),
            chars@.len() > 0,
            forall|k: int| 0 <= k < i ==> is_ascii_alnum(#[trigger] chars@[k]),
        decreases chars@.len() - i,
    {
        if !char_is_ascii_alnum(chars[i]) {
            assert(!all_alnum(s@));
            return Err("Special characters are not allowed (letters and digits only)");
        }
        i = i + 1;
    }
    Ok(s)
}

/// The shell of a user who names none.
pub fn default_shell() -> (r: String)
    ensures
        r@ == "bash"@,
{
    owned("bash")
}

#[derive(Clone, Debug)]
pub struct User {
    pub username: String,
    pub password_hash: String,
    pub groups: Vec<String>,
    pub shell: String,
}

/// `s` with every occurrence of `x` left out.
pub open spec fn without(s: Seq<Seq<char>>, x: Seq<char>) -> Seq<Seq<char>>
    decreases s.len(),
{
    if s.len() == 0 {
        s
    } else if s.last() == x {
        without(s.drop_last(), x)
    } else {
        without(s.drop_last(), x).push(s.last())
    }
}

/// The strings of `v` other than `x`, in order (`Vec::retain`).
pub fn without_exec(v: &Vec<String>, x: &str) -> (r: Vec<String>)
    ensures
        strings_view(r@) == without(strings_view(v@), x@),
{
    let ghost vv = strings_view(v@);
    let mut kept: Vec<String> = Vec::new();
    let mut i: usize = 0;
    while i < v.len()
        invariant
            i <= v@.len(),
            vv == strings_view(v@),
            strings_view(kept@) == without(vv.take(i as int), x@),
        decreases v@.len() - i,
    {
        assert(vv.take(i + 1).drop_last() =~= vv.take(i as int));
        assert(vv[i as int] == v@[i as int]@);
        if !str_eq(v[i].as_str(), x) {
            let ghost before = kept@;
            let g = v[i].clone();
            kept.push(g);
            assert(strings_view(kept@) =~= strings_view(before).push(g@));
        }
        i = i + 1;
    }
    assert(vv.take(v@.len() as int) =~= vv);
    kept
}

/// The group column of a user's row: the groups joined by commas, or a marker.
pub open spec fn groups_cell(groups: Seq<Seq<char>>) -> Seq<char> {
    if groups.len() == 0 {
        "<none>"@
    } else {
        seq_join(groups, ", "@)
    }
}

/// `u` is `o` put in the `wheel` group (groups then sorted and without
/// repeats, unless it was there already) or taken out of it.
pub open spec fn wheel_set(o: User, u: User, enabled: bool) -> bool {
    &&& u.username == o.username
    &&& u.password_hash == o.password_hash
    &&& u.shell == o.shell
    &&& enabled && strings_view(o.groups@).contains("wheel"@) ==> u.groups == o.groups
    &&& enabled && !strings_view(o.groups@).contains("wheel"@) ==> {
        &&& strictly_sorted(strings_view(u.groups@))
        &&& strings_view(u.groups@).to_set() == strings_view(o.groups@).to_set().insert("wheel"@)
    }
    &&& !enabled ==> strings_view(u.groups@) == without(strings_view(o.groups@), "wheel"@)
}

impl User {
    /// The user's row in the account table: name, groups, shell.
    pub fn as_table_row(&self) -> (r: Vec<String>)
        ensures
            strings_view(r@) == seq![self.username@, groups_cell(strings_view(self.groups@)), self.shell@],
    {
        let groups = if self.groups.len() == 0 {
            owned("<none>")
        } else {
            join(&self.groups, ", ")
        };
        let r = vec![self.username.clone(), groups, self.shell.clone()];
        assert(strings_view(r@) =~= seq![self.username@, groups_cell(strings_view(self.groups@)), self.shell@]);
        r
    }

    /// The user is in the `wheel` group.
    pub fn has_wheel(&self) -> (r: bool)
        ensures
            r == strings_view(self.groups@).contains("wheel"@),
    {
        strings_contain(&self.groups, "wheel")
    }

    /// Puts the user in the `wheel` group (the groups then come sorted and
    /// without repeats) or takes every `wheel` entry out.
    pub fn set_wheel(&mut self, enabled: bool)
        ensures
            wheel_set(*old(self), *final(self), enabled),
    {
        if enabled {
            if !self.has_wheel() {
                let ghost before = strings_view(self.groups@);
                self.groups.push(owned("wheel"));
                proof {
                    assert(strings_view(self.groups@) =~= before.push("wheel"@));
                }
                let sorted = sort_strings(&self.groups);
                let unique = dedup_sorted(&sorted);
                proof {
                    let pushed = before.push("wheel"@);
                    assert forall|y: Seq<char>| #[trigger] strings_view(sorted@).to_set().contains(y)
                        == pushed.to_set().contains(y) by {
                        broadcast use vstd::seq_lib::group_to_multiset_ensures;

                        assert(strings_view(sorted@).contains(y) == (strings_view(sorted@).to_multiset().count(y) > 0));
                        assert(pushed.contains(y) == (pushed.to_multiset().count(y) > 0));
                    }
                    assert(strings_view(sorted@).to_set() =~= pushed.to_set());
                    assert forall|y: Seq<char>| #[trigger] pushed.to_set().contains(y) == before.to_set().insert(
                        "wheel"@,
                    ).contains(y) by {
                        crate::text::seq_push_contains(before, "wheel"@, y);
                    }
                    assert(pushed.to_set() =~= before.to_set().insert("wheel"@));
                }
                self.groups = unique;
            }
        } else {
            let kept = without_exec(&self.groups, "wheel");
            self.groups = kept;
        }
    }
}

/// Why a new account is refused.
#[derive(Clone, Copy, Debug)]
pub enum NewUserError {
    /// The entered name is refused; the message says why.
    InvalidName(&'static str),
    DuplicateName,
    EmptyPassword,
    EmptyConfirmation,
    PasswordMismatch,
}

/// Some user of `users` has the name `name`.
pub open spec fn name_taken(users: Seq<User>, name: Seq<char>) -> bool {
    exists|i: int| 0 <= i < users.len() && (#[trigger] users[i]).username@ == name
}

/// Whether some user has the name `name`.
pub fn find_name(users: &Vec<User>, name: &str) -> (r: bool)
    ensures
        r == name_taken(users@, name@),
{
    let mut i: usize = 0;
    while i < users.len()
        invariant
            i <= users@.len(),
            forall|k: int| 0 <= k < i ==> (#[trigger] users@[k]).username@ != name@,
        decreases users@.len() - i,
    {
        if str_eq(users[i].username.as_str(), name) {
            return true;
        }
        i = i + 1;
    }
    false
}

/// The checks before a new account is added: the name (the one accepted
/// earlier, else the entered text, normalized) must be free, and the password
/// and its confirmation present and equal. Returns the name to store.
pub fn check_new_user(
    users: &Vec<User>,
    accepted_name: &Option<String>,
    entered: &str,
    password: &str,
    confirmation: &str,
) -> (r: Result<String, NewUserError>)
    ensures
        ({
            let name_ok = accepted_name is Some || name_accepted(entered@);
            let name = match accepted_name {
                Some(n) => n@,
                None => normalized_name(entered@),
            };
            if !name_ok {
                r matches Err(NewUserError::InvalidName(m)) && (if normalized_name(entered@).len() == 0 {
                    m@ == "Username cannot be empty"@
                } else {
                    m@ == "Special characters are not allowed (letters and digits only)"@
                })
            } else if name_taken(users@, name) {
                r == Err::<String, NewUserError>(NewUserError::DuplicateName)
            } else if password@.len() == 0 {
                r == Err::<String, NewUserError>(NewUserError::EmptyPassword)
            } else if confirmation@.len() == 0 {
                r == Err::<String, NewUserError>(NewUserError::EmptyConfirmation)
            } else if password@ != confirmation@ {
                r == Err::<String, NewUserError>(NewUserError::PasswordMismatch)
            } else {
                r matches Ok(s) && s@ == name
            }
        }),
{
    let name = match accepted_name {
        Some(n) => n.clone(),
        None => match normalize_and_validate_username(entered) {
            Ok(n) => n,
            Err(m) => {
                return Err(NewUserError::InvalidName(m));
            },
        },
    };
    if find_name(users, name.as_str()) {
        return Err(NewUserError::DuplicateName);
    }
    if to_chars(password).len() == 0 {
        return Err(NewUserError::EmptyPassword);
    }
    if to_chars(confirmation).len() == 0 {
        return Err(NewUserError::EmptyConfirmation);
    }
    if !str_eq(password, confirmation) {
        return Err(NewUserError::PasswordMismatch);
    }
    Ok(name)
}

/// What renaming a user came to.
#[derive(Clone, Copy, Debug)]
pub enum RenameOutcome {
    /// The name was stored.
    Renamed,
    /// The normalized name is the user's own already.
    Unchanged,
    /// The entered name is refused; the message says why.
    Invalid(&'static str),
    /// Another user has that name.
    Taken,
}

/// Some user other than the one at `skip` has the name `name`.
pub open spec fn name_taken_by_other(users: Seq<User>, skip: int, name: Seq<char>) -> bool {
    exists|i: int| 0 <= i < users.len() && i != skip && (#[trigger] users[i]).username@ == name
}

/// Renaming the user at `selected` to the normalized `entered` gave `r` and
/// turned `before` into `after`.
pub open spec fn renamed(before: Seq<User>, after: Seq<User>, selected: usize, entered: Seq<char>, r: RenameOutcome) -> bool {
    let name = normalized_name(entered);
    &&& after.len() == before.len()
    &&& if !name_accepted(entered) {
        &&& r matches RenameOutcome::Invalid(m) && (if name.len() == 0 {
            m@ == "Username cannot be empty"@
        } else {
            m@ == "Special characters are not allowed (letters and digits only)"@
        })
        &&& after == before
    } else if selected < before.len() && before[selected as int].username@ == name {
        r == RenameOutcome::Unchanged && after == before
    } else if name_taken_by_other(before, selected as int, name) {
        r == RenameOutcome::Taken && after == before
    } else {
        &&& r == RenameOutcome::Renamed
        &&& forall|i: int| 0 <= i < before.len() && i != selected ==> after[i] == before[i]
        &&& selected < before.len() ==> {
            let u = after[selected as int];
            let o = before[selected as int];
            &&& u.username@ == name
            &&& u.password_hash == o.password_hash
            &&& u.groups == o.groups
            &&& u.shell == o.shell
        }
        &&& selected >= before.len() ==> after == before
    }
}

/// Renames the user at `selected` to the normalized `entered`, unless it is
/// refused or another user has that name.
pub fn rename_user(users: &mut Vec<User>, selected: usize, entered: &str) -> (r: RenameOutcome)
    ensures
        renamed(old(users)@, final(users)@, selected, entered@, r),
{
    let name = match normalize_and_validate_username(entered) {
        Ok(n) => n,
        Err(m) => {
            return RenameOutcome::Invalid(m);
        },
    };
    if selected < users.len() && str_eq(users[selected].username.as_str(), name.as_str()) {
        return RenameOutcome::Unchanged;
    }
    let mut i: usize = 0;
    while i < users.len()
        invariant
            i <= users@.len(),
            users@ == old(users)@,
            name@ == normalized_name(entered@),
            name_accepted(entered@),
            !(selected < users@.len() && users@[selected as int].username@ == name@),
            forall|k: int| 0 <= k < i && k != selected ==> (#[trigger] users@[k]).username@ != name@,
        decreases users@.len() - i,
    {
        if i != selected && str_eq(users[i].username.as_str(), name.as_str()) {
            assert(name_taken_by_other(users@, selected as int, name@));
            return RenameOutcome::Taken;
        }
        i = i + 1;
    }
    if selected < users.len() {
        let mut u = users.remove(selected);
        u.username = name;
        users.insert(selected, u);
    }
    RenameOutcome::Renamed
}

} // verus!
