//! Accounts on the installed Arch system: the commands that create a user,
//! grant administrator rights and set the root password.
use vstd::prelude::*;
use crate::text::{owned, push_char, str_eq, to_chars};

verus! {

/// `s` with every occurrence of `c` taken out.
pub open spec fn remove_char(s: Seq<char>, c: char) -> Seq<char>
    decreases s.len(),
{
    if s.len() == 0 {
        s
    } else if s.last() == c {
        remove_char(s.drop_last(), c)
    } else {
        remove_char(s.drop_last(), c).push(s.last())
    }
}

/// `s` with every occurrence of `c` taken out (`str::replace` with nothing).
pub fn strip_char(s: &str, c: char) -> (r: String)
    ensures
        r@ == remove_char(s@, c),
{
    let chars = to_chars(s);
    let mut r = String::new();
    let mut i: usize = 0;
    while i < chars.len()
        invariant
            i <= chars@.len(),
            chars@ == s@,
            r@ == remove_char(chars@.take(i as int), c),
        decreases chars@.len() - i,
    {
        assert(chars@.take(i + 1).drop_last() =~= chars@.take(i as int));
        if chars[i] != c {
            push_char(&mut r, chars[i]);
        }
        i = i + 1;
    }
    assert(chars@.take(chars@.len() as int) =~= chars@);
    r
}

/// The login shell's path for a shell name; bash for an unknown one.
pub open spec fn shell_path_spec(shell: Seq<char>) -> Seq<char> {
    if shell == "bash"@ {
        "/bin/bash"@
    } else if shell == "csh"@ {
        "/usr/bin/csh"@
    } else if shell == "fish"@ {
        "/usr/bin/fish"@
    } else if shell == "tcsh"@ {
        "/usr/bin/tcsh"@
    } else if shell == "zsh"@ {
        "/usr/bin/zsh"@
    } else {
        "/usr/bin/bash"@
    }
}

pub fn shell_path(shell: &str) -> (r: &'static str)
    ensures
        r@ == shell_path_spec(shell@),
{
    if str_eq(shell, "bash") {
        "/bin/bash"
    } else if str_eq(shell, "csh") {
        "/usr/bin/csh"
    } else if str_eq(shell, "fish") {
        "/usr/bin/fish"
    } else if str_eq(shell, "tcsh") {
        "/usr/bin/tcsh"
    } else if str_eq(shell, "zsh") {
        "/usr/bin/zsh"
    } else {
        "/usr/bin/bash"
    }
}

/// A password in single quotes, without newlines, as `useradd -p` and
/// `usermod --password` take it.
pub open spec fn quoted_password(p: Seq<char>) -> Seq<char> {
    "'"@ + remove_char(p, '\n') + "'"@
}

fn quote_password(p: &str) -> (r: String)
    ensures
        r@ == quoted_password(p@),
{
    let mut r = owned("'");
    let inner = strip_char(p, '\n');
    r.append(inner.as_str());
    r.append("'");
    r
}

/// The arguments of `useradd` for a user: home directory, shell path,
/// password and the name without spaces.
pub open spec fn useradd_args_spec(name: Seq<char>, password: Seq<char>, shell: Seq<char>) -> Seq<Seq<char>> {
    seq!["-m"@, "-s"@, shell_path_spec(shell), "-p"@, quoted_password(password), remove_char(name, ' ')]
}

/// The arguments of `usermod` that put a user in the administrator groups.
pub open spec fn usermod_args_spec(name: Seq<char>) -> Seq<Seq<char>> {
    seq!["-aG"@, "wheel,rfkill,sys,lp,input"@, remove_char(name, ' ')]
}

/// The views of a list of strings.
pub open spec fn args_view(v: Seq<String>) -> Seq<Seq<char>> {
    v.map_values(|s: String| s@)
}

/// Arguments of `useradd` for a new user (the password as given, already hashed or not).
pub fn useradd_args(name: &str, password: &str, shell: &str) -> (r: Vec<String>)
    ensures
        args_view(r@) == useradd_args_spec(name@, password@, shell@),
{
    let r = vec![
        owned("-m"),
        owned("-s"),
        owned(shell_path(shell)),
        owned("-p"),
        quote_password(password),
        strip_char(name, ' '),
    ];
    assert(args_view(r@) =~= useradd_args_spec(name@, password@, shell@));
    r
}

/// Arguments of `usermod` that make a user an administrator.
pub fn usermod_admin_args(name: &str) -> (r: Vec<String>)
    ensures
        args_view(r@) == usermod_args_spec(name@),
{
    let r = vec![owned("-aG"), owned("wheel,rfkill,sys,lp,input"), strip_char(name, ' ')];
    assert(args_view(r@) =~= usermod_args_spec(name@));
    r
}

/// Arguments of `usermod` that set the root password.
pub fn root_pass_args(password: &str) -> (r: Vec<String>)
    ensures
        args_view(r@) == seq!["--password"@, quoted_password(password@), "root"@],
{
    let r = vec![owned("--password"), quote_password(password), owned("root")];
    assert(args_view(r@) =~= seq!["--password"@, quoted_password(password@), "root"@]);
    r
}

} // verus!
