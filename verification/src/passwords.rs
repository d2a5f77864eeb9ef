//! The pages that ask for a password twice: the root password, which the
//! caller then hashes, and the passphrase of an encrypted partition.
use vstd::prelude::*;
use crate::alter::{part_of, with_part};
use crate::drives::{add_flag_spec, Disk, DiskView, PartitionEdit, PartitionView};
use crate::text::{owned, str_eq, to_chars, trim, trim_seq};
use crate::widgets::{edited_cursor, edited_value, Key, LineEditor};
use crate::drivepages::utf8_len;

verus! {

// ---------------------------------------------------------------------------
// Editor changes
// ---------------------------------------------------------------------------

/// The editor's cursor is within the bytes of its text.
pub open spec fn editor_ok(e: LineEditor) -> bool {
    e.cursor <= utf8_len(e.value@)
}

/// `b` is `a` with the focus set to `f`.
pub open spec fn refocused(a: LineEditor, b: LineEditor, f: bool) -> bool {
    b == LineEditor { focused: f, ..a }
}

/// `b` is `a` emptied (text, cursor and error) with the focus set to `f`.
pub open spec fn emptied(a: LineEditor, b: LineEditor, f: bool) -> bool {
    &&& b.value@.len() == 0
    &&& b.cursor == 0
    &&& b.error is None
    &&& b.title == a.title && b.placeholder == a.placeholder && b.is_secret == a.is_secret
    &&& b.focused == f
}

/// `b` is `a` emptied and showing the error `msg`, with the focus set to `f`.
pub open spec fn showing_error(a: LineEditor, b: LineEditor, msg: Seq<char>, f: bool) -> bool {
    &&& b.value@.len() == 0
    &&& b.cursor == 0
    &&& b.error matches Some(m) && m@ == msg
    &&& b.title == a.title && b.placeholder == a.placeholder && b.is_secret == a.is_secret
    &&& b.focused == f
}

/// `b` is `a` after the key edited its text or moved its cursor.
pub open spec fn key_edited(a: LineEditor, b: LineEditor, key: Key) -> bool {
    &&& b.value@ == edited_value(a.value@, a.cursor as int, key)
    &&& b.cursor == edited_cursor(a.value@, a.cursor as int, key)
    &&& b.error == a.error
    &&& b.title == a.title && b.placeholder == a.placeholder && b.is_secret == a.is_secret
    &&& b.focused == a.focused
}

fn secret_editor(title: &str, placeholder: Option<&str>, focused: bool) -> (r: LineEditor)
    ensures
        r.title@ == title@,
        match placeholder {
            Some(p) => r.placeholder matches Some(q) && q@ == p@,
            None => r.placeholder is None,
        },
        r.is_secret,
        r.focused == focused,
        r.value@.len() == 0,
        r.cursor == 0,
        r.error is None,
{
    let ph = match placeholder {
        Some(p) => Some(owned(p)),
        None => None,
    };
    let mut e = LineEditor::new(owned(title), ph).secret(true);
    if focused {
        e.focus();
    }
    e
}

// ---------------------------------------------------------------------------
// Root password
// ---------------------------------------------------------------------------

/// What the root password page asks for after a key press.
#[derive(Debug)]
pub enum RootSignal {
    Wait,
    Pop,
    /// Hash this password (trimmed) and hand back the outcome.
    Hash(String),
}

/// The root password page: the password, its confirmation and the help.
pub struct RootPassword {
    pub input: LineEditor,
    pub confirm: LineEditor,
    pub help_visible: bool,
}

impl RootPassword {
    /// Both editors keep their cursors within their texts.
    pub open spec fn wf(&self) -> bool {
        editor_ok(self.input) && editor_ok(self.confirm)
    }

    /// The page with the password editor focused.
    pub fn new() -> (r: Self)
        ensures
            r.wf(),
            r.input.title@ == "Set Root Password"@,
            r.confirm.title@ == "Confirm Password"@,
            r.input.focused && !r.confirm.focused,
            r.input.is_secret && r.confirm.is_secret,
            r.input.value@.len() == 0 && r.confirm.value@.len() == 0,
            !r.help_visible,
    {
        RootPassword {
            input: secret_editor("Set Root Password", Some("Password will be hidden"), true),
            confirm: secret_editor("Confirm Password", Some("Password will be hidden"), false),
            help_visible: false,
        }
    }

    /// `?` shows or hides the help, which takes every key while shown; Esc
    /// leaves; Tab switches fields; Enter moves to the confirmation, then
    /// asks for the (trimmed) password to be hashed when both fields agree,
    /// ignores an empty password and starts over on a mismatch; other keys
    /// edit the focused field.
    pub fn handle_key(&mut self, key: Key) -> (r: RootSignal)
        requires
            old(self).wf(),
            key != Key::Char('?') && !old(self).help_visible && key != Key::Esc && key != Key::Tab && key
                != Key::Enter ==> if old(self).input.focused {
                old(self).input.takes(key)
            } else {
                old(self).confirm.takes(key)
            },
        ensures
            final(self).wf(),
            ({
                let a = *old(self);
                let b = *final(self);
                if key == Key::Char('?') {
                    b == (RootPassword { help_visible: !a.help_visible, ..a }) && r is Wait
                } else if a.help_visible {
                    b == (RootPassword { help_visible: key != Key::Esc, ..a }) && r is Wait
                } else if key == Key::Esc {
                    b == a && r is Pop
                } else if key == Key::Tab {
                    &&& b.help_visible == a.help_visible && r is Wait
                    &&& refocused(a.input, b.input, !a.input.focused)
                    &&& refocused(a.confirm, b.confirm, a.input.focused)
                } else if key == Key::Enter {
                    if a.input.focused {
                        &&& b.help_visible == a.help_visible && r is Wait
                        &&& refocused(a.input, b.input, false)
                        &&& refocused(a.confirm, b.confirm, true)
                    } else {
                        let p = trim_seq(a.input.value@);
                        let c = trim_seq(a.confirm.value@);
                        if p.len() == 0 {
                            b == a && r is Wait
                        } else if p != c {
                            &&& b.help_visible == a.help_visible && r is Wait
                            &&& showing_error(a.input, b.input, "Passwords do not match"@, true)
                            &&& emptied(a.confirm, b.confirm, false)
                        } else {
                            b == a && (r matches RootSignal::Hash(h) && h@ == p)
                        }
                    }
                } else if a.input.focused {
                    key_edited(a.input, b.input, key) && b.confirm == a.confirm && b.help_visible
                        == a.help_visible && r is Wait
                } else {
                    key_edited(a.confirm, b.confirm, key) && b.input == a.input && b.help_visible
                        == a.help_visible && r is Wait
                }
            }),
    {
        if key == Key::Char('?') {
            self.help_visible = !self.help_visible;
            return RootSignal::Wait;
        }
        if self.help_visible {
            if key == Key::Esc {
                self.help_visible = false;
            }
            return RootSignal::Wait;
        }
        match key {
            Key::Esc => RootSignal::Pop,
            Key::Tab => {
                if self.input.is_focused() {
                    self.input.unfocus();
                    self.confirm.focus();
                } else {
                    self.confirm.unfocus();
                    self.input.focus();
                }
                RootSignal::Wait
            },
            Key::Enter => {
                if self.input.is_focused() {
                    self.input.unfocus();
                    self.confirm.focus();
                    RootSignal::Wait
                } else {
                    let p = trim(self.input.value.as_str());
                    let c = trim(self.confirm.value.as_str());
                    if to_chars(p.as_str()).len() == 0 {
                        RootSignal::Wait
                    } else if !str_eq(p.as_str(), c.as_str()) {
                        self.input.clear();
                        self.confirm.clear();
                        self.confirm.unfocus();
                        self.input.focus();
                        self.input.error(owned("Passwords do not match"));
                        RootSignal::Wait
                    } else {
                        RootSignal::Hash(p)
                    }
                }
            },
            _ => {
                if self.input.is_focused() {
                    self.input.handle_key(key);
                } else {
                    self.confirm.handle_key(key);
                }
                RootSignal::Wait
            },
        }
    }

    /// Takes the outcome of hashing: the hash, to be stored before the page
    /// is left, or why hashing failed, shown on the emptied form.
    pub fn take_hash_result(&mut self, result: Result<String, String>) -> (r: Option<String>)
        requires
            old(self).wf(),
        ensures
            final(self).wf(),
            match result {
                Ok(h) => r == Some(h) && *final(self) == *old(self),
                Err(e) => {
                    &&& r is None
                    &&& showing_error(old(self).input, final(self).input, "Error hashing password: "@ + e@, true)
                    &&& emptied(old(self).confirm, final(self).confirm, false)
                    &&& final(self).help_visible == old(self).help_visible
                },
            },
    {
        match result {
            Ok(h) => Some(h),
            Err(e) => {
                self.input.clear();
                self.confirm.clear();
                self.confirm.unfocus();
                self.input.focus();
                let mut msg = owned("Error hashing password: ");
                msg.append(e.as_str());
                self.input.error(msg);
                None
            },
        }
    }
}

// ---------------------------------------------------------------------------
// Partition passphrase
// ---------------------------------------------------------------------------

/// What the passphrase page asks for after a key press.
#[derive(Debug)]
pub enum LuksSignal {
    Wait,
    Pop,
    /// Keep this passphrase for the installation and leave this many pages.
    Store { passphrase: String, pop_count: usize },
}

/// The page that asks for the passphrase of the partition `dev_id`.
pub struct PromptLuksPassword {
    pub dev_id: u64,
    pub pass_input: LineEditor,
    pub pass_confirm: LineEditor,
    pub help_visible: bool,
    pub pop_count_on_success: usize,
}

/// The disk with the partition under `id` marked for encryption (unchanged
/// when there is none).
pub open spec fn with_encrypt(d: DiskView, id: u64) -> DiskView {
    match part_of(d, id) {
        Some(p) => with_part(d, id, PartitionView { flags: add_flag_spec(p.flags, "encrypt"@), ..p }),
        None => d,
    }
}

impl PromptLuksPassword {
    /// Both editors keep their cursors within their texts.
    pub open spec fn wf(&self) -> bool {
        editor_ok(self.pass_input) && editor_ok(self.pass_confirm)
    }

    /// The page with the passphrase editor focused; on success it leaves one page.
    pub fn new(dev_id: u64) -> (r: Self)
        ensures
            r.wf(),
            r.dev_id == dev_id,
            r.pass_input.title@ == "LUKS Passphrase"@,
            r.pass_confirm.title@ == "Confirm LUKS Passphrase"@,
            r.pass_input.focused && !r.pass_confirm.focused,
            r.pass_input.is_secret && r.pass_confirm.is_secret,
            r.pass_input.value@.len() == 0 && r.pass_confirm.value@.len() == 0,
            !r.help_visible,
            r.pop_count_on_success == 1,
    {
        PromptLuksPassword {
            dev_id,
            pass_input: secret_editor("LUKS Passphrase", None, true),
            pass_confirm: secret_editor("Confirm LUKS Passphrase", None, false),
            help_visible: false,
            pop_count_on_success: 1,
        }
    }

    /// The same page leaving `n` pages on success.
    pub fn with_pop_count(self, n: usize) -> (r: Self)
        ensures
            r == (PromptLuksPassword { pop_count_on_success: n, ..self }),
    {
        let mut s = self;
        s.pop_count_on_success = n;
        s
    }

    /// `?` shows or hides the help, which takes every key while shown; Esc
    /// leaves; Tab and Shift+Tab move between the fields (leaving the
    /// passphrase only when it is not empty); Enter checks the passphrase,
    /// then the confirmation, and on agreement marks the partition for
    /// encryption and hands the passphrase over; other keys edit the focused
    /// field.
    pub fn handle_key(&mut self, drive_config: &mut Option<Disk>, key: Key) -> (r: LuksSignal)
        requires
            old(self).wf(),
            key != Key::Char('?') && !old(self).help_visible && key != Key::Esc && key != Key::Tab && key
                != Key::BackTab && key != Key::Enter ==> (old(self).pass_input.focused ==> old(
                self,
            ).pass_input.takes(key)) && (!old(self).pass_input.focused && old(self).pass_confirm.focused
                ==> old(self).pass_confirm.takes(key)),
            (*old(drive_config)) matches Some(d) ==> d.wf(),
        ensures
            final(self).wf(),
            (*final(drive_config)) matches Some(d) ==> d.wf(),
            ({
                let a = *old(self);
                let b = *final(self);
                let same_disk = *final(drive_config) == *old(drive_config);
                let i = a.pass_input;
                let c = a.pass_confirm;
                if key == Key::Char('?') {
                    b == (PromptLuksPassword { help_visible: !a.help_visible, ..a }) && same_disk && r is Wait
                } else if a.help_visible {
                    b == (PromptLuksPassword { help_visible: key != Key::Esc, ..a }) && same_disk && r is Wait
                } else if key == Key::Esc {
                    b == a && same_disk && r is Pop
                } else if key == Key::Tab || key == Key::BackTab {
                    &&& same_disk && r is Wait
                    &&& b.dev_id == a.dev_id && b.help_visible == a.help_visible && b.pop_count_on_success
                        == a.pop_count_on_success
                    &&& if key == Key::Tab && i.focused && i.value@.len() == 0 {
                        showing_error(i, b.pass_input, "Passphrase cannot be empty"@, true) && b.pass_confirm == c
                    } else if key == Key::Tab && i.focused {
                        b.pass_input == (LineEditor { error: None, focused: false, ..i }) && refocused(
                            c,
                            b.pass_confirm,
                            true,
                        )
                    } else if i.focused {
                        refocused(i, b.pass_input, false) && refocused(c, b.pass_confirm, true)
                    } else if c.focused {
                        refocused(i, b.pass_input, true) && refocused(c, b.pass_confirm, false)
                    } else {
                        refocused(i, b.pass_input, true) && b.pass_confirm == c
                    }
                } else if i.focused {
                    &&& same_disk && r is Wait
                    &&& b.dev_id == a.dev_id && b.help_visible == a.help_visible && b.pop_count_on_success
                        == a.pop_count_on_success
                    &&& if key == Key::Enter {
                        if i.value@.len() == 0 {
                            showing_error(i, b.pass_input, "Passphrase cannot be empty"@, true) && b.pass_confirm
                                == c
                        } else {
                            b.pass_input == (LineEditor { error: None, focused: false, ..i }) && refocused(
                                c,
                                b.pass_confirm,
                                true,
                            )
                        }
                    } else {
                        key_edited(i, b.pass_input, key) && b.pass_confirm == c
                    }
                } else if c.focused {
                    if key == Key::Enter {
                        if i.value@.len() == 0 {
                            &&& same_disk && r is Wait
                            &&& b.dev_id == a.dev_id && b.help_visible == a.help_visible
                                && b.pop_count_on_success == a.pop_count_on_success
                            &&& showing_error(i, b.pass_input, "Passphrase cannot be empty"@, true)
                            &&& refocused(c, b.pass_confirm, false)
                        } else if c.value@.len() == 0 {
                            &&& same_disk && r is Wait
                            &&& b.dev_id == a.dev_id && b.help_visible == a.help_visible
                                && b.pop_count_on_success == a.pop_count_on_success
                            &&& b.pass_input == i
                            &&& showing_error(c, b.pass_confirm, "Confirmation cannot be empty"@, true)
                        } else if i.value@ != c.value@ {
                            &&& same_disk && r is Wait
                            &&& b.dev_id == a.dev_id && b.help_visible == a.help_visible
                                && b.pop_count_on_success == a.pop_count_on_success
                            &&& b.pass_input == i
                            &&& showing_error(c, b.pass_confirm, "Passphrases do not match"@, true)
                        } else {
                            &&& b == a
                            &&& r matches LuksSignal::Store { passphrase: p, pop_count: n } && p@ == i.value@ && n
                                == a.pop_count_on_success
                            &&& match *old(drive_config) {
                                Some(d) => (*final(drive_config)) matches Some(e) && e@ == with_encrypt(d@, a.dev_id),
                                None => (*final(drive_config)) is None,
                            }
                        }
                    } else {
                        &&& same_disk && r is Wait
                        &&& b.dev_id == a.dev_id && b.help_visible == a.help_visible && b.pop_count_on_success
                            == a.pop_count_on_success
                        &&& key_edited(c, b.pass_confirm, key) && b.pass_input == i
                    }
                } else {
                    &&& same_disk && r is Wait
                    &&& b == (PromptLuksPassword { pass_input: LineEditor { focused: true, ..i }, ..a })
                }
            }),
    {
        if key == Key::Char('?') {
            self.help_visible = !self.help_visible;
            return LuksSignal::Wait;
        }
        if self.help_visible {
            if key == Key::Esc {
                self.help_visible = false;
            }
            return LuksSignal::Wait;
        }
        match key {
            Key::Esc => {
                return LuksSignal::Pop;
            },
            Key::Tab => {
                if self.pass_input.is_focused() {
                    if to_chars(self.pass_input.value.as_str()).len() == 0 {
                        self.pass_input.error(owned("Passphrase cannot be empty"));
                    } else {
                        self.pass_input.clear_error();
                        self.pass_input.unfocus();
                        self.pass_confirm.focus();
                    }
                } else if self.pass_confirm.is_focused() {
                    self.pass_confirm.unfocus();
                    self.pass_input.focus();
                } else {
                    self.pass_input.focus();
                }
                return LuksSignal::Wait;
            },
            Key::BackTab => {
                if self.pass_input.is_focused() {
                    self.pass_input.unfocus();
                    self.pass_confirm.focus();
                } else if self.pass_confirm.is_focused() {
                    self.pass_confirm.unfocus();
                    self.pass_input.focus();
                } else {
                    self.pass_input.focus();
                }
                return LuksSignal::Wait;
            },
            _ => {},
        }
        if self.pass_input.is_focused() {
            if key == Key::Enter {
                if to_chars(self.pass_input.value.as_str()).len() == 0 {
                    self.pass_input.error(owned("Passphrase cannot be empty"));
                } else {
                    self.pass_input.clear_error();
                    self.pass_input.unfocus();
                    self.pass_confirm.focus();
                }
            } else {
                self.pass_input.handle_key(key);
            }
            LuksSignal::Wait
        } else if self.pass_confirm.is_focused() {
            if key == Key::Enter {
                if to_chars(self.pass_input.value.as_str()).len() == 0 {
                    self.pass_input.error(owned("Passphrase cannot be empty"));
                    self.pass_confirm.unfocus();
                    self.pass_input.focus();
                    LuksSignal::Wait
                } else if to_chars(self.pass_confirm.value.as_str()).len() == 0 {
                    self.pass_confirm.error(owned("Confirmation cannot be empty"));
                    LuksSignal::Wait
                } else if !str_eq(self.pass_input.value.as_str(), self.pass_confirm.value.as_str()) {
                    self.pass_confirm.clear();
                    self.pass_confirm.error(owned("Passphrases do not match"));
                    LuksSignal::Wait
                } else {
                    match drive_config {
                        Some(device) => {
                            proof {
                                crate::drives::lemma_find_id(device@.layout, self.dev_id);
                            }
                            let _ = device.modify_partition(self.dev_id, PartitionEdit::AddFlag(owned("encrypt")));
                        },
                        None => {},
                    }
                    LuksSignal::Store { passphrase: self.pass_input.value.clone(), pop_count: self.pop_count_on_success }
                }
            } else {
                self.pass_confirm.handle_key(key);
                LuksSignal::Wait
            }
        } else {
            self.pass_input.focus();
            LuksSignal::Wait
        }
    }
}

} // verus!
