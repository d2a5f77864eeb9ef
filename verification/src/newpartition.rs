//! The form that creates a partition in a stretch of free space: size,
//! filesystem, mount point, encryption and passphrase, asked in turn.
use vstd::prelude::*;
use crate::drivepages::{
    char_width, compute_max_fit, dry_run_accepts, finalize_new_partition, fits, lemma_utf8_len_prefix,
    mount_point_error, planned_partition, utf8_len, SetMountPoint,
};
use crate::drives::{
    bytes_readable_floor, bytes_readable_floor_spec, items_view, numbered, opt_view, parse_sectors,
    parse_sectors_spec, with_new_partition, Disk, DiskError, DiskItemView, DiskView, PartStatus,
};
use crate::manual::disk_view_of;
use crate::passwords::{editor_ok, key_edited, showing_error};
use crate::selectpages::{fs_buttons, fs_choice, is_back, is_down, is_up, menu_down, menu_up};
use crate::userpages::{menu_first, menu_focused};
use crate::text::{decimal, owned, owned_list, str_eq, strings_view, to_chars, trim, trim_seq, u64_to_decimal};
use crate::widgets::{ButtonMenu, CheckBox, Key, LineEditor};

verus! {

/// What the form asks for after a key press.
#[derive(Debug)]
pub enum NewPartSignal {
    Wait,
    Pop,
    Error(String),
    /// Write this passphrase to the key file, then hand the outcome to `key_written`.
    WriteKey(String),
}

/// The buttons of the encryption step.
pub open spec fn enc_buttons() -> Seq<Seq<char>> {
    seq!["Encryption (LUKS)"@, "Continue"@, "Back"@]
}

/// The mount points that no longer ask about encryption.
pub open spec fn is_boot_mount(mp: Seq<char>) -> bool {
    mp == "/boot"@ || mp == "/boot/efi"@
}

/// The mount points of the partitions that are not to be deleted, in layout order.
pub open spec fn live_mounts(l: Seq<DiskItemView>) -> Seq<Seq<char>>
    decreases l.len(),
{
    if l.len() == 0 {
        Seq::empty()
    } else {
        let rest = live_mounts(l.drop_last());
        match l.last() {
            DiskItemView::Part(p) => if p.status != PartStatus::Delete && p.mount_point is Some {
                rest.push(p.mount_point->0)
            } else {
                rest
            },
            _ => rest,
        }
    }
}

fn collect_live_mounts(disk: &Disk) -> (r: Vec<String>)
    ensures
        strings_view(r@) == live_mounts(disk@.layout),
{
    let layout = disk.layout();
    let ghost l = disk@.layout;
    let mut r: Vec<String> = Vec::new();
    let mut i: usize = 0;
    while i < layout.len()
        invariant
            i <= layout@.len(),
            l == items_view(layout@),
            strings_view(r@) == live_mounts(l.take(i as int)),
        decreases layout@.len() - i,
    {
        assert(l.take(i + 1).drop_last() =~= l.take(i as int));
        assert(l.take(i + 1).last() == layout@[i as int]@);
        let item = &layout[i];
        let live = match item {
            crate::drives::DiskItem::Partition(p) => p.status() != PartStatus::Delete,
            _ => false,
        };
        if live {
            match item.mount_point() {
                Some(mp) => {
                    let ghost before = r@;
                    r.push(owned(mp));
                    assert(strings_view(r@) =~= strings_view(before).push(mp@));
                },
                None => {},
            }
        }
        i = i + 1;
    }
    assert(l.take(layout@.len() as int) =~= l);
    r
}

/// Whether the text takes fewer than `n` bytes in UTF-8.
fn utf8_shorter_than(s: &str, n: u64) -> (r: bool)
    requires
        n <= 64,
    ensures
        r == (utf8_len(s@) < n),
{
    if n == 0 {
        return false;
    }
    let chars = to_chars(s);
    let mut bytes: u64 = 0;
    let mut j: usize = 0;
    while j < chars.len()
        invariant
            j <= chars@.len(),
            chars@ == s@,
            bytes == utf8_len(chars@.take(j as int)),
            bytes < n,
            n <= 64,
        decreases chars@.len() - j,
    {
        assert(chars@.take(j + 1).drop_last() =~= chars@.take(j as int));
        bytes = bytes + char_width(chars[j]);
        if bytes >= n {
            proof {
                lemma_utf8_len_prefix(chars@, j + 1);
            }
            return false;
        }
        j = j + 1;
    }
    assert(chars@.take(chars@.len() as int) =~= chars@);
    true
}

/// The form. Its step follows from what is filled in (see `new_part_stage`).
pub struct NewPartition {
    pub fs_id: u64,
    pub part_start: u64,
    pub part_end: u64,
    pub sector_size: u64,
    /// The free space, in sectors.
    pub total_size: u64,
    pub max_fit: Option<u64>,
    pub new_part_size: Option<u64>,
    pub size_input: LineEditor,
    pub new_part_fs: Option<String>,
    pub fs_buttons: ButtonMenu,
    pub new_part_mount_point: Option<String>,
    pub mount_input: LineEditor,
    pub enc_box: CheckBox,
    pub enc_buttons: ButtonMenu,
    pub new_part_encrypt: Option<bool>,
    pub enc_selected: bool,
    pub collecting_pass: bool,
    pub pass1: LineEditor,
    pub pass2: LineEditor,
    pub new_part_luks_password: Option<String>,
}

/// The step of the form: 0 size, 1 filesystem, 2 encryption, 3 passphrase,
/// 4 mount point, 5 done.
pub open spec fn new_part_stage(a: NewPartition) -> int {
    let fs = opt_view(a.new_part_fs);
    let mp = opt_view(a.new_part_mount_point);
    if a.new_part_size is None {
        0
    } else if fs is None {
        1
    } else if fs == Some("swap"@) && a.new_part_encrypt is None {
        2
    } else if a.collecting_pass {
        3
    } else if mp is None {
        4
    } else if a.new_part_encrypt is None && !is_boot_mount(mp->0) {
        2
    } else {
        5
    }
}

/// The size field as it opens.
pub open spec fn fresh_size_input(e: LineEditor) -> bool {
    &&& e.title@ == "New Partition Size"@
    &&& e.placeholder matches Some(p) && p@ == "Empty input uses rest of free space"@
    &&& !e.is_secret && e.focused && e.value@.len() == 0 && e.cursor == 0 && e.error is None
}

/// The mount point field as it opens.
pub open spec fn fresh_mount_input(e: LineEditor) -> bool {
    &&& e.title@ == "New Partition Mount Point"@ && e.placeholder is None
    &&& !e.is_secret && e.focused && e.value@.len() == 0 && e.cursor == 0 && e.error is None
}

/// The largest size up to `total` sectors that fits at `start` (0 when none does).
pub open spec fn is_max_fit(d: DiskView, start: u64, total: u64, m: u64) -> bool {
    &&& m <= total
    &&& m > 0 ==> fits(d, start, m)
    &&& forall|s: u64| m < s <= total ==> !fits(d, start, s)
}

/// The text of the size field, or the whole free space when it is empty.
pub open spec fn size_text(a: NewPartition) -> Seq<char> {
    let t = trim_seq(a.size_input.value@);
    if t.len() == 0 { "100%"@ } else { t }
}

/// The message for a size beyond the largest that fits.
pub open spec fn too_large(max_fit: u64, sector_size: u64) -> Seq<char> {
    "Too large. Max allocatable here is "@ + bytes_readable_floor_spec(max_fit as nat * sector_size as nat)
        + " ("@ + decimal(max_fit as nat) + " sectors)."@
}

/// Enter on the size field, with the disk `d` and the largest size `mf` that fits.
pub open spec fn size_entered(a: NewPartition, b: NewPartition, d: DiskView, mf: u64) -> bool {
    let a1 = NewPartition { max_fit: Some(mf), ..a };
    match parse_sectors_spec(size_text(a), d.sector_size as nat, a.total_size as nat) {
        None => showing_error(a.size_input, b.size_input, "Invalid size input"@, a.size_input.focused)
            && b == NewPartition { size_input: b.size_input, ..a1 },
        Some(x) => if x == 0 {
            showing_error(a.size_input, b.size_input, "Invalid size (must be > 0)"@, a.size_input.focused)
                && b == NewPartition { size_input: b.size_input, ..a1 }
        } else if x > mf {
            showing_error(a.size_input, b.size_input, too_large(mf, a.sector_size), a.size_input.focused)
                && b == NewPartition { size_input: b.size_input, ..a1 }
        } else if !fits(d, a.part_start, x as u64) {
            showing_error(
                a.size_input,
                b.size_input,
                "Invalid size at this location: New partition overlaps with existing"@,
                a.size_input.focused,
            ) && b == NewPartition { size_input: b.size_input, ..a1 }
        } else {
            b == NewPartition {
                new_part_size: Some(x as u64),
                size_input: LineEditor { focused: false, ..a.size_input },
                fs_buttons: menu_focused(a.fs_buttons),
                ..a1
            }
        },
    }
}

/// The partition that the form describes.
pub open spec fn form_partition(a: NewPartition, size: u64) -> crate::drives::PartitionView {
    planned_partition(
        a.part_start,
        size,
        a.sector_size,
        opt_view(a.new_part_fs),
        opt_view(a.new_part_mount_point),
        a.new_part_encrypt == Some(true),
    )
}

/// Adding the partition: the disk gains it and the form is left, or the
/// form goes back to the size with the reason shown.
pub open spec fn partition_added(a: NewPartition, b: NewPartition, d: Option<DiskView>, e: Option<DiskView>, r: NewPartSignal) -> bool {
    match d {
        None => b == a && e == d && (r matches NewPartSignal::Error(m)
            && m@ == "No drive config available when finalizing new partition"@),
        Some(dv) => match a.new_part_size {
            None => b == a && e == d && (r matches NewPartSignal::Error(m)
                && m@ == "No new partition size specified when finalizing new partition"@),
            Some(size) => {
                let (nd, added) = with_new_partition(dv, form_partition(a, size));
                if added {
                    b == a && e == Some(numbered(nd)) && r is Pop
                } else {
                    &&& e == Some(nd) && r is Wait
                    &&& showing_error(
                        a.size_input,
                        b.size_input,
                        "Failed to create partition: "@ + "New partition overlaps with existing partition"@,
                        true,
                    )
                    &&& b == NewPartition {
                        size_input: b.size_input,
                        new_part_size: None,
                        fs_buttons: ButtonMenu { focused: false, ..a.fs_buttons },
                        mount_input: LineEditor { focused: false, ..a.mount_input },
                        enc_buttons: ButtonMenu { focused: false, ..a.enc_buttons },
                        ..a
                    }
                }
            },
        },
    }
}

/// Finishing the form: the passphrase goes to the key file first when the
/// partition is encrypted, else the partition is added.
pub open spec fn finished(a: NewPartition, b: NewPartition, d: Option<DiskView>, e: Option<DiskView>, r: NewPartSignal) -> bool {
    if d is Some && a.new_part_size is Some && a.new_part_encrypt == Some(true) && a.new_part_luks_password is Some {
        b == a && e == d && (r matches NewPartSignal::WriteKey(k) && k == a.new_part_luks_password->0)
    } else {
        partition_added(a, b, d, e, r)
    }
}

/// A key on the size step.
pub open spec fn size_step(a: NewPartition, b: NewPartition, d: Option<DiskView>, key: Key, r: NewPartSignal) -> bool {
    if is_back(key) {
        b == a && r is Pop
    } else if key == Key::Enter {
        match d {
            None => b == a && (r matches NewPartSignal::Error(m)
                && m@ == "No drive config available for new partition size input"@),
            Some(d) => r is Wait && exists|mf: u64| #[trigger] size_entered(a, b, d, mf) && match a.max_fit {
                Some(m) => mf == m,
                None => is_max_fit(d, a.part_start, a.total_size, mf),
            },
        }
    } else {
        key_edited(a.size_input, b.size_input, key) && b == NewPartition { size_input: b.size_input, ..a }
            && r is Wait
    }
}

/// A key on the filesystem step.
pub open spec fn fs_step(a: NewPartition, b: NewPartition, key: Key) -> bool {
    if is_back(key) {
        fresh_size_input(b.size_input) && b == NewPartition {
            new_part_size: None,
            fs_buttons: ButtonMenu { focused: false, ..a.fs_buttons },
            size_input: b.size_input,
            ..a
        }
    } else if is_up(key) {
        b == NewPartition { fs_buttons: menu_up(a.fs_buttons), ..a }
    } else if is_down(key) {
        b == NewPartition { fs_buttons: menu_down(a.fs_buttons), ..a }
    } else if key == Key::Enter {
        match a.fs_buttons.focused_child {
            Some(i) => match fs_choice(i) {
                Some(f) => {
                    let a1 = NewPartition { fs_buttons: ButtonMenu { focused: false, ..a.fs_buttons }, new_part_fs: b.new_part_fs, ..a };
                    &&& b.new_part_fs matches Some(x) && x@ == f
                    &&& if f == "swap"@ {
                        b == NewPartition { enc_buttons: menu_focused(menu_first(a.enc_buttons)), ..a1 }
                    } else {
                        b == NewPartition { mount_input: LineEditor { focused: true, ..a.mount_input }, ..a1 }
                    }
                },
                None => b == a,
            },
            None => b == a,
        }
    } else {
        b == a
    }
}

/// Back from the encryption step to the mount point.
pub open spec fn back_to_mount(a: NewPartition, b: NewPartition) -> bool {
    fresh_mount_input(b.mount_input) && b == NewPartition {
        enc_buttons: ButtonMenu { focused: false, ..a.enc_buttons },
        new_part_mount_point: None,
        mount_input: b.mount_input,
        ..a
    }
}

/// The check box toggled, and the choice following it.
pub open spec fn enc_toggled(a: NewPartition) -> NewPartition {
    NewPartition {
        enc_box: CheckBox { checked: !a.enc_box.checked, ..a.enc_box },
        enc_selected: !a.enc_box.checked,
        ..a
    }
}

/// A key on the encryption step.
pub open spec fn enc_step(a: NewPartition, b: NewPartition, d: Option<DiskView>, e: Option<DiskView>, key: Key, r: NewPartSignal) -> bool {
    if is_up(key) {
        b == NewPartition { enc_buttons: menu_up(a.enc_buttons), ..a } && e == d && r is Wait
    } else if is_down(key) {
        b == NewPartition { enc_buttons: menu_down(a.enc_buttons), ..a } && e == d && r is Wait
    } else if key == Key::Esc {
        &&& e == d && r is Wait
        &&& if opt_view(a.new_part_fs) == Some("swap"@) {
            b == NewPartition {
                new_part_encrypt: None,
                enc_buttons: ButtonMenu { focused: false, ..a.enc_buttons },
                new_part_fs: None,
                fs_buttons: menu_focused(menu_first(a.fs_buttons)),
                ..a
            }
        } else {
            back_to_mount(a, b)
        }
    } else if key == Key::Char(' ') {
        e == d && r is Wait && b == (if a.enc_buttons.focused_child == Some(0usize) { enc_toggled(a) } else { a })
    } else if key == Key::Enter {
        match a.enc_buttons.focused_child {
            Some(0) => b == enc_toggled(a) && e == d && r is Wait,
            Some(1) => {
                let a1 = NewPartition { new_part_encrypt: Some(a.enc_selected), ..a };
                if a.enc_selected {
                    e == d && r is Wait && b == NewPartition {
                        collecting_pass: true,
                        pass1: LineEditor { focused: true, ..a.pass1 },
                        ..a1
                    }
                } else {
                    finished(a1, b, d, e, r)
                }
            },
            Some(2) => back_to_mount(a, b) && e == d && r is Wait,
            _ => b == a && e == d && r is Wait,
        }
    } else {
        b == a && e == d && r is Wait
    }
}

/// A key on the passphrase step.
pub open spec fn pass_step(a: NewPartition, b: NewPartition, d: Option<DiskView>, e: Option<DiskView>, key: Key, r: NewPartSignal) -> bool {
    if key == Key::Esc {
        b == NewPartition { collecting_pass: false, enc_buttons: menu_focused(a.enc_buttons), ..a } && e == d && r is Wait
    } else if key == Key::Enter {
        let p1 = trim_seq(a.pass1.value@);
        let p2 = trim_seq(a.pass2.value@);
        if utf8_len(p1) < 8 {
            showing_error(a.pass1, b.pass1, "Passphrase must be at least 8 characters."@, a.pass1.focused)
                && b == NewPartition { pass1: b.pass1, ..a } && e == d && r is Wait
        } else if p1 != p2 {
            showing_error(a.pass2, b.pass2, "Passphrases do not match."@, a.pass2.focused)
                && b == NewPartition { pass2: b.pass2, ..a } && e == d && r is Wait
        } else {
            exists|a1: NewPartition| #[trigger] finished(a1, b, d, e, r)
                && a1 == NewPartition { new_part_luks_password: a1.new_part_luks_password, collecting_pass: false, ..a }
                && (a1.new_part_luks_password matches Some(pw) && pw@ == p1)
        }
    } else if a.pass1.focused {
        key_edited(a.pass1, b.pass1, key) && b == NewPartition { pass1: b.pass1, ..a } && e == d && r is Wait
    } else if a.pass2.focused {
        key_edited(a.pass2, b.pass2, key) && b == NewPartition { pass2: b.pass2, ..a } && e == d && r is Wait
    } else {
        b == NewPartition { pass1: LineEditor { focused: true, ..a.pass1 }, ..a } && e == d && r is Wait
    }
}

/// The key, when it reaches the editor of the step the form is at, can be
/// taken there.
pub open spec fn new_part_takes(a: NewPartition, key: Key) -> bool {
    let st = new_part_stage(a);
    &&& st == 0 && !is_back(key) && key != Key::Enter ==> a.size_input.takes(key)
    &&& st == 3 && key != Key::Esc && key != Key::Enter ==> (a.pass1.focused ==> a.pass1.takes(key)) && (
    !a.pass1.focused && a.pass2.focused ==> a.pass2.takes(key))
    &&& st == 4 && !is_back(key) && key != Key::Enter ==> a.mount_input.takes(key)
}

/// A key on the mount point step.
pub open spec fn mount_step(a: NewPartition, b: NewPartition, d: Option<DiskView>, e: Option<DiskView>, key: Key, r: NewPartSignal) -> bool {
    if is_back(key) {
        e == d && r is Wait && b == NewPartition {
            new_part_mount_point: None,
            mount_input: LineEditor { focused: false, ..a.mount_input },
            new_part_fs: None,
            fs_buttons: menu_focused(menu_first(a.fs_buttons)),
            ..a
        }
    } else if key == Key::Enter {
        let input = trim_seq(a.mount_input.value@);
        match d {
            None => b == a && e == d && (r matches NewPartSignal::Error(m)
                && m@ == "No drive config available for new partition mount point input"@),
            Some(dv) => match mount_point_error(input, live_mounts(dv.layout)) {
                Some(err) => showing_error(a.mount_input, b.mount_input, err, a.mount_input.focused)
                    && b == NewPartition { mount_input: b.mount_input, ..a } && e == d && r is Wait,
                None => exists|a1: NewPartition|
                    #![trigger a1.new_part_mount_point]
                    a1 == NewPartition {
                        new_part_mount_point: a1.new_part_mount_point,
                        mount_input: LineEditor { focused: false, ..a.mount_input },
                        ..a
                    } && (a1.new_part_mount_point matches Some(m) && m@ == input) && if is_boot_mount(input) {
                        finished(NewPartition { new_part_encrypt: Some(false), ..a1 }, b, d, e, r)
                    } else {
                        e == d && r is Wait && b == NewPartition { enc_buttons: menu_focused(menu_first(a.enc_buttons)), ..a1 }
                    },
            },
        }
    } else {
        key_edited(a.mount_input, b.mount_input, key) && b == NewPartition { mount_input: b.mount_input, ..a }
            && e == d && r is Wait
    }
}

impl NewPartition {
    /// The editors keep their cursors within their texts, the menus have
    /// their buttons, and the free space ends before the last sector number.
    pub open spec fn wf(&self) -> bool {
        &&& editor_ok(self.size_input) && editor_ok(self.mount_input)
        &&& editor_ok(self.pass1) && editor_ok(self.pass2)
        &&& self.fs_buttons.wf() && self.fs_buttons.labels@.len() == 11
        &&& self.enc_buttons.wf() && self.enc_buttons.labels@.len() == 3
        &&& self.total_size < u64::MAX
    }

    /// A form over the free space `fs_id` of `total_size` sectors at `part_start`.
    pub fn new(fs_id: u64, part_start: u64, sector_size: u64, total_size: u64) -> (r: Self)
        requires
            1 <= total_size < u64::MAX,
            part_start + total_size - 1 <= u64::MAX,
        ensures
            r.wf(),
            r.fs_id == fs_id && r.part_start == part_start && r.sector_size == sector_size,
            r.total_size == total_size && r.part_end == part_start + total_size - 1,
            r.max_fit is None && r.new_part_size is None && r.new_part_fs is None,
            r.new_part_mount_point is None && r.new_part_encrypt is None && r.new_part_luks_password is None,
            !r.enc_selected && !r.collecting_pass && !r.enc_box.checked,
            fresh_size_input(r.size_input),
            strings_view(r.fs_buttons.labels@) == fs_buttons().subrange(0, 11),
            r.fs_buttons.focused && r.fs_buttons.focused_child == Some(0usize),
            strings_view(r.enc_buttons.labels@) == enc_buttons(),
            r.enc_buttons.focused && r.enc_buttons.focused_child == Some(0usize),
            r.mount_input.title@ == "New Partition Mount Point"@ && !r.mount_input.focused,
            r.mount_input.value@.len() == 0 && r.mount_input.cursor == 0,
            r.pass1.title@ == "LUKS Password"@ && r.pass1.is_secret && !r.pass1.focused,
            r.pass2.title@ == "Confirm LUKS Password"@ && r.pass2.is_secret && !r.pass2.focused,
            r.pass1.value@.len() == 0 && r.pass2.value@.len() == 0,
    {
        let fs_labels = owned_list(&vec![
            "ext4", "ext3", "ext2", "btrfs", "xfs", "fat12", "fat16", "fat32", "ntfs", "swap", "don't format",
        ]);
        assert(strings_view(fs_labels@).len() == fs_labels@.len());
        let mut fs_menu = ButtonMenu::button_menu(fs_labels);
        fs_menu.focus();
        assert(strings_view(fs_menu.labels@) =~= fs_buttons().subrange(0, 11));
        let enc_labels = owned_list(&vec!["Encryption (LUKS)", "Continue", "Back"]);
        assert(strings_view(enc_labels@).len() == enc_labels@.len());
        let mut enc_menu = ButtonMenu::button_menu(enc_labels);
        enc_menu.focus();
        proof {
            reveal_strlit("Encryption (LUKS)");
            reveal_strlit("Continue");
            reveal_strlit("Back");
        }
        assert(strings_view(enc_menu.labels@) =~= enc_buttons());
        let mut size_input = LineEditor::new(
            owned("New Partition Size"),
            Some(owned("Empty input uses rest of free space")),
        );
        size_input.focus();
        NewPartition {
            fs_id,
            part_start,
            part_end: part_start + (total_size - 1),
            sector_size,
            total_size,
            max_fit: None,
            new_part_size: None,
            size_input,
            new_part_fs: None,
            fs_buttons: fs_menu,
            new_part_mount_point: None,
            mount_input: LineEditor::new(owned("New Partition Mount Point"), None),
            enc_box: CheckBox::new(owned("Encryption (LUKS)"), false),
            enc_buttons: enc_menu,
            new_part_encrypt: None,
            enc_selected: false,
            collecting_pass: false,
            pass1: LineEditor::new(owned("LUKS Password"), Some(owned("Enter passphrase..."))).secret(true),
            pass2: LineEditor::new(owned("Confirm LUKS Password"), Some(owned("Re-enter passphrase..."))).secret(true),
            new_part_luks_password: None,
        }
    }

    fn stage(&self) -> (r: u64)
        ensures
            r as int == new_part_stage(*self),
    {
        if self.new_part_size.is_none() {
            return 0;
        }
        let fs_swap = match &self.new_part_fs {
            Some(f) => str_eq(f.as_str(), "swap"),
            None => return 1,
        };
        if fs_swap && self.new_part_encrypt.is_none() {
            return 2;
        }
        if self.collecting_pass {
            return 3;
        }
        match &self.new_part_mount_point {
            None => 4,
            Some(mp) => {
                let boot = str_eq(mp.as_str(), "/boot") || str_eq(mp.as_str(), "/boot/efi");
                if self.new_part_encrypt.is_none() && !boot {
                    2
                } else {
                    5
                }
            },
        }
    }

    /// Adds the partition that the form describes to the configured disk.
    fn add_partition(&mut self, drive_config: &mut Option<Disk>) -> (r: NewPartSignal)
        requires
            old(self).wf(),
            (*old(drive_config)) matches Some(d) ==> d.wf(),
        ensures
            final(self).wf(),
            (*final(drive_config)) matches Some(d) ==> d.wf(),
            partition_added(*old(self), *final(self), disk_view_of(*old(drive_config)), disk_view_of(*final(drive_config)), r),
    {
        let device = match drive_config {
            Some(d) => d,
            None => return NewPartSignal::Error(owned("No drive config available when finalizing new partition")),
        };
        let size = match self.new_part_size {
            Some(s) => s,
            None => return NewPartSignal::Error(owned("No new partition size specified when finalizing new partition")),
        };
        match finalize_new_partition(
            device,
            self.part_start,
            size,
            self.sector_size,
            &self.new_part_fs,
            &self.new_part_mount_point,
            self.new_part_encrypt,
        ) {
            Ok(()) => NewPartSignal::Pop,
            Err(e) => {
                let mut m = owned("Failed to create partition: ");
                m.append(e.message().as_str());
                self.size_input.error(m);
                self.new_part_size = None;
                self.fs_buttons.unfocus();
                self.mount_input.unfocus();
                self.enc_buttons.unfocus();
                self.size_input.focus();
                NewPartSignal::Wait
            },
        }
    }

    /// Finishes the form (see `finished`).
    fn finalize(&mut self, drive_config: &mut Option<Disk>) -> (r: NewPartSignal)
        requires
            old(self).wf(),
            (*old(drive_config)) matches Some(d) ==> d.wf(),
        ensures
            final(self).wf(),
            (*final(drive_config)) matches Some(d) ==> d.wf(),
            finished(*old(self), *final(self), disk_view_of(*old(drive_config)), disk_view_of(*final(drive_config)), r),
    {
        if drive_config.is_some() && self.new_part_size.is_some() && self.new_part_encrypt == Some(true) {
            match &self.new_part_luks_password {
                Some(pw) => {
                    return NewPartSignal::WriteKey(pw.clone());
                },
                None => {},
            }
        }
        self.add_partition(drive_config)
    }

    /// Takes the outcome of writing the key file: the partition is added, or
    /// the failure is reported.
    pub fn key_written(&mut self, drive_config: &mut Option<Disk>, written: Result<(), String>) -> (r: NewPartSignal)
        requires
            old(self).wf(),
            (*old(drive_config)) matches Some(d) ==> d.wf(),
        ensures
            final(self).wf(),
            (*final(drive_config)) matches Some(d) ==> d.wf(),
            match written {
                Err(e) => *final(self) == *old(self) && *final(drive_config) == *old(drive_config)
                    && (r matches NewPartSignal::Error(m) && m@ == "Failed to write /tmp/luks: "@ + e@),
                Ok(()) => partition_added(*old(self), *final(self), disk_view_of(*old(drive_config)), disk_view_of(*final(drive_config)), r),
            },
    {
        match written {
            Err(e) => {
                let mut m = owned("Failed to write /tmp/luks: ");
                m.append(e.as_str());
                NewPartSignal::Error(m)
            },
            Ok(()) => self.add_partition(drive_config),
        }
    }

    /// The size step: Esc or Left leaves; Enter checks the size (the whole
    /// free space when empty) against the largest that fits and moves on to
    /// the filesystem; other keys edit the field.
    fn size_key(&mut self, drive_config: &Option<Disk>, key: Key) -> (r: NewPartSignal)
        requires
            old(self).wf(),
            !is_back(key) && key != Key::Enter ==> old(self).size_input.takes(key),
            (*drive_config) matches Some(d) ==> d.wf(),
        ensures
            final(self).wf(),
            size_step(*old(self), *final(self), disk_view_of(*drive_config), key, r),
    {
        match key {
            Key::Esc | Key::Left => NewPartSignal::Pop,
            Key::Enter => {
                let t = trim(self.size_input.value.as_str());
                let input = if to_chars(t.as_str()).len() == 0 { owned("100%") } else { t };
                let device = match drive_config {
                    Some(d) => d,
                    None => return NewPartSignal::Error(owned("No drive config available for new partition size input")),
                };
                let ghost a = *self;
                let max_fit = compute_max_fit(
                    &mut self.max_fit,
                    device,
                    self.part_start,
                    self.sector_size,
                    self.total_size,
                    &self.new_part_fs,
                );
                match parse_sectors(input.as_str(), device.sector_size(), self.total_size) {
                    None => {
                        self.size_input.error(owned("Invalid size input"));
                    },
                    Some(size) => {
                        if size == 0 {
                            self.size_input.error(owned("Invalid size (must be > 0)"));
                        } else if size > max_fit {
                            assert((max_fit as u128) * (self.sector_size as u128) <= u128::MAX) by (nonlinear_arith)
                                requires
                                    max_fit <= u64::MAX,
                                    self.sector_size <= u64::MAX,
                            ;
                            let bytes = (max_fit as u128) * (self.sector_size as u128);
                            let mut m = owned("Too large. Max allocatable here is ");
                            m.append(bytes_readable_floor(bytes).as_str());
                            m.append(" (");
                            m.append(u64_to_decimal(max_fit).as_str());
                            m.append(" sectors).");
                            self.size_input.error(m);
                        } else if !dry_run_accepts(device, self.part_start, self.sector_size, size, &self.new_part_fs) {
                            self.size_input.error(owned("Invalid size at this location: New partition overlaps with existing"));
                        } else {
                            self.new_part_size = Some(size);
                            self.size_input.unfocus();
                            self.fs_buttons.focus();
                        }
                    },
                }
                assert(size_entered(a, *self, device@, max_fit));
                NewPartSignal::Wait
            },
            _ => {
                self.size_input.handle_key(key);
                NewPartSignal::Wait
            },
        }
    }

    /// The filesystem step (see `fs_step`).
    fn fs_key(&mut self, key: Key)
        requires
            old(self).wf(),
        ensures
            final(self).wf(),
            fs_step(*old(self), *final(self), key),
    {
        match key {
            Key::Esc | Key::Left => {
                self.new_part_size = None;
                self.fs_buttons.unfocus();
                let mut e = LineEditor::new(
                    owned("New Partition Size"),
                    Some(owned("Empty input uses rest of free space")),
                );
                e.focus();
                self.size_input = e;
            },
            Key::Up | Key::Char('k') => {
                self.fs_buttons.prev_child();
            },
            Key::Down | Key::Char('j') => {
                self.fs_buttons.next_child();
            },
            Key::Enter => {
                let i = match self.fs_buttons.selected_child() {
                    Some(i) => i,
                    None => return,
                };
                let fs = match SelectFsNames::name(i) {
                    Some(f) => f,
                    None => return,
                };
                self.new_part_fs = Some(owned(fs));
                self.fs_buttons.unfocus();
                if str_eq(fs, "swap") {
                    self.enc_buttons.first_child();
                    self.enc_buttons.focus();
                } else {
                    self.mount_input.focus();
                }
            },
            _ => {},
        }
    }

    fn back_to_mount(&mut self)
        requires
            old(self).wf(),
        ensures
            final(self).wf(),
            back_to_mount(*old(self), *final(self)),
    {
        self.enc_buttons.unfocus();
        self.new_part_mount_point = None;
        let mut e = LineEditor::new(owned("New Partition Mount Point"), None);
        e.focus();
        self.mount_input = e;
    }

    fn toggle_encryption(&mut self)
        ensures
            *final(self) == enc_toggled(*old(self)),
    {
        self.enc_box.toggle();
        self.enc_selected = self.enc_box.is_checked();
    }

    /// The encryption step (see `enc_step`).
    fn enc_key(&mut self, drive_config: &mut Option<Disk>, key: Key) -> (r: NewPartSignal)
        requires
            old(self).wf(),
            (*old(drive_config)) matches Some(d) ==> d.wf(),
        ensures
            final(self).wf(),
            (*final(drive_config)) matches Some(d) ==> d.wf(),
            enc_step(*old(self), *final(self), disk_view_of(*old(drive_config)), disk_view_of(*final(drive_config)), key, r),
    {
        match key {
            Key::Up | Key::Char('k') => {
                self.enc_buttons.prev_child();
                NewPartSignal::Wait
            },
            Key::Down | Key::Char('j') => {
                self.enc_buttons.next_child();
                NewPartSignal::Wait
            },
            Key::Esc => {
                let swap = match &self.new_part_fs {
                    Some(f) => str_eq(f.as_str(), "swap"),
                    None => false,
                };
                if swap {
                    self.new_part_encrypt = None;
                    self.enc_buttons.unfocus();
                    self.new_part_fs = None;
                    self.fs_buttons.first_child();
                    self.fs_buttons.focus();
                } else {
                    self.back_to_mount();
                }
                NewPartSignal::Wait
            },
            Key::Char(' ') => {
                if self.enc_buttons.selected_child() == Some(0usize) {
                    self.toggle_encryption();
                }
                NewPartSignal::Wait
            },
            Key::Enter => match self.enc_buttons.selected_child() {
                Some(i) => {
                    if i == 0 {
                        self.toggle_encryption();
                        NewPartSignal::Wait
                    } else if i == 1 {
                        self.new_part_encrypt = Some(self.enc_selected);
                        if self.enc_selected {
                            self.collecting_pass = true;
                            self.pass1.focus();
                            NewPartSignal::Wait
                        } else {
                            self.finalize(drive_config)
                        }
                    } else if i == 2 {
                        self.back_to_mount();
                        NewPartSignal::Wait
                    } else {
                        NewPartSignal::Wait
                    }
                },
                None => NewPartSignal::Wait,
            },
            _ => NewPartSignal::Wait,
        }
    }

    /// The passphrase step (see `pass_step`).
    fn pass_key(&mut self, drive_config: &mut Option<Disk>, key: Key) -> (r: NewPartSignal)
        requires
            old(self).wf(),
            key != Key::Esc && key != Key::Enter ==> (old(self).pass1.focused ==> old(self).pass1.takes(key)) && (
            !old(self).pass1.focused && old(self).pass2.focused ==> old(self).pass2.takes(key)),
            (*old(drive_config)) matches Some(d) ==> d.wf(),
        ensures
            final(self).wf(),
            (*final(drive_config)) matches Some(d) ==> d.wf(),
            pass_step(*old(self), *final(self), disk_view_of(*old(drive_config)), disk_view_of(*final(drive_config)), key, r),
    {
        match key {
            Key::Esc => {
                self.collecting_pass = false;
                self.enc_buttons.focus();
                NewPartSignal::Wait
            },
            Key::Enter => {
                let p1 = trim(self.pass1.value.as_str());
                let p2 = trim(self.pass2.value.as_str());
                if utf8_shorter_than(p1.as_str(), 8) {
                    self.pass1.error(owned("Passphrase must be at least 8 characters."));
                    return NewPartSignal::Wait;
                }
                if !str_eq(p1.as_str(), p2.as_str()) {
                    self.pass2.error(owned("Passphrases do not match."));
                    return NewPartSignal::Wait;
                }
                self.new_part_luks_password = Some(p1);
                self.collecting_pass = false;
                self.finalize(drive_config)
            },
            _ => {
                if self.pass1.is_focused() {
                    self.pass1.handle_key(key);
                } else if self.pass2.is_focused() {
                    self.pass2.handle_key(key);
                } else {
                    self.pass1.focus();
                }
                NewPartSignal::Wait
            },
        }
    }

    /// The mount point step (see `mount_step`).
    fn mount_key(&mut self, drive_config: &mut Option<Disk>, key: Key) -> (r: NewPartSignal)
        requires
            old(self).wf(),
            !is_back(key) && key != Key::Enter ==> old(self).mount_input.takes(key),
            (*old(drive_config)) matches Some(d) ==> d.wf(),
        ensures
            final(self).wf(),
            (*final(drive_config)) matches Some(d) ==> d.wf(),
            mount_step(*old(self), *final(self), disk_view_of(*old(drive_config)), disk_view_of(*final(drive_config)), key, r),
    {
        match key {
            Key::Esc | Key::Left => {
                self.new_part_mount_point = None;
                self.mount_input.unfocus();
                self.new_part_fs = None;
                self.fs_buttons.first_child();
                self.fs_buttons.focus();
                NewPartSignal::Wait
            },
            Key::Enter => {
                let input = trim(self.mount_input.value.as_str());
                let taken = match drive_config {
                    Some(d) => collect_live_mounts(d),
                    None => return NewPartSignal::Error(owned("No drive config available for new partition mount point input")),
                };
                match SetMountPoint::validate_mount_point(input.as_str(), &taken) {
                    Err(err) => {
                        self.mount_input.error(err);
                        NewPartSignal::Wait
                    },
                    Ok(()) => {
                        let boot = str_eq(input.as_str(), "/boot") || str_eq(input.as_str(), "/boot/efi");
                        self.new_part_mount_point = Some(input);
                        self.mount_input.unfocus();
                        if boot {
                            self.new_part_encrypt = Some(false);
                            self.finalize(drive_config)
                        } else {
                            self.enc_buttons.first_child();
                            self.enc_buttons.focus();
                            NewPartSignal::Wait
                        }
                    },
                }
            },
            _ => {
                self.mount_input.handle_key(key);
                NewPartSignal::Wait
            },
        }
    }

    /// The key goes to the step that the form is at (see `new_part_stage`):
    /// size, filesystem, encryption, passphrase or mount point; once all is
    /// given the form is left.
    pub fn handle_key(&mut self, drive_config: &mut Option<Disk>, key: Key) -> (r: NewPartSignal)
        requires
            old(self).wf(),
            new_part_takes(*old(self), key),
            (*old(drive_config)) matches Some(d) ==> d.wf(),
        ensures
            final(self).wf(),
            (*final(drive_config)) matches Some(d) ==> d.wf(),
            ({
                let a = *old(self);
                let b = *final(self);
                let d = disk_view_of(*old(drive_config));
                let e = disk_view_of(*final(drive_config));
                let st = new_part_stage(a);
                if st == 0 {
                    e == d && size_step(a, b, d, key, r)
                } else if st == 1 {
                    e == d && r is Wait && fs_step(a, b, key)
                } else if st == 2 {
                    enc_step(a, b, d, e, key, r)
                } else if st == 3 {
                    pass_step(a, b, d, e, key, r)
                } else if st == 4 {
                    mount_step(a, b, d, e, key, r)
                } else {
                    b == a && e == d && r is Pop
                }
            }),
    {
        let st = self.stage();
        if st == 0 {
            self.size_key(drive_config, key)
        } else if st == 1 {
            self.fs_key(key);
            NewPartSignal::Wait
        } else if st == 2 {
            self.enc_key(drive_config, key)
        } else if st == 3 {
            self.pass_key(drive_config, key)
        } else if st == 4 {
            self.mount_key(drive_config, key)
        } else {
            NewPartSignal::Pop
        }
    }
}

/// The filesystem names of the filesystem buttons.
struct SelectFsNames;

impl SelectFsNames {
    fn name(i: usize) -> (r: Option<&'static str>)
        ensures
            match fs_choice(i) {
                Some(f) => r matches Some(s) && s@ == f,
                None => r is None,
            },
    {
        let v = vec![
            "ext4", "ext3", "ext2", "btrfs", "xfs", "fat12", "fat16", "fat32", "ntfs", "swap",
            "don't format",
        ];
        if i < v.len() {
            proof {
                assert(v@.map_values(|s: &str| s@) =~= fs_buttons().subrange(0, 11));
                assert(v@.map_values(|s: &str| s@)[i as int] == v@[i as int]@);
            }
            Some(v[i])
        } else {
            None
        }
    }
}

} // verus!
