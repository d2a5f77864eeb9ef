//! The page that alters one partition of the planned layout: which actions
//! and flags it offers for the partition's status, and what each does to the
//! disk.
use vstd::prelude::*;
use crate::drives::{
    add_flag_spec, find_id, free_space_spec, opt_view, Disk, DiskError, DiskItemView, DiskView, PartStatus,
    Partition, PartitionEdit, PartitionView,
};
use crate::text::{decimal, owned, strings_view, u64_to_decimal};
use crate::widgets::Key;

verus! {

/// An entry of the page's list: a button or a check box with its state.
#[derive(Clone, Copy, Debug)]
pub enum AlterItem {
    Button(&'static str),
    CheckBox(&'static str, bool),
}

/// What the page asks for after a key press.
#[derive(Debug)]
pub enum AlterSignal {
    Wait,
    Pop,
    /// Open the mount point page for this partition.
    SetMountPoint(u64),
    /// Open the file system page for this partition.
    SelectFilesystem(u64),
    /// Open the label page for this partition.
    SetLabel(u64),
    /// Ask for the encryption password of this partition.
    PromptLuksPassword(u64),
    Error(String),
}

/// The page: the partition it alters, as it was read, and the list of
/// actions with the one under the cursor.
pub struct AlterPartition {
    pub part_id: u64,
    pub part_status: PartStatus,
    pub is_swap: bool,
    pub items: Vec<AlterItem>,
    pub selected: usize,
}

/// The list of actions for a partition's status and flags; a swap partition
/// has no mount point and no boot flags.
pub open spec fn alter_items(status: PartStatus, flags: Seq<Seq<char>>, is_swap: bool) -> Seq<AlterItem> {
    let wipe = "Mark For Modification (data will be wiped on install)";
    if is_swap {
        match status {
            PartStatus::Exists => seq![
                AlterItem::Button(wipe),
                AlterItem::Button("Delete Partition"),
                AlterItem::Button("Back"),
            ],
            PartStatus::Modify => seq![
                AlterItem::CheckBox("Encryption (LUKS)", flags.contains("encrypt"@)),
                AlterItem::Button("Change Filesystem"),
                AlterItem::Button("Set Label"),
                AlterItem::Button("Unmark for modification"),
                AlterItem::Button("Delete Partition"),
                AlterItem::Button("Back"),
            ],
            PartStatus::Create => seq![
                AlterItem::CheckBox("Encryption (LUKS)", flags.contains("encrypt"@)),
                AlterItem::Button("Change Filesystem"),
                AlterItem::Button("Set Label"),
                AlterItem::Button("Delete Partition"),
                AlterItem::Button("Back"),
            ],
            _ => seq![AlterItem::Button("Back")],
        }
    } else {
        match status {
            PartStatus::Exists => seq![
                AlterItem::Button("Set Mount Point"),
                AlterItem::Button(wipe),
                AlterItem::Button("Delete Partition"),
                AlterItem::Button("Back"),
            ],
            PartStatus::Modify => seq![
                AlterItem::Button("Set Mount Point"),
                AlterItem::CheckBox("Mark as bootable partition", flags.contains("boot"@)),
                AlterItem::CheckBox("Mark as ESP partition", flags.contains("esp"@)),
                AlterItem::CheckBox("Mark as XBOOTLDR partition", flags.contains("bls_boot"@)),
                AlterItem::CheckBox("Encryption (LUKS)", flags.contains("encrypt"@)),
                AlterItem::Button("Change Filesystem"),
                AlterItem::Button("Set Label"),
                AlterItem::Button("Unmark for modification"),
                AlterItem::Button("Delete Partition"),
                AlterItem::Button("Back"),
            ],
            PartStatus::Create => seq![
                AlterItem::Button("Set Mount Point"),
                AlterItem::CheckBox("Mark as bootable partition", flags.contains("boot"@)),
                AlterItem::CheckBox("Mark as ESP partition", flags.contains("esp"@)),
                AlterItem::CheckBox("Mark as XBOOTLDR partition", flags.contains("bls_boot"@)),
                AlterItem::CheckBox("Encryption (LUKS)", flags.contains("encrypt"@)),
                AlterItem::Button("Change Filesystem"),
                AlterItem::Button("Set Label"),
                AlterItem::Button("Delete Partition"),
                AlterItem::Button("Back"),
            ],
            _ => seq![AlterItem::Button("Back")],
        }
    }
}

/// What the entry at `idx` does for a partition of this status.
#[derive(Clone, Copy, Debug, PartialEq, Eq, Structural)]
pub enum AlterAction {
    MountPoint,
    MarkModify,
    DeleteExisting,
    Back,
    Toggle,
    ChangeFs,
    Label,
    Unmark,
    DeleteMarked,
    RemoveCreated,
    Nothing,
}

/// The action of the entry at `idx` (see `alter_items`).
pub open spec fn alter_action(status: PartStatus, is_swap: bool, idx: usize) -> AlterAction {
    match status {
        PartStatus::Exists => if is_swap {
            if idx == 0 {
                AlterAction::MarkModify
            } else if idx == 1 {
                AlterAction::DeleteExisting
            } else if idx == 2 {
                AlterAction::Back
            } else {
                AlterAction::Nothing
            }
        } else {
            if idx == 0 {
                AlterAction::MountPoint
            } else if idx == 1 {
                AlterAction::MarkModify
            } else if idx == 2 {
                AlterAction::DeleteExisting
            } else if idx == 3 {
                AlterAction::Back
            } else {
                AlterAction::Nothing
            }
        },
        PartStatus::Modify => if is_swap {
            if idx == 0 {
                AlterAction::Toggle
            } else if idx == 1 {
                AlterAction::ChangeFs
            } else if idx == 2 {
                AlterAction::Label
            } else if idx == 3 {
                AlterAction::Unmark
            } else if idx == 4 {
                AlterAction::DeleteMarked
            } else if idx == 5 {
                AlterAction::Back
            } else {
                AlterAction::Nothing
            }
        } else {
            if idx == 0 {
                AlterAction::MountPoint
            } else if 1 <= idx <= 4 {
                AlterAction::Toggle
            } else if idx == 5 {
                AlterAction::ChangeFs
            } else if idx == 6 {
                AlterAction::Label
            } else if idx == 7 {
                AlterAction::Unmark
            } else if idx == 8 {
                AlterAction::DeleteMarked
            } else if idx == 9 {
                AlterAction::Back
            } else {
                AlterAction::Nothing
            }
        },
        PartStatus::Create => if is_swap {
            if idx == 0 {
                AlterAction::Toggle
            } else if idx == 1 {
                AlterAction::ChangeFs
            } else if idx == 2 {
                AlterAction::Label
            } else if idx == 3 {
                AlterAction::RemoveCreated
            } else if idx == 4 {
                AlterAction::Back
            } else {
                AlterAction::Nothing
            }
        } else {
            if idx == 0 {
                AlterAction::MountPoint
            } else if 1 <= idx <= 4 {
                AlterAction::Toggle
            } else if idx == 5 {
                AlterAction::ChangeFs
            } else if idx == 6 {
                AlterAction::Label
            } else if idx == 7 {
                AlterAction::RemoveCreated
            } else if idx == 8 {
                AlterAction::Back
            } else {
                AlterAction::Nothing
            }
        },
        _ => AlterAction::Nothing,
    }
}

/// The flag that the check box at `idx` stands for.
pub open spec fn checkbox_flag(is_swap: bool, idx: usize) -> Option<Seq<char>> {
    if is_swap {
        if idx == 0 {
            Some("encrypt"@)
        } else {
            None
        }
    } else if idx == 1 {
        Some("boot"@)
    } else if idx == 2 {
        Some("esp"@)
    } else if idx == 3 {
        Some("bls_boot"@)
    } else if idx == 4 {
        Some("encrypt"@)
    } else {
        None
    }
}

/// The partition found under `id`.
pub open spec fn part_of(d: DiskView, id: u64) -> Option<PartitionView> {
    match find_id(d.layout, id) {
        Some(i) => match d.layout[i] {
            DiskItemView::Part(p) => Some(p),
            _ => None,
        },
        None => None,
    }
}

/// The disk with the partition found under `id` replaced by `q`.
pub open spec fn with_part(d: DiskView, id: u64, q: PartitionView) -> DiskView {
    match find_id(d.layout, id) {
        Some(i) => match d.layout[i] {
            DiskItemView::Part(_) => DiskView { layout: d.layout.update(i, DiskItemView::Part(q)), ..d },
            _ => d,
        },
        None => d,
    }
}

/// The disk with the status of the partition under `id` set (unchanged when there is none).
pub open spec fn with_status(d: DiskView, id: u64, st: PartStatus) -> DiskView {
    match part_of(d, id) {
        Some(p) => with_part(d, id, PartitionView { status: st, ..p }),
        None => d,
    }
}

/// The flags with `flag` set or cleared.
pub open spec fn flagged(flags: Seq<Seq<char>>, flag: Seq<char>, on: bool) -> Seq<Seq<char>> {
    if on {
        add_flag_spec(flags, flag)
    } else {
        flags.filter(|x: Seq<char>| x != flag)
    }
}

/// `b` is the page `a` with its entries read again from the partition under
/// its identifier and the cursor on the first entry (`a` itself when there
/// is no partition).
pub open spec fn refreshed(a: AlterPartition, b: AlterPartition, d: DiskView) -> bool {
    match part_of(d, a.part_id) {
        Some(p) => {
            let swap = p.fs_type == Some("swap"@);
            &&& b.part_id == a.part_id
            &&& b.part_status == p.status
            &&& b.is_swap == swap
            &&& b.items@ == alter_items(p.status, p.flags, swap)
            &&& b.selected == 0
        },
        None => b == a,
    }
}

/// Toggling the check box under the cursor: the box flips and the flag it
/// stands for follows it on the partition; on a button nothing happens.
pub open spec fn toggled(page: AlterPartition, d: DiskView) -> (Seq<AlterItem>, DiskView) {
    let sel = page.selected;
    if sel < page.items@.len() {
        match page.items@[sel as int] {
            AlterItem::CheckBox(l, c) => (
                page.items@.update(sel as int, AlterItem::CheckBox(l, !c)),
                match (part_of(d, page.part_id), checkbox_flag(page.is_swap, sel)) {
                    (Some(p), Some(f)) => with_part(d, page.part_id, PartitionView { flags: flagged(p.flags, f, !c), ..p }),
                    _ => d,
                },
            ),
            AlterItem::Button(_) => (page.items@, d),
        }
    } else {
        (page.items@, d)
    }
}

/// The partition under `id` is marked for encryption.
pub open spec fn encrypted(d: DiskView, id: u64) -> bool {
    part_of(d, id) matches Some(p) && p.flags.contains("encrypt"@)
}

fn items_for(status: PartStatus, flags: &Vec<String>, is_swap: bool) -> (r: Vec<AlterItem>)
    ensures
        r@ == alter_items(status, strings_view(flags@), is_swap),
{
    let wipe = "Mark For Modification (data will be wiped on install)";
    let enc = crate::drives::strings_contain(flags, "encrypt");
    let boot = crate::drives::strings_contain(flags, "boot");
    let esp = crate::drives::strings_contain(flags, "esp");
    let bls = crate::drives::strings_contain(flags, "bls_boot");
    let r = if is_swap {
        match status {
            PartStatus::Exists => vec![
                AlterItem::Button(wipe),
                AlterItem::Button("Delete Partition"),
                AlterItem::Button("Back"),
            ],
            PartStatus::Modify => vec![
                AlterItem::CheckBox("Encryption (LUKS)", enc),
                AlterItem::Button("Change Filesystem"),
                AlterItem::Button("Set Label"),
                AlterItem::Button("Unmark for modification"),
                AlterItem::Button("Delete Partition"),
                AlterItem::Button("Back"),
            ],
            PartStatus::Create => vec![
                AlterItem::CheckBox("Encryption (LUKS)", enc),
                AlterItem::Button("Change Filesystem"),
                AlterItem::Button("Set Label"),
                AlterItem::Button("Delete Partition"),
                AlterItem::Button("Back"),
            ],
            _ => vec![AlterItem::Button("Back")],
        }
    } else {
        match status {
            PartStatus::Exists => vec![
                AlterItem::Button("Set Mount Point"),
                AlterItem::Button(wipe),
                AlterItem::Button("Delete Partition"),
                AlterItem::Button("Back"),
            ],
            PartStatus::Modify => vec![
                AlterItem::Button("Set Mount Point"),
                AlterItem::CheckBox("Mark as bootable partition", boot),
                AlterItem::CheckBox("Mark as ESP partition", esp),
                AlterItem::CheckBox("Mark as XBOOTLDR partition", bls),
                AlterItem::CheckBox("Encryption (LUKS)", enc),
                AlterItem::Button("Change Filesystem"),
                AlterItem::Button("Set Label"),
                AlterItem::Button("Unmark for modification"),
                AlterItem::Button("Delete Partition"),
                AlterItem::Button("Back"),
            ],
            PartStatus::Create => vec![
                AlterItem::Button("Set Mount Point"),
                AlterItem::CheckBox("Mark as bootable partition", boot),
                AlterItem::CheckBox("Mark as ESP partition", esp),
                AlterItem::CheckBox("Mark as XBOOTLDR partition", bls),
                AlterItem::CheckBox("Encryption (LUKS)", enc),
                AlterItem::Button("Change Filesystem"),
                AlterItem::Button("Set Label"),
                AlterItem::Button("Delete Partition"),
                AlterItem::Button("Back"),
            ],
            _ => vec![AlterItem::Button("Back")],
        }
    };
    assert(r@ =~= alter_items(status, strings_view(flags@), is_swap));
    r
}

fn is_swap_fs(p: &Partition) -> (r: bool)
    ensures
        r == (p@.fs_type == Some("swap"@)),
{
    match p.fs_type() {
        Some(fs) => crate::text::str_eq(fs, "swap"),
        None => false,
    }
}

impl AlterPartition {
    /// The page for a partition, with the cursor on the first entry.
    pub fn new(part: &Partition) -> (r: Self)
        ensures
            r.part_id == part@.id,
            r.part_status == part@.status,
            r.is_swap == (part@.fs_type == Some("swap"@)),
            r.items@ == alter_items(part@.status, part@.flags, r.is_swap),
            r.selected == 0,
    {
        let is_swap = is_swap_fs(part);
        let items = items_for(part.status(), part.flags(), is_swap);
        AlterPartition { part_id: part.id(), part_status: part.status(), is_swap, items, selected: 0 }
    }

    /// Reads the entries again from the partition on the disk.
    fn refresh_from(&mut self, device: &Disk)
        ensures
            refreshed(*old(self), *final(self), device@),
    {
        match device.partition_by_id(self.part_id) {
            Some(p) => {
                let swap = is_swap_fs(&p);
                self.part_status = p.status();
                self.is_swap = swap;
                self.items = items_for(p.status(), p.flags(), swap);
                self.selected = 0;
            },
            None => {},
        }
    }

    /// Toggles the check box under the cursor and the flag it stands for.
    fn toggle_current(&mut self, device: &mut Disk)
        ensures
            final(self).items@ == toggled(*old(self), old(device)@).0,
            final(device)@ == toggled(*old(self), old(device)@).1,
            final(self).part_id == old(self).part_id,
            final(self).part_status == old(self).part_status,
            final(self).is_swap == old(self).is_swap,
            final(self).selected == old(self).selected,
            old(device).wf() ==> final(device).wf(),
    {
        let sel = self.selected;
        if sel < self.items.len() {
            match self.items[sel] {
                AlterItem::CheckBox(label, checked) => {
                    let now = !checked;
                    self.items.set(sel, AlterItem::CheckBox(label, now));
                    let flag: Option<&'static str> = if self.is_swap {
                        if sel == 0 {
                            Some("encrypt")
                        } else {
                            None
                        }
                    } else if sel == 1 {
                        Some("boot")
                    } else if sel == 2 {
                        Some("esp")
                    } else if sel == 3 {
                        Some("bls_boot")
                    } else if sel == 4 {
                        Some("encrypt")
                    } else {
                        None
                    };
                    proof {
                        crate::drives::lemma_find_id(device@.layout, self.part_id);
                    }
                    match flag {
                        Some(f) => {
                            let edit = if now {
                                PartitionEdit::AddFlag(owned(f))
                            } else {
                                PartitionEdit::RemoveFlag(owned(f))
                            };
                            let _ = device.modify_partition(self.part_id, edit);
                        },
                        None => {},
                    }
                },
                AlterItem::Button(_) => {},
            }
        }
    }

    /// Esc or Left leave the page; Up or `k` and Down or `j` move the cursor;
    /// Space toggles the check box under the cursor; Enter, Right or `l` run
    /// the entry under the cursor (see `enter_effect`). Without a drive
    /// configuration Space does nothing and Enter reports it.
    pub fn handle_key(&mut self, drive_config: &mut Option<Disk>, key: Key) -> (r: AlterSignal)
        requires
            (*old(drive_config)) matches Some(d) ==> d.wf(),
        ensures
            (*final(drive_config)) matches Some(d) ==> d.wf(),
            final(self).part_id == old(self).part_id,
            ({
                let a = *old(self);
                let b = *final(self);
                let sel = a.selected;
                if key == Key::Esc || key == Key::Left {
                    b == a && *final(drive_config) == *old(drive_config) && r is Pop
                } else if key == Key::Up || key == Key::Char('k') {
                    &&& b == (AlterPartition { selected: if sel > 0 { (sel - 1) as usize } else { sel }, ..a })
                    &&& *final(drive_config) == *old(drive_config)
                    &&& r is Wait
                } else if key == Key::Down || key == Key::Char('j') {
                    &&& b == (AlterPartition {
                        selected: if sel + 1 < a.items@.len() { (sel + 1) as usize } else { sel },
                        ..a
                    })
                    &&& *final(drive_config) == *old(drive_config)
                    &&& r is Wait
                } else if key == Key::Char(' ') {
                    match *old(drive_config) {
                        None => b == a && (*final(drive_config)) is None && r is Wait,
                        Some(d) => (*final(drive_config)) matches Some(e) && {
                            &&& b.items@ == toggled(a, d@).0
                            &&& e@ == toggled(a, d@).1
                            &&& b.part_status == a.part_status && b.is_swap == a.is_swap && b.selected
                                == a.selected
                            &&& if encrypted(e@, a.part_id) {
                                r matches AlterSignal::PromptLuksPassword(x) && x == a.part_id
                            } else {
                                r is Wait
                            }
                        },
                    }
                } else if key == Key::Enter || key == Key::Right || key == Key::Char('l') {
                    if a.part_status == PartStatus::Delete {
                        b == a && *final(drive_config) == *old(drive_config) && r is Pop
                    } else {
                        match *old(drive_config) {
                            None => b == a && (*final(drive_config)) is None && (r matches AlterSignal::Error(m) && m@
                                == "No drive config available for altering partition"@),
                            Some(d) => (*final(drive_config)) matches Some(e) && enter_effect(a, d@, b, e@, r),
                        }
                    }
                } else {
                    b == a && *final(drive_config) == *old(drive_config) && r is Wait
                }
            }),
    {
        match key {
            Key::Esc | Key::Left => AlterSignal::Pop,
            Key::Up | Key::Char('k') => {
                if self.selected > 0 {
                    self.selected = self.selected - 1;
                }
                AlterSignal::Wait
            },
            Key::Down | Key::Char('j') => {
                if self.selected < self.items.len() && self.selected + 1 < self.items.len() {
                    self.selected = self.selected + 1;
                }
                AlterSignal::Wait
            },
            Key::Char(' ') => {
                match drive_config {
                    Some(device) => {
                        self.toggle_current(device);
                        if device_encrypted(device, self.part_id) {
                            AlterSignal::PromptLuksPassword(self.part_id)
                        } else {
                            AlterSignal::Wait
                        }
                    },
                    None => AlterSignal::Wait,
                }
            },
            Key::Enter | Key::Right | Key::Char('l') => {
                if self.part_status == PartStatus::Delete {
                    return AlterSignal::Pop;
                }
                match drive_config {
                    Some(device) => self.enter(device),
                    None => AlterSignal::Error(owned("No drive config available for altering partition")),
                }
            },
            _ => AlterSignal::Wait,
        }
    }

    /// What Enter does with the disk present and the partition not marked
    /// for deletion (see `handle_key`).
    fn enter(&mut self, device: &mut Disk) -> (r: AlterSignal)
        requires
            old(device).wf(),
            old(self).part_status != PartStatus::Delete,
        ensures
            final(device).wf(),
            final(self).part_id == old(self).part_id,
            enter_effect(*old(self), old(device)@, *final(self), final(device)@, r),
    {
        let id = self.part_id;
        let idx = self.selected;
        proof {
            crate::drives::lemma_find_id(device@.layout, id);
        }
        let exists_part = device.partition_by_id(id).is_some();
        match self.part_status {
            PartStatus::Exists => {
                if !exists_part {
                    let mut m = owned("No partition found with id ");
                    m.append(u64_to_decimal(id).as_str());
                    return AlterSignal::Error(m);
                }
                if self.is_swap {
                    if idx == 0 {
                        self.mark(device, PartStatus::Modify);
                        AlterSignal::Wait
                    } else if idx == 1 {
                        let _ = device.modify_partition(id, PartitionEdit::SetStatus(PartStatus::Delete));
                        device.calculate_free_space();
                        AlterSignal::Pop
                    } else if idx == 2 {
                        AlterSignal::Pop
                    } else {
                        AlterSignal::Wait
                    }
                } else {
                    if idx == 0 {
                        AlterSignal::SetMountPoint(id)
                    } else if idx == 1 {
                        self.mark(device, PartStatus::Modify);
                        AlterSignal::Wait
                    } else if idx == 2 {
                        let _ = device.modify_partition(id, PartitionEdit::SetStatus(PartStatus::Delete));
                        device.calculate_free_space();
                        AlterSignal::Pop
                    } else if idx == 3 {
                        AlterSignal::Pop
                    } else {
                        AlterSignal::Wait
                    }
                }
            },
            PartStatus::Modify => {
                let act = if self.is_swap {
                    if idx == 0 {
                        AlterAction::Toggle
                    } else if idx == 1 {
                        AlterAction::ChangeFs
                    } else if idx == 2 {
                        AlterAction::Label
                    } else if idx == 3 {
                        AlterAction::Unmark
                    } else if idx == 4 {
                        AlterAction::DeleteMarked
                    } else if idx == 5 {
                        AlterAction::Back
                    } else {
                        AlterAction::Nothing
                    }
                } else if idx == 0 {
                    AlterAction::MountPoint
                } else if 1 <= idx && idx <= 4 {
                    AlterAction::Toggle
                } else if idx == 5 {
                    AlterAction::ChangeFs
                } else if idx == 6 {
                    AlterAction::Label
                } else if idx == 7 {
                    AlterAction::Unmark
                } else if idx == 8 {
                    AlterAction::DeleteMarked
                } else if idx == 9 {
                    AlterAction::Back
                } else {
                    AlterAction::Nothing
                };
                self.run_marked(device, act)
            },
            PartStatus::Create => {
                let act = if self.is_swap {
                    if idx == 0 {
                        AlterAction::Toggle
                    } else if idx == 1 {
                        AlterAction::ChangeFs
                    } else if idx == 2 {
                        AlterAction::Label
                    } else if idx == 3 {
                        AlterAction::RemoveCreated
                    } else if idx == 4 {
                        AlterAction::Back
                    } else {
                        AlterAction::Nothing
                    }
                } else if idx == 0 {
                    AlterAction::MountPoint
                } else if 1 <= idx && idx <= 4 {
                    AlterAction::Toggle
                } else if idx == 5 {
                    AlterAction::ChangeFs
                } else if idx == 6 {
                    AlterAction::Label
                } else if idx == 7 {
                    AlterAction::RemoveCreated
                } else if idx == 8 {
                    AlterAction::Back
                } else {
                    AlterAction::Nothing
                };
                self.run_marked(device, act)
            },
            _ => AlterSignal::Wait,
        }
    }

    /// Sets the partition's status and reads the entries again.
    fn mark(&mut self, device: &mut Disk, st: PartStatus)
        requires
            old(device).wf(),
        ensures
            final(device).wf(),
            final(device)@ == with_status(old(device)@, old(self).part_id, st),
            refreshed(*old(self), *final(self), final(device)@),
    {
        proof {
            crate::drives::lemma_find_id(device@.layout, self.part_id);
        }
        let _ = device.modify_partition(self.part_id, PartitionEdit::SetStatus(st));
        self.refresh_from(device);
    }

    /// The actions on a partition marked for modification or creation.
    fn run_marked(&mut self, device: &mut Disk, act: AlterAction) -> (r: AlterSignal)
        requires
            old(device).wf(),
        ensures
            final(device).wf(),
            final(self).part_id == old(self).part_id,
            marked_effect(*old(self), old(device)@, act, *final(self), final(device)@, r),
    {
        let id = self.part_id;
        proof {
            crate::drives::lemma_find_id(device@.layout, id);
        }
        match act {
            AlterAction::Toggle => {
                self.toggle_current(device);
                if device_encrypted(device, id) {
                    AlterSignal::PromptLuksPassword(id)
                } else {
                    AlterSignal::Wait
                }
            },
            AlterAction::MountPoint => AlterSignal::SetMountPoint(id),
            AlterAction::ChangeFs => AlterSignal::SelectFilesystem(id),
            AlterAction::Label => AlterSignal::SetLabel(id),
            AlterAction::Unmark => {
                self.mark(device, PartStatus::Exists);
                AlterSignal::Wait
            },
            AlterAction::DeleteMarked => {
                let _ = device.modify_partition(id, PartitionEdit::SetStatus(PartStatus::Delete));
                AlterSignal::Pop
            },
            AlterAction::RemoveCreated => {
                let _ = device.modify_partition(id, PartitionEdit::SetStatus(PartStatus::Delete));
                match device.remove_partition(id) {
                    Ok(()) => AlterSignal::Pop,
                    Err(e) => AlterSignal::Error(e.message()),
                }
            },
            AlterAction::Back => AlterSignal::Pop,
            _ => AlterSignal::Wait,
        }
    }
}

/// The partition under `id` of the disk is marked for encryption.
fn device_encrypted(device: &Disk, id: u64) -> (r: bool)
    ensures
        r == encrypted(device@, id),
{
    match device.partition_by_id(id) {
        Some(p) => crate::drives::strings_contain(p.flags(), "encrypt"),
        None => false,
    }
}

/// The effect of an action on a partition marked for modification or creation.
pub open spec fn marked_effect(
    a: AlterPartition,
    d: DiskView,
    act: AlterAction,
    b: AlterPartition,
    e: DiskView,
    r: AlterSignal,
) -> bool {
    let id = a.part_id;
    match act {
        AlterAction::Toggle => {
            &&& b.items@ == toggled(a, d).0
            &&& e == toggled(a, d).1
            &&& b.part_status == a.part_status && b.is_swap == a.is_swap && b.selected == a.selected
            &&& if encrypted(e, id) {
                r matches AlterSignal::PromptLuksPassword(x) && x == id
            } else {
                r is Wait
            }
        },
        AlterAction::MountPoint => b == a && e == d && (r matches AlterSignal::SetMountPoint(x) && x == id),
        AlterAction::ChangeFs => b == a && e == d && (r matches AlterSignal::SelectFilesystem(x) && x == id),
        AlterAction::Label => b == a && e == d && (r matches AlterSignal::SetLabel(x) && x == id),
        AlterAction::Unmark => {
            &&& e == with_status(d, id, PartStatus::Exists)
            &&& refreshed(a, b, e)
            &&& r is Wait
        },
        AlterAction::DeleteMarked => b == a && e == with_status(d, id, PartStatus::Delete) && r is Pop,
        AlterAction::RemoveCreated => {
            let d1 = with_status(d, id, PartStatus::Delete);
            &&& b == a
            &&& match find_id(d1.layout, id) {
                None => e == d1 && (r matches AlterSignal::Error(m) && m@ == "No item with id "@ + decimal(
                    id as nat,
                )),
                Some(i) => if d1.layout[i] is Free {
                    e == d1 && (r matches AlterSignal::Error(m) && m@ == "Item with id "@ + decimal(id as nat)
                        + " is not a partition"@)
                } else {
                    &&& r is Pop
                    &&& (e.layout, e.next_id) == free_space_spec(DiskView { layout: d1.layout.remove(i), ..d1 })
                    &&& e == (DiskView { layout: e.layout, next_id: e.next_id, ..d1 })
                },
            }
        },
        AlterAction::Back => b == a && e == d && r is Pop,
        _ => b == a && e == d && r is Wait,
    }
}

/// The effect of Enter with the disk present, on a partition not marked for deletion.
pub open spec fn enter_effect(a: AlterPartition, d: DiskView, b: AlterPartition, e: DiskView, r: AlterSignal) -> bool {
    let id = a.part_id;
    let act = alter_action(a.part_status, a.is_swap, a.selected);
    if a.part_status == PartStatus::Exists {
        if part_of(d, id) is None {
            b == a && e == d && (r matches AlterSignal::Error(m) && m@ == "No partition found with id "@ + decimal(
                id as nat,
            ))
        } else if act == AlterAction::MarkModify {
            e == with_status(d, id, PartStatus::Modify) && refreshed(a, b, e) && r is Wait
        } else if act == AlterAction::DeleteExisting {
            let d1 = with_status(d, id, PartStatus::Delete);
            &&& b == a
            &&& r is Pop
            &&& (e.layout, e.next_id) == free_space_spec(d1)
            &&& e == (DiskView { layout: e.layout, next_id: e.next_id, ..d1 })
        } else if act == AlterAction::MountPoint {
            b == a && e == d && (r matches AlterSignal::SetMountPoint(x) && x == id)
        } else if act == AlterAction::Back {
            b == a && e == d && r is Pop
        } else {
            b == a && e == d && r is Wait
        }
    } else if a.part_status == PartStatus::Modify || a.part_status == PartStatus::Create {
        marked_effect(a, d, act, b, e, r)
    } else {
        b == a && e == d && r is Wait
    }
}

/// Marking an existing partition for modification and then unmarking it
/// gives back the disk as it was.
pub proof fn law_mark_then_unmark(d: DiskView, id: u64)
    requires
        part_of(d, id) matches Some(p) && p.status == PartStatus::Exists,
    ensures
        with_status(with_status(d, id, PartStatus::Modify), id, PartStatus::Exists) == d,
{
    let i = find_id(d.layout, id)->0;
    let p = part_of(d, id)->0;
    crate::drives::lemma_find_id(d.layout, id);
    let x = DiskItemView::Part(PartitionView { status: PartStatus::Modify, ..p });
    crate::drivepages::lemma_find_id_update(d.layout, id, i, x);
    let d1 = with_status(d, id, PartStatus::Modify);
    assert(d1.layout[i] == x);
    assert(d1.layout.update(i, DiskItemView::Part(p)) =~= d.layout);
}

} // verus!
