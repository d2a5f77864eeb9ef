//! The pages that lead from the drive menu to a disk layout: the choice of
//! method, of disk, of swap size and of filesystem, the offer to encrypt the
//! root partition and the offer of a suggested layout.
use vstd::prelude::*;
use crate::alter::{part_of, with_part};
use crate::drivepages::lemma_find_id_update;
use crate::drives::{
    assign_names, bump, default_parts, device_prefix, disk_cell, disk_headers_spec, disk_table,
    edited, find_id, free_space_spec, header_info_spec, item_cell, items_view, kept_for_default,
    lemma_find_id, part_table, partition_headers_spec, showable, tail_reserve, used_numbers, Disk,
    DiskItemView, DiskView, PartitionEdit, PartitionView,
};
use crate::manual::{disk_view_of, ManualPartition};
use crate::passwords::{with_encrypt, PromptLuksPassword};
use crate::text::{decimal, owned, owned_list, str_eq, strings_view, u64_to_decimal};
use crate::widgets::{
    ButtonMenu, CheckBox, InfoPiece, InfoText, Key, SpanStyle, TableWidget, next_row_spec, previous_row_spec,
};

verus! {

// ---------------------------------------------------------------------------
// Keys and the button cursor
// ---------------------------------------------------------------------------

/// Esc or Left.
pub open spec fn is_back(k: Key) -> bool {
    k == Key::Esc || k == Key::Left
}

/// Up or `k`.
pub open spec fn is_up(k: Key) -> bool {
    k == Key::Up || k == Key::Char('k')
}

/// Down or `j`.
pub open spec fn is_down(k: Key) -> bool {
    k == Key::Down || k == Key::Char('j')
}

/// Enter, Right or `l`.
pub open spec fn is_enter(k: Key) -> bool {
    k == Key::Enter || k == Key::Right || k == Key::Char('l')
}

/// The cursor's button, the first when there is none.
pub open spec fn cursor_of(m: ButtonMenu) -> usize {
    match m.focused_child {
        Some(i) => i,
        None => 0usize,
    }
}

/// The menu after Up: the cursor one button up unless it is on the first.
pub open spec fn menu_up(m: ButtonMenu) -> ButtonMenu {
    if cursor_of(m) > 0 {
        ButtonMenu { focused_child: Some((cursor_of(m) - 1) as usize), ..m }
    } else {
        m
    }
}

/// The menu after Down: the cursor one button down unless it is on the last.
pub open spec fn menu_down(m: ButtonMenu) -> ButtonMenu {
    if cursor_of(m) + 1 < m.labels@.len() {
        ButtonMenu { focused_child: Some((cursor_of(m) + 1) as usize), ..m }
    } else {
        m
    }
}

/// A focused menu of the given buttons with the cursor on the first.
fn focused_menu(labels: Vec<&str>) -> (r: ButtonMenu)
    requires
        labels@.len() > 0,
    ensures
        r.wf(),
        strings_view(r.labels@) == labels@.map_values(|s: &str| s@),
        r.focused,
        r.focused_child == Some(0usize),
{
    let owned_labels = owned_list(&labels);
    assert(strings_view(owned_labels@).len() == owned_labels@.len());
    let mut m = ButtonMenu::button_menu(owned_labels);
    m.focus();
    m
}

// ---------------------------------------------------------------------------
// Tables of disks and of a layout
// ---------------------------------------------------------------------------

/// `t` shows one row per disk under the disk columns.
pub open spec fn shows_disks(t: TableWidget, disks: Seq<Disk>) -> bool {
    &&& t.title@ == "Disks"@
    &&& t.num_fields == disk_headers_spec().len()
    &&& t.headers@.len() == disk_headers_spec().len()
    &&& t.widths@.len() == disk_headers_spec().len()
    &&& forall|k: int| 0 <= k < disk_headers_spec().len() ==> (#[trigger] t.headers@[k]@, t.widths@[k])
        == header_info_spec(disk_headers_spec()[k])
    &&& t.rows@.len() == disks.len()
    &&& forall|i: int| 0 <= i < disks.len() ==> (#[trigger] t.rows@[i])@.len() == disk_headers_spec().len()
    &&& forall|i: int, k: int| 0 <= i < disks.len() && 0 <= k < disk_headers_spec().len()
        ==> #[trigger] t.rows@[i]@[k]@ == disk_cell(disks[i]@, disk_headers_spec()[k])
}

/// `t` shows one row per entry of `layout` under the partition columns.
pub open spec fn shows_layout(t: TableWidget, layout: Seq<DiskItemView>, sector_size: u64) -> bool {
    &&& t.title@ == "Partitions"@
    &&& t.num_fields == partition_headers_spec().len()
    &&& t.headers@.len() == partition_headers_spec().len()
    &&& t.widths@.len() == partition_headers_spec().len()
    &&& forall|k: int| 0 <= k < partition_headers_spec().len() ==> (#[trigger] t.headers@[k]@, t.widths@[k])
        == header_info_spec(partition_headers_spec()[k])
    &&& t.rows@.len() == layout.len()
    &&& forall|i: int| 0 <= i < layout.len() ==> (#[trigger] t.rows@[i])@.len() == partition_headers_spec().len()
    &&& forall|i: int, k: int| 0 <= i < layout.len() && 0 <= k < partition_headers_spec().len()
        ==> #[trigger] t.rows@[i]@[k]@ == item_cell(layout[i], sector_size, partition_headers_spec()[k])
}

/// Every disk's size in bytes fits in 64 bits.
pub open spec fn disks_showable(disks: Seq<Disk>) -> bool {
    forall|i: int| 0 <= i < disks.len() ==> (#[trigger] disks[i])@.size * disks[i]@.sector_size <= u64::MAX
}

/// Every entry of the disk's layout can be shown in a table.
pub open spec fn layout_showable(d: DiskView) -> bool {
    forall|i: int| 0 <= i < d.layout.len() ==> showable(#[trigger] d.layout[i], d.sector_size)
}

/// The partition table of a disk.
fn layout_table(d: &Disk) -> (r: TableWidget)
    requires
        layout_showable(d@),
    ensures
        shows_layout(r, d@.layout, d@.sector_size),
        !r.focused,
        r.selected_row is None,
{
    let items = d.layout();
    assert forall|i: int| 0 <= i < items@.len() implies showable(#[trigger] items@[i]@, d@.sector_size) by {
        assert(items_view(items@)[i] == items@[i]@);
    }
    let t = part_table(items, d.sector_size());
    assert forall|i: int, k: int| 0 <= i < d@.layout.len() && 0 <= k < partition_headers_spec().len()
        implies #[trigger] t.rows@[i]@[k]@ == item_cell(d@.layout[i], d@.sector_size, partition_headers_spec()[k]) by {
        assert(items_view(items@)[i] == items@[i]@);
    }
    t
}

// ---------------------------------------------------------------------------
// What these pages ask of the page stack
// ---------------------------------------------------------------------------

/// What a drive page asks for after a key press.
pub enum DriveSignal {
    Wait,
    Pop,
    /// Leave this many pages.
    PopCount(usize),
    Error(String),
    /// List the disks, then hand the result to `Drives::after_listing` with this button.
    ListDisks(usize),
    SelectDrive(SelectDrive),
    SelectSwap(SelectSwap),
    SelectFilesystem(SelectFilesystem),
    Manual(ManualPartition),
    AskEncryptRoot(AskEncryptRoot),
    PromptLuks(PromptLuksPassword),
}

/// The common start of a key on a page with a help text: `?` shows or
/// hides it, and while it is shown Esc hides it and other keys do nothing.
pub open spec fn help_key(shown: bool, key: Key) -> Option<bool> {
    if key == Key::Char('?') {
        Some(!shown)
    } else if shown {
        Some(key != Key::Esc)
    } else {
        None
    }
}

// ---------------------------------------------------------------------------
// Drives: the choice of method
// ---------------------------------------------------------------------------

/// The buttons of the drive menu.
pub open spec fn drives_buttons() -> Seq<Seq<char>> {
    seq![
        "Use a best-effort default partition layout"@,
        "Configure partitions manually"@,
        "Back"@,
    ]
}

/// The drive menu: automatic layout, manual layout or back.
pub struct Drives {
    pub buttons: ButtonMenu,
    pub help_visible: bool,
}

impl Drives {
    pub fn new() -> (r: Self)
        ensures
            r.buttons.wf(),
            strings_view(r.buttons.labels@) == drives_buttons(),
            r.buttons.focused && r.buttons.focused_child == Some(0usize),
            !r.help_visible,
    {
        let buttons = focused_menu(vec![
            "Use a best-effort default partition layout",
            "Configure partitions manually",
            "Back",
        ]);
        proof {
            reveal_strlit("Use a best-effort default partition layout");
            reveal_strlit("Configure partitions manually");
            reveal_strlit("Back");
        }
        assert(strings_view(buttons.labels@) =~= drives_buttons());
        Drives { buttons, help_visible: false }
    }

    /// `?` and the help as usual; Esc or Left leaves; Up and Down move the
    /// cursor; Enter (or Right, `l`) asks for the disks to be listed for the
    /// button under the cursor.
    pub fn handle_key(&mut self, key: Key) -> (r: DriveSignal)
        requires
            old(self).buttons.wf(),
        ensures
            final(self).buttons.wf(),
            ({
                let a = *old(self);
                let b = *final(self);
                match help_key(a.help_visible, key) {
                    Some(h) => b == (Drives { help_visible: h, ..a }) && r is Wait,
                    None => if is_back(key) {
                        b == a && r is Pop
                    } else if is_up(key) {
                        b == (Drives { buttons: menu_up(a.buttons), ..a }) && r is Wait
                    } else if is_down(key) {
                        b == (Drives { buttons: menu_down(a.buttons), ..a }) && r is Wait
                    } else if is_enter(key) {
                        b == a && match a.buttons.focused_child {
                            Some(i) => r matches DriveSignal::ListDisks(j) && j == i,
                            None => r is Wait,
                        }
                    } else {
                        b == a && r is Wait
                    },
                }
            }),
    {
        if key == Key::Char('?') {
            self.help_visible = !self.help_visible;
            return DriveSignal::Wait;
        }
        if self.help_visible {
            if key == Key::Esc {
                self.help_visible = false;
            }
            return DriveSignal::Wait;
        }
        match key {
            Key::Esc | Key::Left => DriveSignal::Pop,
            Key::Up | Key::Char('k') => {
                self.buttons.prev_child();
                DriveSignal::Wait
            },
            Key::Down | Key::Char('j') => {
                self.buttons.next_child();
                DriveSignal::Wait
            },
            Key::Enter | Key::Right | Key::Char('l') => match self.buttons.selected_child() {
                Some(i) => DriveSignal::ListDisks(i),
                None => DriveSignal::Wait,
            },
            _ => DriveSignal::Wait,
        }
    }

    /// After the disks were listed for button `button`: a listing error is
    /// reported; otherwise the disks are kept and the first two buttons open
    /// the disk choice (automatic layout or not), the third leaves.
    pub fn after_listing(
        button: usize,
        listed: Result<Vec<Disk>, String>,
        drives: &mut Vec<Disk>,
        use_auto: &mut bool,
    ) -> (r: DriveSignal)
        requires
            listed matches Ok(disks) ==> disks_showable(disks@),
        ensures
            match listed {
                Err(e) => {
                    &&& (r matches DriveSignal::Error(m) && m@ == "Failed to list block devices: "@ + e@)
                    &&& *final(drives) == *old(drives) && *final(use_auto) == *old(use_auto)
                },
                Ok(disks) => {
                    &&& *final(drives) == disks
                    &&& if button < 2 {
                        &&& *final(use_auto) == (button == 0)
                        &&& (r matches DriveSignal::SelectDrive(p) && shows_disks(p.table, disks@)
                            && p.table.focused && p.table.selected_row == Some(0usize)
                            && !p.help_visible)
                    } else {
                        &&& *final(use_auto) == *old(use_auto)
                        &&& if button == 2 { r is Pop } else { r is Wait }
                    }
                },
            },
    {
        match listed {
            Err(e) => {
                let mut m = owned("Failed to list block devices: ");
                m.append(e.as_str());
                DriveSignal::Error(m)
            },
            Ok(disks) => {
                let table = disk_table(&disks);
                *drives = disks;
                if button == 0 {
                    *use_auto = true;
                    DriveSignal::SelectDrive(SelectDrive::new(table))
                } else if button == 1 {
                    *use_auto = false;
                    DriveSignal::SelectDrive(SelectDrive::new(table))
                } else if button == 2 {
                    DriveSignal::Pop
                } else {
                    DriveSignal::Wait
                }
            },
        }
    }
}

// ---------------------------------------------------------------------------
// The choice of disk
// ---------------------------------------------------------------------------

/// The disk table, focused.
pub struct SelectDrive {
    pub table: TableWidget,
    pub help_visible: bool,
}

impl SelectDrive {
    /// The page over a disk table, focused on its first row when none was highlighted.
    pub fn new(table: TableWidget) -> (r: Self)
        ensures
            r.table == (TableWidget {
                focused: true,
                selected_row: match table.selected_row {
                    Some(i) => Some(i),
                    None => Some(0usize),
                },
                ..table
            }),
            !r.help_visible,
    {
        let mut table = table;
        table.focus();
        SelectDrive { table, help_visible: false }
    }

    /// `?` and the help as usual; Esc or Left leaves; Up and Down move the
    /// highlight; Enter (or Right, `l`) on a row takes that disk as the
    /// configuration and goes on to the swap choice (automatic layout) or to
    /// manual partitioning over its layout; a row beyond the disks is an error.
    pub fn handle_key(
        &mut self,
        drives: &Vec<Disk>,
        drive_config: &mut Option<Disk>,
        use_auto: bool,
        key: Key,
    ) -> (r: DriveSignal)
        requires
            forall|i: int| 0 <= i < drives@.len() ==> (#[trigger] drives@[i]).wf() && layout_showable(drives@[i]@),
        ensures
            ({
                let a = *old(self);
                let b = *final(self);
                let d = disk_view_of(*old(drive_config));
                let e = disk_view_of(*final(drive_config));
                match help_key(a.help_visible, key) {
                    Some(h) => b == (SelectDrive { help_visible: h, ..a }) && e == d && r is Wait,
                    None => if is_back(key) {
                        b == a && e == d && r is Pop
                    } else if is_up(key) {
                        &&& b == (SelectDrive { table: TableWidget { selected_row: previous_row_spec(a.table.selected_row).0, ..a.table }, ..a })
                        &&& e == d && r is Wait
                    } else if is_down(key) {
                        &&& b == (SelectDrive { table: TableWidget { selected_row: next_row_spec(a.table.selected_row, a.table.rows@.len()).0, ..a.table }, ..a })
                        &&& e == d && r is Wait
                    } else if is_enter(key) {
                        &&& b == a
                        &&& match a.table.selected_row {
                            None => e == d && r is Wait,
                            Some(row) => if row < drives@.len() {
                                let disk = drives@[row as int]@;
                                &&& e == Some(disk)
                                &&& (*final(drive_config)) matches Some(c) && c.wf()
                                &&& if use_auto {
                                    r matches DriveSignal::SelectSwap(p) && p.buttons.wf()
                                        && strings_view(p.buttons.labels@) == swap_buttons()
                                        && p.buttons.focused_child == Some(0usize) && !p.help_visible
                                } else {
                                    r matches DriveSignal::Manual(m) && shows_layout(m.table, disk.layout, disk.sector_size)
                                        && m.table.focused && m.table.selected_row == Some(0usize)
                                        && !m.buttons_focused && m.button == 0 && !m.confirming_reset
                                        && !m.help_visible
                                }
                            } else {
                                e == d && (r matches DriveSignal::Error(m) && m@ == "Failed to find drive info"@)
                            },
                        }
                    } else {
                        b == a && e == d && r is Wait
                    },
                }
            }),
    {
        if key == Key::Char('?') {
            self.help_visible = !self.help_visible;
            return DriveSignal::Wait;
        }
        if self.help_visible {
            if key == Key::Esc {
                self.help_visible = false;
            }
            return DriveSignal::Wait;
        }
        match key {
            Key::Esc | Key::Left => DriveSignal::Pop,
            Key::Up | Key::Char('k') => {
                self.table.previous_row();
                DriveSignal::Wait
            },
            Key::Down | Key::Char('j') => {
                self.table.next_row();
                DriveSignal::Wait
            },
            Key::Enter | Key::Right | Key::Char('l') => match self.table.selected_row() {
                None => DriveSignal::Wait,
                Some(row) => {
                    if row < drives.len() {
                        let disk = drives[row].clone();
                        if use_auto {
                            *drive_config = Some(disk);
                            DriveSignal::SelectSwap(SelectSwap::new())
                        } else {
                            let table = layout_table(&disk);
                            *drive_config = Some(disk);
                            DriveSignal::Manual(ManualPartition::new(table))
                        }
                    } else {
                        DriveSignal::Error(owned("Failed to find drive info"))
                    }
                },
            },
            _ => DriveSignal::Wait,
        }
    }
}

// ---------------------------------------------------------------------------
// The choice of swap size
// ---------------------------------------------------------------------------

/// The buttons of the swap page.
pub open spec fn swap_buttons() -> Seq<Seq<char>> {
    seq!["No swap"@, "1 GB"@, "2 GB"@, "4 GB"@, "8 GB"@, "Back"@]
}

/// The swap size that button `i` sets, for the buttons that set one.
pub open spec fn swap_choice(i: usize) -> Option<Option<u64>> {
    if i == 0 {
        Some(None)
    } else if i == 1 {
        Some(Some(1u64))
    } else if i == 2 {
        Some(Some(2u64))
    } else if i == 3 {
        Some(Some(4u64))
    } else if i == 4 {
        Some(Some(8u64))
    } else {
        None
    }
}

pub struct SelectSwap {
    pub buttons: ButtonMenu,
    pub help_visible: bool,
}

impl SelectSwap {
    pub fn new() -> (r: Self)
        ensures
            r.buttons.wf(),
            strings_view(r.buttons.labels@) == swap_buttons(),
            r.buttons.focused && r.buttons.focused_child == Some(0usize),
            !r.help_visible,
    {
        let buttons = focused_menu(vec!["No swap", "1 GB", "2 GB", "4 GB", "8 GB", "Back"]);
        proof {
            reveal_strlit("No swap");
            reveal_strlit("1 GB");
            reveal_strlit("2 GB");
            reveal_strlit("4 GB");
            reveal_strlit("8 GB");
            reveal_strlit("Back");
        }
        assert(strings_view(buttons.labels@) =~= swap_buttons());
        SelectSwap { buttons, help_visible: false }
    }

    /// `?` and the help as usual; Esc or Left leaves; Up and Down move the
    /// cursor; Enter (or Right, `l`) sets the swap size of the button and
    /// goes on to the filesystem choice, or leaves on Back.
    pub fn handle_key(&mut self, swap: &mut Option<u64>, key: Key) -> (r: DriveSignal)
        requires
            old(self).buttons.wf(),
        ensures
            final(self).buttons.wf(),
            ({
                let a = *old(self);
                let b = *final(self);
                match help_key(a.help_visible, key) {
                    Some(h) => b == (SelectSwap { help_visible: h, ..a }) && r is Wait && *final(swap) == *old(swap),
                    None => if is_back(key) {
                        b == a && r is Pop && *final(swap) == *old(swap)
                    } else if is_up(key) {
                        b == (SelectSwap { buttons: menu_up(a.buttons), ..a }) && r is Wait && *final(swap) == *old(swap)
                    } else if is_down(key) {
                        b == (SelectSwap { buttons: menu_down(a.buttons), ..a }) && r is Wait && *final(swap) == *old(swap)
                    } else if is_enter(key) {
                        &&& b == a
                        &&& match a.buttons.focused_child {
                            Some(i) => match swap_choice(i) {
                                Some(s) => *final(swap) == s && (r matches DriveSignal::SelectFilesystem(p)
                                    && p.dev_id is None && p.buttons.wf()
                                    && strings_view(p.buttons.labels@) == fs_buttons()
                                    && p.buttons.focused_child == Some(0usize) && !p.help_visible),
                                None => *final(swap) == *old(swap) && if i == 5 { r is Pop } else { r is Wait },
                            },
                            None => *final(swap) == *old(swap) && r is Wait,
                        }
                    } else {
                        b == a && r is Wait && *final(swap) == *old(swap)
                    },
                }
            }),
    {
        if key == Key::Char('?') {
            self.help_visible = !self.help_visible;
            return DriveSignal::Wait;
        }
        if self.help_visible {
            if key == Key::Esc {
                self.help_visible = false;
            }
            return DriveSignal::Wait;
        }
        match key {
            Key::Esc | Key::Left => DriveSignal::Pop,
            Key::Up | Key::Char('k') => {
                self.buttons.prev_child();
                DriveSignal::Wait
            },
            Key::Down | Key::Char('j') => {
                self.buttons.next_child();
                DriveSignal::Wait
            },
            Key::Enter | Key::Right | Key::Char('l') => match self.buttons.selected_child() {
                None => DriveSignal::Wait,
                Some(i) => {
                    let s = if i == 0 {
                        None
                    } else if i == 1 {
                        Some(1u64)
                    } else if i == 2 {
                        Some(2u64)
                    } else if i == 3 {
                        Some(4u64)
                    } else if i == 4 {
                        Some(8u64)
                    } else if i == 5 {
                        return DriveSignal::Pop;
                    } else {
                        return DriveSignal::Wait;
                    };
                    *swap = s;
                    DriveSignal::SelectFilesystem(SelectFilesystem::new(None))
                },
            },
            _ => DriveSignal::Wait,
        }
    }
}

// ---------------------------------------------------------------------------
// The choice of filesystem
// ---------------------------------------------------------------------------

/// The buttons of the filesystem page.
pub open spec fn fs_buttons() -> Seq<Seq<char>> {
    seq![
        "ext4"@, "ext3"@, "ext2"@, "btrfs"@, "xfs"@, "fat12"@, "fat16"@, "fat32"@, "ntfs"@,
        "swap"@, "don't format"@, "Back"@,
    ]
}

/// The filesystem named by button `i`, for the buttons before Back.
pub open spec fn fs_choice(i: usize) -> Option<Seq<char>> {
    if i < 11 {
        Some(fs_buttons()[i as int])
    } else {
        None
    }
}

/// A partition given the filesystem `fs`; a swap partition also loses its
/// boot flags and mount point and is labelled SWAP.
pub open spec fn with_fs(p: PartitionView, fs: Seq<char>) -> PartitionView {
    if fs == "swap"@ {
        PartitionView {
            fs_type: Some(fs),
            flags: p.flags.filter(|x: Seq<char>| x != "boot"@).filter(|x: Seq<char>| x != "esp"@).filter(
                |x: Seq<char>| x != "bls_boot"@,
            ),
            mount_point: None,
            label: Some("SWAP"@),
            ..p
        }
    } else {
        PartitionView { fs_type: Some(fs), ..p }
    }
}

/// The disk with the default layout for `fs` and `swap_gb` laid out and numbered.
pub open spec fn with_default_layout(d: DiskView, fs: Option<Seq<char>>, swap_gb: Option<u64>) -> DiskView {
    let parts = default_parts(d, fs, swap_gb);
    let l0 = kept_for_default(d.layout) + parts;
    let n0 = if parts.len() == 3 { bump(bump(bump(d.next_id))) } else { bump(bump(d.next_id)) };
    let (l2, n2) = free_space_spec(DiskView { layout: l0, next_id: n0, ..d });
    DiskView { layout: assign_names(l2, used_numbers(l2), device_prefix(d.name)), next_id: n2, ..d }
}

/// The disk with its partitions numbered again.
pub open spec fn renumbered(d: DiskView) -> DiskView {
    DiskView { layout: assign_names(d.layout, used_numbers(d.layout), device_prefix(d.name)), ..d }
}

/// The default layout can be computed for the disk.
pub open spec fn default_layout_ok(d: DiskView) -> bool {
    d.size <= u64::MAX - 8192 && d.size >= tail_reserve(d.label, d.sector_size as nat)
}

/// The identifier of the first partition mounted at `/`.
pub open spec fn root_id_of(l: Seq<DiskItemView>) -> Option<u64>
    decreases l.len(),
{
    if l.len() == 0 {
        None
    } else {
        match l[0] {
            DiskItemView::Part(p) => if p.mount_point == Some("/"@) {
                Some(p.id)
            } else {
                root_id_of(l.drop_first())
            },
            _ => root_id_of(l.drop_first()),
        }
    }
}

/// The identifier of the first partition of the disk mounted at `/`.
pub fn root_partition_id(d: &Disk) -> (r: Option<u64>)
    ensures
        r == root_id_of(d@.layout),
{
    let items = d.layout();
    let ghost l = d@.layout;
    let mut i: usize = 0;
    assert(l.subrange(0, l.len() as int) =~= l);
    while i < items.len()
        invariant
            items_view(items@) == l,
            l == d@.layout,
            i <= l.len(),
            root_id_of(l) == root_id_of(l.subrange(i as int, l.len() as int)),
        decreases l.len() - i,
    {
        assert(items@[i as int]@ == l[i as int]);
        assert(l.subrange(i as int, l.len() as int)[0] == l[i as int]);
        assert(l.subrange(i as int, l.len() as int).drop_first() =~= l.subrange(i + 1, l.len() as int));
        if let Some(mp) = items[i].mount_point() {
            if str_eq(mp, "/") {
                let id = items[i].id();
                assert(root_id_of(l.subrange(i as int, l.len() as int)) == Some(id)) by {
                    match l[i as int] {
                        DiskItemView::Part(p) => {
                            assert(p.mount_point == Some(mp@));
                        },
                        _ => {},
                    }
                }
                return Some(id);
            }
        }
        i = i + 1;
    }
    assert(l.subrange(l.len() as int, l.len() as int) =~= Seq::<DiskItemView>::empty());
    None
}

/// Replacing the partition under `id` twice is replacing it once with the
/// second value, when the first keeps the identifier.
proof fn lemma_with_part_twice(d: DiskView, id: u64, q1: PartitionView, q2: PartitionView)
    requires
        part_of(d, id) is Some,
        q1.id == id,
    ensures
        part_of(with_part(d, id, q1), id) == Some(q1),
        with_part(with_part(d, id, q1), id, q2) == with_part(d, id, q2),
{
    lemma_find_id(d.layout, id);
    let i = find_id(d.layout, id)->0;
    lemma_find_id_update(d.layout, id, i, DiskItemView::Part(q1));
    assert(d.layout.update(i, DiskItemView::Part(q1)).update(i, DiskItemView::Part(q2))
        =~= d.layout.update(i, DiskItemView::Part(q2)));
}

/// Applies an edit to the partition found under `id`.
fn edit_found(d: &mut Disk, id: u64, e: PartitionEdit)
    requires
        part_of(old(d)@, id) is Some,
        old(d).wf(),
    ensures
        final(d).wf(),
        final(d)@ == with_part(old(d)@, id, edited(part_of(old(d)@, id)->0, e)),
        part_of(final(d)@, id) == Some(edited(part_of(old(d)@, id)->0, e)),
{
    let ghost l = d@.layout;
    let ghost p = part_of(d@, id)->0;
    let ghost i = find_id(l, id)->0;
    proof {
        lemma_find_id(l, id);
    }
    let ghost q = edited(p, e);
    d.modify_partition(id, e);
    proof {
        assert(crate::drives::item_id(DiskItemView::Part(q)) == id);
        lemma_find_id_update(l, id, i, DiskItemView::Part(q));
    }
}

/// The text shown beside the filesystem at `idx`.
pub open spec fn fs_info(idx: usize) -> (&'static str, Seq<InfoPiece>) {
    if idx == 0 {
        ("ext4", seq![
            InfoPiece::Span(SpanStyle::Highlight, "ext4"),
            InfoPiece::Span(SpanStyle::Plain, " is a"),
            InfoPiece::Span(SpanStyle::Highlight, " widely used and stable filesystem"),
            InfoPiece::Span(SpanStyle::Plain, " known for its "),
            InfoPiece::Span(SpanStyle::Highlight, "reliability and performance."),
            InfoPiece::Break,
            InfoPiece::Span(SpanStyle::Plain, "It supports "),
            InfoPiece::Span(SpanStyle::Highlight, "journaling"),
            InfoPiece::Span(SpanStyle::Plain, ", which helps "),
            InfoPiece::Span(SpanStyle::Highlight, "protect against data corruption "),
            InfoPiece::Span(SpanStyle::Plain, "in case of crashes."),
            InfoPiece::Break,
            InfoPiece::Span(SpanStyle::Plain, "It's a good choice for"),
            InfoPiece::Span(SpanStyle::Highlight, " general-purpose"),
            InfoPiece::Span(SpanStyle::Plain, " use and is"),
            InfoPiece::Span(SpanStyle::Highlight, " well-supported across various Linux distributions."),
            InfoPiece::Break,
        ])
    } else if idx == 1 {
        ("ext3", seq![
            InfoPiece::Span(SpanStyle::Highlight, "ext3"),
            InfoPiece::Span(SpanStyle::Plain, " is an older journaling filesystem that builds upon ext2."),
            InfoPiece::Break,
            InfoPiece::Span(SpanStyle::Plain, "It provides "),
            InfoPiece::Span(SpanStyle::Highlight, "journaling"),
            InfoPiece::Span(SpanStyle::Plain, " capabilities to improve data integrity and recovery after crashes."),
            InfoPiece::Break,
            InfoPiece::Span(SpanStyle::Plain, "While it is "),
            InfoPiece::Span(SpanStyle::Highlight, "reliable and stable"),
            InfoPiece::Span(SpanStyle::Plain, ", it lacks some of the performance and features of ext4."),
            InfoPiece::Break,
        ])
    } else if idx == 2 {
        ("ext2", seq![
            InfoPiece::Span(SpanStyle::Highlight, "ext2"),
            InfoPiece::Span(SpanStyle::Plain, " is a non-journaling filesystem that is simple and efficient."),
            InfoPiece::Break,
            InfoPiece::Span(SpanStyle::Plain, "It is suitable for use cases where "),
            InfoPiece::Span(SpanStyle::Highlight, "journaling is not required"),
            InfoPiece::Span(SpanStyle::Plain, ", such as "),
            InfoPiece::Span(SpanStyle::Highlight, "flash drives"),
            InfoPiece::Span(SpanStyle::Plain, " or "),
            InfoPiece::Span(SpanStyle::Highlight, "small partitions"),
            InfoPiece::Span(SpanStyle::Plain, "."),
            InfoPiece::Break,
            InfoPiece::Span(SpanStyle::Plain, "However, it is more "),
            InfoPiece::Span(SpanStyle::Highlight, "prone to data corruption "),
            InfoPiece::Span(SpanStyle::Plain, "in case of crashes compared to ext3 and ext4."),
            InfoPiece::Break,
        ])
    } else if idx == 3 {
        ("btrfs", seq![
            InfoPiece::Span(SpanStyle::Highlight, "btrfs"),
            InfoPiece::Span(SpanStyle::Plain, " ("),
            InfoPiece::Span(SpanStyle::Italic, "B-tree filesystem"),
            InfoPiece::Span(SpanStyle::Plain, ") is a "),
            InfoPiece::Span(SpanStyle::Highlight, "modern filesystem"),
            InfoPiece::Span(SpanStyle::Plain, " that offers advanced features like "),
            InfoPiece::Span(SpanStyle::Highlight, "snapshots"),
            InfoPiece::Span(SpanStyle::Plain, ", "),
            InfoPiece::Span(SpanStyle::Highlight, "subvolumes"),
            InfoPiece::Span(SpanStyle::Plain, ", and "),
            InfoPiece::Span(SpanStyle::Highlight, "built-in RAID support"),
            InfoPiece::Span(SpanStyle::Plain, "."),
            InfoPiece::Break,
            InfoPiece::Span(SpanStyle::Plain, "It is designed for "),
            InfoPiece::Span(SpanStyle::Highlight, "scalability"),
            InfoPiece::Span(SpanStyle::Plain, " and "),
            InfoPiece::Span(SpanStyle::Highlight, "flexibility"),
            InfoPiece::Span(SpanStyle::Plain, ", making it suitable for systems that require "),
            InfoPiece::Span(SpanStyle::Highlight, "complex storage solutions."),
            InfoPiece::Break,
            InfoPiece::Span(SpanStyle::Plain, "However, it may not be as mature as "),
            InfoPiece::Span(SpanStyle::Highlight, "ext4"),
            InfoPiece::Span(SpanStyle::Plain, " in terms of "),
            InfoPiece::Span(SpanStyle::Highlight, "stability"),
            InfoPiece::Span(SpanStyle::Plain, " for all use cases."),
            InfoPiece::Break,
        ])
    } else if idx == 4 {
        ("xfs", seq![
            InfoPiece::Span(SpanStyle::Highlight, "XFS"),
            InfoPiece::Span(SpanStyle::Plain, " is a "),
            InfoPiece::Span(SpanStyle::Highlight, "high-performance journaling filesystem"),
            InfoPiece::Span(SpanStyle::Plain, " that excels in handling "),
            InfoPiece::Span(SpanStyle::Highlight, "large files"),
            InfoPiece::Span(SpanStyle::Plain, " and "),
            InfoPiece::Span(SpanStyle::Highlight, "high I/O workloads"),
            InfoPiece::Span(SpanStyle::Plain, "."),
            InfoPiece::Break,
            InfoPiece::Span(SpanStyle::Plain, "It is known for its "),
            InfoPiece::Span(SpanStyle::Highlight, "scalability"),
            InfoPiece::Span(SpanStyle::Plain, " and "),
            InfoPiece::Span(SpanStyle::Highlight, "robustness"),
            InfoPiece::Span(SpanStyle::Plain, ", making it a popular choice for "),
            InfoPiece::Span(SpanStyle::Highlight, "enterprise environments"),
            InfoPiece::Span(SpanStyle::Plain, "."),
            InfoPiece::Break,
            InfoPiece::Span(SpanStyle::Highlight, "XFS"),
            InfoPiece::Span(SpanStyle::Plain, " is particularly well-suited for systems that require efficient handling of "),
            InfoPiece::Span(SpanStyle::Highlight, "large datasets"),
            InfoPiece::Span(SpanStyle::Plain, "."),
            InfoPiece::Break,
        ])
    } else if idx == 5 {
        ("fat12", seq![
            InfoPiece::Span(SpanStyle::Highlight, "FAT12"),
            InfoPiece::Span(SpanStyle::Plain, " is a "),
            InfoPiece::Span(SpanStyle::Highlight, "simple "),
            InfoPiece::Span(SpanStyle::Plain, "and "),
            InfoPiece::Span(SpanStyle::Highlight, "widely supported "),
            InfoPiece::Span(SpanStyle::Plain, "filesystem primarily used for "),
            InfoPiece::Span(SpanStyle::Highlight, "small storage devices"),
            InfoPiece::Span(SpanStyle::Plain, " like floppy disks."),
            InfoPiece::Break,
            InfoPiece::Span(SpanStyle::Plain, "It has "),
            InfoPiece::Span(SpanStyle::Highlight, "limitations "),
            InfoPiece::Span(SpanStyle::Plain, "in terms of "),
            InfoPiece::Span(SpanStyle::Highlight, "maximum partition size "),
            InfoPiece::Span(SpanStyle::Plain, "and file size, making it "),
            InfoPiece::Span(SpanStyle::Highlight, "less suitable for modern systems"),
            InfoPiece::Span(SpanStyle::Plain, "."),
            InfoPiece::Break,
        ])
    } else if idx == 6 {
        ("fat16", seq![
            InfoPiece::Span(SpanStyle::Highlight, "FAT16"),
            InfoPiece::Span(SpanStyle::Plain, " is an older filesystem that "),
            InfoPiece::Span(SpanStyle::Highlight, "extends FAT12"),
            InfoPiece::Span(SpanStyle::Plain, " to support "),
            InfoPiece::Span(SpanStyle::Highlight, "larger partitions and files."),
            InfoPiece::Break,
            InfoPiece::Span(SpanStyle::Plain, "It is still used in some "),
            InfoPiece::Span(SpanStyle::Highlight, "embedded systems "),
            InfoPiece::Span(SpanStyle::Plain, "and "),
            InfoPiece::Span(SpanStyle::Highlight, "older devices "),
            InfoPiece::Span(SpanStyle::Plain, "but has "),
            InfoPiece::Span(SpanStyle::Highlight, "limitations compared to more modern filesystems"),
            InfoPiece::Span(SpanStyle::Plain, "."),
            InfoPiece::Break,
        ])
    } else if idx == 7 {
        ("fat32", seq![
            InfoPiece::Span(SpanStyle::Highlight, "FAT32"),
            InfoPiece::Span(SpanStyle::Plain, " is a widely supported filesystem that can handle"),
            InfoPiece::Span(SpanStyle::Highlight, " larger partitions and files than FAT16"),
            InfoPiece::Span(SpanStyle::Plain, "."),
            InfoPiece::Break,
            InfoPiece::Span(SpanStyle::Plain, "It is commonly used for USB drives and memory cards due to its broad "),
            InfoPiece::Span(SpanStyle::Highlight, "cross-platform compatibility"),
            InfoPiece::Span(SpanStyle::Plain, "."),
            InfoPiece::Break,
            InfoPiece::Span(SpanStyle::Plain, "FAT32 is also commonly used for "),
            InfoPiece::Span(SpanStyle::Highlight, "EFI System Partitions (ESP)"),
            InfoPiece::Span(SpanStyle::Plain, " on UEFI systems, allowing the firmware to load the bootloader."),
            InfoPiece::Break,
            InfoPiece::Span(SpanStyle::Plain, "However, it has limitations such as a "),
            InfoPiece::Span(SpanStyle::Highlight, "maximum file size of 4GB"),
            InfoPiece::Span(SpanStyle::Plain, " and"),
            InfoPiece::Span(SpanStyle::Highlight, " lack of modern journaling features."),
            InfoPiece::Break,
        ])
    } else if idx == 8 {
        ("ntfs", seq![
            InfoPiece::Span(SpanStyle::Highlight, "NTFS"),
            InfoPiece::Span(SpanStyle::Plain, " is a"),
            InfoPiece::Span(SpanStyle::Highlight, " robust"),
            InfoPiece::Span(SpanStyle::Plain, " and"),
            InfoPiece::Span(SpanStyle::Highlight, " feature-rich"),
            InfoPiece::Span(SpanStyle::Plain, " filesystem developed by Microsoft."),
            InfoPiece::Break,
            InfoPiece::Span(SpanStyle::Plain, "It supports "),
            InfoPiece::Span(SpanStyle::Highlight, "large files"),
            InfoPiece::Span(SpanStyle::Plain, ", "),
            InfoPiece::Span(SpanStyle::Highlight, "advanced permissions"),
            InfoPiece::Span(SpanStyle::Plain, ", "),
            InfoPiece::Span(SpanStyle::Highlight, "encryption"),
            InfoPiece::Span(SpanStyle::Plain, ", and "),
            InfoPiece::Span(SpanStyle::Highlight, "journaling"),
            InfoPiece::Span(SpanStyle::Plain, "."),
            InfoPiece::Break,
            InfoPiece::Span(SpanStyle::Plain, "While it is"),
            InfoPiece::Span(SpanStyle::Highlight, " primarily used in Windows environments"),
            InfoPiece::Span(SpanStyle::Plain, ", Linux has good support for NTFS through the "),
            InfoPiece::Span(SpanStyle::Highlight, "ntfs-3g"),
            InfoPiece::Span(SpanStyle::Plain, " driver."),
            InfoPiece::Break,
            InfoPiece::Span(SpanStyle::Plain, "NTFS is a good choice if you need to "),
            InfoPiece::Span(SpanStyle::Highlight, "share data between Windows and Linux systems "),
            InfoPiece::Span(SpanStyle::Plain, "or if you require features like "),
            InfoPiece::Span(SpanStyle::Highlight, "file compression and encryption"),
            InfoPiece::Span(SpanStyle::Plain, "."),
            InfoPiece::Break,
        ])
    } else if idx == 9 {
        ("swap", seq![
            InfoPiece::Span(SpanStyle::Highlight, "swap"),
            InfoPiece::Span(SpanStyle::Plain, " is used as virtual memory backing."),
            InfoPiece::Break,
            InfoPiece::Span(SpanStyle::Plain, "No mount point. Can be "),
            InfoPiece::Span(SpanStyle::Highlight, "encrypted"),
            InfoPiece::Span(SpanStyle::Plain, "."),
            InfoPiece::Break,
            InfoPiece::Span(SpanStyle::Plain, "Size should fit your needs (RAM/2..RAM, etc)."),
            InfoPiece::Break,
        ])
    } else if idx == 10 {
        ("don't format", seq![
            InfoPiece::Span(SpanStyle::Highlight, "'don't format'"),
            InfoPiece::Span(SpanStyle::Plain, " is used for those partitions you don't want to wipe out."),
            InfoPiece::Break,
            InfoPiece::Span(SpanStyle::Plain, "For example a "),
            InfoPiece::Span(SpanStyle::Highlight, "boot partition"),
            InfoPiece::Span(SpanStyle::Plain, " to not delete current bootloader on it."),
            InfoPiece::Break,
        ])
    } else {
        ("Unknown Filesystem", seq![
            InfoPiece::Span(SpanStyle::Plain, "No information available for this filesystem."),
            InfoPiece::Break,
        ])
    }
}


pub struct SelectFilesystem {
    pub buttons: ButtonMenu,
    /// The partition to format, when the layout is not automatic.
    pub dev_id: Option<u64>,
    pub help_visible: bool,
}

impl SelectFilesystem {
    /// The text shown beside the filesystem at `idx` (see `fs_info`).
    pub fn get_fs_info(idx: usize) -> (r: InfoText)
        ensures
            (r.title, r.pieces@) == fs_info(idx),
    {
        if idx == 0 {
            let pieces = vec![
                InfoPiece::Span(SpanStyle::Highlight, "ext4"),
                InfoPiece::Span(SpanStyle::Plain, " is a"),
                InfoPiece::Span(SpanStyle::Highlight, " widely used and stable filesystem"),
                InfoPiece::Span(SpanStyle::Plain, " known for its "),
                InfoPiece::Span(SpanStyle::Highlight, "reliability and performance."),
                InfoPiece::Break,
                InfoPiece::Span(SpanStyle::Plain, "It supports "),
                InfoPiece::Span(SpanStyle::Highlight, "journaling"),
                InfoPiece::Span(SpanStyle::Plain, ", which helps "),
                InfoPiece::Span(SpanStyle::Highlight, "protect against data corruption "),
                InfoPiece::Span(SpanStyle::Plain, "in case of crashes."),
                InfoPiece::Break,
                InfoPiece::Span(SpanStyle::Plain, "It's a good choice for"),
                InfoPiece::Span(SpanStyle::Highlight, " general-purpose"),
                InfoPiece::Span(SpanStyle::Plain, " use and is"),
                InfoPiece::Span(SpanStyle::Highlight, " well-supported across various Linux distributions."),
                InfoPiece::Break,
            ];
            assert(pieces@ =~= seq![
                InfoPiece::Span(SpanStyle::Highlight, "ext4"),
                InfoPiece::Span(SpanStyle::Plain, " is a"),
                InfoPiece::Span(SpanStyle::Highlight, " widely used and stable filesystem"),
                InfoPiece::Span(SpanStyle::Plain, " known for its "),
                InfoPiece::Span(SpanStyle::Highlight, "reliability and performance."),
                InfoPiece::Break,
                InfoPiece::Span(SpanStyle::Plain, "It supports "),
                InfoPiece::Span(SpanStyle::Highlight, "journaling"),
                InfoPiece::Span(SpanStyle::Plain, ", which helps "),
                InfoPiece::Span(SpanStyle::Highlight, "protect against data corruption "),
                InfoPiece::Span(SpanStyle::Plain, "in case of crashes."),
                InfoPiece::Break,
                InfoPiece::Span(SpanStyle::Plain, "It's a good choice for"),
                InfoPiece::Span(SpanStyle::Highlight, " general-purpose"),
                InfoPiece::Span(SpanStyle::Plain, " use and is"),
                InfoPiece::Span(SpanStyle::Highlight, " well-supported across various Linux distributions."),
                InfoPiece::Break,
            ]);
            InfoText { title: "ext4", pieces }
        } else if idx == 1 {
            let pieces = vec![
                InfoPiece::Span(SpanStyle::Highlight, "ext3"),
                InfoPiece::Span(SpanStyle::Plain, " is an older journaling filesystem that builds upon ext2."),
                InfoPiece::Break,
                InfoPiece::Span(SpanStyle::Plain, "It provides "),
                InfoPiece::Span(SpanStyle::Highlight, "journaling"),
                InfoPiece::Span(SpanStyle::Plain, " capabilities to improve data integrity and recovery after crashes."),
                InfoPiece::Break,
                InfoPiece::Span(SpanStyle::Plain, "While it is "),
                InfoPiece::Span(SpanStyle::Highlight, "reliable and stable"),
                InfoPiece::Span(SpanStyle::Plain, ", it lacks some of the performance and features of ext4."),
                InfoPiece::Break,
            ];
            assert(pieces@ =~= seq![
                InfoPiece::Span(SpanStyle::Highlight, "ext3"),
                InfoPiece::Span(SpanStyle::Plain, " is an older journaling filesystem that builds upon ext2."),
                InfoPiece::Break,
                InfoPiece::Span(SpanStyle::Plain, "It provides "),
                InfoPiece::Span(SpanStyle::Highlight, "journaling"),
                InfoPiece::Span(SpanStyle::Plain, " capabilities to improve data integrity and recovery after crashes."),
                InfoPiece::Break,
                InfoPiece::Span(SpanStyle::Plain, "While it is "),
                InfoPiece::Span(SpanStyle::Highlight, "reliable and stable"),
                InfoPiece::Span(SpanStyle::Plain, ", it lacks some of the performance and features of ext4."),
                InfoPiece::Break,
            ]);
            InfoText { title: "ext3", pieces }
        } else if idx == 2 {
            let pieces = vec![
                InfoPiece::Span(SpanStyle::Highlight, "ext2"),
                InfoPiece::Span(SpanStyle::Plain, " is a non-journaling filesystem that is simple and efficient."),
                InfoPiece::Break,
                InfoPiece::Span(SpanStyle::Plain, "It is suitable for use cases where "),
                InfoPiece::Span(SpanStyle::Highlight, "journaling is not required"),
                InfoPiece::Span(SpanStyle::Plain, ", such as "),
                InfoPiece::Span(SpanStyle::Highlight, "flash drives"),
                InfoPiece::Span(SpanStyle::Plain, " or "),
                InfoPiece::Span(SpanStyle::Highlight, "small partitions"),
                InfoPiece::Span(SpanStyle::Plain, "."),
                InfoPiece::Break,
                InfoPiece::Span(SpanStyle::Plain, "However, it is more "),
                InfoPiece::Span(SpanStyle::Highlight, "prone to data corruption "),
                InfoPiece::Span(SpanStyle::Plain, "in case of crashes compared to ext3 and ext4."),
                InfoPiece::Break,
            ];
            assert(pieces@ =~= seq![
                InfoPiece::Span(SpanStyle::Highlight, "ext2"),
                InfoPiece::Span(SpanStyle::Plain, " is a non-journaling filesystem that is simple and efficient."),
                InfoPiece::Break,
                InfoPiece::Span(SpanStyle::Plain, "It is suitable for use cases where "),
                InfoPiece::Span(SpanStyle::Highlight, "journaling is not required"),
                InfoPiece::Span(SpanStyle::Plain, ", such as "),
                InfoPiece::Span(SpanStyle::Highlight, "flash drives"),
                InfoPiece::Span(SpanStyle::Plain, " or "),
                InfoPiece::Span(SpanStyle::Highlight, "small partitions"),
                InfoPiece::Span(SpanStyle::Plain, "."),
                InfoPiece::Break,
                InfoPiece::Span(SpanStyle::Plain, "However, it is more "),
                InfoPiece::Span(SpanStyle::Highlight, "prone to data corruption "),
                InfoPiece::Span(SpanStyle::Plain, "in case of crashes compared to ext3 and ext4."),
                InfoPiece::Break,
            ]);
            InfoText { title: "ext2", pieces }
        } else if idx == 3 {
            let pieces = vec![
                InfoPiece::Span(SpanStyle::Highlight, "btrfs"),
                InfoPiece::Span(SpanStyle::Plain, " ("),
                InfoPiece::Span(SpanStyle::Italic, "B-tree filesystem"),
                InfoPiece::Span(SpanStyle::Plain, ") is a "),
                InfoPiece::Span(SpanStyle::Highlight, "modern filesystem"),
                InfoPiece::Span(SpanStyle::Plain, " that offers advanced features like "),
                InfoPiece::Span(SpanStyle::Highlight, "snapshots"),
                InfoPiece::Span(SpanStyle::Plain, ", "),
                InfoPiece::Span(SpanStyle::Highlight, "subvolumes"),
                InfoPiece::Span(SpanStyle::Plain, ", and "),
                InfoPiece::Span(SpanStyle::Highlight, "built-in RAID support"),
                InfoPiece::Span(SpanStyle::Plain, "."),
                InfoPiece::Break,
                InfoPiece::Span(SpanStyle::Plain, "It is designed for "),
                InfoPiece::Span(SpanStyle::Highlight, "scalability"),
                InfoPiece::Span(SpanStyle::Plain, " and "),
                InfoPiece::Span(SpanStyle::Highlight, "flexibility"),
                InfoPiece::Span(SpanStyle::Plain, ", making it suitable for systems that require "),
                InfoPiece::Span(SpanStyle::Highlight, "complex storage solutions."),
                InfoPiece::Break,
                InfoPiece::Span(SpanStyle::Plain, "However, it may not be as mature as "),
                InfoPiece::Span(SpanStyle::Highlight, "ext4"),
                InfoPiece::Span(SpanStyle::Plain, " in terms of "),
                InfoPiece::Span(SpanStyle::Highlight, "stability"),
                InfoPiece::Span(SpanStyle::Plain, " for all use cases."),
                InfoPiece::Break,
            ];
            assert(pieces@ =~= seq![
                InfoPiece::Span(SpanStyle::Highlight, "btrfs"),
                InfoPiece::Span(SpanStyle::Plain, " ("),
                InfoPiece::Span(SpanStyle::Italic, "B-tree filesystem"),
                InfoPiece::Span(SpanStyle::Plain, ") is a "),
                InfoPiece::Span(SpanStyle::Highlight, "modern filesystem"),
                InfoPiece::Span(SpanStyle::Plain, " that offers advanced features like "),
                InfoPiece::Span(SpanStyle::Highlight, "snapshots"),
                InfoPiece::Span(SpanStyle::Plain, ", "),
                InfoPiece::Span(SpanStyle::Highlight, "subvolumes"),
                InfoPiece::Span(SpanStyle::Plain, ", and "),
                InfoPiece::Span(SpanStyle::Highlight, "built-in RAID support"),
                InfoPiece::Span(SpanStyle::Plain, "."),
                InfoPiece::Break,
                InfoPiece::Span(SpanStyle::Plain, "It is designed for "),
                InfoPiece::Span(SpanStyle::Highlight, "scalability"),
                InfoPiece::Span(SpanStyle::Plain, " and "),
                InfoPiece::Span(SpanStyle::Highlight, "flexibility"),
                InfoPiece::Span(SpanStyle::Plain, ", making it suitable for systems that require "),
                InfoPiece::Span(SpanStyle::Highlight, "complex storage solutions."),
                InfoPiece::Break,
                InfoPiece::Span(SpanStyle::Plain, "However, it may not be as mature as "),
                InfoPiece::Span(SpanStyle::Highlight, "ext4"),
                InfoPiece::Span(SpanStyle::Plain, " in terms of "),
                InfoPiece::Span(SpanStyle::Highlight, "stability"),
                InfoPiece::Span(SpanStyle::Plain, " for all use cases."),
                InfoPiece::Break,
            ]);
            InfoText { title: "btrfs", pieces }
        } else if idx == 4 {
            let pieces = vec![
                InfoPiece::Span(SpanStyle::Highlight, "XFS"),
                InfoPiece::Span(SpanStyle::Plain, " is a "),
                InfoPiece::Span(SpanStyle::Highlight, "high-performance journaling filesystem"),
                InfoPiece::Span(SpanStyle::Plain, " that excels in handling "),
                InfoPiece::Span(SpanStyle::Highlight, "large files"),
                InfoPiece::Span(SpanStyle::Plain, " and "),
                InfoPiece::Span(SpanStyle::Highlight, "high I/O workloads"),
                InfoPiece::Span(SpanStyle::Plain, "."),
                InfoPiece::Break,
                InfoPiece::Span(SpanStyle::Plain, "It is known for its "),
                InfoPiece::Span(SpanStyle::Highlight, "scalability"),
                InfoPiece::Span(SpanStyle::Plain, " and "),
                InfoPiece::Span(SpanStyle::Highlight, "robustness"),
                InfoPiece::Span(SpanStyle::Plain, ", making it a popular choice for "),
                InfoPiece::Span(SpanStyle::Highlight, "enterprise environments"),
                InfoPiece::Span(SpanStyle::Plain, "."),
                InfoPiece::Break,
                InfoPiece::Span(SpanStyle::Highlight, "XFS"),
                InfoPiece::Span(SpanStyle::Plain, " is particularly well-suited for systems that require efficient handling of "),
                InfoPiece::Span(SpanStyle::Highlight, "large datasets"),
                InfoPiece::Span(SpanStyle::Plain, "."),
                InfoPiece::Break,
            ];
            assert(pieces@ =~= seq![
                InfoPiece::Span(SpanStyle::Highlight, "XFS"),
                InfoPiece::Span(SpanStyle::Plain, " is a "),
                InfoPiece::Span(SpanStyle::Highlight, "high-performance journaling filesystem"),
                InfoPiece::Span(SpanStyle::Plain, " that excels in handling "),
                InfoPiece::Span(SpanStyle::Highlight, "large files"),
                InfoPiece::Span(SpanStyle::Plain, " and "),
                InfoPiece::Span(SpanStyle::Highlight, "high I/O workloads"),
                InfoPiece::Span(SpanStyle::Plain, "."),
                InfoPiece::Break,
                InfoPiece::Span(SpanStyle::Plain, "It is known for its "),
                InfoPiece::Span(SpanStyle::Highlight, "scalability"),
                InfoPiece::Span(SpanStyle::Plain, " and "),
                InfoPiece::Span(SpanStyle::Highlight, "robustness"),
                InfoPiece::Span(SpanStyle::Plain, ", making it a popular choice for "),
                InfoPiece::Span(SpanStyle::Highlight, "enterprise environments"),
                InfoPiece::Span(SpanStyle::Plain, "."),
                InfoPiece::Break,
                InfoPiece::Span(SpanStyle::Highlight, "XFS"),
                InfoPiece::Span(SpanStyle::Plain, " is particularly well-suited for systems that require efficient handling of "),
                InfoPiece::Span(SpanStyle::Highlight, "large datasets"),
                InfoPiece::Span(SpanStyle::Plain, "."),
                InfoPiece::Break,
            ]);
            InfoText { title: "xfs", pieces }
        } else if idx == 5 {
            let pieces = vec![
                InfoPiece::Span(SpanStyle::Highlight, "FAT12"),
                InfoPiece::Span(SpanStyle::Plain, " is a "),
                InfoPiece::Span(SpanStyle::Highlight, "simple "),
                InfoPiece::Span(SpanStyle::Plain, "and "),
                InfoPiece::Span(SpanStyle::Highlight, "widely supported "),
                InfoPiece::Span(SpanStyle::Plain, "filesystem primarily used for "),
                InfoPiece::Span(SpanStyle::Highlight, "small storage devices"),
                InfoPiece::Span(SpanStyle::Plain, " like floppy disks."),
                InfoPiece::Break,
                InfoPiece::Span(SpanStyle::Plain, "It has "),
                InfoPiece::Span(SpanStyle::Highlight, "limitations "),
                InfoPiece::Span(SpanStyle::Plain, "in terms of "),
                InfoPiece::Span(SpanStyle::Highlight, "maximum partition size "),
                InfoPiece::Span(SpanStyle::Plain, "and file size, making it "),
                InfoPiece::Span(SpanStyle::Highlight, "less suitable for modern systems"),
                InfoPiece::Span(SpanStyle::Plain, "."),
                InfoPiece::Break,
            ];
            assert(pieces@ =~= seq![
                InfoPiece::Span(SpanStyle::Highlight, "FAT12"),
                InfoPiece::Span(SpanStyle::Plain, " is a "),
                InfoPiece::Span(SpanStyle::Highlight, "simple "),
                InfoPiece::Span(SpanStyle::Plain, "and "),
                InfoPiece::Span(SpanStyle::Highlight, "widely supported "),
                InfoPiece::Span(SpanStyle::Plain, "filesystem primarily used for "),
                InfoPiece::Span(SpanStyle::Highlight, "small storage devices"),
                InfoPiece::Span(SpanStyle::Plain, " like floppy disks."),
                InfoPiece::Break,
                InfoPiece::Span(SpanStyle::Plain, "It has "),
                InfoPiece::Span(SpanStyle::Highlight, "limitations "),
                InfoPiece::Span(SpanStyle::Plain, "in terms of "),
                InfoPiece::Span(SpanStyle::Highlight, "maximum partition size "),
                InfoPiece::Span(SpanStyle::Plain, "and file size, making it "),
                InfoPiece::Span(SpanStyle::Highlight, "less suitable for modern systems"),
                InfoPiece::Span(SpanStyle::Plain, "."),
                InfoPiece::Break,
            ]);
            InfoText { title: "fat12", pieces }
        } else if idx == 6 {
            let pieces = vec![
                InfoPiece::Span(SpanStyle::Highlight, "FAT16"),
                InfoPiece::Span(SpanStyle::Plain, " is an older filesystem that "),
                InfoPiece::Span(SpanStyle::Highlight, "extends FAT12"),
                InfoPiece::Span(SpanStyle::Plain, " to support "),
                InfoPiece::Span(SpanStyle::Highlight, "larger partitions and files."),
                InfoPiece::Break,
                InfoPiece::Span(SpanStyle::Plain, "It is still used in some "),
                InfoPiece::Span(SpanStyle::Highlight, "embedded systems "),
                InfoPiece::Span(SpanStyle::Plain, "and "),
                InfoPiece::Span(SpanStyle::Highlight, "older devices "),
                InfoPiece::Span(SpanStyle::Plain, "but has "),
                InfoPiece::Span(SpanStyle::Highlight, "limitations compared to more modern filesystems"),
                InfoPiece::Span(SpanStyle::Plain, "."),
                InfoPiece::Break,
            ];
            assert(pieces@ =~= seq![
                InfoPiece::Span(SpanStyle::Highlight, "FAT16"),
                InfoPiece::Span(SpanStyle::Plain, " is an older filesystem that "),
                InfoPiece::Span(SpanStyle::Highlight, "extends FAT12"),
                InfoPiece::Span(SpanStyle::Plain, " to support "),
                InfoPiece::Span(SpanStyle::Highlight, "larger partitions and files."),
                InfoPiece::Break,
                InfoPiece::Span(SpanStyle::Plain, "It is still used in some "),
                InfoPiece::Span(SpanStyle::Highlight, "embedded systems "),
                InfoPiece::Span(SpanStyle::Plain, "and "),
                InfoPiece::Span(SpanStyle::Highlight, "older devices "),
                InfoPiece::Span(SpanStyle::Plain, "but has "),
                InfoPiece::Span(SpanStyle::Highlight, "limitations compared to more modern filesystems"),
                InfoPiece::Span(SpanStyle::Plain, "."),
                InfoPiece::Break,
            ]);
            InfoText { title: "fat16", pieces }
        } else if idx == 7 {
            let pieces = vec![
                InfoPiece::Span(SpanStyle::Highlight, "FAT32"),
                InfoPiece::Span(SpanStyle::Plain, " is a widely supported filesystem that can handle"),
                InfoPiece::Span(SpanStyle::Highlight, " larger partitions and files than FAT16"),
                InfoPiece::Span(SpanStyle::Plain, "."),
                InfoPiece::Break,
                InfoPiece::Span(SpanStyle::Plain, "It is commonly used for USB drives and memory cards due to its broad "),
                InfoPiece::Span(SpanStyle::Highlight, "cross-platform compatibility"),
                InfoPiece::Span(SpanStyle::Plain, "."),
                InfoPiece::Break,
                InfoPiece::Span(SpanStyle::Plain, "FAT32 is also commonly used for "),
                InfoPiece::Span(SpanStyle::Highlight, "EFI System Partitions (ESP)"),
                InfoPiece::Span(SpanStyle::Plain, " on UEFI systems, allowing the firmware to load the bootloader."),
                InfoPiece::Break,
                InfoPiece::Span(SpanStyle::Plain, "However, it has limitations such as a "),
                InfoPiece::Span(SpanStyle::Highlight, "maximum file size of 4GB"),
                InfoPiece::Span(SpanStyle::Plain, " and"),
                InfoPiece::Span(SpanStyle::Highlight, " lack of modern journaling features."),
                InfoPiece::Break,
            ];
            assert(pieces@ =~= seq![
                InfoPiece::Span(SpanStyle::Highlight, "FAT32"),
                InfoPiece::Span(SpanStyle::Plain, " is a widely supported filesystem that can handle"),
                InfoPiece::Span(SpanStyle::Highlight, " larger partitions and files than FAT16"),
                InfoPiece::Span(SpanStyle::Plain, "."),
                InfoPiece::Break,
                InfoPiece::Span(SpanStyle::Plain, "It is commonly used for USB drives and memory cards due to its broad "),
                InfoPiece::Span(SpanStyle::Highlight, "cross-platform compatibility"),
                InfoPiece::Span(SpanStyle::Plain, "."),
                InfoPiece::Break,
                InfoPiece::Span(SpanStyle::Plain, "FAT32 is also commonly used for "),
                InfoPiece::Span(SpanStyle::Highlight, "EFI System Partitions (ESP)"),
                InfoPiece::Span(SpanStyle::Plain, " on UEFI systems, allowing the firmware to load the bootloader."),
                InfoPiece::Break,
                InfoPiece::Span(SpanStyle::Plain, "However, it has limitations such as a "),
                InfoPiece::Span(SpanStyle::Highlight, "maximum file size of 4GB"),
                InfoPiece::Span(SpanStyle::Plain, " and"),
                InfoPiece::Span(SpanStyle::Highlight, " lack of modern journaling features."),
                InfoPiece::Break,
            ]);
            InfoText { title: "fat32", pieces }
        } else if idx == 8 {
            let pieces = vec![
                InfoPiece::Span(SpanStyle::Highlight, "NTFS"),
                InfoPiece::Span(SpanStyle::Plain, " is a"),
                InfoPiece::Span(SpanStyle::Highlight, " robust"),
                InfoPiece::Span(SpanStyle::Plain, " and"),
                InfoPiece::Span(SpanStyle::Highlight, " feature-rich"),
                InfoPiece::Span(SpanStyle::Plain, " filesystem developed by Microsoft."),
                InfoPiece::Break,
                InfoPiece::Span(SpanStyle::Plain, "It supports "),
                InfoPiece::Span(SpanStyle::Highlight, "large files"),
                InfoPiece::Span(SpanStyle::Plain, ", "),
                InfoPiece::Span(SpanStyle::Highlight, "advanced permissions"),
                InfoPiece::Span(SpanStyle::Plain, ", "),
                InfoPiece::Span(SpanStyle::Highlight, "encryption"),
                InfoPiece::Span(SpanStyle::Plain, ", and "),
                InfoPiece::Span(SpanStyle::Highlight, "journaling"),
                InfoPiece::Span(SpanStyle::Plain, "."),
                InfoPiece::Break,
                InfoPiece::Span(SpanStyle::Plain, "While it is"),
                InfoPiece::Span(SpanStyle::Highlight, " primarily used in Windows environments"),
                InfoPiece::Span(SpanStyle::Plain, ", Linux has good support for NTFS through the "),
                InfoPiece::Span(SpanStyle::Highlight, "ntfs-3g"),
                InfoPiece::Span(SpanStyle::Plain, " driver."),
                InfoPiece::Break,
                InfoPiece::Span(SpanStyle::Plain, "NTFS is a good choice if you need to "),
                InfoPiece::Span(SpanStyle::Highlight, "share data between Windows and Linux systems "),
                InfoPiece::Span(SpanStyle::Plain, "or if you require features like "),
                InfoPiece::Span(SpanStyle::Highlight, "file compression and encryption"),
                InfoPiece::Span(SpanStyle::Plain, "."),
                InfoPiece::Break,
            ];
            assert(pieces@ =~= seq![
                InfoPiece::Span(SpanStyle::Highlight, "NTFS"),
                InfoPiece::Span(SpanStyle::Plain, " is a"),
                InfoPiece::Span(SpanStyle::Highlight, " robust"),
                InfoPiece::Span(SpanStyle::Plain, " and"),
                InfoPiece::Span(SpanStyle::Highlight, " feature-rich"),
                InfoPiece::Span(SpanStyle::Plain, " filesystem developed by Microsoft."),
                InfoPiece::Break,
                InfoPiece::Span(SpanStyle::Plain, "It supports "),
                InfoPiece::Span(SpanStyle::Highlight, "large files"),
                InfoPiece::Span(SpanStyle::Plain, ", "),
                InfoPiece::Span(SpanStyle::Highlight, "advanced permissions"),
                InfoPiece::Span(SpanStyle::Plain, ", "),
                InfoPiece::Span(SpanStyle::Highlight, "encryption"),
                InfoPiece::Span(SpanStyle::Plain, ", and "),
                InfoPiece::Span(SpanStyle::Highlight, "journaling"),
                InfoPiece::Span(SpanStyle::Plain, "."),
                InfoPiece::Break,
                InfoPiece::Span(SpanStyle::Plain, "While it is"),
                InfoPiece::Span(SpanStyle::Highlight, " primarily used in Windows environments"),
                InfoPiece::Span(SpanStyle::Plain, ", Linux has good support for NTFS through the "),
                InfoPiece::Span(SpanStyle::Highlight, "ntfs-3g"),
                InfoPiece::Span(SpanStyle::Plain, " driver."),
                InfoPiece::Break,
                InfoPiece::Span(SpanStyle::Plain, "NTFS is a good choice if you need to "),
                InfoPiece::Span(SpanStyle::Highlight, "share data between Windows and Linux systems "),
                InfoPiece::Span(SpanStyle::Plain, "or if you require features like "),
                InfoPiece::Span(SpanStyle::Highlight, "file compression and encryption"),
                InfoPiece::Span(SpanStyle::Plain, "."),
                InfoPiece::Break,
            ]);
            InfoText { title: "ntfs", pieces }
        } else if idx == 9 {
            let pieces = vec![
                InfoPiece::Span(SpanStyle::Highlight, "swap"),
                InfoPiece::Span(SpanStyle::Plain, " is used as virtual memory backing."),
                InfoPiece::Break,
                InfoPiece::Span(SpanStyle::Plain, "No mount point. Can be "),
                InfoPiece::Span(SpanStyle::Highlight, "encrypted"),
                InfoPiece::Span(SpanStyle::Plain, "."),
                InfoPiece::Break,
                InfoPiece::Span(SpanStyle::Plain, "Size should fit your needs (RAM/2..RAM, etc)."),
                InfoPiece::Break,
            ];
            assert(pieces@ =~= seq![
                InfoPiece::Span(SpanStyle::Highlight, "swap"),
                InfoPiece::Span(SpanStyle::Plain, " is used as virtual memory backing."),
                InfoPiece::Break,
                InfoPiece::Span(SpanStyle::Plain, "No mount point. Can be "),
                InfoPiece::Span(SpanStyle::Highlight, "encrypted"),
                InfoPiece::Span(SpanStyle::Plain, "."),
                InfoPiece::Break,
                InfoPiece::Span(SpanStyle::Plain, "Size should fit your needs (RAM/2..RAM, etc)."),
                InfoPiece::Break,
            ]);
            InfoText { title: "swap", pieces }
        } else if idx == 10 {
            let pieces = vec![
                InfoPiece::Span(SpanStyle::Highlight, "'don't format'"),
                InfoPiece::Span(SpanStyle::Plain, " is used for those partitions you don't want to wipe out."),
                InfoPiece::Break,
                InfoPiece::Span(SpanStyle::Plain, "For example a "),
                InfoPiece::Span(SpanStyle::Highlight, "boot partition"),
                InfoPiece::Span(SpanStyle::Plain, " to not delete current bootloader on it."),
                InfoPiece::Break,
            ];
            assert(pieces@ =~= seq![
                InfoPiece::Span(SpanStyle::Highlight, "'don't format'"),
                InfoPiece::Span(SpanStyle::Plain, " is used for those partitions you don't want to wipe out."),
                InfoPiece::Break,
                InfoPiece::Span(SpanStyle::Plain, "For example a "),
                InfoPiece::Span(SpanStyle::Highlight, "boot partition"),
                InfoPiece::Span(SpanStyle::Plain, " to not delete current bootloader on it."),
                InfoPiece::Break,
            ]);
            InfoText { title: "don't format", pieces }
        } else {
            let pieces = vec![
                InfoPiece::Span(SpanStyle::Plain, "No information available for this filesystem."),
                InfoPiece::Break,
            ];
            assert(pieces@ =~= seq![
                InfoPiece::Span(SpanStyle::Plain, "No information available for this filesystem."),
                InfoPiece::Break,
            ]);
            InfoText { title: "Unknown Filesystem", pieces }
        }
    }

    pub fn new(dev_id: Option<u64>) -> (r: Self)
        ensures
            r.buttons.wf(),
            strings_view(r.buttons.labels@) == fs_buttons(),
            r.buttons.focused && r.buttons.focused_child == Some(0usize),
            r.dev_id == dev_id,
            !r.help_visible,
    {
        let buttons = focused_menu(vec![
            "ext4", "ext3", "ext2", "btrfs", "xfs", "fat12", "fat16", "fat32", "ntfs", "swap",
            "don't format", "Back",
        ]);
        assert(strings_view(buttons.labels@) =~= fs_buttons());
        SelectFilesystem { buttons, dev_id, help_visible: false }
    }

    /// The filesystem name of button `i`, for the buttons before Back.
    fn fs_name(i: usize) -> (r: Option<&'static str>)
        ensures
            match fs_choice(i) {
                Some(f) => r matches Some(s) && s@ == f,
                None => r is None,
            },
    {
        let v = vec![
            "ext4", "ext3", "ext2", "btrfs", "xfs", "fat12", "fat16", "fat32", "ntfs", "swap",
            "don't format",
        ];
        if i < v.len() {
            proof {
                assert(v@.map_values(|s: &str| s@) =~= fs_buttons().subrange(0, 11));
                assert(v@.map_values(|s: &str| s@)[i as int] == v@[i as int]@);
            }
            Some(v[i])
        } else {
            None
        }
    }

    /// `?` and the help as usual; Esc or Left leaves; Up and Down move the
    /// cursor; Enter (or Right, `l`) on a filesystem either lays out the
    /// configured disk by default with it and the chosen swap size (which
    /// is used up), numbers the partitions and offers to encrypt the root
    /// partition (leaving four pages when there is none), or, for a chosen
    /// partition, sets its filesystem and leaves; Back leaves.
    pub fn handle_key(
        &mut self,
        drive_config: &mut Option<Disk>,
        swap: &mut Option<u64>,
        use_auto: bool,
        key: Key,
    ) -> (r: DriveSignal)
        requires
            old(self).buttons.wf(),
            (*old(drive_config)) matches Some(d) ==> d.wf(),
            use_auto ==> ((*old(drive_config)) matches Some(d) ==> default_layout_ok(d@)),
            use_auto ==> ((*old(swap)) matches Some(g) ==> g * 1024 * 1048576 <= u64::MAX),
        ensures
            final(self).buttons.wf(),
            (*final(drive_config)) matches Some(d) ==> d.wf(),
            ({
                let a = *old(self);
                let b = *final(self);
                let d = disk_view_of(*old(drive_config));
                let e = disk_view_of(*final(drive_config));
                let unchanged = e == d && *final(swap) == *old(swap);
                match help_key(a.help_visible, key) {
                    Some(h) => b == (SelectFilesystem { help_visible: h, ..a }) && unchanged && r is Wait,
                    None => if is_back(key) {
                        b == a && unchanged && r is Pop
                    } else if is_up(key) {
                        b == (SelectFilesystem { buttons: menu_up(a.buttons), ..a }) && unchanged && r is Wait
                    } else if is_down(key) {
                        b == (SelectFilesystem { buttons: menu_down(a.buttons), ..a }) && unchanged && r is Wait
                    } else if is_enter(key) {
                        &&& b == a
                        &&& match a.buttons.focused_child {
                            None => unchanged && r is Wait,
                            Some(i) => match fs_choice(i) {
                                None => unchanged && if i == 11 { r is Pop } else { r is Wait },
                                Some(fs) => if use_auto {
                                    match d {
                                        Some(dv) => {
                                            let nd = renumbered(with_default_layout(dv, Some(fs), *old(swap)));
                                            &&& e == Some(nd)
                                            &&& *final(swap) is None
                                            &&& match root_id_of(nd.layout) {
                                                Some(id) => r matches DriveSignal::AskEncryptRoot(p) && p.root_id == id
                                                    && !p.encrypt.checked && p.buttons.wf()
                                                    && strings_view(p.buttons.labels@) == encrypt_buttons()
                                                    && p.buttons.focused_child == Some(0usize) && !p.help_visible,
                                                None => r matches DriveSignal::PopCount(n) && n == 4,
                                            }
                                        },
                                        None => unchanged && (r matches DriveSignal::PopCount(n) && n == 4),
                                    }
                                } else {
                                    &&& *final(swap) == *old(swap)
                                    &&& match d {
                                        None => e == d && (r matches DriveSignal::Error(m) && m@ == "No drive config available"@),
                                        Some(dv) => match a.dev_id {
                                            None => e == d && (r matches DriveSignal::Error(m)
                                                && m@ == "No device id specified for filesystem selection"@),
                                            Some(id) => match part_of(dv, id) {
                                                None => e == d && (r matches DriveSignal::Error(m)
                                                    && m@ == "No partition found with id "@ + decimal(id as nat)),
                                                Some(p) => e == Some(with_part(dv, id, with_fs(p, fs))) && r is Pop,
                                            },
                                        },
                                    }
                                },
                            },
                        }
                    } else {
                        b == a && unchanged && r is Wait
                    },
                }
            }),
    {
        if key == Key::Char('?') {
            self.help_visible = !self.help_visible;
            return DriveSignal::Wait;
        }
        if self.help_visible {
            if key == Key::Esc {
                self.help_visible = false;
            }
            return DriveSignal::Wait;
        }
        match key {
            Key::Esc | Key::Left => DriveSignal::Pop,
            Key::Up | Key::Char('k') => {
                self.buttons.prev_child();
                DriveSignal::Wait
            },
            Key::Down | Key::Char('j') => {
                self.buttons.next_child();
                DriveSignal::Wait
            },
            Key::Enter | Key::Right | Key::Char('l') => {
                let i = match self.buttons.selected_child() {
                    Some(i) => i,
                    None => return DriveSignal::Wait,
                };
                let fs = match Self::fs_name(i) {
                    Some(f) => f,
                    None => {
                        if i == 11 {
                            return DriveSignal::Pop;
                        }
                        return DriveSignal::Wait;
                    },
                };
                if use_auto {
                    self.auto_layout(drive_config, swap, fs)
                } else {
                    self.set_filesystem(drive_config, fs)
                }
            },
            _ => DriveSignal::Wait,
        }
    }

    fn auto_layout(&self, drive_config: &mut Option<Disk>, swap: &mut Option<u64>, fs: &str) -> (r: DriveSignal)
        requires
            (*old(drive_config)) matches Some(d) ==> d.wf() && default_layout_ok(d@),
            (*old(swap)) matches Some(g) ==> g * 1024 * 1048576 <= u64::MAX,
        ensures
            (*final(drive_config)) matches Some(d) ==> d.wf(),
            match disk_view_of(*old(drive_config)) {
                Some(dv) => {
                    let nd = renumbered(with_default_layout(dv, Some(fs@), *old(swap)));
                    &&& disk_view_of(*final(drive_config)) == Some(nd)
                    &&& *final(swap) is None
                    &&& match root_id_of(nd.layout) {
                        Some(id) => r matches DriveSignal::AskEncryptRoot(p) && p.root_id == id
                            && !p.encrypt.checked && p.buttons.wf()
                            && strings_view(p.buttons.labels@) == encrypt_buttons()
                            && p.buttons.focused_child == Some(0usize) && !p.help_visible,
                        None => r matches DriveSignal::PopCount(n) && n == 4,
                    }
                },
                None => *final(drive_config) is None && *final(swap) == *old(swap)
                    && (r matches DriveSignal::PopCount(n) && n == 4),
            },
    {
        match drive_config {
            Some(cfg) => {
                let swap_gb = swap.take();
                cfg.use_default_layout_with_swap(Some(owned(fs)), swap_gb);
                cfg.assign_device_numbers();
                match root_partition_id(cfg) {
                    Some(id) => DriveSignal::AskEncryptRoot(AskEncryptRoot::new(id)),
                    None => DriveSignal::PopCount(4),
                }
            },
            None => DriveSignal::PopCount(4),
        }
    }

    fn set_filesystem(&self, drive_config: &mut Option<Disk>, fs: &str) -> (r: DriveSignal)
        requires
            (*old(drive_config)) matches Some(d) ==> d.wf(),
        ensures
            (*final(drive_config)) matches Some(d) ==> d.wf(),
            match disk_view_of(*old(drive_config)) {
                None => *final(drive_config) is None && (r matches DriveSignal::Error(m) && m@ == "No drive config available"@),
                Some(dv) => match self.dev_id {
                    None => disk_view_of(*final(drive_config)) == Some(dv) && (r matches DriveSignal::Error(m)
                        && m@ == "No device id specified for filesystem selection"@),
                    Some(id) => match part_of(dv, id) {
                        None => disk_view_of(*final(drive_config)) == Some(dv) && (r matches DriveSignal::Error(m)
                            && m@ == "No partition found with id "@ + decimal(id as nat)),
                        Some(p) => disk_view_of(*final(drive_config)) == Some(with_part(dv, id, with_fs(p, fs@)))
                            && r is Pop,
                    },
                },
            },
    {
        let cfg = match drive_config {
            Some(c) => c,
            None => return DriveSignal::Error(owned("No drive config available")),
        };
        let id = match self.dev_id {
            Some(id) => id,
            None => return DriveSignal::Error(owned("No device id specified for filesystem selection")),
        };
        match cfg.partition_by_id(id) {
            None => {
                let mut m = owned("No partition found with id ");
                m.append(u64_to_decimal(id).as_str());
                return DriveSignal::Error(m);
            },
            Some(_) => {},
        }
        assert(part_of(cfg@, id) is Some);
        let ghost d0 = cfg@;
        let ghost p = part_of(d0, id)->0;
        proof {
            lemma_find_id(d0.layout, id);
        }
        edit_found(cfg, id, PartitionEdit::SetFsType(owned(fs)));
        let ghost q = PartitionView { fs_type: Some(fs@), ..p };
        assert(cfg@ == with_part(d0, id, q));
        if str_eq(fs, "swap") {
            let boot = owned("boot");
            let esp = owned("esp");
            let bls = owned("bls_boot");
            let swap_label = owned("SWAP");
            edit_found(cfg, id, PartitionEdit::RemoveFlag(boot));
            edit_found(cfg, id, PartitionEdit::RemoveFlag(esp));
            edit_found(cfg, id, PartitionEdit::RemoveFlag(bls));
            edit_found(cfg, id, PartitionEdit::ClearMountPoint);
            edit_found(cfg, id, PartitionEdit::SetLabel(swap_label));
            proof {
                assert((|x: Seq<char>| x != boot@) =~= (|x: Seq<char>| x != "boot"@));
                assert((|x: Seq<char>| x != esp@) =~= (|x: Seq<char>| x != "esp"@));
                assert((|x: Seq<char>| x != bls@) =~= (|x: Seq<char>| x != "bls_boot"@));
                let q1 = edited(q, PartitionEdit::RemoveFlag(boot));
                let q2 = edited(q1, PartitionEdit::RemoveFlag(esp));
                let q3 = edited(q2, PartitionEdit::RemoveFlag(bls));
                let q4 = edited(q3, PartitionEdit::ClearMountPoint);
                let q5 = edited(q4, PartitionEdit::SetLabel(swap_label));
                lemma_with_part_twice(d0, id, q, q1);
                lemma_with_part_twice(d0, id, q1, q2);
                lemma_with_part_twice(d0, id, q2, q3);
                lemma_with_part_twice(d0, id, q3, q4);
                lemma_with_part_twice(d0, id, q4, q5);
                assert(q5 == with_fs(p, fs@));
            }
        }
        DriveSignal::Pop
    }
}

// ---------------------------------------------------------------------------
// The offer to encrypt the root partition
// ---------------------------------------------------------------------------

/// The buttons of the encryption offer.
pub open spec fn encrypt_buttons() -> Seq<Seq<char>> {
    seq!["Encrypt ROOT (LUKS)"@, "Continue"@, "Back"@]
}

/// A check box to encrypt the root partition, then Continue and Back.
pub struct AskEncryptRoot {
    pub root_id: u64,
    pub encrypt: CheckBox,
    pub buttons: ButtonMenu,
    pub help_visible: bool,
}

impl AskEncryptRoot {
    pub fn new(root_id: u64) -> (r: Self)
        ensures
            r.root_id == root_id,
            !r.encrypt.checked,
            r.encrypt.label@ == "Encrypt ROOT (LUKS)"@,
            r.buttons.wf(),
            strings_view(r.buttons.labels@) == encrypt_buttons(),
            r.buttons.focused && r.buttons.focused_child == Some(0usize),
            !r.help_visible,
    {
        let buttons = focused_menu(vec!["Encrypt ROOT (LUKS)", "Continue", "Back"]);
        proof {
            reveal_strlit("Encrypt ROOT (LUKS)");
            reveal_strlit("Continue");
            reveal_strlit("Back");
        }
        assert(strings_view(buttons.labels@) =~= encrypt_buttons());
        let mut encrypt = CheckBox::new(owned("Encrypt ROOT (LUKS)"), false);
        encrypt.focus();
        AskEncryptRoot { root_id, encrypt, buttons, help_visible: false }
    }

    /// `?` shows or hides the help; Up and Down move the cursor; Space, or
    /// Enter on the check box, toggles it; Esc leaves; Continue either
    /// leaves five pages (no encryption) or marks the root partition for
    /// encryption and asks for its passphrase; Back leaves.
    pub fn handle_key(&mut self, drive_config: &mut Option<Disk>, key: Key) -> (r: DriveSignal)
        requires
            old(self).buttons.wf(),
            (*old(drive_config)) matches Some(d) ==> d.wf(),
        ensures
            final(self).buttons.wf(),
            (*final(drive_config)) matches Some(d) ==> d.wf(),
            ({
                let a = *old(self);
                let b = *final(self);
                let d = disk_view_of(*old(drive_config));
                let e = disk_view_of(*final(drive_config));
                let toggled = AskEncryptRoot {
                    encrypt: CheckBox { checked: !a.encrypt.checked, ..a.encrypt },
                    ..a
                };
                if key == Key::Char('?') {
                    b == (AskEncryptRoot { help_visible: !a.help_visible, ..a }) && e == d && r is Wait
                } else if is_up(key) {
                    b == (AskEncryptRoot { buttons: menu_up(a.buttons), ..a }) && e == d && r is Wait
                } else if is_down(key) {
                    b == (AskEncryptRoot { buttons: menu_down(a.buttons), ..a }) && e == d && r is Wait
                } else if key == Key::Char(' ') {
                    e == d && r is Wait && b == (if a.buttons.focused_child == Some(0usize) { toggled } else { a })
                } else if key == Key::Esc {
                    b == a && e == d && r is Pop
                } else if key == Key::Enter {
                    match a.buttons.focused_child {
                        Some(i) => if i == 0 {
                            b == toggled && e == d && r is Wait
                        } else if i == 1 {
                            &&& b == a
                            &&& if !a.encrypt.checked {
                                e == d && (r matches DriveSignal::PopCount(n) && n == 5)
                            } else {
                                &&& e == match d {
                                    Some(dv) => Some(with_encrypt(dv, a.root_id)),
                                    None => None,
                                }
                                &&& (r matches DriveSignal::PromptLuks(p) && p.wf() && p.dev_id == a.root_id
                                    && p.pop_count_on_success == 6 && p.pass_input.focused
                                    && !p.pass_confirm.focused && p.pass_input.value@.len() == 0
                                    && p.pass_confirm.value@.len() == 0 && !p.help_visible)
                            }
                        } else if i == 2 {
                            b == a && e == d && r is Pop
                        } else {
                            b == a && e == d && r is Wait
                        },
                        None => b == a && e == d && r is Wait,
                    }
                } else {
                    b == a && e == d && r is Wait
                }
            }),
    {
        match key {
            Key::Char('?') => {
                self.help_visible = !self.help_visible;
                DriveSignal::Wait
            },
            Key::Up | Key::Char('k') => {
                self.buttons.prev_child();
                DriveSignal::Wait
            },
            Key::Down | Key::Char('j') => {
                self.buttons.next_child();
                DriveSignal::Wait
            },
            Key::Char(' ') => {
                if self.buttons.selected_child() == Some(0usize) {
                    self.encrypt.toggle();
                }
                DriveSignal::Wait
            },
            Key::Esc => DriveSignal::Pop,
            Key::Enter => match self.buttons.selected_child() {
                Some(i) => {
                    if i == 0 {
                        self.encrypt.toggle();
                        DriveSignal::Wait
                    } else if i == 1 {
                        if !self.encrypt.is_checked() {
                            return DriveSignal::PopCount(5);
                        }
                        if let Some(cfg) = drive_config {
                            let ghost dv = cfg@;
                            if cfg.partition_by_id(self.root_id).is_some() {
                                edit_found(cfg, self.root_id, PartitionEdit::AddFlag(owned("encrypt")));
                            }
                        }
                        DriveSignal::PromptLuks(PromptLuksPassword::new(self.root_id).with_pop_count(6))
                    } else if i == 2 {
                        DriveSignal::Pop
                    } else {
                        DriveSignal::Wait
                    }
                },
                None => DriveSignal::Wait,
            },
            _ => DriveSignal::Wait,
        }
    }
}

// ---------------------------------------------------------------------------
// The offer of a suggested layout
// ---------------------------------------------------------------------------

/// Yes or No to the default layout on the configured disk.
pub struct SuggestPartition {
    pub buttons: ButtonMenu,
    pub help_visible: bool,
}

impl SuggestPartition {
    pub fn new() -> (r: Self)
        ensures
            r.buttons.wf(),
            strings_view(r.buttons.labels@) == seq!["Yes"@, "No"@],
            r.buttons.focused && r.buttons.focused_child == Some(0usize),
            !r.help_visible,
    {
        let buttons = focused_menu(vec!["Yes", "No"]);
        proof {
            reveal_strlit("Yes");
            reveal_strlit("No");
        }
        assert(strings_view(buttons.labels@) =~= seq!["Yes"@, "No"@]);
        SuggestPartition { buttons, help_visible: false }
    }

    /// `?` and the help as usual; Esc or Left leaves; Up and Down move the
    /// cursor; Enter on Yes lays out the configured disk by default with
    /// ext4 (an error when there is none) and leaves; Enter on No leaves.
    pub fn handle_key(&mut self, drive_config: &mut Option<Disk>, key: Key) -> (r: DriveSignal)
        requires
            old(self).buttons.wf(),
            (*old(drive_config)) matches Some(d) ==> d.wf() && default_layout_ok(d@),
        ensures
            final(self).buttons.wf(),
            (*final(drive_config)) matches Some(d) ==> d.wf(),
            ({
                let a = *old(self);
                let b = *final(self);
                let d = disk_view_of(*old(drive_config));
                let e = disk_view_of(*final(drive_config));
                match help_key(a.help_visible, key) {
                    Some(h) => b == (SuggestPartition { help_visible: h, ..a }) && e == d && r is Wait,
                    None => if is_back(key) {
                        b == a && e == d && r is Pop
                    } else if is_up(key) {
                        b == (SuggestPartition { buttons: menu_up(a.buttons), ..a }) && e == d && r is Wait
                    } else if is_down(key) {
                        b == (SuggestPartition { buttons: menu_down(a.buttons), ..a }) && e == d && r is Wait
                    } else if key == Key::Enter {
                        &&& b == a
                        &&& match a.buttons.focused_child {
                            Some(i) => if i == 0 {
                                match d {
                                    Some(dv) => e == Some(with_default_layout(dv, Some("ext4"@), None)) && r is Pop,
                                    None => e == d && (r matches DriveSignal::Error(m)
                                        && m@ == "No drive config available for suggested partition layout"@),
                                }
                            } else if i == 1 {
                                e == d && r is Pop
                            } else {
                                e == d && r is Wait
                            },
                            None => e == d && r is Wait,
                        }
                    } else {
                        b == a && e == d && r is Wait
                    },
                }
            }),
    {
        if key == Key::Char('?') {
            self.help_visible = !self.help_visible;
            return DriveSignal::Wait;
        }
        if self.help_visible {
            if key == Key::Esc {
                self.help_visible = false;
            }
            return DriveSignal::Wait;
        }
        match key {
            Key::Esc | Key::Left => DriveSignal::Pop,
            Key::Up | Key::Char('k') => {
                self.buttons.prev_child();
                DriveSignal::Wait
            },
            Key::Down | Key::Char('j') => {
                self.buttons.next_child();
                DriveSignal::Wait
            },
            Key::Enter => match self.buttons.selected_child() {
                Some(i) => {
                    if i == 0 {
                        match drive_config {
                            Some(cfg) => {
                                cfg.use_default_layout(Some(owned("ext4")));
                                DriveSignal::Pop
                            },
                            None => DriveSignal::Error(
                                owned("No drive config available for suggested partition layout"),
                            ),
                        }
                    } else if i == 1 {
                        DriveSignal::Pop
                    } else {
                        DriveSignal::Wait
                    }
                },
                None => DriveSignal::Wait,
            },
            _ => DriveSignal::Wait,
        }
    }
}

} // verus!
