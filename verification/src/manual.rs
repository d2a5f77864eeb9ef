//! The manual partitioning page: a table of the layout's entries above the
//! buttons Suggest, Confirm, Reset and Abort.
use vstd::prelude::*;
use crate::drives::{
    item_start, parse_u64, parse_u64_spec, Disk, DiskItem, DiskItemView, DiskView, Partition, PartitionView,
};
use crate::text::{decimal, owned, u64_to_decimal};
use crate::widgets::{header_position, next_row_spec, previous_row_spec, Key, TableRow, TableWidget};

verus! {

/// What the page asks for after a key press.
#[derive(Debug)]
pub enum ManualSignal {
    Wait,
    /// Leave this many pages.
    PopCount(usize),
    Error(String),
    /// Open the page that alters this partition.
    Alter(Partition),
    /// Open the page that creates a partition in this free space.
    NewPartition { id: u64, start: u64, sector_size: u64, size: u64 },
    /// Open the page that suggests a layout.
    Suggest,
    /// Keep the layout and go back to the main menu.
    Unwind,
}

/// The page: the layout table, which of table and buttons has the focus,
/// the button under the cursor, and whether Reset awaits confirmation.
pub struct ManualPartition {
    pub table: TableWidget,
    pub buttons_focused: bool,
    /// 0 Suggest, 1 Confirm and Exit, 2 Reset, 3 Abort.
    pub button: usize,
    pub confirming_reset: bool,
    pub help_visible: bool,
}

/// The labels of the buttons; Reset asks "Really?" while it awaits confirmation.
pub open spec fn manual_buttons(confirming: bool) -> Seq<&'static str> {
    seq![
        "Suggest Partition Layout",
        "Confirm and Exit",
        if confirming { "Really?" } else { "Reset Partition Layout" },
        "Abort",
    ]
}

/// The position of the last entry of `l` that starts at `start`.
pub open spec fn last_at(l: Seq<DiskItemView>, start: u64) -> Option<int>
    decreases l.len(),
{
    if l.len() == 0 {
        None
    } else if item_start(l.last()) == start {
        Some(l.len() - 1)
    } else {
        last_at(l.drop_last(), start)
    }
}

proof fn lemma_last_at(l: Seq<DiskItemView>, start: u64)
    ensures
        match last_at(l, start) {
            Some(i) => 0 <= i < l.len() && item_start(l[i]) == start && forall|k: int|
                i < k < l.len() ==> item_start(#[trigger] l[k]) != start,
            None => forall|k: int| 0 <= k < l.len() ==> item_start(#[trigger] l[k]) != start,
        },
    decreases l.len(),
{
    if l.len() > 0 {
        lemma_last_at(l.drop_last(), start);
        if item_start(l.last()) != start {
            assert forall|k: int| 0 <= k < l.len() - 1 implies l[k] == l.drop_last()[k] by {}
        }
    }
}

/// The start field of the selected row, read as a number.
pub open spec fn selected_start(t: TableWidget) -> Option<Option<nat>> {
    match t.selected_row {
        Some(i) => if i < t.rows@.len() {
            let headers = t.headers@.map_values(|s: String| s@);
            Some(
                match header_position(headers, "start"@) {
                    Some(h) => if h < t.rows@[i as int]@.len() {
                        parse_u64_spec(t.rows@[i as int]@[h]@)
                    } else {
                        None
                    },
                    None => None,
                },
            )
        } else {
            None
        },
        None => None,
    }
}

/// The table with the selection and focus given.
pub open spec fn table_with(t: TableWidget, sel: Option<usize>, focused: bool) -> TableWidget {
    TableWidget { selected_row: sel, focused, ..t }
}

/// The page after the reset confirmation is dropped by a key other than Enter.
pub open spec fn unconfirmed(p: ManualPartition, key: Key) -> ManualPartition {
    if p.confirming_reset && key != Key::Enter {
        ManualPartition { confirming_reset: false, ..p }
    } else {
        p
    }
}

fn select_last_at(layout: &Vec<DiskItem>, start: u64) -> (r: Option<usize>)
    ensures
        match r {
            Some(i) => last_at(crate::drives::items_view(layout@), start) == Some(i as int),
            None => last_at(crate::drives::items_view(layout@), start) is None,
        },
{
    let ghost l = crate::drives::items_view(layout@);
    proof {
        lemma_last_at(l, start);
    }
    let mut i: usize = layout.len();
    while i > 0
        invariant
            i <= layout@.len(),
            l == crate::drives::items_view(layout@),
            forall|k: int| i <= k < l.len() ==> item_start(#[trigger] l[k]) != start,
        decreases i,
    {
        assert(l[i - 1] == layout@[i - 1]@);
        if layout[i - 1].start() == start {
            proof {
                lemma_last_at(l, start);
                if last_at(l, start) != Some(i - 1) {
                    match last_at(l, start) {
                        Some(j) => {
                            assert(item_start(l[i - 1]) == start);
                        },
                        None => {
                            assert(item_start(l[i - 1]) == start);
                        },
                    }
                }
            }
            return Some(i - 1);
        }
        i = i - 1;
    }
    None
}

impl ManualPartition {
    /// The page over a layout table, with the table focused.
    pub fn new(table: TableWidget) -> (r: Self)
        ensures
            r.table == (TableWidget {
                focused: true,
                selected_row: match table.selected_row {
                    Some(i) => Some(i),
                    None => Some(0usize),
                },
                ..table
            }),
            !r.buttons_focused,
            r.button == 0,
            !r.confirming_reset,
            !r.help_visible,
    {
        let mut table = table;
        table.focus();
        ManualPartition { table, buttons_focused: false, button: 0, confirming_reset: false, help_visible: false }
    }

    /// The labels of the buttons.
    pub fn button_labels(&self) -> (r: Vec<&'static str>)
        ensures
            r@ == manual_buttons(self.confirming_reset),
    {
        let r = vec![
            "Suggest Partition Layout",
            "Confirm and Exit",
            if self.confirming_reset {
                "Really?"
            } else {
                "Reset Partition Layout"
            },
            "Abort",
        ];
        assert(r@ =~= manual_buttons(self.confirming_reset));
        r
    }
}

/// The disk after Reset: the layout found at start, free space recomputed
/// and partitions numbered.
pub open spec fn reset_disk(d: DiskView) -> DiskView {
    let (l, n) = crate::drives::free_space_spec(DiskView { layout: d.initial_layout, ..d });
    crate::drives::numbered(DiskView { layout: l, next_id: n, ..d })
}

/// What Enter on a table row asks for: the page for the entry that starts
/// where the row says (the last one there), or why there is none.
pub open spec fn row_signal(t: TableWidget, d: Option<DiskView>, r: ManualSignal) -> bool {
    match selected_start(t) {
        None => r matches ManualSignal::Error(m) && m@ == "No row selected in disk config table"@,
        Some(None) => r matches ManualSignal::Error(m) && m@ == "Failed to parse start sector from row"@,
        Some(Some(st)) => match d {
            None => r matches ManualSignal::Error(m) && m@ == "No drive config available"@,
            Some(dv) => match last_at(dv.layout, st as u64) {
                None => r matches ManualSignal::Error(m) && m@ == "No partition or free space found at start sector "@
                    + decimal(st),
                Some(i) => match dv.layout[i] {
                    DiskItemView::Part(p) => r matches ManualSignal::Alter(q) && q@ == p,
                    DiskItemView::Free { id, start, size } => r matches ManualSignal::NewPartition {
                        id: a,
                        start: s,
                        sector_size: z,
                        size: n,
                    } && a == id && s == start && z == dv.sector_size && n == size,
                },
            },
        },
    }
}

/// A key on the focused table.
pub open spec fn table_step(u: ManualPartition, key: Key, b: ManualPartition, r: ManualSignal, row_ok: bool) -> bool {
    let t = u.table;
    if key == Key::Esc || key == Key::Left {
        b == u && (r matches ManualSignal::PopCount(n) && n == 2)
    } else if key == Key::Up || key == Key::Char('k') {
        let (sel, moved) = previous_row_spec(t.selected_row);
        &&& r is Wait
        &&& if moved {
            b == (ManualPartition { table: table_with(t, sel, true), ..u })
        } else {
            b == (ManualPartition { table: table_with(t, sel, false), buttons_focused: true, button: 3, ..u })
        }
    } else if key == Key::Down || key == Key::Char('j') {
        let (sel, moved) = next_row_spec(t.selected_row, t.rows@.len());
        &&& r is Wait
        &&& if moved {
            b == (ManualPartition { table: table_with(t, sel, true), ..u })
        } else {
            b == (ManualPartition { table: table_with(t, sel, false), buttons_focused: true, button: 0, ..u })
        }
    } else if key == Key::Enter {
        b == u && row_ok
    } else {
        b == u && r is Wait
    }
}

/// A key on the focused buttons.
pub open spec fn buttons_step(
    u: ManualPartition,
    d: Option<DiskView>,
    key: Key,
    b: ManualPartition,
    e: Option<DiskView>,
    r: ManualSignal,
) -> bool {
    let t = u.table;
    let n = t.rows@.len();
    if key == Key::Esc || key == Key::Left {
        b == u && e == d && (r matches ManualSignal::PopCount(k) && k == 2)
    } else if key == Key::Up || key == Key::Char('k') {
        &&& e == d && r is Wait
        &&& if u.button > 0 {
            b == (ManualPartition { button: (u.button - 1) as usize, ..u })
        } else {
            b == (ManualPartition {
                table: table_with(t, Some(if n > 0 { (n - 1) as usize } else { 0usize }), true),
                buttons_focused: false,
                ..u
            })
        }
    } else if key == Key::Down || key == Key::Char('j') {
        &&& e == d && r is Wait
        &&& if u.button + 1 < 4 {
            b == (ManualPartition { button: (u.button + 1) as usize, ..u })
        } else {
            b == (ManualPartition { table: table_with(t, Some(0usize), true), buttons_focused: false, ..u })
        }
    } else if key == Key::Enter {
        if u.button == 0 {
            b == u && e == d && r is Suggest
        } else if u.button == 1 {
            b == u && e == d && r is Unwind
        } else if u.button == 2 {
            if !u.confirming_reset {
                b == (ManualPartition { confirming_reset: true, ..u }) && e == d && r is Wait
            } else {
                match d {
                    None => b == u && e == d && r is Wait,
                    Some(dv) => {
                        &&& e == Some(reset_disk(dv))
                        &&& b == (ManualPartition {
                            table: table_with(t, Some(0usize), true),
                            buttons_focused: false,
                            confirming_reset: false,
                            ..u
                        })
                        &&& r is Wait
                    },
                }
            }
        } else if u.button == 3 {
            b == u && e == d && (r matches ManualSignal::PopCount(k) && k == 2)
        } else {
            b == u && e == d && r is Wait
        }
    } else {
        b == u && e == d && r is Wait
    }
}

/// The view of an optional disk.
pub open spec fn disk_view_of(o: Option<Disk>) -> Option<DiskView> {
    match o {
        Some(d) => Some(d@),
        None => None,
    }
}

impl ManualPartition {
    fn row_enter(&self, drive_config: &Option<Disk>) -> (r: ManualSignal)
        requires
            self.table.focused,
        ensures
            row_signal(self.table, disk_view_of(*drive_config), r),
    {
        let row = match self.table.get_selected_row_info() {
            Some(row) => row,
            None => {
                return ManualSignal::Error(owned("No row selected in disk config table"));
            },
        };
        let ghost i = self.table.selected_row->0;
        assert(row.headers_view() =~= self.table.headers@.map_values(|s: String| s@));
        let start = match row.get_field("start") {
            Some(f) => match parse_u64(f.as_str()) {
                Some(v) => v,
                None => {
                    return ManualSignal::Error(owned("Failed to parse start sector from row"));
                },
            },
            None => {
                return ManualSignal::Error(owned("Failed to parse start sector from row"));
            },
        };
        let drive = match drive_config {
            Some(d) => d,
            None => {
                return ManualSignal::Error(owned("No drive config available"));
            },
        };
        let layout = drive.layout();
        proof {
            lemma_last_at(crate::drives::items_view(layout@), start);
        }
        match select_last_at(layout, start) {
            None => {
                let mut m = owned("No partition or free space found at start sector ");
                m.append(u64_to_decimal(start).as_str());
                ManualSignal::Error(m)
            },
            Some(i) => {
                assert(crate::drives::items_view(layout@)[i as int] == layout@[i as int]@);
                match &layout[i] {
                    DiskItem::Partition(p) => ManualSignal::Alter(p.clone()),
                    DiskItem::FreeSpace { id, start, size } => ManualSignal::NewPartition {
                        id: *id,
                        start: *start,
                        sector_size: drive.sector_size(),
                        size: *size,
                    },
                }
            },
        }
    }

    /// `?` shows or hides the help, which takes every key while shown (Esc
    /// hides it). A key other than Enter drops a pending reset. Then the
    /// table or the buttons take the key (see `table_step` and
    /// `buttons_step`); with neither focused the table takes the focus first.
    pub fn handle_key(&mut self, drive_config: &mut Option<Disk>, key: Key) -> (r: ManualSignal)
        requires
            (*old(drive_config)) matches Some(d) ==> d.wf(),
        ensures
            (*final(drive_config)) matches Some(d) ==> d.wf(),
            ({
                let a = *old(self);
                let d = disk_view_of(*old(drive_config));
                let e = disk_view_of(*final(drive_config));
                let b = *final(self);
                if key == Key::Char('?') {
                    b == (ManualPartition { help_visible: !a.help_visible, ..a }) && e == d && r is Wait
                } else if a.help_visible {
                    &&& b == (ManualPartition { help_visible: key != Key::Esc, ..a })
                    &&& e == d
                    &&& r is Wait
                } else {
                    let u = unconfirmed(a, key);
                    if u.table.focused {
                        e == d && table_step(u, key, b, r, row_signal(u.table, d, r))
                    } else if u.buttons_focused {
                        buttons_step(u, d, key, b, e, r)
                    } else {
                        let t = TableWidget {
                            focused: true,
                            selected_row: match u.table.selected_row {
                                Some(i) => Some(i),
                                None => Some(0usize),
                            },
                            ..u.table
                        };
                        let v = ManualPartition { table: t, ..u };
                        e == d && table_step(v, key, b, r, row_signal(t, d, r))
                    }
                }
            }),
    {
        if key == Key::Char('?') {
            self.help_visible = !self.help_visible;
            return ManualSignal::Wait;
        }
        if self.help_visible {
            if key == Key::Esc {
                self.help_visible = false;
            }
            return ManualSignal::Wait;
        }
        if self.confirming_reset && key != Key::Enter {
            self.confirming_reset = false;
        }
        if !self.table.is_focused() && !self.buttons_focused {
            self.table.focus();
        }
        if self.table.is_focused() {
            match key {
                Key::Esc | Key::Left => ManualSignal::PopCount(2),
                Key::Up | Key::Char('k') => {
                    if !self.table.previous_row() {
                        self.table.unfocus();
                        self.button = 3;
                        self.buttons_focused = true;
                    }
                    ManualSignal::Wait
                },
                Key::Down | Key::Char('j') => {
                    if !self.table.next_row() {
                        self.table.unfocus();
                        self.button = 0;
                        self.buttons_focused = true;
                    }
                    ManualSignal::Wait
                },
                Key::Enter => self.row_enter(drive_config),
                _ => ManualSignal::Wait,
            }
        } else {
            match key {
                Key::Esc | Key::Left => ManualSignal::PopCount(2),
                Key::Up | Key::Char('k') => {
                    if self.button > 0 {
                        self.button = self.button - 1;
                    } else {
                        self.buttons_focused = false;
                        self.table.last_row();
                        self.table.focus();
                    }
                    ManualSignal::Wait
                },
                Key::Down | Key::Char('j') => {
                    if self.button < 3 {
                        self.button = self.button + 1;
                    } else {
                        self.buttons_focused = false;
                        self.table.first_row();
                        self.table.focus();
                    }
                    ManualSignal::Wait
                },
                Key::Enter => {
                    if self.button == 0 {
                        ManualSignal::Suggest
                    } else if self.button == 1 {
                        ManualSignal::Unwind
                    } else if self.button == 2 {
                        if !self.confirming_reset {
                            self.confirming_reset = true;
                            ManualSignal::Wait
                        } else {
                            match drive_config {
                                Some(device) => {
                                    device.reset_layout();
                                    device.assign_device_numbers();
                                    self.buttons_focused = false;
                                    self.table.first_row();
                                    self.table.focus();
                                    self.confirming_reset = false;
                                    ManualSignal::Wait
                                },
                                None => ManualSignal::Wait,
                            }
                        }
                    } else if self.button == 3 {
                        ManualSignal::PopCount(2)
                    } else {
                        ManualSignal::Wait
                    }
                },
                _ => ManualSignal::Wait,
            }
        }
    }
}

} // verus!
