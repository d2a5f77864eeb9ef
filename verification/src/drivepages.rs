//! What the partitioning pages decide: checks on mount points and labels,
//! the partition that the new-partition form describes, and how large a new
//! partition can be.
use vstd::prelude::*;
use crate::drives::{
    clone_opt, find_id, opt_view, overlaps_live, with_new_partition, keep_items, normalize_spec, numbered,
    Disk, DiskError, DiskItem, DiskItemView, DiskView, PartStatus, Partition, PartitionEdit, PartitionView, Select,
};
use crate::installer::PageSignal;
use crate::text::{owned, str_eq, strings_view, to_chars, trim, trim_seq, u64_to_decimal, decimal};
use crate::users::{without, without_exec};
use crate::widgets::{edited_cursor, Key, LineEditor};

verus! {

// ---------------------------------------------------------------------------
// Mount points
// ---------------------------------------------------------------------------

/// Mount points of the partitions other than `id` that are kept, in layout order.
pub open spec fn other_mounts(l: Seq<DiskItemView>, id: u64) -> Seq<Seq<char>>
    decreases l.len(),
{
    if l.len() == 0 {
        Seq::empty()
    } else {
        let rest = other_mounts(l.drop_last(), id);
        match l.last() {
            DiskItemView::Part(p) => if p.status != PartStatus::Delete && p.id != id && p.mount_point is Some {
                rest.push(p.mount_point->0)
            } else {
                rest
            },
            _ => rest,
        }
    }
}

/// The mount point of the partition found under `id`.
pub open spec fn mount_of(l: Seq<DiskItemView>, id: u64) -> Option<Seq<char>> {
    match find_id(l, id) {
        Some(i) => match l[i] {
            DiskItemView::Part(p) => p.mount_point,
            _ => None,
        },
        None => None,
    }
}

/// Mount points that other partitions hold; the partition's own is not among them.
pub open spec fn taken_mounts(l: Seq<DiskItemView>, id: u64) -> Seq<Seq<char>> {
    match mount_of(l, id) {
        Some(c) => without(other_mounts(l, id), c),
        None => other_mounts(l, id),
    }
}

/// Why a mount point is refused, if it is.
pub open spec fn mount_point_error(mp: Seq<char>, taken: Seq<Seq<char>>) -> Option<Seq<char>> {
    if mp.len() == 0 {
        Some("Mount point cannot be empty."@)
    } else if mp[0] != '/' {
        Some("Mount point must be an absolute path starting with '/'."@)
    } else if mp != "/"@ && mp.last() == '/' {
        Some("Mount point cannot end with '/' unless it is root '/'."@)
    } else if taken.contains(mp) {
        Some("Mount point '"@ + mp + "' is already taken by another partition."@)
    } else {
        None
    }
}

/// The label that goes with a mount point, for the boot and root mounts.
pub open spec fn mount_label(mp: Seq<char>) -> Option<Seq<char>> {
    if mp == "/boot"@ || mp == "/boot/efi"@ {
        Some("BOOT"@)
    } else if mp == "/"@ {
        Some("ROOT"@)
    } else {
        None
    }
}

/// The disk after giving the partition under `id` the mount point `mp`, and
/// the label that goes with it where there is one.
pub open spec fn with_mount_point(d: DiskView, id: u64, mp: Seq<char>) -> DiskView {
    match find_id(d.layout, id) {
        Some(i) => match d.layout[i] {
            DiskItemView::Part(p) => DiskView {
                layout: d.layout.update(
                    i,
                    DiskItemView::Part(
                        PartitionView {
                            mount_point: Some(mp),
                            label: match mount_label(mp) {
                                Some(l) => Some(l),
                                None => p.label,
                            },
                            ..p
                        },
                    ),
                ),
                ..d
            },
            _ => d,
        },
        None => d,
    }
}

pub(crate) proof fn lemma_find_id_update(l: Seq<DiskItemView>, id: u64, i: int, x: DiskItemView)
    requires
        find_id(l, id) == Some(i),
        crate::drives::item_id(x) == id,
    ensures
        find_id(l.update(i, x), id) == Some(i),
    decreases l.len(),
{
    crate::drives::lemma_find_id(l, id);
    assert(l.len() > 0);
    if crate::drives::item_id(l[0]) == id {
        assert(i == 0);
        assert(l.update(i, x)[0] == x);
    } else {
        let j = find_id(l.drop_first(), id)->0;
        assert(j == i - 1);
        assert(l.update(i, x)[0] == l[0]);
        assert(l.update(i, x).drop_first() =~= l.drop_first().update(j, x));
        lemma_find_id_update(l.drop_first(), id, j, x);
    }
}

/// The mount points of the kept partitions other than `id`.
fn collect_other_mounts(disk: &Disk, id: u64) -> (r: Vec<String>)
    ensures
        strings_view(r@) == other_mounts(disk@.layout, id),
{
    let layout = disk.layout();
    let ghost l = disk@.layout;
    let mut r: Vec<String> = Vec::new();
    let mut i: usize = 0;
    while i < layout.len()
        invariant
            i <= layout@.len(),
            l == crate::drives::items_view(layout@),
            strings_view(r@) == other_mounts(l.take(i as int), id),
        decreases layout@.len() - i,
    {
        assert(l.take(i + 1).drop_last() =~= l.take(i as int));
        assert(l[i as int] == layout@[i as int]@);
        match &layout[i] {
            DiskItem::Partition(p) => {
                if p.status() != PartStatus::Delete && p.id() != id {
                    match p.mount_point() {
                        Some(m) => {
                            let ghost before = strings_view(r@);
                            r.push(owned(m));
                            assert(strings_view(r@) =~= before.push(m@));
                        },
                        None => {},
                    }
                }
            },
            DiskItem::FreeSpace { .. } => {},
        }
        i = i + 1;
    }
    assert(l.take(layout@.len() as int) =~= l);
    r
}

/// Gives the partition under `id` the mount point `mount_point` (and the
/// boot or root label that goes with it) once the mount point passes the
/// checks; else returns why it is refused and changes nothing.
pub fn set_mount_point(disk: &mut Disk, id: u64, mount_point: &str) -> (r: Result<(), String>)
    ensures
        old(disk).wf() ==> final(disk).wf(),
        match mount_point_error(mount_point@, taken_mounts(old(disk)@.layout, id)) {
            Some(e) => r matches Err(msg) && msg@ == e && final(disk)@ == old(disk)@,
            None => r is Ok && final(disk)@ == with_mount_point(old(disk)@, id, mount_point@),
        },
{
    let others = collect_other_mounts(disk, id);
    proof {
        crate::drives::lemma_find_id(disk@.layout, id);
    }
    let taken = match disk.partition_by_id(id) {
        Some(p) => match p.mount_point() {
            Some(current) => without_exec(&others, current),
            None => others,
        },
        None => others,
    };
    assert(strings_view(taken@) == taken_mounts(disk@.layout, id));
    match SetMountPoint::validate_mount_point(mount_point, &taken) {
        Err(e) => {
            return Err(e);
        },
        Ok(()) => {},
    }
    let ghost d0 = disk@;
    let found = disk.modify_partition(id, PartitionEdit::SetMountPoint(owned(mount_point)));
    if found {
        proof {
            let i = find_id(d0.layout, id)->0;
            lemma_find_id_update(d0.layout, id, i, disk@.layout[i]);
        }
        if str_eq(mount_point, "/boot") || str_eq(mount_point, "/boot/efi") {
            disk.modify_partition(id, PartitionEdit::SetLabel(owned("BOOT")));
        } else if str_eq(mount_point, "/") {
            disk.modify_partition(id, PartitionEdit::SetLabel(owned("ROOT")));
        }
        proof {
            let i = find_id(d0.layout, id)->0;
            assert(disk@.layout =~= with_mount_point(d0, id, mount_point@).layout);
        }
    }
    Ok(())
}

// ---------------------------------------------------------------------------
// Labels
// ---------------------------------------------------------------------------

/// Bytes that a character takes in UTF-8.
pub open spec fn utf8_width(c: char) -> nat {
    if (c as u32) < 0x80 {
        1
    } else if (c as u32) < 0x800 {
        2
    } else if (c as u32) < 0x10000 {
        3
    } else {
        4
    }
}

/// Bytes that a text takes in UTF-8 (what `str::len` counts).
pub open spec fn utf8_len(s: Seq<char>) -> nat
    decreases s.len(),
{
    if s.len() == 0 {
        0
    } else {
        utf8_len(s.drop_last()) + utf8_width(s.last())
    }
}

pub(crate) proof fn lemma_utf8_len_prefix(s: Seq<char>, i: int)
    requires
        0 <= i <= s.len(),
    ensures
        utf8_len(s.take(i)) <= utf8_len(s),
    decreases s.len() - i,
{
    if i < s.len() {
        lemma_utf8_len_prefix(s, i + 1);
        assert(s.take(i + 1).drop_last() =~= s.take(i));
    } else {
        assert(s.take(i) =~= s);
    }
}

pub(crate) fn char_width(c: char) -> (r: u64)
    ensures
        r == utf8_width(c),
{
    let u = c as u32;
    if u < 0x80 {
        1
    } else if u < 0x800 {
        2
    } else if u < 0x10000 {
        3
    } else {
        4
    }
}

/// Why a partition label is refused, if it is.
pub open spec fn label_error(label: Seq<char>) -> Option<Seq<char>> {
    if label.len() == 0 {
        Some("Label cannot be empty."@)
    } else if utf8_len(label) > 36 {
        Some("Label cannot exceed 36 characters."@)
    } else if label.contains(' ') {
        Some("Label cannot contain spaces."@)
    } else {
        None
    }
}

/// Why an edit of a partition did not happen.
#[derive(Debug)]
pub enum EditRefused {
    /// The entered value is refused; the message says why.
    Invalid(String),
    /// No partition has the identifier; the message says so.
    NoPartition(String),
}

/// The identifier names a partition of the layout.
pub open spec fn names_partition(l: Seq<DiskItemView>, id: u64) -> bool {
    match find_id(l, id) {
        Some(i) => l[i] is Part,
        None => false,
    }
}

/// The disk after setting the label of the partition under `id`.
pub open spec fn with_label(d: DiskView, id: u64, label: Seq<char>) -> DiskView {
    match find_id(d.layout, id) {
        Some(i) => match d.layout[i] {
            DiskItemView::Part(p) => DiskView {
                layout: d.layout.update(i, DiskItemView::Part(PartitionView { label: Some(label), ..p })),
                ..d
            },
            _ => d,
        },
        None => d,
    }
}

/// Checks a label and sets it on the partition under `id`.
pub fn set_partition_label(disk: &mut Disk, id: u64, label: &str) -> (r: Result<(), EditRefused>)
    ensures
        old(disk).wf() ==> final(disk).wf(),
        match label_error(label@) {
            Some(e) => r matches Err(EditRefused::Invalid(msg)) && msg@ == e && final(disk)@ == old(disk)@,
            None => if names_partition(old(disk)@.layout, id) {
                r is Ok && final(disk)@ == with_label(old(disk)@, id, label@)
            } else {
                r matches Err(EditRefused::NoPartition(msg)) && msg@ == "No partition found with id "@
                    + decimal(id as nat) && final(disk)@ == old(disk)@
            },
        },
{
    let chars = to_chars(label);
    if chars.len() == 0 {
        return Err(EditRefused::Invalid(owned("Label cannot be empty.")));
    }
    let mut bytes: u64 = 0;
    let mut j: usize = 0;
    while j < chars.len()
        invariant
            j <= chars@.len(),
            chars@ == label@,
            bytes == utf8_len(chars@.take(j as int)),
            bytes <= 36,
        decreases chars@.len() - j,
    {
        assert(chars@.take(j + 1).drop_last() =~= chars@.take(j as int));
        bytes = bytes + char_width(chars[j]);
        if bytes > 36 {
            proof {
                lemma_utf8_len_prefix(chars@, j + 1);
            }
            return Err(EditRefused::Invalid(owned("Label cannot exceed 36 characters.")));
        }
        j = j + 1;
    }
    assert(chars@.take(chars@.len() as int) =~= chars@);
    let mut i: usize = 0;
    while i < chars.len()
        invariant
            i <= chars@.len(),
            chars@ == label@,
            chars@.len() > 0,
            utf8_len(label@) <= 36,
            forall|k: int| 0 <= k < i ==> chars@[k] != ' ',
        decreases chars@.len() - i,
    {
        if chars[i] == ' ' {
            assert(chars@.contains(' '));
            return Err(EditRefused::Invalid(owned("Label cannot contain spaces.")));
        }
        i = i + 1;
    }
    assert(!label@.contains(' '));
    if disk.modify_partition(id, PartitionEdit::SetLabel(owned(label))) {
        Ok(())
    } else {
        let mut msg = owned("No partition found with id ");
        let num = u64_to_decimal(id);
        msg.append(num.as_str());
        Err(EditRefused::NoPartition(msg))
    }
}

// ---------------------------------------------------------------------------
// The mount point and label pages
// ---------------------------------------------------------------------------

/// The page that asks for a partition's mount point.
pub struct SetMountPoint {
    editor: LineEditor,
    dev_id: u64,
}

/// The page that asks for a partition's label.
pub struct SetLabel {
    editor: LineEditor,
    dev_id: u64,
}

/// An editor focused with an empty text, under a title and a placeholder.
pub open spec fn fresh_editor(e: LineEditor, title: Seq<char>, placeholder: Seq<char>) -> bool {
    &&& e.title@ == title
    &&& e.placeholder matches Some(p) && p@ == placeholder
    &&& e.focused
    &&& !e.is_secret
    &&& e.value@.len() == 0
    &&& e.error is None
    &&& e.cursor == 0
}

fn focused_editor(title: &str, placeholder: &str) -> (r: LineEditor)
    ensures
        fresh_editor(r, title@, placeholder@),
{
    let mut e = LineEditor::new(owned(title), Some(owned(placeholder)));
    e.focus();
    e
}

impl SetMountPoint {
    /// Checks a mount point against the rules and the ones already taken.
    pub fn validate_mount_point(mount_point: &str, taken: &Vec<String>) -> (r: Result<(), String>)
        ensures
            match r {
                Ok(()) => mount_point_error(mount_point@, strings_view(taken@)) is None,
                Err(e) => mount_point_error(mount_point@, strings_view(taken@)) == Some(e@),
            },
    {
        let chars = to_chars(mount_point);
        let n = chars.len();
        if n == 0 {
            return Err(owned("Mount point cannot be empty."));
        }
        if chars[0] != '/' {
            return Err(owned("Mount point must be an absolute path starting with '/'."));
        }
        if !str_eq(mount_point, "/") && chars[n - 1] == '/' {
            return Err(owned("Mount point cannot end with '/' unless it is root '/'."));
        }
        if crate::drives::strings_contain(taken, mount_point) {
            let mut msg = owned("Mount point '");
            msg.append(mount_point);
            msg.append("' is already taken by another partition.");
            return Err(msg);
        }
        Ok(())
    }

    /// The editor's cursor stays within the bytes of its text.
    pub closed spec fn wf(&self) -> bool {
        self.editor.cursor <= utf8_len(self.editor.value@)
    }

    pub closed spec fn editor_view(&self) -> LineEditor {
        self.editor
    }

    pub closed spec fn id_view(&self) -> u64 {
        self.dev_id
    }

    pub fn new(dev_id: u64) -> (r: Self)
        ensures
            r.wf(),
            r.id_view() == dev_id,
            fresh_editor(r.editor_view(), "Mount Point"@, "Enter a mount point..."@),
    {
        SetMountPoint { editor: focused_editor("Mount Point", "Enter a mount point..."), dev_id }
    }

    pub fn editor(&self) -> (r: &LineEditor)
        ensures
            *r == self.editor_view(),
    {
        &self.editor
    }

    /// Esc leaves the page; Enter sets the trimmed text as mount point and
    /// leaves, or shows why it is refused; other keys edit the text.
    pub fn handle_key(&mut self, disk: &mut Disk, key: Key) -> (r: PageSignal)
        requires
            old(self).wf(),
            key != Key::Esc && key != Key::Enter ==> old(self).editor_view().takes(key),
        ensures
            final(self).wf(),
            final(self).id_view() == old(self).id_view(),
            old(disk).wf() ==> final(disk).wf(),
            key == Key::Esc ==> r == PageSignal::Pop && final(disk)@ == old(disk)@ && final(self).editor_view()
                == old(self).editor_view(),
            key == Key::Enter ==> {
                let mp = trim_seq(old(self).editor_view().value@);
                match mount_point_error(mp, taken_mounts(old(disk)@.layout, old(self).id_view())) {
                    Some(e) => {
                        &&& r == PageSignal::Wait
                        &&& final(disk)@ == old(disk)@
                        &&& final(self).editor_view().error matches Some(m) && m@ == e
                        &&& final(self).editor_view().value@.len() == 0
                    },
                    None => r == PageSignal::Pop && final(disk)@ == with_mount_point(
                        old(disk)@,
                        old(self).id_view(),
                        mp,
                    ) && final(self).editor_view() == old(self).editor_view(),
                }
            },
            key != Key::Esc && key != Key::Enter ==> {
                let e = old(self).editor_view();
                &&& r == PageSignal::Wait
                &&& final(disk)@ == old(disk)@
                &&& final(self).editor_view().value@ == crate::widgets::edited_value(e.value@, e.cursor as int, key)
                &&& final(self).editor_view().cursor == edited_cursor(e.value@, e.cursor as int, key)
            },
    {
        match key {
            Key::Esc => PageSignal::Pop,
            Key::Enter => {
                let mp = trim(self.editor.value.as_str());
                match set_mount_point(disk, self.dev_id, mp.as_str()) {
                    Ok(()) => PageSignal::Pop,
                    Err(e) => {
                        self.editor.error(e);
                        PageSignal::Wait
                    },
                }
            },
            _ => {
                self.editor.handle_key(key);
                PageSignal::Wait
            },
        }
    }
}

impl SetLabel {
    /// The editor's cursor stays within the bytes of its text.
    pub closed spec fn wf(&self) -> bool {
        self.editor.cursor <= utf8_len(self.editor.value@)
    }

    pub closed spec fn editor_view(&self) -> LineEditor {
        self.editor
    }

    pub closed spec fn id_view(&self) -> u64 {
        self.dev_id
    }

    pub fn new(dev_id: u64) -> (r: Self)
        ensures
            r.wf(),
            r.id_view() == dev_id,
            fresh_editor(r.editor_view(), "Partition Label"@, "Enter a label..."@),
    {
        SetLabel { editor: focused_editor("Partition Label", "Enter a label..."), dev_id }
    }

    pub fn editor(&self) -> (r: &LineEditor)
        ensures
            *r == self.editor_view(),
    {
        &self.editor
    }

    /// Esc leaves the page; Enter sets the trimmed text as label and leaves,
    /// shows why it is refused, or reports a missing partition; other keys
    /// edit the text.
    pub fn handle_key(&mut self, disk: &mut Disk, key: Key) -> (r: PageSignal)
        requires
            old(self).wf(),
            key != Key::Esc && key != Key::Enter ==> old(self).editor_view().takes(key),
        ensures
            final(self).wf(),
            final(self).id_view() == old(self).id_view(),
            old(disk).wf() ==> final(disk).wf(),
            key == Key::Esc ==> r == PageSignal::Pop && final(disk)@ == old(disk)@ && final(self).editor_view()
                == old(self).editor_view(),
            key == Key::Enter ==> {
                let l = trim_seq(old(self).editor_view().value@);
                match label_error(l) {
                    Some(e) => {
                        &&& r == PageSignal::Wait
                        &&& final(disk)@ == old(disk)@
                        &&& final(self).editor_view().error matches Some(m) && m@ == e
                        &&& final(self).editor_view().value@.len() == 0
                    },
                    None => if names_partition(old(disk)@.layout, old(self).id_view()) {
                        r == PageSignal::Pop && final(disk)@ == with_label(old(disk)@, old(self).id_view(), l)
                    } else {
                        r matches PageSignal::Error(m) && m@ == "No partition found with id "@ + decimal(
                            old(self).id_view() as nat,
                        ) && final(disk)@ == old(disk)@
                    },
                }
            },
            key != Key::Esc && key != Key::Enter ==> {
                let e = old(self).editor_view();
                &&& r == PageSignal::Wait
                &&& final(disk)@ == old(disk)@
                &&& final(self).editor_view().value@ == crate::widgets::edited_value(e.value@, e.cursor as int, key)
                &&& final(self).editor_view().cursor == edited_cursor(e.value@, e.cursor as int, key)
            },
    {
        match key {
            Key::Esc => PageSignal::Pop,
            Key::Enter => {
                let l = trim(self.editor.value.as_str());
                match set_partition_label(disk, self.dev_id, l.as_str()) {
                    Ok(()) => PageSignal::Pop,
                    Err(EditRefused::Invalid(e)) => {
                        self.editor.error(e);
                        PageSignal::Wait
                    },
                    Err(EditRefused::NoPartition(m)) => PageSignal::Error(m),
                }
            },
            _ => {
                self.editor.handle_key(key);
                PageSignal::Wait
            },
        }
    }
}

// ---------------------------------------------------------------------------
// New partitions
// ---------------------------------------------------------------------------

/// Flags of a new partition: boot (and esp for the EFI mount) unless it is
/// swap, and encrypt when asked for.
pub open spec fn new_part_flags(fs: Option<Seq<char>>, mp: Option<Seq<char>>, encrypt: bool) -> Seq<Seq<char>> {
    let is_swap = fs == Some("swap"@);
    let base = if !is_swap && mp == Some("/boot/efi"@) {
        seq!["boot"@, "esp"@]
    } else if !is_swap && mp == Some("/boot"@) {
        seq!["boot"@]
    } else {
        Seq::empty()
    };
    if encrypt {
        base.push("encrypt"@)
    } else {
        base
    }
}

/// Label of a new partition: SWAP for swap, else the label of its mount point.
pub open spec fn new_part_label(fs: Option<Seq<char>>, mp: Option<Seq<char>>) -> Option<Seq<char>> {
    if fs == Some("swap"@) {
        Some("SWAP"@)
    } else {
        match mp {
            Some(m) => mount_label(m),
            None => None,
        }
    }
}

/// Mount point of a new partition: none for swap.
pub open spec fn new_part_mount(fs: Option<Seq<char>>, mp: Option<Seq<char>>) -> Option<Seq<char>> {
    if fs == Some("swap"@) {
        None
    } else {
        mp
    }
}

/// The partition that the new-partition form describes (its identifier is
/// given when the disk takes it).
pub open spec fn planned_partition(
    start: u64,
    size: u64,
    sector_size: u64,
    fs: Option<Seq<char>>,
    mp: Option<Seq<char>>,
    encrypt: bool,
) -> PartitionView {
    PartitionView {
        id: 0,
        start,
        size,
        sector_size,
        status: PartStatus::Create,
        name: None,
        fs_type: fs,
        mount_point: new_part_mount(fs, mp),
        ro: false,
        label: new_part_label(fs, mp),
        flags: new_part_flags(fs, mp, encrypt),
    }
}

fn opt_is(o: &Option<String>, s: &str) -> (r: bool)
    ensures
        r == (opt_view(*o) == Some(s@)),
{
    match o {
        Some(x) => str_eq(x.as_str(), s),
        None => false,
    }
}

/// Builds the partition that the new-partition form describes.
pub fn plan_new_partition(
    start: u64,
    size: u64,
    sector_size: u64,
    fs: &Option<String>,
    mount_point: &Option<String>,
    encrypt: Option<bool>,
) -> (r: Partition)
    ensures
        r@ == planned_partition(
            start,
            size,
            sector_size,
            opt_view(*fs),
            opt_view(*mount_point),
            encrypt == Some(true),
        ),
{
    let is_swap = opt_is(fs, "swap");
    let mut flags: Vec<String> = Vec::new();
    if !is_swap && opt_is(mount_point, "/boot/efi") {
        flags.push(owned("boot"));
        flags.push(owned("esp"));
    } else if !is_swap && opt_is(mount_point, "/boot") {
        flags.push(owned("boot"));
    }
    let enc = match encrypt {
        Some(b) => b,
        None => false,
    };
    if enc {
        flags.push(owned("encrypt"));
    }
    let label = if is_swap {
        Some(owned("SWAP"))
    } else if opt_is(mount_point, "/boot") || opt_is(mount_point, "/boot/efi") {
        Some(owned("BOOT"))
    } else if opt_is(mount_point, "/") {
        Some(owned("ROOT"))
    } else {
        None
    };
    let mp = if is_swap {
        None
    } else {
        clone_opt(mount_point)
    };
    let r = Partition::new(
        0,
        start,
        size,
        sector_size,
        PartStatus::Create,
        None,
        clone_opt(fs),
        mp,
        label,
        false,
        flags,
    );
    proof {
        let fv = opt_view(*fs);
        let mv = opt_view(*mount_point);
        assert(r@.flags =~= new_part_flags(fv, mv, encrypt == Some(true)));
        assert(r@.label == new_part_label(fv, mv));
    }
    r
}

/// Adds the partition that the form describes to the disk and numbers the
/// partitions again; refused when it overlaps a partition that is kept.
pub fn finalize_new_partition(
    disk: &mut Disk,
    start: u64,
    size: u64,
    sector_size: u64,
    fs: &Option<String>,
    mount_point: &Option<String>,
    encrypt: Option<bool>,
) -> (r: Result<(), DiskError>)
    requires
        old(disk).wf(),
    ensures
        final(disk).wf(),
        ({
            let p = planned_partition(
                start,
                size,
                sector_size,
                opt_view(*fs),
                opt_view(*mount_point),
                encrypt == Some(true),
            );
            let (d, added) = with_new_partition(old(disk)@, p);
            &&& r is Ok <==> added
            &&& added ==> final(disk)@ == numbered(d)
            &&& !added ==> r == Err::<(), DiskError>(DiskError::Overlap) && final(disk)@ == d
        }),
{
    let part = plan_new_partition(start, size, sector_size, fs, mount_point, encrypt);
    match disk.new_partition(part) {
        Ok(()) => {
            disk.assign_device_numbers();
            Ok(())
        },
        Err(e) => Err(e),
    }
}

/// The partitions that a new one must not overlap: those of the layout once
/// free space is dropped.
pub open spec fn kept_layout(d: DiskView) -> Seq<DiskItemView> {
    normalize_spec(keep_items(d.layout, Select::Parts), d.next_id).0
}

/// A new partition of `size` sectors at `start` overlaps no kept partition.
pub open spec fn fits(d: DiskView, start: u64, size: u64) -> bool {
    !overlaps_live(kept_layout(d), start as int, size as int)
}

/// A partition that fits still fits when it is made smaller.
pub proof fn lemma_fits_smaller(d: DiskView, start: u64, small: u64, large: u64)
    requires
        small <= large,
        fits(d, start, large),
    ensures
        fits(d, start, small),
{
    let l = kept_layout(d);
    if overlaps_live(l, start as int, small as int) {
        let k = choose|k: int|
            0 <= k < l.len() && #[trigger] crate::drives::is_live(l[k]) && start < crate::drives::item_start(l[k])
                + crate::drives::item_size(l[k]) && start + small > crate::drives::item_start(l[k]);
        assert(crate::drives::is_live(l[k]));
    }
}

/// Tries the new partition on a copy of the disk and tells whether it is taken.
pub fn dry_run_accepts(disk: &Disk, start: u64, sector_size: u64, size: u64, fs: &Option<String>) -> (r: bool)
    requires
        disk.wf(),
    ensures
        r == fits(disk@, start, size),
{
    let mut tmp = disk.clone();
    let part = Partition::new(
        0,
        start,
        size,
        sector_size,
        PartStatus::Create,
        None,
        clone_opt(fs),
        None,
        None,
        false,
        Vec::new(),
    );
    tmp.new_partition(part).is_ok()
}

/// The largest size up to `total` sectors that a new partition at `start`
/// can have (0 when none fits), found by bisection and kept in `cache`; a
/// size already in the cache is returned as it is.
pub fn compute_max_fit(
    cache: &mut Option<u64>,
    disk: &Disk,
    start: u64,
    sector_size: u64,
    total: u64,
    fs: &Option<String>,
) -> (r: u64)
    requires
        disk.wf(),
        total < u64::MAX,
    ensures
        match *old(cache) {
            Some(m) => r == m && *final(cache) == Some(m),
            None => {
                &&& *final(cache) == Some(r)
                &&& r <= total
                &&& r > 0 ==> fits(disk@, start, r)
                &&& forall|s: u64| r < s <= total ==> !fits(disk@, start, s)
            },
        },
{
    match *cache {
        Some(m) => {
            return m;
        },
        None => {},
    }
    let mut lo: u64 = 1;
    let mut hi: u64 = total;
    let mut best: u64 = 0;
    while lo <= hi
        invariant
            disk.wf(),
            total < u64::MAX,
            1 <= lo,
            hi <= total,
            lo <= hi + 1,
            best == lo - 1,
            best > 0 ==> fits(disk@, start, best),
            forall|s: u64| hi < s <= total ==> !fits(disk@, start, s),
        decreases hi + 1 - lo,
    {
        let mid = lo + (hi - lo) / 2;
        if dry_run_accepts(disk, start, sector_size, mid, fs) {
            best = mid;
            lo = mid + 1;
        } else {
            proof {
                assert forall|s: u64| mid <= s <= total implies !fits(disk@, start, s) by {
                    if fits(disk@, start, s) {
                        lemma_fits_smaller(disk@, start, mid, s);
                    }
                }
            }
            hi = mid - 1;
        }
    }
    *cache = Some(best);
    best
}

} // verus!
