//! The disks that `lsblk` reports, as the installer may use them: devices
//! that hold the running live system are left out, and every disk entry is
//! read into a `Disk` with its partitions.
use vstd::prelude::*;
use crate::drives::{
    disk_label_of, free_space_spec, items_view, max_id_after, opt_view, Disk, DiskItem, DiskItemView, DiskLabel,
    DiskView, PartStatus, Partition, PartitionView,
};
use crate::text::str_eq;

verus! {

/// One entry of `lsblk --json -b` (a disk, a partition or another device),
/// with the columns that the installer reads. A column that is missing or
/// of the wrong kind is `None`.
pub struct BlockDevice {
    pub name: Option<String>,
    /// Size in bytes.
    pub size: Option<u64>,
    pub dev_type: Option<String>,
    pub mountpoint: Option<String>,
    pub fstype: Option<String>,
    pub label: Option<String>,
    /// First sector (partitions).
    pub start: Option<u64>,
    /// Logical sector size in bytes.
    pub log_sec: Option<u64>,
    /// Partition table type (disks).
    pub pttype: Option<String>,
    pub children: Option<Vec<BlockDevice>>,
}

/// Why an `lsblk` entry could not be read.
#[derive(Clone, Copy, Debug, PartialEq, Eq, Structural)]
pub enum LsblkError {
    MissingType,
    MissingName,
    MissingSize,
    MissingStart,
    MissingPartitionSize,
}

/// The text of an error.
pub open spec fn lsblk_error_text(e: LsblkError) -> Seq<char> {
    match e {
        LsblkError::MissingType => "Device entry missing TYPE"@,
        LsblkError::MissingName => "Disk entry missing NAME"@,
        LsblkError::MissingSize => "Disk entry missing or invalid SIZE"@,
        LsblkError::MissingStart => "Partition entry missing or invalid START"@,
        LsblkError::MissingPartitionSize => "Partition entry missing or invalid SIZE"@,
    }
}

impl LsblkError {
    pub fn message(&self) -> (r: &'static str)
        ensures
            r@ == lsblk_error_text(*self),
    {
        match self {
            LsblkError::MissingType => "Device entry missing TYPE",
            LsblkError::MissingName => "Disk entry missing NAME",
            LsblkError::MissingSize => "Disk entry missing or invalid SIZE",
            LsblkError::MissingStart => "Partition entry missing or invalid START",
            LsblkError::MissingPartitionSize => "Partition entry missing or invalid SIZE",
        }
    }
}

// ---------------------------------------------------------------------------
// Devices in use by the live system
// ---------------------------------------------------------------------------

/// The device is mounted where the live system runs: at `/` or at `/iso`.
pub open spec fn mounted_live(m: Option<String>) -> bool {
    m matches Some(s) && (s@ == "/"@ || s@ == "/iso"@)
}

/// Neither the device nor any device below it is mounted where the live system runs.
pub open spec fn device_safe(d: BlockDevice) -> bool
    decreases d,
{
    !mounted_live(d.mountpoint) && match d.children {
        Some(c) => children_safe(c@),
        None => true,
    }
}

/// Every device of `s` is safe.
pub open spec fn children_safe(s: Seq<BlockDevice>) -> bool
    decreases s,
{
    if s.len() == 0 {
        true
    } else {
        children_safe(s.subrange(0, s.len() - 1)) && device_safe(s[s.len() - 1])
    }
}

proof fn lemma_children_safe_step(s: Seq<BlockDevice>, i: int)
    requires
        0 <= i < s.len(),
    ensures
        children_safe(s.take(i + 1)) == (children_safe(s.take(i)) && device_safe(s[i])),
{
    assert(s.take(i + 1).subrange(0, i) =~= s.take(i));
}

/// A list of safe devices has safe prefixes.
proof fn lemma_children_safe_prefix(s: Seq<BlockDevice>, i: int)
    requires
        0 <= i <= s.len(),
        children_safe(s),
    ensures
        children_safe(s.take(i)),
    decreases s.len() - i,
{
    if i < s.len() {
        lemma_children_safe_prefix(s, i + 1);
        lemma_children_safe_step(s, i);
    } else {
        assert(s.take(i) =~= s);
    }
}

/// Tells whether a device may be used for the installation: neither it nor
/// any of its partitions is mounted at `/` or `/iso`.
pub fn is_safe_device(dev: &BlockDevice) -> (r: bool)
    ensures
        r == device_safe(*dev),
    decreases dev,
{
    match &dev.mountpoint {
        Some(m) => {
            if str_eq(m.as_str(), "/") || str_eq(m.as_str(), "/iso") {
                return false;
            }
        },
        None => {},
    }
    match &dev.children {
        Some(children) => {
            let mut i: usize = 0;
            while i < children.len()
                invariant
                    i <= children@.len(),
                    dev.children == Some(*children),
                    children_safe(children@.take(i as int)),
                decreases children@.len() - i,
            {
                proof {
                    lemma_children_safe_step(children@, i as int);
                    let c = dev.children->0;
                    assert(decreases_to!(*dev => dev.children));
                    assert(decreases_to!(dev.children => c));
                    assert(decreases_to!(c => c@));
                    assert(decreases_to!(c@ => c@[i as int]));
                }
                if !is_safe_device(&children[i]) {
                    proof {
                        if children_safe(children@) {
                            lemma_children_safe_prefix(children@, i as int + 1);
                        }
                    }
                    return false;
                }
                i = i + 1;
            }
            assert(children@.take(children@.len() as int) =~= children@);
            true
        },
        None => true,
    }
}

// ---------------------------------------------------------------------------
// Reading disks
// ---------------------------------------------------------------------------

/// The logical sector size of a device: 512 bytes when `lsblk` gives none.
pub open spec fn sector_of(d: BlockDevice) -> u64 {
    match d.log_sec {
        Some(s) => s,
        None => 512,
    }
}

/// The partition table of a device; none when `lsblk` gives none.
pub open spec fn label_of(d: BlockDevice) -> DiskLabel {
    match d.pttype {
        Some(t) => disk_label_of(t@),
        None => DiskLabel::NoLabel,
    }
}

/// The devices below a device.
pub open spec fn children_of(d: BlockDevice) -> Seq<BlockDevice> {
    match d.children {
        Some(c) => c@,
        None => Seq::empty(),
    }
}

/// An existing partition read from its entry, with the disk's sector size
/// (its size converted from bytes to sectors) and the identifier `id`.
pub open spec fn lsblk_partition(p: BlockDevice, sector: u64, id: u64) -> Result<PartitionView, LsblkError> {
    match p.start {
        None => Err(LsblkError::MissingStart),
        Some(start) => match p.size {
            None => Err(LsblkError::MissingPartitionSize),
            Some(bytes) => Ok(
                PartitionView {
                    id,
                    start,
                    size: (bytes / sector) as u64,
                    sector_size: sector,
                    status: PartStatus::Exists,
                    name: opt_view(p.name),
                    fs_type: opt_view(p.fstype),
                    mount_point: opt_view(p.mountpoint),
                    ro: false,
                    label: opt_view(p.label),
                    flags: Seq::empty(),
                },
            ),
        },
    }
}

/// The partitions of a disk read in order, numbered from 1; the first entry
/// that cannot be read gives the error.
pub open spec fn lsblk_partitions(s: Seq<BlockDevice>, sector: u64) -> Result<Seq<DiskItemView>, LsblkError>
    decreases s.len(),
{
    if s.len() == 0 {
        Ok(Seq::empty())
    } else {
        match lsblk_partitions(s.drop_last(), sector) {
            Err(e) => Err(e),
            Ok(prev) => match lsblk_partition(s.last(), sector, s.len() as u64) {
                Err(e) => Err(e),
                Ok(p) => Ok(prev.push(DiskItemView::Part(p))),
            },
        }
    }
}

/// A disk with the given layout, as `Disk::new` makes it, after free space
/// is computed once more.
pub open spec fn lsblk_disk_view(
    name: Seq<char>,
    size: u64,
    sector: u64,
    items: Seq<DiskItemView>,
    label: DiskLabel,
) -> DiskView {
    let base = DiskView {
        name,
        size,
        sector_size: sector,
        initial_layout: items,
        total_used_sectors: 0,
        layout: items,
        label,
        next_id: max_id_after(items),
    };
    let (l1, n1) = free_space_spec(base);
    let (l2, n2) = free_space_spec(DiskView { layout: l1, next_id: n1, ..base });
    DiskView { layout: l2, next_id: n2, ..base }
}

/// A disk read from its entry: name, size in sectors, sector size,
/// partition table and partitions.
pub open spec fn lsblk_disk(d: BlockDevice) -> Result<DiskView, LsblkError> {
    match d.name {
        None => Err(LsblkError::MissingName),
        Some(name) => match d.size {
            None => Err(LsblkError::MissingSize),
            Some(bytes) => match lsblk_partitions(children_of(d), sector_of(d)) {
                Err(e) => Err(e),
                Ok(items) => Ok(
                    lsblk_disk_view(name@, (bytes / sector_of(d)) as u64, sector_of(d), items, label_of(d)),
                ),
            },
        },
    }
}

fn clone_opt_string(o: &Option<String>) -> (r: Option<String>)
    ensures
        opt_view(r) == opt_view(*o),
{
    match o {
        Some(s) => Some(s.clone()),
        None => None,
    }
}

/// Reads an existing partition of a disk with sector size `sector`.
pub fn partition_from_lsblk(p: &BlockDevice, sector: u64, id: u64) -> (r: Result<DiskItem, LsblkError>)
    requires
        p.start is Some && p.size is Some ==> sector > 0,
    ensures
        match r {
            Ok(item) => lsblk_partition(*p, sector, id) matches Ok(v) && item@ == DiskItemView::Part(v),
            Err(e) => lsblk_partition(*p, sector, id) == Err::<PartitionView, LsblkError>(e),
        },
{
    let start = match p.start {
        Some(s) => s,
        None => {
            return Err(LsblkError::MissingStart);
        },
    };
    let bytes = match p.size {
        Some(s) => s,
        None => {
            return Err(LsblkError::MissingPartitionSize);
        },
    };
    let part = Partition::new(
        id,
        start,
        bytes / sector,
        sector,
        PartStatus::Exists,
        clone_opt_string(&p.name),
        clone_opt_string(&p.fstype),
        clone_opt_string(&p.mountpoint),
        clone_opt_string(&p.label),
        false,
        Vec::new(),
    );
    proof {
        assert(part@.flags =~= Seq::<Seq<char>>::empty());
    }
    Ok(DiskItem::Partition(part))
}

/// Reading the disk entry divides by its sector size: it has a name and a
/// size, and its first partition entry, if it has one, has a start and a size
/// (reading stops at the first entry that lacks one).
pub open spec fn divides_by_sector(d: BlockDevice) -> bool {
    &&& d.name is Some && d.size is Some
    &&& children_of(d).len() > 0 ==> (children_of(d)[0].start is Some && children_of(d)[0].size is Some)
}

/// Reads a disk entry of `lsblk`: its name and size (in bytes) must be
/// there, and every partition below it must read.
pub fn disk_from_lsblk(d: &BlockDevice) -> (r: Result<Disk, LsblkError>)
    requires
        divides_by_sector(*d) ==> sector_of(*d) > 0,
    ensures
        match r {
            Ok(disk) => disk.wf() && lsblk_disk(*d) == Ok::<DiskView, LsblkError>(disk@),
            Err(e) => lsblk_disk(*d) == Err::<DiskView, LsblkError>(e),
        },
{
    let name = match &d.name {
        Some(n) => n.clone(),
        None => {
            return Err(LsblkError::MissingName);
        },
    };
    let bytes = match d.size {
        Some(s) => s,
        None => {
            return Err(LsblkError::MissingSize);
        },
    };
    let sector = match d.log_sec {
        Some(s) => s,
        None => 512,
    };
    let label = match &d.pttype {
        Some(t) => DiskLabel::from_lsblk(t.as_str()),
        None => DiskLabel::NoLabel,
    };
    let ghost kids = children_of(*d);
    let mut layout: Vec<DiskItem> = Vec::new();
    match &d.children {
        Some(children) => {
            let mut i: usize = 0;
            assert(kids.take(0) =~= Seq::<BlockDevice>::empty());
            assert(items_view(layout@) =~= Seq::<DiskItemView>::empty());
            while i < children.len()
                invariant
                    i <= children@.len(),
                    kids == children@,
                    kids == children_of(*d),
                    d.name is Some,
                    d.size is Some,
                    sector == sector_of(*d),
                    divides_by_sector(*d) ==> sector > 0,
                    i > 0 ==> sector > 0,
                    lsblk_partitions(kids.take(i as int), sector) == Ok::<Seq<DiskItemView>, LsblkError>(
                        items_view(layout@),
                    ),
                decreases children@.len() - i,
            {
                assert(kids.take(i + 1).drop_last() =~= kids.take(i as int));
                assert(kids.take(i + 1).last() == kids[i as int]);
                let id = (i + 1) as u64;
                match partition_from_lsblk(&children[i], sector, id) {
                    Ok(item) => {
                        let ghost before = layout@;
                        layout.push(item);
                        assert(items_view(layout@) =~= items_view(before).push(item@));
                    },
                    Err(e) => {
                        proof {
                            assert(lsblk_partitions(kids.take(i + 1), sector) == Err::<Seq<DiskItemView>, LsblkError>(
                                e,
                            ));
                            lemma_partitions_error_extends(kids, sector, i as int + 1);
                        }
                        assert(lsblk_partitions(children_of(*d), sector_of(*d)) == Err::<Seq<DiskItemView>, LsblkError>(e));
                        return Err(e);
                    },
                }
                i = i + 1;
            }
            assert(kids.take(children@.len() as int) =~= kids);
        },
        None => {
            assert(kids =~= Seq::<BlockDevice>::empty());
            assert(items_view(layout@) =~= Seq::<DiskItemView>::empty());
        },
    }
    let ghost items = items_view(layout@);
    let mut disk = Disk::new(name, bytes / sector, sector, layout, label);
    let ghost base = DiskView {
        name: name@,
        size: (bytes / sector) as u64,
        sector_size: sector,
        initial_layout: items,
        total_used_sectors: 0,
        layout: items,
        label,
        next_id: max_id_after(items),
    };
    assert(base == (DiskView { layout: items, next_id: max_id_after(items), ..disk@ }));
    disk.calculate_free_space();
    assert(lsblk_partitions(children_of(*d), sector_of(*d)) == Ok::<Seq<DiskItemView>, LsblkError>(items));
    Ok(disk)
}

/// Once a prefix of the entries fails to read, the whole list fails with the same error.
proof fn lemma_partitions_error_extends(s: Seq<BlockDevice>, sector: u64, i: int)
    requires
        0 <= i <= s.len(),
        lsblk_partitions(s.take(i), sector) is Err,
    ensures
        lsblk_partitions(s, sector) == lsblk_partitions(s.take(i), sector),
    decreases s.len() - i,
{
    if i < s.len() {
        assert(s.take(i + 1).drop_last() =~= s.take(i));
        lemma_partitions_error_extends(s, sector, i + 1);
    } else {
        assert(s.take(i) =~= s);
    }
}

// ---------------------------------------------------------------------------
// The disks offered for installation
// ---------------------------------------------------------------------------

/// The disks read from the safe devices of type `disk`, in order; a safe
/// device without a type, or a disk that cannot be read, gives the error.
pub open spec fn usable_disks_spec(s: Seq<BlockDevice>) -> Result<Seq<DiskView>, LsblkError>
    decreases s.len(),
{
    if s.len() == 0 {
        Ok(Seq::empty())
    } else {
        match usable_disks_spec(s.drop_last()) {
            Err(e) => Err(e),
            Ok(prev) => {
                let d = s.last();
                if !device_safe(d) {
                    Ok(prev)
                } else {
                    match d.dev_type {
                        None => Err(LsblkError::MissingType),
                        Some(t) => if t@ == "disk"@ {
                            match lsblk_disk(d) {
                                Err(e) => Err(e),
                                Ok(v) => Ok(prev.push(v)),
                            }
                        } else {
                            Ok(prev)
                        },
                    }
                }
            },
        }
    }
}

proof fn lemma_usable_error_extends(s: Seq<BlockDevice>, i: int)
    requires
        0 <= i <= s.len(),
        usable_disks_spec(s.take(i)) is Err,
    ensures
        usable_disks_spec(s) == usable_disks_spec(s.take(i)),
    decreases s.len() - i,
{
    if i < s.len() {
        assert(s.take(i + 1).drop_last() =~= s.take(i));
        lemma_usable_error_extends(s, i + 1);
    } else {
        assert(s.take(i) =~= s);
    }
}

/// Reading the entries in order never divides by a zero sector size: every
/// safe disk entry reached before an error, whose reading divides by its
/// sector size, has a positive one.
pub open spec fn sectors_ok(s: Seq<BlockDevice>) -> bool
    decreases s.len(),
{
    if s.len() == 0 {
        true
    } else {
        let d = s.last();
        &&& sectors_ok(s.drop_last())
        &&& usable_disks_spec(s.drop_last()) is Ok && device_safe(d) && (d.dev_type matches Some(t) && t@
            == "disk"@) && divides_by_sector(d) ==> sector_of(d) > 0
    }
}

proof fn lemma_sectors_ok_prefix(s: Seq<BlockDevice>, i: int)
    requires
        0 <= i <= s.len(),
        sectors_ok(s),
    ensures
        sectors_ok(s.take(i)),
    decreases s.len() - i,
{
    if i < s.len() {
        lemma_sectors_ok_prefix(s, i + 1);
        assert(s.take(i + 1).drop_last() =~= s.take(i));
    } else {
        assert(s.take(i) =~= s);
    }
}

proof fn lemma_sectors_ok_after_error(s: Seq<BlockDevice>, i: int)
    requires
        0 <= i <= s.len(),
        usable_disks_spec(s.take(i)) is Err,
        sectors_ok(s.take(i)),
    ensures
        sectors_ok(s),
    decreases s.len() - i,
{
    if i < s.len() {
        let t = s.take(i + 1);
        assert(t.drop_last() =~= s.take(i));
        lemma_usable_error_extends(t, i);
        assert(t.take(i) =~= s.take(i));
        lemma_sectors_ok_after_error(s, i + 1);
    } else {
        assert(s.take(i) =~= s);
    }
}

fn divides_by_sector_exec(d: &BlockDevice) -> (r: bool)
    ensures
        r == divides_by_sector(*d),
{
    if d.name.is_none() || d.size.is_none() {
        return false;
    }
    match &d.children {
        Some(c) => {
            if c.len() > 0 {
                c[0].start.is_some() && c[0].size.is_some()
            } else {
                true
            }
        },
        None => true,
    }
}

/// Tells whether `usable_disks` can read the entries without dividing by a
/// zero sector size (see `sectors_ok`).
pub fn check_sectors(devices: &Vec<BlockDevice>) -> (r: bool)
    ensures
        r == sectors_ok(devices@),
{
    let ghost s = devices@;
    let mut i: usize = 0;
    assert(s.take(0) =~= Seq::<BlockDevice>::empty());
    while i < devices.len()
        invariant
            s == devices@,
            i <= s.len(),
            sectors_ok(s.take(i as int)),
            usable_disks_spec(s.take(i as int)) is Ok,
        decreases s.len() - i,
    {
        let t = Ghost(s.take(i + 1));
        assert(t@.drop_last() =~= s.take(i as int));
        assert(t@.last() == s[i as int]);
        let dev = &devices[i];
        if is_safe_device(dev) {
            match &dev.dev_type {
                None => {
                    proof {
                        lemma_sectors_ok_after_error(s, i + 1);
                    }
                    return true;
                },
                Some(ty) => {
                    if str_eq(ty.as_str(), "disk") {
                        if divides_by_sector_exec(dev) && dev.log_sec == Some(0u64) {
                            proof {
                                if sectors_ok(s) {
                                    lemma_sectors_ok_prefix(s, i + 1);
                                }
                            }
                            return false;
                        }
                        match disk_from_lsblk(dev) {
                            Ok(_) => {},
                            Err(_) => {
                                proof {
                                    lemma_sectors_ok_after_error(s, i + 1);
                                }
                                return true;
                            },
                        }
                    }
                },
            }
        }
        i = i + 1;
    }
    assert(s.take(s.len() as int) =~= s);
    true
}

/// The disks of the `lsblk` entries that the installer may partition: the
/// devices that hold the live system are left out, and so is every device
/// that is not a disk.
pub fn usable_disks(devices: &Vec<BlockDevice>) -> (r: Result<Vec<Disk>, LsblkError>)
    requires
        sectors_ok(devices@),
    ensures
        match r {
            Ok(disks) => {
                &&& forall|k: int| 0 <= k < disks@.len() ==> (#[trigger] disks@[k]).wf()
                &&& usable_disks_spec(devices@) == Ok::<Seq<DiskView>, LsblkError>(
                    disks@.map_values(|d: Disk| d@),
                )
            },
            Err(e) => usable_disks_spec(devices@) == Err::<Seq<DiskView>, LsblkError>(e),
        },
{
    let mut disks: Vec<Disk> = Vec::new();
    let mut i: usize = 0;
    assert(devices@.take(0) =~= Seq::<BlockDevice>::empty());
    assert(disks@.map_values(|d: Disk| d@) =~= Seq::<DiskView>::empty());
    while i < devices.len()
        invariant
            i <= devices@.len(),
            sectors_ok(devices@),
            forall|k: int| 0 <= k < disks@.len() ==> (#[trigger] disks@[k]).wf(),
            usable_disks_spec(devices@.take(i as int)) == Ok::<Seq<DiskView>, LsblkError>(
                disks@.map_values(|d: Disk| d@),
            ),
        decreases devices@.len() - i,
    {
        let ghost s = devices@;
        assert(s.take(i + 1).drop_last() =~= s.take(i as int));
        assert(s.take(i + 1).last() == s[i as int]);
        let dev = &devices[i];
        if is_safe_device(dev) {
            match &dev.dev_type {
                None => {
                    proof {
                        lemma_usable_error_extends(s, i as int + 1);
                    }
                    return Err(LsblkError::MissingType);
                },
                Some(t) => {
                    if str_eq(t.as_str(), "disk") {
                        proof {
                            lemma_sectors_ok_prefix(s, i + 1);
                        }
                        match disk_from_lsblk(dev) {
                            Ok(disk) => {
                                let ghost before = disks@;
                                disks.push(disk);
                                assert(disks@.map_values(|d: Disk| d@) =~= before.map_values(|d: Disk| d@).push(
                                    disk@,
                                ));
                            },
                            Err(e) => {
                                proof {
                                    lemma_usable_error_extends(s, i as int + 1);
                                }
                                return Err(e);
                            },
                        }
                    }
                },
            }
        }
        i = i + 1;
    }
    assert(devices@.take(devices@.len() as int) =~= devices@);
    Ok(disks)
}

} // verus!
