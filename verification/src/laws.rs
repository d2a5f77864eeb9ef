//! Properties that hold across several operations of the library.
use vstd::prelude::*;
use crate::installer::{
    menu_step, missing_options, polled, requirements_met, started, ConfigStatus,
    LogGenState, Menu, MenuSignal,
};
use crate::lsblk::{device_safe, lsblk_disk, usable_disks_spec, BlockDevice};
use crate::drives::DiskView;
use crate::drivepages::{utf8_len, utf8_width};
use crate::packages::{last_positions, moved_to_available, moved_to_selected, sets_disjoint, PackageManager};
use crate::text::no_dups;
use crate::users::without;
use crate::widgets::{
    char_index, edited_cursor, edited_value, fixed_selection, is_boundary, key_fits, lemma_char_index,
    lemma_utf8_len_concat, starts_at, next_row_spec, previous_row_spec, CheckBox, Key,
};

verus! {

/// Toggling a check box twice leaves it as it was.
pub proof fn law_toggle_twice(a: CheckBox, b: CheckBox, c: CheckBox)
    requires
        b.checked == !a.checked,
        c.checked == !b.checked,
    ensures
        c.checked == a.checked,
{
}

/// Whatever key is pressed, the editor's cursor stays within the bytes of
/// its text.
pub proof fn law_cursor_stays_in_text(v: Seq<char>, c: int, key: Key)
    requires
        0 <= c,
    ensures
        0 <= edited_cursor(v, c, key) <= utf8_len(edited_value(v, c, key)),
{
}

/// Typing a character at a character boundary and then pressing Backspace
/// gives back the text and the cursor position.
pub proof fn law_type_then_backspace(v: Seq<char>, c: int, ch: char)
    requires
        is_boundary(v, c),
    ensures
        key_fits(edited_value(v, c, Key::Char(ch)), edited_cursor(v, c, Key::Char(ch)), Key::Backspace),
        edited_value(edited_value(v, c, Key::Char(ch)), edited_cursor(v, c, Key::Char(ch)), Key::Backspace) == v,
        edited_cursor(edited_value(v, c, Key::Char(ch)), edited_cursor(v, c, Key::Char(ch)), Key::Backspace)
            == c,
{
    let k = char_index(v, c);
    lemma_char_index(v, c, k);
    let w = v.insert(k, ch);
    assert(w =~= v.take(k) + (seq![ch] + v.skip(k)));
    assert(v =~= v.take(k) + v.skip(k));
    lemma_utf8_len_concat(v.take(k), seq![ch] + v.skip(k));
    lemma_utf8_len_concat(seq![ch], v.skip(k));
    lemma_utf8_len_concat(v.take(k), v.skip(k));
    assert(utf8_len(seq![ch]) == utf8_width(ch)) by {
        let one = seq![ch];
        assert(one.drop_last() =~= Seq::<char>::empty());
        assert(utf8_len(one.drop_last()) == 0);
        assert(one.last() == ch);
    }
    assert(w.take(k) =~= v.take(k));
    assert(starts_at(w, c, k));
    lemma_char_index(w, c, k);
    assert(w.remove(k) =~= v);
}

/// A new package picker never has a package both available and selected.
pub proof fn law_new_sets_disjoint(all: Seq<Seq<char>>, pre: Seq<Seq<char>>)
    ensures
        last_positions(all).remove_keys(pre.to_set()).dom().disjoint(last_positions(all).restrict(pre.to_set()).dom()),
{
}

/// Moving packages either way keeps the available and selected sets apart.
pub proof fn law_moves_keep_disjoint(a: PackageManager, b: PackageManager, package: Seq<char>, r: bool)
    requires
        sets_disjoint(a),
        moved_to_selected(a, b, package, r) || moved_to_available(a, b, package, r),
    ensures
        sets_disjoint(b),
{
}

/// Selecting an available package and putting it back restores both sets.
pub proof fn law_select_then_unselect(a: PackageManager, b: PackageManager, c: PackageManager, package: Seq<char>)
    requires
        sets_disjoint(a),
        moved_to_selected(a, b, package, true),
        moved_to_available(b, c, package, true),
    ensures
        c.available_view() == a.available_view(),
        c.selected_view() == a.selected_view(),
{
    assert(c.available_view() =~= a.available_view());
    assert(c.selected_view() =~= a.selected_view());
}

/// Adding a string that a list of distinct strings does not hold keeps them distinct.
pub proof fn law_push_unique_keeps_distinct(items: Seq<Seq<char>>, item: Seq<char>, added: bool, after: Seq<Seq<char>>)
    requires
        no_dups(items),
        added == !items.contains(item),
        after == (if added { items.push(item) } else { items }),
    ensures
        no_dups(after),
{
    if added {
        assert forall|i: int, j: int| 0 <= i < j < after.len() implies after[i] != after[j] by {
            if j == items.len() {
                assert(items[i] == after[i]);
            }
        }
    }
}

proof fn lemma_without_lacks(s: Seq<Seq<char>>, x: Seq<char>)
    ensures
        !without(s, x).contains(x),
    decreases s.len(),
{
    if s.len() > 0 {
        lemma_without_lacks(s.drop_last(), x);
        let w = without(s.drop_last(), x);
        if s.last() != x {
            if w.push(s.last()).contains(x) {
                let j = choose|j: int| 0 <= j < w.len() + 1 && w.push(s.last())[j] == x;
                assert(w[j] == x);
            }
        }
    }
}

/// After granting administrator rights the user is in `wheel`; after
/// revoking them the user is not.
pub proof fn law_wheel_follows_setting(before: Seq<Seq<char>>, after: Seq<Seq<char>>, enabled: bool)
    requires
        enabled && before.contains("wheel"@) ==> after == before,
        enabled && !before.contains("wheel"@) ==> after.to_set() == before.to_set().insert("wheel"@),
        !enabled ==> after == without(before, "wheel"@),
    ensures
        after.contains("wheel"@) == enabled,
{
    if enabled && !before.contains("wheel"@) {
        assert(after.to_set().contains("wheel"@));
    }
    if !enabled {
        lemma_without_lacks(before, "wheel"@);
    }
}

/// Sharing the log: pressing `g` starts the upload, its link ends it, and
/// pressing `g` again starts nothing; after a failed upload `g` retries.
pub proof fn law_share_log_once(url: String, err: String)
    ensures
        started(LogGenState::Idle) == (LogGenState::Running, true),
        polled(started(LogGenState::Idle).0, Some(Ok(url))) == LogGenState::Done(url),
        started(polled(started(LogGenState::Idle).0, Some(Ok(url)))).1 == false,
        started(polled(LogGenState::Running, Some(Err(err)))) == (LogGenState::Running, true),
{
}

/// A running upload is never started twice.
pub proof fn law_no_second_upload(st: LogGenState)
    requires
        st is Running,
    ensures
        !started(st).1,
        started(st).0 == st,
{
}

/// Each of `disks` is read from a device of `devices` that is not, and holds
/// no partition that is, mounted where the live system runs.
pub open spec fn read_from_safe_devices(devices: Seq<BlockDevice>, disks: Seq<DiskView>) -> bool {
    forall|k: int| 0 <= k < disks.len() ==> #[trigger] offered_from_safe(devices, disks[k])
}

/// `disk` is read from a device of `devices` that is not, and holds no
/// partition that is, mounted where the live system runs.
pub open spec fn offered_from_safe(devices: Seq<BlockDevice>, disk: DiskView) -> bool {
    exists|i: int|
        0 <= i < devices.len() && device_safe(devices[i]) && #[trigger] lsblk_disk(devices[i])
            == Ok::<DiskView, crate::lsblk::LsblkError>(disk)
}

/// The `k`-th disk offered comes from a safe device.
proof fn lemma_offered_disk_source(devices: Seq<BlockDevice>, disks: Seq<DiskView>, k: int)
    requires
        usable_disks_spec(devices) == Ok::<Seq<DiskView>, crate::lsblk::LsblkError>(disks),
        0 <= k < disks.len(),
    ensures
        offered_from_safe(devices, disks[k]),
    decreases devices.len(),
{
    let front = devices.drop_last();
    let prev = usable_disks_spec(front)->Ok_0;
    if k < prev.len() {
        lemma_offered_disk_source(front, prev, k);
        assert(disks[k] == prev[k]);
        let i = choose|i: int|
            0 <= i < front.len() && device_safe(front[i]) && #[trigger] lsblk_disk(front[i])
                == Ok::<DiskView, crate::lsblk::LsblkError>(prev[k]);
        assert(devices[i] == front[i]);
        assert(lsblk_disk(devices[i]) == Ok::<DiskView, crate::lsblk::LsblkError>(disks[k]));
    } else {
        let j = devices.len() - 1;
        assert(devices[j] == devices.last());
        assert(lsblk_disk(devices[j]) == Ok::<DiskView, crate::lsblk::LsblkError>(disks[k]));
    }
}

/// Every disk offered for installation is read from a device that is not,
/// and holds no partition that is, mounted where the live system runs.
pub proof fn law_live_system_never_offered(devices: Seq<BlockDevice>)
    ensures
        usable_disks_spec(devices) matches Ok(disks) ==> read_from_safe_devices(devices, disks),
{
    if usable_disks_spec(devices) is Ok {
        let disks = usable_disks_spec(devices)->Ok_0;
        assert forall|k: int| 0 <= k < disks.len() implies #[trigger] offered_from_safe(devices, disks[k]) by {
            lemma_offered_disk_source(devices, disks, k);
        }
        assert(read_from_safe_devices(devices, disks));
    }
}

/// Moving the table selection down a row and back up returns to the row it
/// started from.
pub proof fn law_table_down_then_up(sel: Option<usize>, len: nat)
    requires
        len <= usize::MAX,
        next_row_spec(sel, len).1,
    ensures
        previous_row_spec(next_row_spec(sel, len).0) == (
            Some(
                match sel {
                    Some(i) => i,
                    None => 0usize,
                },
            ),
            true,
        ),
{
}

/// Row moves keep a selection that is on the rows on the rows.
pub proof fn law_table_moves_stay_on_rows(i: usize, len: nat)
    requires
        len <= usize::MAX,
        i < len,
    ensures
        next_row_spec(Some(i), len).0 matches Some(j) && j < len,
        previous_row_spec(Some(i)).0 matches Some(j) && j < len,
{
}

/// On a table with rows, fixing the selection leaves a row selected.
pub proof fn law_fixed_selection_on_rows(sel: Option<usize>, len: nat)
    requires
        len > 0,
    ensures
        fixed_selection(sel, len) matches Some(i) && i < len,
{
}

/// When the requirements box lists no missing option, the installation's
/// requirements are met.
pub proof fn law_nothing_missing_means_ready(s: ConfigStatus)
    requires
        missing_options(s).len() == 0,
    ensures
        requirements_met(s),
{
    crate::installer::lemma_requirements_listed(s);
}

/// Pressing Enter on the Done button opens the preview exactly when the
/// requirements are met; otherwise the menu stays and the box flashes.
pub proof fn law_done_needs_requirements(m: Menu, ready: bool)
    requires
        !m.help_visible,
        !m.menu_items.focused,
        m.buttons_focused,
        m.button == 0,
    ensures
        (menu_step(m, Key::Enter, ready).1 == MenuSignal::Preview) == ready,
        !ready ==> menu_step(m, Key::Enter, ready).1 == MenuSignal::Wait
            && menu_step(m, Key::Enter, ready).0.border_flash_timer == 6,
{
}

} // verus!
