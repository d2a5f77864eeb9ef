//! What tidying and resetting a disk layout promise over repeated calls.
use vstd::prelude::*;
use crate::drives::{
    bump, free_space_spec, same_build, is_deleted, keep_items, max_id_after, merge_runs, normalize_spec,
    sat_add, selects, with_gaps, DiskItemView, DiskView, Select,
};

verus! {

/// `x` and `y` are the same entry, save the identifier of a free-space entry.
pub open spec fn same_entry(x: DiskItemView, y: DiskItemView) -> bool {
    match x {
        DiskItemView::Part(p) => y == DiskItemView::Part(p),
        DiskItemView::Free { start, size, .. } => y matches DiskItemView::Free {
            start: s,
            size: z,
            ..
        } && s == start && z == size,
    }
}

/// `a` and `b` hold the same entries in the same order, save the identifiers
/// of free-space entries.
pub open spec fn same_but_free_ids(a: Seq<DiskItemView>, b: Seq<DiskItemView>) -> bool {
    &&& a.len() == b.len()
    &&& forall|i: int| 0 <= i < a.len() ==> same_entry(#[trigger] a[i], b[i])
}

/// No two free-space entries of `s` follow each other.
pub open spec fn no_adjacent_free(s: Seq<DiskItemView>) -> bool {
    forall|i: int, j: int|
        0 <= i && j == i + 1 && j < s.len() ==> !(#[trigger] s[i] is Free && #[trigger] s[j] is Free)
}

proof fn lemma_same_concat(a1: Seq<DiskItemView>, a2: Seq<DiskItemView>, b1: Seq<DiskItemView>, b2: Seq<DiskItemView>)
    requires
        same_but_free_ids(a1, a2),
        same_but_free_ids(b1, b2),
    ensures
        same_but_free_ids(a1 + b1, a2 + b2),
{
    assert forall|i: int| 0 <= i < (a1 + b1).len() implies same_entry(#[trigger] (a1 + b1)[i], (a2 + b2)[i]) by {
        if i < a1.len() {
            assert((a1 + b1)[i] == a1[i]);
            assert((a2 + b2)[i] == a2[i]);
        } else {
            assert((a1 + b1)[i] == b1[i - a1.len()]);
            assert((a2 + b2)[i] == b2[i - a1.len()]);
        }
    }
}

proof fn lemma_same_refl(a: Seq<DiskItemView>)
    ensures
        same_but_free_ids(a, a),
{
    assert forall|i: int| 0 <= i < a.len() implies same_entry(#[trigger] a[i], a[i]) by {
        match a[i] {
            DiskItemView::Part(p) => {},
            DiskItemView::Free { .. } => {},
        }
    }
}

/// The identifiers that merging draws from change nothing else.
proof fn lemma_merge_ids_irrelevant(l: Seq<DiskItemView>, pending: Option<(u64, u64)>, n1: u64, n2: u64)
    ensures
        same_but_free_ids(merge_runs(l, pending, n1).0, merge_runs(l, pending, n2).0),
    decreases l.len(),
{
    if l.len() == 0 {
        match pending {
            Some((s, z)) => {
                assert(same_entry(
                    DiskItemView::Free { id: n1, start: s, size: z },
                    DiskItemView::Free { id: n2, start: s, size: z },
                ));
            },
            None => {},
        }
    } else {
        match l[0] {
            DiskItemView::Free { start, size, .. } => {
                let p = match pending {
                    Some((s, z)) => (s, sat_add(z, size)),
                    None => (start, size),
                };
                lemma_merge_ids_irrelevant(l.drop_first(), Some(p), n1, n2);
            },
            DiskItemView::Part(q) => match pending {
                Some((s, z)) => {
                    lemma_merge_ids_irrelevant(l.drop_first(), None, bump(n1), bump(n2));
                    let h1 = seq![DiskItemView::Free { id: n1, start: s, size: z }, DiskItemView::Part(q)];
                    let h2 = seq![DiskItemView::Free { id: n2, start: s, size: z }, DiskItemView::Part(q)];
                    assert(same_entry(h1[0], h2[0]));
                    assert(same_entry(h1[1], h2[1]));
                    lemma_same_concat(
                        h1,
                        h2,
                        merge_runs(l.drop_first(), None, bump(n1)).0,
                        merge_runs(l.drop_first(), None, bump(n2)).0,
                    );
                },
                None => {
                    lemma_merge_ids_irrelevant(l.drop_first(), None, n1, n2);
                    let h = seq![DiskItemView::Part(q)];
                    lemma_same_refl(h);
                    lemma_same_concat(
                        h,
                        h,
                        merge_runs(l.drop_first(), None, n1).0,
                        merge_runs(l.drop_first(), None, n2).0,
                    );
                },
            },
        }
    }
}

proof fn lemma_no_adjacent_concat(a: Seq<DiskItemView>, b: Seq<DiskItemView>)
    requires
        no_adjacent_free(a),
        no_adjacent_free(b),
        a.len() > 0 ==> a.last() is Part,
    ensures
        no_adjacent_free(a + b),
{
    let c = a + b;
    assert forall|i: int, j: int| 0 <= i && j == i + 1 && j < c.len() implies !(#[trigger] c[i] is Free
        && #[trigger] c[j] is Free) by {
        if j < a.len() {
            assert(c[i] == a[i] && c[j] == a[j]);
        } else if i >= a.len() {
            assert(c[i] == b[i - a.len()] && c[j] == b[j - a.len()]);
        } else {
            assert(c[i] == a.last());
        }
    }
}

/// Merging leaves no two free-space entries side by side.
proof fn lemma_merge_no_adjacent_free(l: Seq<DiskItemView>, pending: Option<(u64, u64)>, n: u64)
    ensures
        no_adjacent_free(merge_runs(l, pending, n).0),
    decreases l.len(),
{
    if l.len() == 0 {
    } else {
        match l[0] {
            DiskItemView::Free { start, size, .. } => {
                let p = match pending {
                    Some((s, z)) => (s, sat_add(z, size)),
                    None => (start, size),
                };
                lemma_merge_no_adjacent_free(l.drop_first(), Some(p), n);
            },
            DiskItemView::Part(q) => match pending {
                Some((s, z)) => {
                    lemma_merge_no_adjacent_free(l.drop_first(), None, bump(n));
                    let h = seq![DiskItemView::Free { id: n, start: s, size: z }, DiskItemView::Part(q)];
                    assert(no_adjacent_free(h)) by {
                        assert forall|i: int, j: int| 0 <= i && j == i + 1 && j < h.len() implies !(
                        #[trigger] h[i] is Free && #[trigger] h[j] is Free) by {
                            assert(i == 0 && j == 1);
                        }
                    }
                    lemma_no_adjacent_concat(h, merge_runs(l.drop_first(), None, bump(n)).0);
                },
                None => {
                    lemma_merge_no_adjacent_free(l.drop_first(), None, n);
                    let h = seq![DiskItemView::Part(q)];
                    lemma_no_adjacent_concat(h, merge_runs(l.drop_first(), None, n).0);
                },
            },
        }
    }
}

/// Merging a layout that has no two free-space entries side by side changes
/// nothing but their identifiers.
proof fn lemma_merge_separated(s: Seq<DiskItemView>, m: u64)
    requires
        no_adjacent_free(s),
    ensures
        same_but_free_ids(merge_runs(s, None, m).0, s),
    decreases s.len(),
{
    if s.len() == 0 {
    } else {
        let t = s.drop_first();
        assert(no_adjacent_free(t)) by {
            assert forall|i: int, j: int| 0 <= i && j == i + 1 && j < t.len() implies !(
            #[trigger] t[i] is Free && #[trigger] t[j] is Free) by {
                assert(t[i] == s[i + 1] && t[j] == s[j + 1]);
            }
        }
        match s[0] {
            DiskItemView::Part(q) => {
                lemma_merge_separated(t, m);
                let h = seq![DiskItemView::Part(q)];
                lemma_same_refl(h);
                lemma_same_concat(h, h, merge_runs(t, None, m).0, t);
                assert(h + t =~= s);
            },
            DiskItemView::Free { id, start, size } => {
                if s.len() == 1 {
                    assert(merge_runs(t, Some((start, size)), m).0 =~= seq![
                        DiskItemView::Free { id: m, start, size },
                    ]);
                    assert(same_entry(merge_runs(s, None, m).0[0], s[0]));
                } else {
                    assert(!(s[0] is Free && s[1] is Free));
                    let q = s[1]->Part_0;
                    assert(t[0] == DiskItemView::Part(q));
                    let u = t.drop_first();
                    assert(no_adjacent_free(u)) by {
                        assert forall|i: int, j: int| 0 <= i && j == i + 1 && j < u.len() implies !(
                        #[trigger] u[i] is Free && #[trigger] u[j] is Free) by {
                            assert(u[i] == t[i + 1] && u[j] == t[j + 1]);
                        }
                    }
                    lemma_merge_separated(u, bump(m));
                    let h1 = seq![DiskItemView::Free { id: m, start, size }, DiskItemView::Part(q)];
                    let h2 = seq![s[0], s[1]];
                    assert(merge_runs(t, Some((start, size)), m).0 == h1 + merge_runs(u, None, bump(m)).0);
                    assert(same_entry(h1[0], h2[0]));
                    assert(same_entry(h1[1], h2[1]));
                    lemma_same_concat(h1, h2, merge_runs(u, None, bump(m)).0, u);
                    assert(h2 + u =~= s);
                }
            },
        }
    }
}

/// Partitions placed before the rest pass through merging unchanged.
proof fn lemma_merge_parts_prefix(d: Seq<DiskItemView>, x: Seq<DiskItemView>, n: u64)
    requires
        forall|i: int| 0 <= i < d.len() ==> #[trigger] d[i] is Part,
    ensures
        merge_runs(d + x, None, n) == (d + merge_runs(x, None, n).0, merge_runs(x, None, n).1),
    decreases d.len(),
{
    let r = merge_runs(x, None, n);
    if d.len() == 0 {
        assert(d + x =~= x);
        assert(d + r.0 =~= r.0);
    } else {
        let e = d.drop_first();
        assert(e[0] == d[1] || e.len() == 0);
        assert forall|i: int| 0 <= i < e.len() implies #[trigger] e[i] is Part by {
            assert(e[i] == d[i + 1]);
        }
        lemma_merge_parts_prefix(e, x, n);
        assert((d + x).drop_first() =~= e + x);
        assert((d + x)[0] == d[0]);
        assert(d[0] is Part);
        let q = d[0]->Part_0;
        assert(seq![DiskItemView::Part(q)] + (e + r.0) =~= d + r.0);
    }
}

proof fn lemma_keep_concat(a: Seq<DiskItemView>, b: Seq<DiskItemView>, sel: Select)
    ensures
        keep_items(a + b, sel) == keep_items(a, sel) + keep_items(b, sel),
    decreases b.len(),
{
    if b.len() == 0 {
        assert(a + b =~= a);
        assert(keep_items(a, sel) + keep_items(b, sel) =~= keep_items(a, sel));
    } else {
        lemma_keep_concat(a, b.drop_last(), sel);
        assert((a + b).drop_last() =~= a + b.drop_last());
        assert((a + b).last() == b.last());
        if selects(sel, b.last()) {
            assert(keep_items(a, sel) + keep_items(b.drop_last(), sel).push(b.last()) =~= (keep_items(
                a,
                sel,
            ) + keep_items(b.drop_last(), sel)).push(b.last()));
        }
    }
}

/// Entries that all have the kind are all kept; entries none of which has it
/// are all dropped.
proof fn lemma_keep_all_or_none(a: Seq<DiskItemView>, sel: Select)
    ensures
        (forall|i: int| 0 <= i < a.len() ==> selects(sel, #[trigger] a[i])) ==> keep_items(a, sel) == a,
        (forall|i: int| 0 <= i < a.len() ==> !selects(sel, #[trigger] a[i])) ==> keep_items(a, sel)
            == Seq::<DiskItemView>::empty(),
    decreases a.len(),
{
    if a.len() > 0 {
        lemma_keep_all_or_none(a.drop_last(), sel);
        if forall|i: int| 0 <= i < a.len() ==> selects(sel, #[trigger] a[i]) {
            assert forall|i: int| 0 <= i < a.drop_last().len() implies selects(sel, #[trigger] a.drop_last()[i]) by {
                assert(a.drop_last()[i] == a[i]);
            }
            assert(selects(sel, a[a.len() - 1]));
            assert(a.drop_last().push(a.last()) =~= a);
        }
        if forall|i: int| 0 <= i < a.len() ==> !selects(sel, #[trigger] a[i]) {
            assert forall|i: int| 0 <= i < a.drop_last().len() implies !selects(sel, #[trigger] a.drop_last()[i]) by {
                assert(a.drop_last()[i] == a[i]);
            }
            assert(!selects(sel, a[a.len() - 1]));
        }
    }
}

/// Every entry kept has the kind.
proof fn lemma_keep_selects(l: Seq<DiskItemView>, sel: Select)
    ensures
        forall|i: int| 0 <= i < keep_items(l, sel).len() ==> selects(sel, #[trigger] keep_items(l, sel)[i]),
    decreases l.len(),
{
    if l.len() > 0 {
        lemma_keep_selects(l.drop_last(), sel);
        let k = keep_items(l.drop_last(), sel);
        if selects(sel, l.last()) {
            assert forall|i: int| 0 <= i < k.push(l.last()).len() implies selects(
                sel,
                #[trigger] k.push(l.last())[i],
            ) by {
                if i < k.len() {
                    assert(k.push(l.last())[i] == k[i]);
                }
            }
        }
    }
}

/// Merging entries none of which is a deleted partition gives none.
proof fn lemma_merge_not_deleted(x: Seq<DiskItemView>, pending: Option<(u64, u64)>, n: u64)
    requires
        forall|i: int| 0 <= i < x.len() ==> !is_deleted(#[trigger] x[i]),
    ensures
        forall|i: int| 0 <= i < merge_runs(x, pending, n).0.len() ==> !is_deleted(
            #[trigger] merge_runs(x, pending, n).0[i],
        ),
    decreases x.len(),
{
    if x.len() == 0 {
        match pending {
            Some((s, z)) => {
                assert(merge_runs(x, pending, n).0 =~= seq![DiskItemView::Free { id: n, start: s, size: z }]);
            },
            None => {},
        }
    }
    if x.len() > 0 {
        let t = x.drop_first();
        assert forall|i: int| 0 <= i < t.len() implies !is_deleted(#[trigger] t[i]) by {
            assert(t[i] == x[i + 1]);
        }
        assert(!is_deleted(x[0]));
        match x[0] {
            DiskItemView::Free { start, size, .. } => {
                let p = match pending {
                    Some((s, z)) => (s, sat_add(z, size)),
                    None => (start, size),
                };
                lemma_merge_not_deleted(t, Some(p), n);
                assert(merge_runs(x, pending, n) == merge_runs(t, Some(p), n));
            },
            DiskItemView::Part(q) => match pending {
                Some((s, z)) => {
                    lemma_merge_not_deleted(t, None, bump(n));
                    let h = seq![DiskItemView::Free { id: n, start: s, size: z }, DiskItemView::Part(q)];
                    let r = merge_runs(t, None, bump(n)).0;
                    assert(merge_runs(x, pending, n).0 == h + r);
                    assert forall|i: int| 0 <= i < (h + r).len() implies !is_deleted(#[trigger] (h + r)[i]) by {
                        if i >= 2 {
                            assert((h + r)[i] == r[i - 2]);
                        }
                    }
                },
                None => {
                    lemma_merge_not_deleted(t, None, n);
                    let h = seq![DiskItemView::Part(q)];
                    let r = merge_runs(t, None, n).0;
                    assert(merge_runs(x, pending, n).0 == h + r);
                    assert forall|i: int| 0 <= i < (h + r).len() implies !is_deleted(#[trigger] (h + r)[i]) by {
                        if i >= 1 {
                            assert((h + r)[i] == r[i - 1]);
                        }
                    }
                },
            },
        }
    }
}

/// Tidying a layout a second time changes nothing but the identifiers of its
/// free-space entries: deleted partitions already come first, and no two
/// free-space entries are left side by side.
pub proof fn law_normalize_twice(l: Seq<DiskItemView>, n: u64, m: u64)
    ensures
        same_but_free_ids(normalize_spec(normalize_spec(l, n).0, m).0, normalize_spec(l, n).0),
        no_adjacent_free(normalize_spec(l, n).0),
{
    let d = keep_items(l, Select::Deleted);
    let x = keep_items(l, Select::NotDeleted);
    lemma_keep_selects(l, Select::Deleted);
    lemma_keep_selects(l, Select::NotDeleted);
    assert forall|i: int| 0 <= i < d.len() implies #[trigger] d[i] is Part by {
        assert(selects(Select::Deleted, d[i]));
    }
    assert forall|i: int| 0 <= i < x.len() implies !is_deleted(#[trigger] x[i]) by {
        assert(selects(Select::NotDeleted, x[i]));
    }
    lemma_merge_parts_prefix(d, x, n);
    let mm = merge_runs(x, None, n).0;
    let l1 = d + mm;
    assert(normalize_spec(l, n).0 == l1);
    lemma_merge_not_deleted(x, None, n);
    lemma_keep_concat(d, mm, Select::Deleted);
    lemma_keep_concat(d, mm, Select::NotDeleted);
    assert forall|i: int| 0 <= i < d.len() implies selects(Select::Deleted, #[trigger] d[i]) by {
        assert(selects(Select::Deleted, d[i]));
    }
    assert forall|i: int| 0 <= i < d.len() implies !selects(Select::NotDeleted, #[trigger] d[i]) by {
        assert(selects(Select::Deleted, d[i]));
    }
    assert forall|i: int| 0 <= i < mm.len() implies !selects(Select::Deleted, #[trigger] mm[i]) by {
        assert(!is_deleted(mm[i]));
    }
    assert forall|i: int| 0 <= i < mm.len() implies selects(Select::NotDeleted, #[trigger] mm[i]) by {
        assert(!is_deleted(mm[i]));
    }
    lemma_keep_all_or_none(d, Select::Deleted);
    lemma_keep_all_or_none(d, Select::NotDeleted);
    lemma_keep_all_or_none(mm, Select::Deleted);
    lemma_keep_all_or_none(mm, Select::NotDeleted);
    assert(keep_items(l1, Select::Deleted) =~= d);
    assert(keep_items(l1, Select::NotDeleted) =~= mm);
    lemma_merge_parts_prefix(d, mm, m);
    lemma_merge_no_adjacent_free(x, None, n);
    lemma_merge_separated(mm, m);
    lemma_same_refl(d);
    lemma_same_concat(d, d, merge_runs(mm, None, m).0, mm);
    lemma_no_adjacent_concat_parts(d, mm);
}

/// The sectors of the free-space entries of `l`, added up.
pub open spec fn free_total(l: Seq<DiskItemView>) -> int
    decreases l.len(),
{
    if l.len() == 0 {
        0
    } else {
        free_total(l.drop_last()) + match l.last() {
            DiskItemView::Free { size, .. } => size as int,
            DiskItemView::Part(_) => 0,
        }
    }
}

proof fn lemma_free_total_concat(a: Seq<DiskItemView>, b: Seq<DiskItemView>)
    ensures
        free_total(a + b) == free_total(a) + free_total(b),
    decreases b.len(),
{
    if b.len() == 0 {
        assert(a + b =~= a);
    } else {
        lemma_free_total_concat(a, b.drop_last());
        assert((a + b).drop_last() =~= a + b.drop_last());
        assert((a + b).last() == b.last());
    }
}

proof fn lemma_free_total_nonneg(l: Seq<DiskItemView>)
    ensures
        free_total(l) >= 0,
    decreases l.len(),
{
    if l.len() > 0 {
        lemma_free_total_nonneg(l.drop_last());
    }
}

proof fn lemma_free_total_one(x: DiskItemView)
    ensures
        free_total(seq![x]) == match x {
            DiskItemView::Free { size, .. } => size as int,
            DiskItemView::Part(_) => 0,
        },
{
    let one = seq![x];
    assert(one.drop_last() =~= Seq::<DiskItemView>::empty());
    assert(free_total(one.drop_last()) == 0);
    assert(one.last() == x);
}

proof fn lemma_keep_one(x: DiskItemView, sel: Select)
    ensures
        keep_items(seq![x], sel) == (if selects(sel, x) { seq![x] } else { Seq::<DiskItemView>::empty() }),
{
    let one = seq![x];
    assert(one.drop_last() =~= Seq::<DiskItemView>::empty());
    assert(keep_items(one.drop_last(), sel) == one.drop_last());
    assert(one.last() == x);
    if selects(sel, x) {
        assert(one.drop_last().push(x) =~= one);
    }
}

/// Splits off the first entry.
proof fn lemma_free_total_first(l: Seq<DiskItemView>)
    requires
        l.len() > 0,
    ensures
        free_total(l) == free_total(seq![l[0]]) + free_total(l.drop_first()),
{
    assert(l =~= seq![l[0]] + l.drop_first());
    lemma_free_total_concat(seq![l[0]], l.drop_first());
}

/// Merging keeps the free total, and the pending run counts in it, where no
/// sum passes the largest sector count.
proof fn lemma_merge_free_total(x: Seq<DiskItemView>, pending: Option<(u64, u64)>, n: u64)
    requires
        (match pending {
            Some((_, z)) => z as int,
            None => 0int,
        }) + free_total(x) <= u64::MAX,
    ensures
        free_total(merge_runs(x, pending, n).0) == (match pending {
            Some((_, z)) => z as int,
            None => 0int,
        }) + free_total(x),
    decreases x.len(),
{
    if x.len() == 0 {
        match pending {
            Some((s0, z)) => {
                lemma_free_total_one(DiskItemView::Free { id: n, start: s0, size: z });
            },
            None => {},
        }
    } else {
        let t = x.drop_first();
        lemma_free_total_first(x);
        lemma_free_total_one(x[0]);
        lemma_free_total_nonneg(t);
        match x[0] {
            DiskItemView::Free { start, size, .. } => {
                let p = match pending {
                    Some((s0, z)) => (s0, sat_add(z, size)),
                    None => (start, size),
                };
                lemma_merge_free_total(t, Some(p), n);
                assert(merge_runs(x, pending, n) == merge_runs(t, Some(p), n));
            },
            DiskItemView::Part(q) => {
                match pending {
                    Some((s0, z)) => {
                        lemma_merge_free_total(t, None, bump(n));
                        let h = seq![DiskItemView::Free { id: n, start: s0, size: z }, DiskItemView::Part(q)];
                        let r = merge_runs(t, None, bump(n)).0;
                        assert(merge_runs(x, pending, n).0 == h + r);
                        lemma_free_total_concat(h, r);
                        assert(h =~= seq![h[0]] + seq![h[1]]);
                        lemma_free_total_concat(seq![h[0]], seq![h[1]]);
                        lemma_free_total_one(h[0]);
                        lemma_free_total_one(h[1]);
                    },
                    None => {
                        lemma_merge_free_total(t, None, n);
                        let h = seq![DiskItemView::Part(q)];
                        let r = merge_runs(t, None, n).0;
                        assert(merge_runs(x, pending, n).0 == h + r);
                        lemma_free_total_concat(h, r);
                        lemma_free_total_one(h[0]);
                    },
                }
            },
        }
    }
}

/// Keeping the entries that are not deleted partitions keeps all free space.
proof fn lemma_free_total_not_deleted(l: Seq<DiskItemView>)
    ensures
        free_total(keep_items(l, Select::NotDeleted)) == free_total(l),
    decreases l.len(),
{
    if l.len() > 0 {
        lemma_free_total_not_deleted(l.drop_last());
        let k = keep_items(l.drop_last(), Select::NotDeleted);
        if selects(Select::NotDeleted, l.last()) {
            assert(k.push(l.last()).drop_last() =~= k);
        } else {
            assert(l.last() is Part);
        }
    }
}

/// Entries that are all partitions hold no free space.
proof fn lemma_free_total_parts(d: Seq<DiskItemView>)
    requires
        forall|i: int| 0 <= i < d.len() ==> #[trigger] d[i] is Part,
    ensures
        free_total(d) == 0,
    decreases d.len(),
{
    if d.len() > 0 {
        assert forall|i: int| 0 <= i < d.drop_last().len() implies #[trigger] d.drop_last()[i] is Part by {
            assert(d.drop_last()[i] == d[i]);
        }
        lemma_free_total_parts(d.drop_last());
        assert(d[d.len() - 1] is Part);
    }
}

/// Merging keeps the partitions, in order.
proof fn lemma_merge_keeps_parts(x: Seq<DiskItemView>, pending: Option<(u64, u64)>, n: u64)
    ensures
        keep_items(merge_runs(x, pending, n).0, Select::Parts) == keep_items(x, Select::Parts),
    decreases x.len(),
{
    if x.len() == 0 {
        match pending {
            Some((s0, z)) => {
                let fr = DiskItemView::Free { id: n, start: s0, size: z };
                lemma_keep_one(fr, Select::Parts);
                assert(merge_runs(x, pending, n).0 == seq![fr]);
            },
            None => {},
        }
        assert(keep_items(x, Select::Parts) =~= Seq::<DiskItemView>::empty());
    } else {
        let t = x.drop_first();
        assert(x =~= seq![x[0]] + t);
        lemma_keep_concat(seq![x[0]], t, Select::Parts);
        lemma_keep_one(x[0], Select::Parts);
        match x[0] {
            DiskItemView::Free { start, size, .. } => {
                let p = match pending {
                    Some((s0, z)) => (s0, sat_add(z, size)),
                    None => (start, size),
                };
                lemma_merge_keeps_parts(t, Some(p), n);
                assert(merge_runs(x, pending, n) == merge_runs(t, Some(p), n));
                assert(keep_items(x, Select::Parts) =~= keep_items(t, Select::Parts));
            },
            DiskItemView::Part(q) => {
                match pending {
                    Some((s0, z)) => {
                        lemma_merge_keeps_parts(t, None, bump(n));
                        let h = seq![DiskItemView::Free { id: n, start: s0, size: z }, DiskItemView::Part(q)];
                        let r = merge_runs(t, None, bump(n)).0;
                        assert(merge_runs(x, pending, n).0 == h + r);
                        lemma_keep_concat(h, r, Select::Parts);
                        assert(h =~= seq![h[0]] + seq![h[1]]);
                        lemma_keep_concat(seq![h[0]], seq![h[1]], Select::Parts);
                        lemma_keep_one(h[0], Select::Parts);
                        lemma_keep_one(h[1], Select::Parts);
                        assert(keep_items(h, Select::Parts) =~= seq![DiskItemView::Part(q)]);
                    },
                    None => {
                        lemma_merge_keeps_parts(t, None, n);
                        let h = seq![DiskItemView::Part(q)];
                        let r = merge_runs(t, None, n).0;
                        assert(merge_runs(x, pending, n).0 == h + r);
                        lemma_keep_concat(h, r, Select::Parts);
                        lemma_keep_one(h[0], Select::Parts);
                        assert(keep_items(h, Select::Parts) =~= h);
                    },
                }
            },
        }
    }
}

/// The partitions among the entries that are not deleted partitions are the
/// live partitions.
proof fn lemma_parts_of_not_deleted(l: Seq<DiskItemView>)
    ensures
        keep_items(keep_items(l, Select::NotDeleted), Select::Parts) == keep_items(l, Select::Live),
    decreases l.len(),
{
    if l.len() > 0 {
        lemma_parts_of_not_deleted(l.drop_last());
        let k = keep_items(l.drop_last(), Select::NotDeleted);
        if selects(Select::NotDeleted, l.last()) {
            assert(k.push(l.last()).drop_last() =~= k);
        }
    }
}

/// What tidying a layout does, in a law: the partitions come out as the
/// deleted ones, then the others, each group in its old order; no two
/// free-space entries are left side by side; and the free space adds up to
/// what it did (where that sum is a sector count).
pub proof fn law_normalize_layout(l: Seq<DiskItemView>, n: u64)
    ensures
        keep_items(normalize_spec(l, n).0, Select::Parts) == keep_items(l, Select::Deleted) + keep_items(
            l,
            Select::Live,
        ),
        no_adjacent_free(normalize_spec(l, n).0),
        free_total(l) <= u64::MAX ==> free_total(normalize_spec(l, n).0) == free_total(l),
{
    let d = keep_items(l, Select::Deleted);
    let x = keep_items(l, Select::NotDeleted);
    lemma_keep_selects(l, Select::Deleted);
    assert forall|i: int| 0 <= i < d.len() implies #[trigger] d[i] is Part by {
        assert(selects(Select::Deleted, d[i]));
    }
    lemma_merge_parts_prefix(d, x, n);
    let mm = merge_runs(x, None, n).0;
    assert(normalize_spec(l, n).0 == d + mm);
    lemma_keep_concat(d, mm, Select::Parts);
    assert forall|i: int| 0 <= i < d.len() implies selects(Select::Parts, #[trigger] d[i]) by {
        assert(d[i] is Part);
    }
    lemma_keep_all_or_none(d, Select::Parts);
    lemma_merge_keeps_parts(x, None, n);
    lemma_parts_of_not_deleted(l);
    law_normalize_twice(l, n, n);
    lemma_free_total_concat(d, mm);
    lemma_free_total_parts(d);
    lemma_free_total_not_deleted(l);
    if free_total(l) <= u64::MAX {
        lemma_merge_free_total(x, None, n);
    }
}

proof fn lemma_no_adjacent_concat_parts(d: Seq<DiskItemView>, mm: Seq<DiskItemView>)
    requires
        forall|i: int| 0 <= i < d.len() ==> #[trigger] d[i] is Part,
        no_adjacent_free(mm),
    ensures
        no_adjacent_free(d + mm),
{
    assert(no_adjacent_free(d)) by {
        assert forall|i: int, j: int| 0 <= i && j == i + 1 && j < d.len() implies !(
        #[trigger] d[i] is Free && #[trigger] d[j] is Free) by {
            assert(d[i] is Part);
        }
    }
    if d.len() > 0 {
        assert(d[d.len() - 1] is Part);
    }
    lemma_no_adjacent_concat(d, mm);
}

/// Whatever edits came between, `reset_layout` gives back the layout that
/// `Disk::new` computed for the disk: the same entries, save the identifiers
/// of free-space entries. `built` is the disk as `new` made it, `before` the
/// disk after any edits that keep its size, sector size, label and starting
/// layout, and `after` the disk that resetting `before` gives.
pub proof fn law_reset_restores_built_layout(built: DiskView, before: DiskView, after: DiskView)
    requires
        same_build(built, before),
        (built.layout, built.next_id) == free_space_spec(
            DiskView {
                layout: built.initial_layout,
                next_id: max_id_after(built.initial_layout),
                ..built
            },
        ),
        (after.layout, after.next_id) == free_space_spec(
            DiskView { layout: before.initial_layout, ..before },
        ),
    ensures
        same_but_free_ids(after.layout, built.layout),
{
    let g = with_gaps(built.initial_layout, built.size, built.sector_size as nat, built.label);
    let k = keep_items(g, Select::Deleted) + keep_items(g, Select::NotDeleted);
    lemma_merge_ids_irrelevant(k, None, before.next_id, max_id_after(built.initial_layout));
}

proof fn lemma_build_kept(steps: Seq<DiskView>, k: int)
    requires
        0 <= k < steps.len(),
        forall|i: int| 0 <= i < steps.len() - 1 ==> same_build(#[trigger] steps[i], steps[i + 1]),
    ensures
        same_build(steps[0], steps[k]),
    decreases k,
{
    if k > 0 {
        lemma_build_kept(steps, k - 1);
        assert(same_build(steps[k - 1], steps[k]));
    }
}

/// Resetting after any run of edits gives back what `Disk::new` built, up to
/// the identifiers of free-space entries. `steps` is the disk after each call
/// in turn, the first as `new` built it; each call keeps the size, sector
/// size, label and starting layout (`same_build`), as the contract of every
/// editing method of a disk states (the setters of size, sector size and
/// label change those on purpose). `after` is the disk that `reset_layout`
/// makes of the last of them.
pub proof fn law_reset_after_edits(steps: Seq<DiskView>, after: DiskView)
    requires
        steps.len() > 0,
        (steps[0].layout, steps[0].next_id) == free_space_spec(
            DiskView {
                layout: steps[0].initial_layout,
                next_id: max_id_after(steps[0].initial_layout),
                ..steps[0]
            },
        ),
        forall|i: int| 0 <= i < steps.len() - 1 ==> same_build(#[trigger] steps[i], steps[i + 1]),
        (after.layout, after.next_id) == free_space_spec(
            DiskView { layout: steps.last().initial_layout, ..steps.last() },
        ),
    ensures
        same_but_free_ids(after.layout, steps[0].layout),
{
    lemma_build_kept(steps, steps.len() - 1);
    law_reset_restores_built_layout(steps[0], steps.last(), after);
}

} // verus!
