//! Partitions that are kept never share a sector: adding a partition to a
//! layout whose kept partitions are apart leaves them apart.
use vstd::prelude::*;
use crate::drives::{
    assign_names, free_space_spec, gaps_after, insert_by_start, is_live, item_size, item_start, keep_items,
    merge_runs, normalize_spec, numbered, overlaps_live, selects, sort_by_start, with_gaps, with_new_partition,
    DiskItemView, DiskView, PartStatus, PartitionView, Select,
};

verus! {

/// The sectors of an entry: first sector and count.
pub open spec fn span(v: DiskItemView) -> (int, int) {
    (item_start(v) as int, item_size(v) as int)
}

/// The sectors of the kept (not deleted) partitions of a layout, in order.
pub open spec fn live_spans(l: Seq<DiskItemView>) -> Seq<(int, int)>
    decreases l.len(),
{
    if l.len() == 0 {
        Seq::empty()
    } else if is_live(l.last()) {
        live_spans(l.drop_last()).push(span(l.last()))
    } else {
        live_spans(l.drop_last())
    }
}

/// Two runs of sectors share none.
pub open spec fn apart(a: (int, int), b: (int, int)) -> bool {
    a.0 + a.1 <= b.0 || b.0 + b.1 <= a.0
}

/// No two runs of `s` share a sector.
pub open spec fn pairwise_apart(s: Seq<(int, int)>) -> bool {
    forall|i: int, j: int| 0 <= i < j < s.len() ==> apart(#[trigger] s[i], #[trigger] s[j])
}

/// The kept partitions of a layout share no sector.
pub open spec fn partitions_apart(l: Seq<DiskItemView>) -> bool {
    pairwise_apart(live_spans(l))
}

// ---------------------------------------------------------------------------
// Runs of sectors
// ---------------------------------------------------------------------------

proof fn lemma_apart_concat(a: Seq<(int, int)>, b: Seq<(int, int)>)
    requires
        pairwise_apart(a),
        pairwise_apart(b),
        forall|i: int, j: int| 0 <= i < a.len() && 0 <= j < b.len() ==> apart(#[trigger] a[i], #[trigger] b[j]),
    ensures
        pairwise_apart(a + b),
{
    let c = a + b;
    assert forall|i: int, j: int| 0 <= i < j < c.len() implies apart(#[trigger] c[i], #[trigger] c[j]) by {
        if j < a.len() {
            assert(c[i] == a[i] && c[j] == a[j]);
        } else if i >= a.len() {
            assert(c[i] == b[i - a.len()] && c[j] == b[j - a.len()]);
        } else {
            assert(c[i] == a[i] && c[j] == b[j - a.len()]);
        }
    }
}

proof fn lemma_apart_split(a: Seq<(int, int)>, b: Seq<(int, int)>)
    requires
        pairwise_apart(a + b),
    ensures
        pairwise_apart(a),
        pairwise_apart(b),
        forall|i: int, j: int| 0 <= i < a.len() && 0 <= j < b.len() ==> apart(#[trigger] a[i], #[trigger] b[j]),
{
    let c = a + b;
    assert forall|i: int, j: int| 0 <= i < j < a.len() implies apart(#[trigger] a[i], #[trigger] a[j]) by {
        assert(c[i] == a[i] && c[j] == a[j]);
    }
    assert forall|i: int, j: int| 0 <= i < j < b.len() implies apart(#[trigger] b[i], #[trigger] b[j]) by {
        assert(c[i + a.len()] == b[i] && c[j + a.len()] == b[j]);
    }
    assert forall|i: int, j: int| 0 <= i < a.len() && 0 <= j < b.len() implies apart(
        #[trigger] a[i],
        #[trigger] b[j],
    ) by {
        assert(c[i] == a[i] && c[j + a.len()] == b[j]);
    }
}

// ---------------------------------------------------------------------------
// Kept partitions through the layout's transformations
// ---------------------------------------------------------------------------

proof fn lemma_live_spans_concat(a: Seq<DiskItemView>, b: Seq<DiskItemView>)
    ensures
        live_spans(a + b) == live_spans(a) + live_spans(b),
    decreases b.len(),
{
    if b.len() == 0 {
        assert(a + b =~= a);
        assert(live_spans(a) + live_spans(b) =~= live_spans(a));
    } else {
        assert((a + b).drop_last() =~= a + b.drop_last());
        assert((a + b).last() == b.last());
        lemma_live_spans_concat(a, b.drop_last());
        if is_live(b.last()) {
            assert(live_spans(a) + live_spans(b) =~= (live_spans(a) + live_spans(b.drop_last())).push(
                span(b.last()),
            ));
        }
    }
}

proof fn lemma_live_spans_front(x: DiskItemView, l: Seq<DiskItemView>)
    ensures
        live_spans(seq![x] + l) == live_spans(seq![x]) + live_spans(l),
        live_spans(seq![x]) == (if is_live(x) {
            seq![span(x)]
        } else {
            Seq::<(int, int)>::empty()
        }),
{
    lemma_live_spans_concat(seq![x], l);
    let s1 = seq![x];
    assert(s1.last() == x);
    assert(s1.drop_last() =~= Seq::<DiskItemView>::empty());
    assert(live_spans(Seq::<DiskItemView>::empty()) == Seq::<(int, int)>::empty());
    if is_live(x) {
        assert(Seq::<(int, int)>::empty().push(span(x)) =~= seq![span(x)]);
    }
}

proof fn lemma_live_spans_keep(l: Seq<DiskItemView>, sel: Select)
    ensures
        sel == Select::Deleted ==> live_spans(keep_items(l, sel)) == Seq::<(int, int)>::empty(),
        sel != Select::Deleted ==> live_spans(keep_items(l, sel)) == live_spans(l),
    decreases l.len(),
{
    if l.len() > 0 {
        lemma_live_spans_keep(l.drop_last(), sel);
        let k = keep_items(l.drop_last(), sel);
        if selects(sel, l.last()) {
            assert(keep_items(l, sel) == k.push(l.last()));
            assert(k.push(l.last()).drop_last() =~= k);
        }
    }
}

proof fn lemma_live_spans_merge(l: Seq<DiskItemView>, pending: Option<(u64, u64)>, next: u64)
    ensures
        live_spans(merge_runs(l, pending, next).0) == live_spans(l),
    decreases l.len(),
{
    if l.len() == 0 {
        match pending {
            Some((s, z)) => {
                let f = DiskItemView::Free { id: next, start: s, size: z };
                lemma_live_spans_front(f, Seq::<DiskItemView>::empty());
            },
            None => {},
        }
    } else {
        let rest = l.drop_first();
        assert(l =~= seq![l[0]] + rest);
        lemma_live_spans_front(l[0], rest);
        match l[0] {
            DiskItemView::Free { start, size, .. } => {
                let p2 = Some(
                    match pending {
                        Some((s, z)) => (s, crate::drives::sat_add(z, size)),
                        None => (start, size),
                    },
                );
                lemma_live_spans_merge(rest, p2, next);
                assert(live_spans(seq![l[0]]) + live_spans(rest) =~= live_spans(rest));
            },
            DiskItemView::Part(p) => match pending {
                Some((s, z)) => {
                    let r = merge_runs(rest, None, crate::drives::bump(next));
                    lemma_live_spans_merge(rest, None, crate::drives::bump(next));
                    let f = DiskItemView::Free { id: next, start: s, size: z };
                    let head = seq![f, DiskItemView::Part(p)];
                    lemma_live_spans_concat(head, r.0);
                    assert(head =~= seq![f] + seq![DiskItemView::Part(p)]);
                    lemma_live_spans_concat(seq![f], seq![DiskItemView::Part(p)]);
                    lemma_live_spans_front(f, Seq::<DiskItemView>::empty());
                    lemma_live_spans_front(DiskItemView::Part(p), Seq::<DiskItemView>::empty());
                    assert(live_spans(seq![f]) + live_spans(seq![DiskItemView::Part(p)]) =~= live_spans(
                        seq![l[0]],
                    ));
                },
                None => {
                    let r = merge_runs(rest, None, next);
                    lemma_live_spans_merge(rest, None, next);
                    lemma_live_spans_front(DiskItemView::Part(p), r.0);
                },
            },
        }
    }
}

proof fn lemma_live_spans_normalize(l: Seq<DiskItemView>, next: u64)
    ensures
        live_spans(normalize_spec(l, next).0) == live_spans(l),
{
    let a = keep_items(l, Select::Deleted);
    let b = keep_items(l, Select::NotDeleted);
    lemma_live_spans_merge(a + b, None, next);
    lemma_live_spans_concat(a, b);
    lemma_live_spans_keep(l, Select::Deleted);
    lemma_live_spans_keep(l, Select::NotDeleted);
    assert(live_spans(a) + live_spans(b) =~= live_spans(l));
}

proof fn lemma_live_spans_gaps(parts: Seq<DiskItemView>, cursor: u64, last: u64, min: u64)
    ensures
        live_spans(gaps_after(parts, cursor, last, min)) == Seq::<(int, int)>::empty(),
    decreases parts.len(),
{
    if parts.len() == 0 {
        if cursor < last && last - cursor > min {
            let f = DiskItemView::Free { id: 0, start: cursor, size: (last - cursor) as u64 };
            lemma_live_spans_front(f, Seq::<DiskItemView>::empty());
        }
    } else {
        let st = item_start(parts[0]);
        let g = if st > cursor && st - cursor > min {
            seq![DiskItemView::Free { id: 0, start: cursor, size: (st - cursor) as u64 }]
        } else {
            Seq::<DiskItemView>::empty()
        };
        let rest = gaps_after(
            parts.drop_first(),
            crate::drives::min_u64(crate::drives::sat_add(st, item_size(parts[0])), last),
            last,
            min,
        );
        lemma_live_spans_gaps(
            parts.drop_first(),
            crate::drives::min_u64(crate::drives::sat_add(st, item_size(parts[0])), last),
            last,
            min,
        );
        lemma_live_spans_concat(g, rest);
        if g.len() > 0 {
            lemma_live_spans_front(g[0], Seq::<DiskItemView>::empty());
            assert(g =~= seq![g[0]]);
        }
        assert(live_spans(g) + live_spans(rest) =~= Seq::<(int, int)>::empty());
    }
}

proof fn lemma_live_spans_names(l: Seq<DiskItemView>, used: Set<nat>, prefix: Seq<char>)
    ensures
        live_spans(assign_names(l, used, prefix)) == live_spans(l),
    decreases l.len(),
{
    if l.len() > 0 {
        let rest = l.drop_first();
        assert(l =~= seq![l[0]] + rest);
        lemma_live_spans_front(l[0], rest);
        match l[0] {
            DiskItemView::Part(p) => if p.status == PartStatus::Delete {
                lemma_live_spans_names(rest, used, prefix);
                lemma_live_spans_front(l[0], assign_names(rest, used, prefix));
            } else if crate::drives::partnum(p.name) is Some {
                let u2 = used.insert(crate::drives::partnum(p.name)->0);
                lemma_live_spans_names(rest, u2, prefix);
                lemma_live_spans_front(l[0], assign_names(rest, u2, prefix));
            } else if crate::drives::gets_number(p.status) {
                let n = crate::drives::least_free(used);
                let x = DiskItemView::Part(PartitionView { name: Some(prefix + crate::text::decimal(n)), ..p });
                lemma_live_spans_names(rest, used.insert(n), prefix);
                lemma_live_spans_front(x, assign_names(rest, used.insert(n), prefix));
                lemma_live_spans_front(x, Seq::<DiskItemView>::empty());
                lemma_live_spans_front(l[0], Seq::<DiskItemView>::empty());
            } else {
                lemma_live_spans_names(rest, used, prefix);
                lemma_live_spans_front(l[0], assign_names(rest, used, prefix));
            },
            _ => {
                lemma_live_spans_names(rest, used, prefix);
                lemma_live_spans_front(l[0], assign_names(rest, used, prefix));
            },
        }
    }
}

// ---------------------------------------------------------------------------
// Sorting by start keeps the kept partitions and their separation
// ---------------------------------------------------------------------------

/// `x` is apart from every run of `b`.
pub open spec fn apart_from_all(x: (int, int), b: Seq<(int, int)>) -> bool {
    forall|k: int| 0 <= k < b.len() ==> apart(x, #[trigger] b[k])
}

proof fn lemma_insert_keeps_apart(x: DiskItemView, t: Seq<DiskItemView>)
    requires
        pairwise_apart(live_spans(t)),
        is_live(x) ==> apart_from_all(span(x), live_spans(t)),
    ensures
        pairwise_apart(live_spans(insert_by_start(x, t))),
        forall|y: (int, int)|
            #[trigger] live_spans(insert_by_start(x, t)).contains(y) <==> (live_spans(t).contains(y) || (is_live(
                x,
            ) && y == span(x))),
    decreases t.len(),
{
    let r = insert_by_start(x, t);
    if t.len() == 0 {
        assert(r == seq![x]);
        lemma_live_spans_front(x, t);
        assert(live_spans(t) == Seq::<(int, int)>::empty());
        assert forall|y: (int, int)| #[trigger] live_spans(r).contains(y) <==> (live_spans(t).contains(y) || (
        is_live(x) && y == span(x))) by {
            if is_live(x) && y == span(x) {
                assert(live_spans(r)[0] == y);
            }
        }
    } else if item_start(x) < item_start(t[0]) {
        assert(r == seq![x] + t);
        lemma_live_spans_front(x, t);
        let hx = live_spans(seq![x]);
        if is_live(x) {
            assert forall|i: int, j: int| 0 <= i < hx.len() && 0 <= j < live_spans(t).len() implies apart(
                #[trigger] hx[i],
                #[trigger] live_spans(t)[j],
            ) by {
                assert(hx[i] == span(x));
            }
        }
        lemma_apart_concat(hx, live_spans(t));
        assert forall|y: (int, int)| #[trigger] live_spans(r).contains(y) <==> (live_spans(t).contains(y) || (
        is_live(x) && y == span(x))) by {
            let c = hx + live_spans(t);
            if live_spans(t).contains(y) {
                let k = choose|k: int| 0 <= k < live_spans(t).len() && live_spans(t)[k] == y;
                assert(c[k + hx.len()] == y);
            }
            if is_live(x) && y == span(x) {
                assert(c[0] == y);
            }
            if c.contains(y) {
                let k = choose|k: int| 0 <= k < c.len() && c[k] == y;
                if k >= hx.len() {
                    assert(live_spans(t)[k - hx.len()] == y);
                }
            }
        }
    } else {
        let t0 = t[0];
        let tail = t.drop_first();
        assert(t =~= seq![t0] + tail);
        lemma_live_spans_front(t0, tail);
        let h0 = live_spans(seq![t0]);
        let lt = live_spans(tail);
        lemma_apart_split(h0, lt);
        if is_live(x) {
            assert forall|k: int| 0 <= k < lt.len() implies apart(span(x), #[trigger] lt[k]) by {
                assert((h0 + lt)[k + h0.len()] == lt[k]);
            }
        }
        lemma_insert_keeps_apart(x, tail);
        let ri = insert_by_start(x, tail);
        assert(r == seq![t0] + ri);
        lemma_live_spans_front(t0, ri);
        let lri = live_spans(ri);
        assert forall|i: int, j: int| 0 <= i < h0.len() && 0 <= j < lri.len() implies apart(
            #[trigger] h0[i],
            #[trigger] lri[j],
        ) by {
            assert(h0[i] == span(t0));
            let y = lri[j];
            assert(lri.contains(y));
            if lt.contains(y) {
                let k = choose|k: int| 0 <= k < lt.len() && lt[k] == y;
                assert(apart(h0[i], lt[k]));
            } else {
                assert(is_live(x) && y == span(x));
                assert((h0 + lt)[i] == h0[i]);
                assert(apart(span(x), (h0 + lt)[i]));
            }
        }
        lemma_apart_concat(h0, lri);
        assert forall|y: (int, int)| #[trigger] live_spans(r).contains(y) <==> (live_spans(t).contains(y) || (
        is_live(x) && y == span(x))) by {
            let c = h0 + lri;
            let ct = h0 + lt;
            if c.contains(y) {
                let k = choose|k: int| 0 <= k < c.len() && c[k] == y;
                if k < h0.len() {
                    assert(ct[k] == y);
                } else {
                    assert(lri[k - h0.len()] == y);
                    assert(lri.contains(y));
                    if lt.contains(y) {
                        let m = choose|m: int| 0 <= m < lt.len() && lt[m] == y;
                        assert(ct[m + h0.len()] == y);
                    }
                }
            }
            if ct.contains(y) {
                let k = choose|k: int| 0 <= k < ct.len() && ct[k] == y;
                if k < h0.len() {
                    assert(c[k] == y);
                } else {
                    assert(lt[k - h0.len()] == y);
                    assert(lt.contains(y));
                    assert(lri.contains(y));
                    let m = choose|m: int| 0 <= m < lri.len() && lri[m] == y;
                    assert(c[m + h0.len()] == y);
                }
            }
            if is_live(x) && y == span(x) {
                assert(lri.contains(y));
                let m = choose|m: int| 0 <= m < lri.len() && lri[m] == y;
                assert(c[m + h0.len()] == y);
            }
        }
    }
}

proof fn lemma_sort_keeps_apart(s: Seq<DiskItemView>)
    requires
        partitions_apart(s),
    ensures
        partitions_apart(sort_by_start(s)),
        forall|y: (int, int)| #[trigger] live_spans(sort_by_start(s)).contains(y) <==> live_spans(s).contains(y),
    decreases s.len(),
{
    if s.len() > 0 {
        let d = s.drop_last();
        let x = s.last();
        let ld = live_spans(d);
        if is_live(x) {
            assert(live_spans(s) == ld.push(span(x)));
            assert(ld.push(span(x)) =~= ld + seq![span(x)]);
            lemma_apart_split(ld, seq![span(x)]);
        } else {
            assert(live_spans(s) == ld);
        }
        lemma_sort_keeps_apart(d);
        let sd = sort_by_start(d);
        if is_live(x) {
            assert forall|k: int| 0 <= k < live_spans(sd).len() implies apart(span(x), #[trigger] live_spans(sd)[k]) by {
                let y = live_spans(sd)[k];
                assert(live_spans(sd).contains(y));
                let m = choose|m: int| 0 <= m < ld.len() && ld[m] == y;
                assert(apart(ld[m], seq![span(x)][0]));
            }
        }
        lemma_insert_keeps_apart(x, sd);
        assert forall|y: (int, int)| #[trigger] live_spans(sort_by_start(s)).contains(y) <==> live_spans(s).contains(y) by {
            assert(live_spans(insert_by_start(x, sd)).contains(y) <==> (live_spans(sd).contains(y) || (is_live(x)
                && y == span(x))));
            if is_live(x) {
                let ls = ld.push(span(x));
                if ls.contains(y) {
                    let k = choose|k: int| 0 <= k < ls.len() && ls[k] == y;
                    if k < ld.len() {
                        assert(ld[k] == y);
                    }
                }
                if ld.contains(y) {
                    let k = choose|k: int| 0 <= k < ld.len() && ld[k] == y;
                    assert(ls[k] == y);
                }
                if y == span(x) {
                    assert(ls[ld.len() as int] == y);
                }
            }
        }
    }
}

proof fn lemma_gaps_keep_apart(l: Seq<DiskItemView>, size: u64, sector_size: nat, label: crate::drives::DiskLabel)
    requires
        partitions_apart(l),
    ensures
        partitions_apart(with_gaps(l, size, sector_size, label)),
        forall|y: (int, int)| #[trigger] live_spans(with_gaps(l, size, sector_size, label)).contains(y)
            <==> live_spans(l).contains(y),
{
    let last = crate::drives::last_usable(size, label, sector_size);
    let kl = keep_items(l, Select::Live);
    let live = sort_by_start(kl);
    let first = crate::drives::min_u64(crate::drives::ceil_div(1048576, sector_size) as u64, last);
    let gaps = gaps_after(live, first, last, crate::drives::ceil_div(5 * 1048576, sector_size) as u64);
    lemma_live_spans_keep(l, Select::Live);
    lemma_sort_keeps_apart(kl);
    lemma_live_spans_gaps(live, first, last, crate::drives::ceil_div(5 * 1048576, sector_size) as u64);
    lemma_live_spans_concat(live, gaps);
    assert(live_spans(live) + live_spans(gaps) =~= live_spans(live));
    lemma_sort_keeps_apart(live + gaps);
    let del = keep_items(l, Select::Deleted);
    lemma_live_spans_keep(l, Select::Deleted);
    lemma_live_spans_concat(del, sort_by_start(live + gaps));
    assert(live_spans(del) + live_spans(sort_by_start(live + gaps)) =~= live_spans(sort_by_start(live + gaps)));
}

/// Free space is recomputed without moving, losing or adding a kept partition.
proof fn lemma_free_space_keeps_apart(d: DiskView)
    requires
        partitions_apart(d.layout),
    ensures
        partitions_apart(free_space_spec(d).0),
        forall|y: (int, int)| #[trigger] live_spans(free_space_spec(d).0).contains(y) <==> live_spans(d.layout).contains(y),
{
    let w = with_gaps(d.layout, d.size, d.sector_size as nat, d.label);
    lemma_gaps_keep_apart(d.layout, d.size, d.sector_size as nat, d.label);
    lemma_live_spans_normalize(w, d.next_id);
}

/// Adding a partition keeps the kept partitions apart (it is refused when it
/// would overlap one), keeps every partition that was kept, and, when it is
/// added and not marked for deletion, its sectors are among the kept ones.
pub proof fn law_new_partition_keeps_partitions_apart(d: DiskView, part: PartitionView)
    requires
        partitions_apart(d.layout),
    ensures
        partitions_apart(with_new_partition(d, part).0.layout),
        forall|y: (int, int)| #[trigger] live_spans(d.layout).contains(y) ==> live_spans(
            with_new_partition(d, part).0.layout,
        ).contains(y),
        with_new_partition(d, part).1 && part.status != PartStatus::Delete ==> live_spans(
            with_new_partition(d, part).0.layout,
        ).contains((part.start as int, part.size as int)),
{
    let kp = keep_items(d.layout, Select::Parts);
    lemma_live_spans_keep(d.layout, Select::Parts);
    let (l1, n1) = normalize_spec(kp, d.next_id);
    lemma_live_spans_normalize(kp, d.next_id);
    assert(live_spans(l1) == live_spans(d.layout));
    if !overlaps_live(l1, part.start as int, part.size as int) {
        let np = DiskItemView::Part(PartitionView { id: n1, ..part });
        let l2 = l1.push(np);
        assert(l2.drop_last() =~= l1);
        assert(l2.last() == np);
        if is_live(np) {
            assert(live_spans(l2) == live_spans(l1).push(span(np)));
            let ll = live_spans(l1);
            assert forall|i: int, j: int| 0 <= i < ll.len() && 0 <= j < seq![span(np)].len() implies apart(
                #[trigger] ll[i],
                #[trigger] seq![span(np)][j],
            ) by {
                lemma_live_span_source(l1, i);
                let k = choose|k: int| 0 <= k < l1.len() && is_live(l1[k]) && span(l1[k]) == ll[i];
                assert(!(is_live(l1[k]) && part.start < item_start(l1[k]) + item_size(l1[k]) && part.start
                    + part.size > item_start(l1[k])));
            }
            lemma_apart_concat(ll, seq![span(np)]);
            assert(ll.push(span(np)) =~= ll + seq![span(np)]);
        } else {
            assert(live_spans(l2) == live_spans(l1));
        }
        let dv = DiskView { layout: l2, next_id: crate::drives::bump(n1), ..d };
        lemma_free_space_keeps_apart(dv);
        let (l3, n3) = free_space_spec(dv);
        lemma_live_spans_names(l3, crate::drives::used_numbers(l3), crate::drives::device_prefix(d.name));
        assert forall|y: (int, int)| #[trigger] live_spans(d.layout).contains(y) implies live_spans(l2).contains(
            y,
        ) by {
            let k = choose|k: int| 0 <= k < live_spans(l1).len() && live_spans(l1)[k] == y;
            if is_live(np) {
                assert(live_spans(l1).push(span(np))[k] == y);
            }
        }
        if is_live(np) {
            assert(live_spans(l1).push(span(np))[live_spans(l1).len() as int] == span(np));
            assert(live_spans(l2).contains(span(np)));
        }
    }
}

/// Each kept span of a layout is the span of one of its kept partitions.
proof fn lemma_live_span_source(l: Seq<DiskItemView>, i: int)
    requires
        0 <= i < live_spans(l).len(),
    ensures
        exists|k: int| 0 <= k < l.len() && is_live(l[k]) && span(l[k]) == live_spans(l)[i],
    decreases l.len(),
{
    let d = l.drop_last();
    if is_live(l.last()) {
        if i == live_spans(d).len() {
            assert(is_live(l[l.len() - 1]) && span(l[l.len() - 1]) == live_spans(l)[i]);
        } else {
            lemma_live_span_source(d, i);
            let k = choose|k: int| 0 <= k < d.len() && is_live(d[k]) && span(d[k]) == live_spans(d)[i];
            assert(l[k] == d[k]);
        }
    } else {
        lemma_live_span_source(d, i);
        let k = choose|k: int| 0 <= k < d.len() && is_live(d[k]) && span(d[k]) == live_spans(d)[i];
        assert(l[k] == d[k]);
    }
}

} // verus!
