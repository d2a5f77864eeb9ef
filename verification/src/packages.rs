//! The package picker: packages move between an available and a selected set,
//! and the available ones can be searched by fuzzy match.
//!
//! Both sets and the search results are kept as vectors of entries ordered
//! strictly by package name, which gives them the iteration order of an
//! ordered map.
use vstd::prelude::*;
use crate::text::{
    lemma_lt_irreflexive, lemma_lt_total, lemma_lt_transitive, owned, seq_lt, str_eq, str_lt, strictly_sorted, strings_view,
};
use crate::widgets::{fuzzy_score, skim_fuzzy_score};

verus! {

// ---------------------------------------------------------------------------
// Name-ordered entry vectors
// ---------------------------------------------------------------------------

/// The names of a vector of entries.
pub open spec fn key_seq<V>(s: Seq<(String, V)>) -> Seq<Seq<char>> {
    s.map_values(|e: (String, V)| e.0@)
}

/// A position of `x` in `k`.
pub open spec fn key_index(k: Seq<Seq<char>>, x: Seq<char>) -> int {
    choose|i: int| 0 <= i < k.len() && k[i] == x
}

/// The entries as a map from name to value.
pub open spec fn entries_map<V>(s: Seq<(String, V)>) -> Map<Seq<char>, V> {
    Map::new(|x: Seq<char>| key_seq(s).contains(x), |x: Seq<char>| s[key_index(key_seq(s), x)].1)
}

proof fn lemma_key_index<V>(s: Seq<(String, V)>, i: int)
    requires
        strictly_sorted(key_seq(s)),
        0 <= i < s.len(),
    ensures
        key_index(key_seq(s), s[i].0@) == i,
        key_seq(s)[i] == s[i].0@,
        entries_map(s).dom().contains(s[i].0@),
        entries_map(s)[s[i].0@] == s[i].1,
{
    let k = key_seq(s);
    assert(k[i] == s[i].0@);
    let j = key_index(k, s[i].0@);
    if j != i {
        if j < i {
            assert(seq_lt(k[j], k[i]));
        } else {
            assert(seq_lt(k[i], k[j]));
        }
        lemma_lt_irreflexive(k[i]);
    }
}

/// Where `k` stands among the names: its position, or the position where it
/// would be inserted.
fn find_key<V>(v: &Vec<(String, V)>, k: &str) -> (r: Result<usize, usize>)
    requires
        strictly_sorted(key_seq(v@)),
    ensures
        match r {
            Ok(i) => i < v@.len() && key_seq(v@)[i as int] == k@,
            Err(p) => p <= v@.len() && (forall|q: int| 0 <= q < p ==> seq_lt(#[trigger] key_seq(v@)[q], k@))
                && (forall|q: int| p <= q < v@.len() ==> seq_lt(k@, #[trigger] key_seq(v@)[q])),
        },
        r is Err ==> !key_seq(v@).contains(k@),
{
    let ghost ks = key_seq(v@);
    let mut p: usize = 0;
    while p < v.len() && str_lt(v[p].0.as_str(), k)
        invariant
            p <= v@.len(),
            ks == key_seq(v@),
            forall|q: int| 0 <= q < p ==> seq_lt(#[trigger] ks[q], k@),
        decreases v@.len() - p,
    {
        assert(ks[p as int] == v@[p as int].0@);
        p = p + 1;
    }
    if p < v.len() && str_eq(v[p].0.as_str(), k) {
        assert(ks[p as int] == v@[p as int].0@);
        return Ok(p);
    }
    proof {
        if p < v@.len() {
            assert(ks[p as int] == v@[p as int].0@);
            lemma_lt_total(ks[p as int], k@);
            assert forall|q: int| p <= q < v@.len() implies seq_lt(k@, #[trigger] ks[q]) by {
                if q > p {
                    lemma_lt_transitive(k@, ks[p as int], ks[q]);
                }
            }
        }
        if ks.contains(k@) {
            let q = choose|q: int| 0 <= q < ks.len() && ks[q] == k@;
            lemma_lt_irreflexive(k@);
        }
    }
    Err(p)
}

/// The value under `k`.
fn map_get<V: Copy>(v: &Vec<(String, V)>, k: &str) -> (r: Option<V>)
    requires
        strictly_sorted(key_seq(v@)),
    ensures
        r == (if entries_map(v@).dom().contains(k@) { Some(entries_map(v@)[k@]) } else { None }),
{
    match find_key(v, k) {
        Ok(i) => {
            proof {
                lemma_key_index(v@, i as int);
            }
            Some(v[i].1)
        },
        Err(_) => None,
    }
}

/// Sets the value under `k`, adding the name where it sorts.
fn map_insert<V: Copy>(v: &mut Vec<(String, V)>, k: String, val: V)
    requires
        strictly_sorted(key_seq(old(v)@)),
    ensures
        strictly_sorted(key_seq(final(v)@)),
        entries_map(final(v)@) == entries_map(old(v)@).insert(k@, val),
{
    let ghost kv = k@;
    let ghost ov = v@;
    let ghost ok = key_seq(ov);
    match find_key(v, k.as_str()) {
        Ok(i) => {
            v.remove(i);
            v.insert(i, (k, val));
            proof {
                let nv = v@;
                assert(nv =~= ov.update(i as int, (nv[i as int].0, val)));
                let nk = key_seq(nv);
                assert(nk =~= ok.update(i as int, kv));
                assert(nk =~= ok);
                lemma_key_index(nv, i as int);
                assert forall|x: Seq<char>| #[trigger] entries_map(nv).dom().contains(x)
                    == entries_map(ov).insert(kv, val).dom().contains(x) by {}
                assert forall|x: Seq<char>| entries_map(nv).dom().contains(x) implies #[trigger] entries_map(nv)[x]
                    == entries_map(ov).insert(kv, val)[x] by {
                    if x != kv {
                        let j = choose|j: int| 0 <= j < nk.len() && nk[j] == x;
                        lemma_key_index(nv, j);
                        lemma_key_index(ov, j);
                    }
                }
                assert(entries_map(nv) =~= entries_map(ov).insert(kv, val));
            }
        },
        Err(p) => {
            v.insert(p, (k, val));
            proof {
                let nv = v@;
                assert(nv =~= ov.insert(p as int, (nv[p as int].0, val)));
                let nk = key_seq(nv);
                assert(nk =~= ok.insert(p as int, kv));
                assert forall|i: int, j: int| 0 <= i < j < nk.len() implies seq_lt(#[trigger] nk[i], #[trigger] nk[j]) by {
                    if i < p && j > p {
                        assert(nk[j] == ok[j - 1]);
                        lemma_lt_transitive(nk[i], kv, nk[j]);
                    } else if i == p {
                        assert(nk[j] == ok[j - 1]);
                    } else if i > p {
                        assert(nk[i] == ok[i - 1]);
                        assert(nk[j] == ok[j - 1]);
                    }
                }
                lemma_key_index(nv, p as int);
                assert forall|x: Seq<char>| #[trigger] entries_map(nv).dom().contains(x)
                    == entries_map(ov).insert(kv, val).dom().contains(x) by {
                    if nk.contains(x) && x != kv {
                        let j = choose|j: int| 0 <= j < nk.len() && nk[j] == x;
                        if j < p {
                            assert(ok[j] == x);
                        } else {
                            assert(ok[j - 1] == x);
                        }
                    }
                    if ok.contains(x) {
                        let j = choose|j: int| 0 <= j < ok.len() && ok[j] == x;
                        if j < p {
                            assert(nk[j] == x);
                        } else {
                            assert(nk[j + 1] == x);
                        }
                    }
                }
                assert forall|x: Seq<char>| entries_map(nv).dom().contains(x) implies #[trigger] entries_map(nv)[x]
                    == entries_map(ov).insert(kv, val)[x] by {
                    if x != kv {
                        let j = choose|j: int| 0 <= j < ok.len() && ok[j] == x;
                        lemma_key_index(ov, j);
                        if j < p {
                            lemma_key_index(nv, j);
                        } else {
                            lemma_key_index(nv, j + 1);
                        }
                    }
                }
                assert(entries_map(nv) =~= entries_map(ov).insert(kv, val));
            }
        },
    }
}

/// Takes out the entry under `k` and returns its value.
fn map_remove<V: Copy>(v: &mut Vec<(String, V)>, k: &str) -> (r: Option<V>)
    requires
        strictly_sorted(key_seq(old(v)@)),
    ensures
        strictly_sorted(key_seq(final(v)@)),
        r == (if entries_map(old(v)@).dom().contains(k@) { Some(entries_map(old(v)@)[k@]) } else { None }),
        entries_map(final(v)@) == entries_map(old(v)@).remove(k@),
{
    let ghost ov = v@;
    let ghost ok = key_seq(ov);
    match find_key(v, k) {
        Ok(i) => {
            proof {
                lemma_key_index(ov, i as int);
            }
            let e = v.remove(i);
            proof {
                let nv = v@;
                let nk = key_seq(nv);
                assert(nk =~= ok.remove(i as int));
                assert forall|a: int, b: int| 0 <= a < b < nk.len() implies seq_lt(#[trigger] nk[a], #[trigger] nk[b]) by {
                    if a >= i {
                        assert(nk[a] == ok[a + 1]);
                    }
                    if b >= i {
                        assert(nk[b] == ok[b + 1]);
                    }
                }
                assert forall|x: Seq<char>| #[trigger] entries_map(nv).dom().contains(x)
                    == entries_map(ov).remove(k@).dom().contains(x) by {
                    if nk.contains(x) {
                        let j = choose|j: int| 0 <= j < nk.len() && nk[j] == x;
                        if j < i {
                            assert(ok[j] == x);
                            assert(seq_lt(ok[j], ok[i as int]));
                        } else {
                            assert(ok[j + 1] == x);
                            assert(seq_lt(ok[i as int], ok[j + 1]));
                        }
                        lemma_lt_irreflexive(x);
                    }
                    if ok.contains(x) && x != k@ {
                        let j = choose|j: int| 0 <= j < ok.len() && ok[j] == x;
                        if j < i {
                            assert(nk[j] == x);
                        } else {
                            assert(nk[j - 1] == x);
                        }
                    }
                }
                assert forall|x: Seq<char>| entries_map(nv).dom().contains(x) implies #[trigger] entries_map(nv)[x]
                    == entries_map(ov).remove(k@)[x] by {
                    let j = choose|j: int| 0 <= j < nk.len() && nk[j] == x;
                    lemma_key_index(nv, j);
                    if j < i {
                        lemma_key_index(ov, j);
                    } else {
                        lemma_key_index(ov, j + 1);
                    }
                }
                assert(entries_map(nv) =~= entries_map(ov).remove(k@));
            }
            Some(e.1)
        },
        Err(_) => {
            assert(entries_map(ov).remove(k@) =~= entries_map(ov));
            None
        },
    }
}

proof fn lemma_push_contains<A>(s: Seq<A>, a: A)
    ensures
        forall|x: A| #[trigger] s.push(a).contains(x) == (s.contains(x) || x == a),
{
    assert forall|x: A| #[trigger] s.push(a).contains(x) == (s.contains(x) || x == a) by {
        if s.contains(x) {
            let j = choose|j: int| 0 <= j < s.len() && s[j] == x;
            assert(s.push(a)[j] == x);
        }
        if x == a {
            assert(s.push(a)[s.len() as int] == x);
        }
        if s.push(a).contains(x) && x != a {
            let j = choose|j: int| 0 <= j < s.len() + 1 && s.push(a)[j] == x;
            assert(s[j] == x);
        }
    }
}

/// The names, in order.
fn map_keys<V>(v: &Vec<(String, V)>) -> (r: Vec<String>)
    ensures
        strings_view(r@) == key_seq(v@),
{
    let mut r: Vec<String> = Vec::new();
    let mut i: usize = 0;
    while i < v.len()
        invariant
            i <= v@.len(),
            strings_view(r@) == key_seq(v@).take(i as int),
        decreases v@.len() - i,
    {
        let ghost before = r@;
        let name = v[i].0.clone();
        r.push(name);
        assert(r@ =~= before.push(name));
        assert(key_seq(v@)[i as int] == v@[i as int].0@);
        assert(key_seq(v@).take(i + 1) =~= key_seq(v@).take(i as int).push(name@));
        assert(strings_view(r@) =~= strings_view(before).push(name@));
        i = i + 1;
    }
    assert(key_seq(v@).take(v@.len() as int) =~= key_seq(v@));
    r
}


// ---------------------------------------------------------------------------
// The package picker
// ---------------------------------------------------------------------------

/// Each name of `s` with the position of its last occurrence.
pub open spec fn last_positions(s: Seq<Seq<char>>) -> Map<Seq<char>, usize>
    decreases s.len(),
{
    if s.len() == 0 {
        Map::empty()
    } else {
        last_positions(s.drop_last()).insert(s.last(), (s.len() - 1) as usize)
    }
}

/// The available packages that match `pattern`, with their position and score.
pub open spec fn fuzzy_matches(avail: Map<Seq<char>, usize>, pattern: Seq<char>) -> Map<Seq<char>, (usize, i64)> {
    Map::new(
        |k: Seq<char>| avail.dom().contains(k) && skim_fuzzy_score(k, pattern) is Some,
        |k: Seq<char>| (avail[k], skim_fuzzy_score(k, pattern)->0),
    )
}

/// Search order: a higher score first, and on equal scores the name that sorts first.
pub open spec fn scores_before(a: (Seq<char>, i64), b: (Seq<char>, i64)) -> bool {
    a.1 > b.1 || (a.1 == b.1 && seq_lt(a.0, b.0))
}

/// `r` lists exactly the names of `cache`, best score first and, among equal
/// scores, by name.
pub open spec fn ranked_by_score(cache: Map<Seq<char>, (usize, i64)>, r: Seq<Seq<char>>) -> bool {
    &&& forall|j: int| 0 <= j < r.len() ==> cache.dom().contains(#[trigger] r[j])
    &&& forall|x: Seq<char>| #[trigger] cache.dom().contains(x) ==> r.contains(x)
    &&& forall|j: int, k: int| 0 <= j < k < r.len() ==> scores_before(
        (#[trigger] r[j], cache[r[j]].1),
        (#[trigger] r[k], cache[r[k]].1),
    )
}

/// What `move_to_selected` does: an available package moves to the selected
/// ones with its position and leaves the search results; `r` tells whether
/// it was available, and nothing changes when it was not.
pub open spec fn moved_to_selected(a: PackageManager, b: PackageManager, package: Seq<char>, r: bool) -> bool {
    &&& r == a.available_view().dom().contains(package)
    &&& b.available_view() == a.available_view().remove(package)
    &&& b.selected_view() == (if r {
        a.selected_view().insert(package, a.available_view()[package])
    } else {
        a.selected_view()
    })
    &&& b.cache_view() == (if r { a.cache_view().remove(package) } else { a.cache_view() })
    &&& b.filter_view() == a.filter_view()
}

/// What `move_to_available` does: a selected package moves back with its
/// position and, while a search is active, joins its results when it
/// matches; `r` tells whether it was selected, and nothing changes when it
/// was not.
pub open spec fn moved_to_available(a: PackageManager, b: PackageManager, package: Seq<char>, r: bool) -> bool {
    &&& r == a.selected_view().dom().contains(package)
    &&& b.selected_view() == a.selected_view().remove(package)
    &&& b.available_view() == (if r {
        a.available_view().insert(package, a.selected_view()[package])
    } else {
        a.available_view()
    })
    &&& b.cache_view() == (if r {
        match a.filter_view() {
            Some(f) => match skim_fuzzy_score(package, f) {
                Some(score) => a.cache_view().insert(package, (a.selected_view()[package], score)),
                None => a.cache_view(),
            },
            None => a.cache_view(),
        }
    } else {
        a.cache_view()
    })
    &&& b.filter_view() == a.filter_view()
}

/// No package is both available and selected.
pub open spec fn sets_disjoint(m: PackageManager) -> bool {
    m.available_view().dom().disjoint(m.selected_view().dom())
}

/// In every state that `new` and the methods reach, no package is both
/// available and selected, and the results held for the active search are
/// exactly the available packages that match its pattern, so a repeated
/// search answers as a fresh one would.
pub proof fn law_manager_consistent(m: PackageManager)
    requires
        m.wf(),
    ensures
        sets_disjoint(m),
        m.filter_view() is None ==> m.cache_view() == Map::<Seq<char>, (usize, i64)>::empty(),
        m.filter_view() matches Some(f) ==> m.cache_view() == fuzzy_matches(m.available_view(), f),
{
}

/// Packages split into available and selected ones, each with its position in
/// the full list, and the result of the last search.
pub struct PackageManager {
    available: Vec<(String, usize)>,
    selected: Vec<(String, usize)>,
    original_order: Vec<String>,
    last_filter: Option<String>,
    cached_filtered: Vec<(String, (usize, i64))>,
}

/// The names of name-ordered (name, (position, score)) entries, best score
/// first and, among equal scores, by name.
fn rank_sorted(entries: &Vec<(String, (usize, i64))>) -> (r: Vec<String>)
    requires
        strictly_sorted(key_seq(entries@)),
    ensures
        ranked_by_score(entries_map(entries@), strings_view(r@)),
{
    let ghost cm = entries_map(entries@);
    let ghost ck = key_seq(entries@);
    let mut ranked: Vec<(String, i64)> = Vec::new();
    let mut i: usize = 0;
    while i < entries.len()
        invariant
            i <= entries@.len(),
            strictly_sorted(key_seq(entries@)),
            cm == entries_map(entries@),
            ck == key_seq(entries@),
            forall|j: int| 0 <= j < ranked@.len() ==> cm.dom().contains((#[trigger] ranked@[j]).0@)
                && cm[ranked@[j].0@].1 == ranked@[j].1,
            forall|j: int, t: int| 0 <= j < ranked@.len() && i <= t < ck.len() ==> seq_lt(
                (#[trigger] ranked@[j]).0@,
                #[trigger] ck[t],
            ),
            forall|q: int| 0 <= q < i ==> exists|j: int| 0 <= j < ranked@.len() && ranked@[j].0@ == #[trigger] ck[q],
            forall|j: int, k: int| 0 <= j < k < ranked@.len() ==> scores_before(
                ((#[trigger] ranked@[j]).0@, ranked@[j].1),
                ((#[trigger] ranked@[k]).0@, ranked@[k].1),
            ),
        decreases entries@.len() - i,
    {
        proof {
            lemma_key_index(entries@, i as int);
        }
        let name = entries[i].0.clone();
        let sc = entries[i].1.1;
        let ghost kv = name@;
        assert(kv == ck[i as int]);
        let mut p: usize = 0;
        while p < ranked.len() && ranked[p].1 >= sc
            invariant
                p <= ranked@.len(),
                forall|q: int| 0 <= q < p ==> (#[trigger] ranked@[q]).1 >= sc,
            decreases ranked@.len() - p,
        {
            p = p + 1;
        }
        let ghost old_r = ranked@;
        proof {
            assert forall|q: int| p <= q < old_r.len() implies (#[trigger] old_r[q]).1 < sc by {
                if q > p {
                    assert(scores_before((old_r[p as int].0@, old_r[p as int].1), (old_r[q].0@, old_r[q].1)));
                }
            }
        }
        ranked.insert(p, (name, sc));
        proof {
            let nr = ranked@;
            assert(nr =~= old_r.insert(p as int, nr[p as int]));
            assert(nr[p as int].0@ == kv);
            assert forall|j: int, k: int| 0 <= j < k < nr.len() implies scores_before(
                ((#[trigger] nr[j]).0@, nr[j].1),
                ((#[trigger] nr[k]).0@, nr[k].1),
            ) by {
                if j < p && k > p {
                    assert(nr[k] == old_r[k - 1]);
                } else if j < p && k == p {
                    assert(seq_lt(old_r[j].0@, ck[i as int]));
                } else if j == p {
                    assert(nr[k] == old_r[k - 1]);
                } else if j > p {
                    assert(nr[j] == old_r[j - 1]);
                    assert(nr[k] == old_r[k - 1]);
                }
            }
            assert forall|j: int, t: int| 0 <= j < nr.len() && i + 1 <= t < ck.len() implies seq_lt(
                (#[trigger] nr[j]).0@,
                #[trigger] ck[t],
            ) by {
                if j == p {
                    assert(seq_lt(ck[i as int], ck[t]));
                } else if j > p {
                    assert(nr[j] == old_r[j - 1]);
                }
            }
            assert forall|q: int| 0 <= q < i + 1 implies exists|j: int| 0 <= j < nr.len() && nr[j].0@ == #[trigger] ck[q] by {
                if q == i {
                    assert(nr[p as int].0@ == ck[q]);
                } else {
                    let j0 = choose|j: int| 0 <= j < old_r.len() && old_r[j].0@ == ck[q];
                    if j0 < p {
                        assert(nr[j0].0@ == ck[q]);
                    } else {
                        assert(nr[j0 + 1].0@ == ck[q]);
                    }
                }
            }
            assert forall|j: int| 0 <= j < nr.len() implies cm.dom().contains((#[trigger] nr[j]).0@)
                && cm[nr[j].0@].1 == nr[j].1 by {
                if j > p {
                    assert(nr[j] == old_r[j - 1]);
                }
            }
        }
        i = i + 1;
    }
    let mut r: Vec<String> = Vec::new();
    let mut k: usize = 0;
    while k < ranked.len()
        invariant
            k <= ranked@.len(),
            strings_view(r@) == ranked@.take(k as int).map_values(|e: (String, i64)| e.0@),
        decreases ranked@.len() - k,
    {
        let ghost before = r@;
        let name = ranked[k].0.clone();
        r.push(name);
        assert(r@ =~= before.push(name));
        assert(ranked@.take(k + 1) =~= ranked@.take(k as int).push(ranked@[k as int]));
        assert(strings_view(r@) =~= strings_view(before).push(name@));
        assert(strings_view(r@) =~= ranked@.take(k + 1).map_values(|e: (String, i64)| e.0@));
        k = k + 1;
    }
    proof {
        let rv = strings_view(r@);
        assert(ranked@.take(ranked@.len() as int) =~= ranked@);
        assert forall|j: int| 0 <= j < rv.len() implies cm.dom().contains(#[trigger] rv[j]) by {
            assert(rv[j] == ranked@[j].0@);
        }
        assert forall|x: Seq<char>| #[trigger] cm.dom().contains(x) implies rv.contains(x) by {
            let q = choose|q: int| 0 <= q < ck.len() && ck[q] == x;
            let j0 = choose|j: int| 0 <= j < ranked@.len() && ranked@[j].0@ == ck[q];
            assert(rv[j0] == x);
        }
        assert forall|j: int, k2: int| 0 <= j < k2 < rv.len() implies scores_before(
            (#[trigger] rv[j], cm[rv[j]].1),
            (#[trigger] rv[k2], cm[rv[k2]].1),
        ) by {
            assert(rv[j] == ranked@[j].0@);
            assert(rv[k2] == ranked@[k2].0@);
            assert(scores_before((ranked@[j].0@, ranked@[j].1), (ranked@[k2].0@, ranked@[k2].1)));
        }
    }
    r
}

/// The (name, value) pairs as a map; a name given twice keeps its last value.
pub open spec fn pairs_map<V>(s: Seq<(String, V)>) -> Map<Seq<char>, V>
    decreases s.len(),
{
    if s.len() == 0 {
        Map::empty()
    } else {
        pairs_map(s.drop_last()).insert(s.last().0@, s.last().1)
    }
}

/// Ranks (name, (position, score)) pairs as a search ranks its matches: every
/// name once, best score first and, among equal scores, by name. A name given
/// twice keeps its last pair.
pub fn rank_by_score(pairs: &Vec<(String, (usize, i64))>) -> (r: Vec<String>)
    ensures
        ranked_by_score(pairs_map(pairs@), strings_view(r@)),
{
    let mut entries: Vec<(String, (usize, i64))> = Vec::new();
    let mut i: usize = 0;
    while i < pairs.len()
        invariant
            i <= pairs@.len(),
            strictly_sorted(key_seq(entries@)),
            entries_map(entries@) == pairs_map(pairs@.take(i as int)),
        decreases pairs@.len() - i,
    {
        assert(pairs@.take(i + 1).drop_last() =~= pairs@.take(i as int));
        map_insert(&mut entries, pairs[i].0.clone(), pairs[i].1);
        i = i + 1;
    }
    assert(pairs@.take(pairs@.len() as int) =~= pairs@);
    rank_sorted(&entries)
}

impl PackageManager {
    pub closed spec fn wf(&self) -> bool {
        &&& strictly_sorted(key_seq(self.available@))
        &&& strictly_sorted(key_seq(self.selected@))
        &&& strictly_sorted(key_seq(self.cached_filtered@))
        &&& self.available_view().dom().disjoint(self.selected_view().dom())
        &&& match self.last_filter {
            Some(f) => self.cache_view() == fuzzy_matches(self.available_view(), f@),
            None => self.cache_view() == Map::<Seq<char>, (usize, i64)>::empty(),
        }
    }

    /// Available packages and their positions.
    pub closed spec fn available_view(&self) -> Map<Seq<char>, usize> {
        entries_map(self.available@)
    }

    /// Selected packages and their positions.
    pub closed spec fn selected_view(&self) -> Map<Seq<char>, usize> {
        entries_map(self.selected@)
    }

    /// The pattern of the last search, if any.
    pub closed spec fn filter_view(&self) -> Option<Seq<char>> {
        match self.last_filter {
            Some(f) => Some(f@),
            None => None,
        }
    }

    /// The matches of the last search: position and score per package.
    pub closed spec fn cache_view(&self) -> Map<Seq<char>, (usize, i64)> {
        entries_map(self.cached_filtered@)
    }

    /// All packages start out available but those pre-selected, which are
    /// selected when the full list holds them; a name listed twice keeps its
    /// last position.
    pub fn new(all_packages: Vec<String>, selected_packages: Vec<String>) -> (r: Self)
        ensures
            r.wf(),
            r.available_view() == last_positions(strings_view(all_packages@)).remove_keys(
                strings_view(selected_packages@).to_set(),
            ),
            r.selected_view() == last_positions(strings_view(all_packages@)).restrict(
                strings_view(selected_packages@).to_set(),
            ),
            r.filter_view().is_none(),
            r.cache_view() == Map::<Seq<char>, (usize, i64)>::empty(),
    {
        let ghost av = strings_view(all_packages@);
        let ghost sv = strings_view(selected_packages@);
        let mut available: Vec<(String, usize)> = Vec::new();
        let mut i: usize = 0;
        while i < all_packages.len()
            invariant
                i <= all_packages@.len(),
                av == strings_view(all_packages@),
                strictly_sorted(key_seq(available@)),
                entries_map(available@) == last_positions(av.take(i as int)),
            decreases all_packages@.len() - i,
        {
            map_insert(&mut available, all_packages[i].clone(), i);
            assert(av.take(i + 1).drop_last() =~= av.take(i as int));
            i = i + 1;
        }
        assert(av.take(all_packages@.len() as int) =~= av);
        let ghost lp = last_positions(av);
        let mut selected: Vec<(String, usize)> = Vec::new();
        assert(lp.remove_keys(sv.take(0).to_set()) =~= lp);
        assert(lp.restrict(sv.take(0).to_set()) =~= Map::<Seq<char>, usize>::empty());
        let mut j: usize = 0;
        while j < selected_packages.len()
            invariant
                j <= selected_packages@.len(),
                sv == strings_view(selected_packages@),
                strictly_sorted(key_seq(available@)),
                strictly_sorted(key_seq(selected@)),
                entries_map(available@) == lp.remove_keys(sv.take(j as int).to_set()),
                entries_map(selected@) == lp.restrict(sv.take(j as int).to_set()),
            decreases selected_packages@.len() - j,
        {
            let name = &selected_packages[j];
            let ghost nv = name@;
            let ghost before = sv.take(j as int).to_set();
            assert(sv.take(j + 1) =~= sv.take(j as int).push(nv));
            proof {
                lemma_push_contains(sv.take(j as int), nv);
            }
            assert(sv.take(j + 1).to_set() =~= before.insert(nv));
            match map_remove(&mut available, name.as_str()) {
                Some(idx) => {
                    map_insert(&mut selected, name.clone(), idx);
                    assert(lp.restrict(before.insert(nv)) =~= lp.restrict(before).insert(nv, idx));
                },
                None => {
                    assert(lp.restrict(before.insert(nv)) =~= lp.restrict(before));
                },
            }
            assert(lp.remove_keys(before.insert(nv)) =~= lp.remove_keys(before).remove(nv));
            j = j + 1;
        }
        assert(sv.take(selected_packages@.len() as int) =~= sv);
        assert(entries_map(available@).dom().disjoint(entries_map(selected@).dom()));
        let r = PackageManager {
            available,
            selected,
            original_order: all_packages,
            last_filter: None,
            cached_filtered: Vec::new(),
        };
        assert(r.cache_view() =~= Map::<Seq<char>, (usize, i64)>::empty());
        r
    }

    /// Moves an available package to the selected ones, dropping it from the
    /// search results; `false`, with nothing changed, when it is not available.
    pub fn move_to_selected(&mut self, package: &str) -> (r: bool)
        requires
            old(self).wf(),
        ensures
            final(self).wf(),
            moved_to_selected(*old(self), *final(self), package@, r),
    {
        let ghost before = *self;
        match map_remove(&mut self.available, package) {
            Some(idx) => {
                map_insert(&mut self.selected, owned(package), idx);
                let _ = map_remove(&mut self.cached_filtered, package);
                proof {
                    match before.last_filter {
                        Some(f) => {
                            assert(self.cache_view() =~= fuzzy_matches(self.available_view(), f@));
                        },
                        None => {
                            assert(self.cache_view() =~= Map::<Seq<char>, (usize, i64)>::empty());
                        },
                    }
                }
                true
            },
            None => {
                assert(self.available_view() =~= before.available_view());
                false
            },
        }
    }

    /// Moves a selected package back to the available ones and, while a search
    /// is active, into its results when it matches; `false`, with nothing
    /// changed, when it is not selected.
    pub fn move_to_available(&mut self, package: &str) -> (r: bool)
        requires
            old(self).wf(),
        ensures
            final(self).wf(),
            moved_to_available(*old(self), *final(self), package@, r),
    {
        match map_remove(&mut self.selected, package) {
            Some(idx) => {
                map_insert(&mut self.available, owned(package), idx);
                match &self.last_filter {
                    Some(f) => match fuzzy_score(package, f.as_str()) {
                        Some(score) => {
                            map_insert(&mut self.cached_filtered, owned(package), (idx, score));
                            assert(self.cache_view() =~= fuzzy_matches(self.available_view(), f@));
                        },
                        None => {
                            assert(self.cache_view() =~= fuzzy_matches(self.available_view(), f@));
                        },
                    },
                    None => {},
                }
                true
            },
            None => false,
        }
    }

    /// The available packages, by name.
    pub fn get_available_packages(&self) -> (r: Vec<String>)
        requires
            self.wf(),
        ensures
            strictly_sorted(strings_view(r@)),
            strings_view(r@).to_set() == self.available_view().dom(),
    {
        let r = map_keys(&self.available);
        assert(strings_view(r@).to_set() =~= self.available_view().dom());
        r
    }

    /// The selected packages, by name.
    pub fn get_selected_packages(&self) -> (r: Vec<String>)
        requires
            self.wf(),
        ensures
            strictly_sorted(strings_view(r@)),
            strings_view(r@).to_set() == self.selected_view().dom(),
    {
        let r = map_keys(&self.selected);
        assert(strings_view(r@).to_set() =~= self.selected_view().dom());
        r
    }

    /// Searches the available packages; the results of the last search are
    /// reused when the pattern is the same.
    pub fn get_available_filtered(&mut self, filter: &str) -> (r: Vec<String>)
        requires
            old(self).wf(),
        ensures
            final(self).wf(),
            final(self).filter_view() == Some(filter@),
            final(self).available_view() == old(self).available_view(),
            final(self).selected_view() == old(self).selected_view(),
            old(self).filter_view() == Some(filter@) ==> final(self).cache_view() == old(self).cache_view(),
            final(self).cache_view() == fuzzy_matches(old(self).available_view(), filter@),
            ranked_by_score(final(self).cache_view(), strings_view(r@)),
    {
        match &self.last_filter {
            Some(lf) => {
                if str_eq(lf.as_str(), filter) {
                    return self.get_sorted_by_score_from_cache();
                }
            },
            None => {},
        }
        let ghost am = entries_map(self.available@);
        let ghost ak = key_seq(self.available@);
        let mut found: Vec<(String, (usize, i64))> = Vec::new();
        let mut i: usize = 0;
        while i < self.available.len()
            invariant
                i <= self.available@.len(),
                self.wf(),
                am == entries_map(self.available@),
                ak == key_seq(self.available@),
                strictly_sorted(key_seq(found@)),
                entries_map(found@) == Map::new(
                    |k: Seq<char>| ak.take(i as int).contains(k) && skim_fuzzy_score(k, filter@) is Some,
                    |k: Seq<char>| (am[k], skim_fuzzy_score(k, filter@)->0),
                ),
            decreases self.available@.len() - i,
        {
            proof {
                lemma_key_index(self.available@, i as int);
            }
            let ghost before = entries_map(found@);
            let name = &self.available[i].0;
            let idx = self.available[i].1;
            let ghost kv = name@;
            assert(ak.take(i + 1) =~= ak.take(i as int).push(kv));
            proof {
                lemma_push_contains(ak.take(i as int), kv);
            }
            match fuzzy_score(name.as_str(), filter) {
                Some(score) => {
                    map_insert(&mut found, name.clone(), (idx, score));
                    assert(entries_map(found@) =~= Map::new(
                        |k: Seq<char>| ak.take(i + 1).contains(k) && skim_fuzzy_score(k, filter@) is Some,
                        |k: Seq<char>| (am[k], skim_fuzzy_score(k, filter@)->0),
                    ));
                },
                None => {
                    assert(entries_map(found@) =~= Map::new(
                        |k: Seq<char>| ak.take(i + 1).contains(k) && skim_fuzzy_score(k, filter@) is Some,
                        |k: Seq<char>| (am[k], skim_fuzzy_score(k, filter@)->0),
                    ));
                },
            }
            i = i + 1;
        }
        assert(ak.take(self.available@.len() as int) =~= ak);
        assert(entries_map(found@) =~= fuzzy_matches(am, filter@));
        self.last_filter = Some(owned(filter));
        self.cached_filtered = found;
        self.get_sorted_by_score_from_cache()
    }

    /// The matches of the last search, best score first and, among equal
    /// scores, by name.
    pub fn get_sorted_by_score_from_cache(&self) -> (r: Vec<String>)
        requires
            self.wf(),
        ensures
            ranked_by_score(self.cache_view(), strings_view(r@)),
    {
        rank_sorted(&self.cached_filtered)
    }

    pub fn contains_available(&self, package: &str) -> (r: bool)
        requires
            self.wf(),
        ensures
            r == self.available_view().dom().contains(package@),
    {
        map_get(&self.available, package).is_some()
    }

    pub fn contains_selected(&self, package: &str) -> (r: bool)
        requires
            self.wf(),
        ensures
            r == self.selected_view().dom().contains(package@),
    {
        map_get(&self.selected, package).is_some()
    }

    /// The results of the active search, or every available package when no
    /// search has been made.
    pub fn get_current_available(&self) -> (r: Vec<String>)
        requires
            self.wf(),
        ensures
            self.filter_view() is Some ==> ranked_by_score(self.cache_view(), strings_view(r@)),
            self.filter_view() matches Some(f) ==> ranked_by_score(
                fuzzy_matches(self.available_view(), f),
                strings_view(r@),
            ),
            self.filter_view() is None ==> strictly_sorted(strings_view(r@)) && strings_view(r@).to_set()
                == self.available_view().dom(),
    {
        if self.last_filter.is_some() {
            self.get_sorted_by_score_from_cache()
        } else {
            self.get_available_packages()
        }
    }
}

} // verus!
